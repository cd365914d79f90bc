//! Classifying working-tree entries into status categories.
//!
//! A status report is a sequence of bitmasks, one per reported path, using
//! the provider's per-path status bits.  A path belongs to a category when
//! its bitmask intersects the category's mask; the four categories are
//! tested independently of one another, so one path may be counted in more
//! than one category.

use vstd::prelude::*;
use crate::StatusCounts;

verus! {

/// Path status bit: the path exists only in the working tree.
pub const STATUS_WT_NEW: u32 = 0x0080;

/// Path status bit: the working-tree file was modified relative to the index.
pub const STATUS_WT_MODIFIED: u32 = 0x0100;

/// Path status bit: the working-tree file was deleted relative to the index.
pub const STATUS_WT_DELETED: u32 = 0x0200;

/// Path status bit: the working-tree file changed type relative to the index.
pub const STATUS_WT_TYPECHANGE: u32 = 0x0400;

/// Path status bit: the working-tree file was renamed relative to the index.
pub const STATUS_WT_RENAMED: u32 = 0x0800;

/// Path status bit: the path is new in the index relative to the head.
pub const STATUS_INDEX_NEW: u32 = 0x0001;

/// Path status bit: the path is modified in the index relative to the head.
pub const STATUS_INDEX_MODIFIED: u32 = 0x0002;

/// Path status bit: the path is renamed in the index relative to the head.
pub const STATUS_INDEX_RENAMED: u32 = 0x0008;

/// Path status bit: the path changed type in the index relative to the head.
pub const STATUS_INDEX_TYPECHANGE: u32 = 0x0010;

/// Path status bit: the path carries an unresolved merge conflict.
pub const STATUS_CONFLICTED: u32 = 0x8000;

/// Category mask for untracked paths.
pub const UNTRACKED_MASK: u32 = STATUS_WT_NEW;

/// Category mask for paths changed in the working tree.
pub const CHANGED_MASK: u32 = STATUS_WT_DELETED | STATUS_WT_MODIFIED | STATUS_WT_RENAMED
    | STATUS_WT_TYPECHANGE;

/// Category mask for paths staged in the index.
pub const STAGED_MASK: u32 = STATUS_INDEX_MODIFIED | STATUS_INDEX_NEW | STATUS_INDEX_RENAMED
    | STATUS_INDEX_TYPECHANGE;

/// Category mask for conflicted paths.
pub const CONFLICTED_MASK: u32 = STATUS_CONFLICTED;

/// The number of entries whose status bits intersect `mask`.
pub open spec fn count_matching(entries: Seq<u32>, mask: u32) -> int
    decreases entries.len(),
{
    if entries.len() == 0 {
        0
    } else {
        count_matching(entries.drop_last(), mask) + if entries.last() & mask != 0 {
            1int
        } else {
            0int
        }
    }
}

/// A category's count never exceeds the number of reported entries.
pub proof fn lemma_count_matching_le_len(entries: Seq<u32>, mask: u32)
    ensures
        0 <= count_matching(entries, mask) <= entries.len(),
    decreases entries.len(),
{
    if entries.len() > 0 {
        lemma_count_matching_le_len(entries.drop_last(), mask);
    }
}

/// Whether an entry's status bits intersect `mask`.
pub open spec fn matches_mask(mask: u32) -> spec_fn(u32) -> bool {
    |e: u32| e & mask != 0
}

/// What the count counts: each category's count is exactly the length of
/// the subsequence of reported entries whose status bits intersect the
/// category's mask, each entry tested against the mask on its own.
pub proof fn lemma_count_matching_is_filter(entries: Seq<u32>, mask: u32)
    ensures
        count_matching(entries, mask) == entries.filter(matches_mask(mask)).len(),
    decreases entries.len(),
{
    reveal(Seq::filter);
    if entries.len() > 0 {
        lemma_count_matching_is_filter(entries.drop_last(), mask);
        assert(matches_mask(mask)(entries.last()) == (entries.last() & mask != 0));
    }
}

/// Count the reported entries whose status bits intersect `mask`.
pub fn count_by_status(entries: &Vec<u32>, mask: u32) -> (count: usize)
    ensures
        count == count_matching(entries@, mask),
{
    let mut count: usize = 0;
    let mut i: usize = 0;
    while i < entries.len()
        invariant
            i <= entries@.len(),
            count == count_matching(entries@.take(i as int), mask),
            count <= i,
        decreases entries@.len() - i,
    {
        proof {
            assert(entries@.take(i + 1 as int).drop_last() =~= entries@.take(i as int));
            assert(entries@.take(i + 1 as int).last() == entries@[i as int]);
        }
        if entries[i] & mask != 0 {
            count = count + 1;
        }
        i = i + 1;
    }
    proof {
        assert(entries@.take(entries@.len() as int) =~= entries@);
    }
    count
}

/// Classify a full status report into the four category counts.
///
/// Each field of the result equals the number of reported entries whose
/// status bits intersect that category's mask; the four counts are taken
/// independently, so one entry may be counted in several of them.
pub fn classify_statuses(entries: &Vec<u32>) -> (counts: StatusCounts)
    ensures
        counts.untracked == count_matching(entries@, UNTRACKED_MASK),
        counts.changed == count_matching(entries@, CHANGED_MASK),
        counts.staged == count_matching(entries@, STAGED_MASK),
        counts.conflicted == count_matching(entries@, CONFLICTED_MASK),
{
    StatusCounts {
        untracked: count_by_status(entries, UNTRACKED_MASK),
        changed: count_by_status(entries, CHANGED_MASK),
        staged: count_by_status(entries, STAGED_MASK),
        conflicted: count_by_status(entries, CONFLICTED_MASK),
    }
}

} // verus!
