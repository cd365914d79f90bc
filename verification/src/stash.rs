//! Counting stash entries.
//!
//! Enumeration order is irrelevant; only the cardinality matters, and a
//! repository whose stash store is missing or unreadable counts as having
//! no stashes rather than failing.

use vstd::prelude::*;

verus! {

/// The number of stash entries a report stands for: the number of
/// enumerated entries, or zero when the enumeration was not available.
pub open spec fn spec_stash_count(enumeration: Option<Seq<Seq<char>>>) -> int {
    match enumeration {
        Some(entries) => entries.len() as int,
        None => 0,
    }
}

/// Count the stash entries in an enumeration, given as one message per
/// entry; a missing enumeration counts as empty.
pub fn stash_count(enumeration: &Option<Vec<String>>) -> (count: usize)
    ensures
        count == spec_stash_count(enumeration.deep_view()),
{
    match enumeration {
        Some(entries) => entries.len(),
        None => 0,
    }
}

} // verus!
