//! Repository status aggregation for a shell prompt.
//!
//! The crate decides what a one-line repository status summary should say:
//! how the current head is labelled, how far a branch has diverged from its
//! upstream, how the working tree's entries are counted into categories,
//! whether a background fetch of the upstream is due, and how the collected
//! facts are assembled into the final line.  All queries against the
//! repository itself (refs, diffs, the commit graph, the network) are the
//! business of a surrounding program, which hands their results in as plain
//! values and carries the decisions out.

use vstd::prelude::*;

pub mod divergence;
pub mod format;
pub mod head;
pub mod stash;
pub mod status;
pub mod text;
pub mod throttle;

use crate::divergence::DivergenceQuery;
use crate::divergence::divergence_info;
use crate::divergence::spec_divergence;
use crate::format::Segment;
use crate::format::format_line;
use crate::format::format_segments;
use crate::format::seg_views;
use crate::format::spec_line;
use crate::format::spec_segments;
use crate::head::HeadQuery;
use crate::head::ProviderState;
use crate::head::decorate_label;
use crate::head::phase_of;
use crate::head::resolve_head_label;
use crate::head::spec_decorated_label;
use crate::head::spec_phase;
use crate::head::spec_resolved_label;
use crate::stash::spec_stash_count;
use crate::stash::stash_count;
use crate::status::CHANGED_MASK;
use crate::status::CONFLICTED_MASK;
use crate::status::STAGED_MASK;
use crate::status::UNTRACKED_MASK;
use crate::status::classify_statuses;
use crate::status::count_matching;
use crate::status::lemma_count_matching_le_len;

verus! {

/// How many working-tree entries fall into each status category.
///
/// The categories are counted independently: one entry may contribute to
/// several counters when its status sets bits of several categories.
#[derive(Clone, Copy, Debug, PartialEq, Eq, Structural)]
pub struct StatusCounts {
    pub untracked: usize,
    pub changed: usize,
    pub staged: usize,
    pub conflicted: usize,
}

/// How the current branch relates to its configured upstream.
///
/// `is_local_only` is set exactly when the branch exists but has no
/// upstream configured; `ahead` and `behind` are the commit-graph distances
/// on each side of the merge base, as the graph query reported them.
#[derive(Clone, Copy, Debug, PartialEq, Eq, Structural)]
pub struct DivergenceInfo {
    pub is_local_only: bool,
    pub ahead: usize,
    pub behind: usize,
}

/// The status counts a report classifies to, as a spec-level value.
pub open spec fn spec_classified(entries: Seq<u32>) -> StatusCounts {
    StatusCounts {
        untracked: count_matching(entries, UNTRACKED_MASK) as usize,
        changed: count_matching(entries, CHANGED_MASK) as usize,
        staged: count_matching(entries, STAGED_MASK) as usize,
        conflicted: count_matching(entries, CONFLICTED_MASK) as usize,
    }
}

/// The text of the whole status line, from the raw query outcomes: the
/// resolved head label with its phase marker, the divergence report, the
/// classified counts and the stash count, assembled in order.
pub open spec fn spec_status_line(
    head: HeadQuery,
    state: ProviderState,
    dq: DivergenceQuery,
    entries: Seq<u32>,
    stash_enum: Option<Seq<Seq<char>>>,
) -> Seq<char> {
    spec_line(
        spec_decorated_label(spec_resolved_label(head), spec_phase(state)),
        spec_divergence(dq),
        spec_classified(entries),
        spec_stash_count(stash_enum) as usize,
    )
}

/// Aggregate one run's query outcomes into the plain status line.
pub fn status_line(
    head: &HeadQuery,
    state: &ProviderState,
    dq: &DivergenceQuery,
    entries: &Vec<u32>,
    stash_enum: &Option<Vec<String>>,
) -> (r: String)
    ensures
        r@ == spec_status_line(*head, *state, *dq, entries@, stash_enum.deep_view()),
{
    proof {
        lemma_count_matching_le_len(entries@, UNTRACKED_MASK);
        lemma_count_matching_le_len(entries@, CHANGED_MASK);
        lemma_count_matching_le_len(entries@, STAGED_MASK);
        lemma_count_matching_le_len(entries@, CONFLICTED_MASK);
    }
    let label = decorate_label(resolve_head_label(head), &phase_of(state));
    let div = divergence_info(dq);
    let counts = classify_statuses(entries);
    let stash = stash_count(stash_enum);
    format_line(label.as_str(), &div, &counts, stash)
}

/// Aggregate one run's query outcomes into the styled segments of the
/// status line; their texts in order are exactly the plain line.
pub fn status_segments(
    head: &HeadQuery,
    state: &ProviderState,
    dq: &DivergenceQuery,
    entries: &Vec<u32>,
    stash_enum: &Option<Vec<String>>,
) -> (r: Vec<Segment>)
    ensures
        seg_views(r@) == spec_segments(
            spec_decorated_label(spec_resolved_label(*head), spec_phase(*state)),
            spec_divergence(*dq),
            spec_classified(entries@),
            spec_stash_count(stash_enum.deep_view()) as usize,
        ),
        crate::format::views_text(seg_views(r@)) == spec_status_line(
            *head,
            *state,
            *dq,
            entries@,
            stash_enum.deep_view(),
        ),
{
    proof {
        lemma_count_matching_le_len(entries@, UNTRACKED_MASK);
        lemma_count_matching_le_len(entries@, CHANGED_MASK);
        lemma_count_matching_le_len(entries@, STAGED_MASK);
        lemma_count_matching_le_len(entries@, CONFLICTED_MASK);
    }
    let label = decorate_label(resolve_head_label(head), &phase_of(state));
    let div = divergence_info(dq);
    let counts = classify_statuses(entries);
    let stash = stash_count(stash_enum);
    format_segments(label.as_str(), &div, &counts, stash)
}

} // verus!
