//! Deciding what the prompt reports about branch-vs-upstream divergence.
//!
//! The surrounding program walks the provider's queries (current head,
//! configured upstream, the two tip commits, the graph distance) and
//! records how far it got as a [`DivergenceQuery`]; the decision table
//! here turns that into the reported [`DivergenceInfo`].  Every failure
//! degrades silently to zero distances, and only a missing upstream is
//! reported as a local-only branch.

use vstd::prelude::*;
use crate::DivergenceInfo;

verus! {

/// How far the provider queries for divergence got.
pub enum DivergenceQuery {
    /// The current head could not be resolved.
    NoHead,
    /// The head is not a branch, so divergence is meaningless.
    DetachedHead,
    /// The branch has no configured upstream.
    NoUpstream,
    /// The branch or its upstream has no resolvable tip commit.
    TipUnresolved,
    /// Both tips resolved to the same commit, so the graph distance is
    /// zero on both sides and no graph query is needed.
    SameTip,
    /// The provider counted the commits on each side of the merge base.
    Counted { ahead: usize, behind: usize },
    /// The graph-distance query itself failed.
    CountFailed,
}

/// The divergence reported for each query outcome: a missing upstream is
/// the one local-only case; a successful count is passed through; every
/// other outcome degrades to zero distances.
pub open spec fn spec_divergence(q: DivergenceQuery) -> DivergenceInfo {
    match q {
        DivergenceQuery::NoUpstream => DivergenceInfo {
            is_local_only: true,
            ahead: 0,
            behind: 0,
        },
        DivergenceQuery::Counted { ahead, behind } => DivergenceInfo {
            is_local_only: false,
            ahead,
            behind,
        },
        _ => DivergenceInfo { is_local_only: false, ahead: 0, behind: 0 },
    }
}

/// Decide the reported divergence for a query outcome.
pub fn divergence_info(q: &DivergenceQuery) -> (r: DivergenceInfo)
    ensures
        r == spec_divergence(*q),
        r.is_local_only <==> q is NoUpstream,
{
    match q {
        DivergenceQuery::NoUpstream => DivergenceInfo { is_local_only: true, ahead: 0, behind: 0 },
        DivergenceQuery::Counted { ahead, behind } => DivergenceInfo {
            is_local_only: false,
            ahead: *ahead,
            behind: *behind,
        },
        _ => DivergenceInfo { is_local_only: false, ahead: 0, behind: 0 },
    }
}

/// How the two tip commits compare, when both are known.
#[derive(Clone, Copy, Debug, PartialEq, Eq, Structural)]
pub enum TipsOutcome {
    /// At least one tip is missing.
    Unresolved,
    /// Both tips name the same commit.
    Same,
    /// The tips name distinct commits.
    Distinct,
}

/// Compare the branch tip and the upstream tip, each given as the
/// commit's hex name when it resolved.
pub fn classify_tips(branch_tip: &Option<String>, upstream_tip: &Option<String>) -> (r:
    TipsOutcome)
    ensures
        r is Unresolved <==> (branch_tip is None || upstream_tip is None),
        (branch_tip is Some && upstream_tip is Some) ==> (r is Same <==> branch_tip->Some_0@
            == upstream_tip->Some_0@),
        (branch_tip is Some && upstream_tip is Some) ==> (r is Distinct <==> branch_tip->Some_0@
            != upstream_tip->Some_0@),
{
    match (branch_tip, upstream_tip) {
        (Some(b), Some(u)) => {
            if *b == *u {
                TipsOutcome::Same
            } else {
                TipsOutcome::Distinct
            }
        },
        _ => TipsOutcome::Unresolved,
    }
}

/// A branch with no upstream is reported local-only with both distances
/// zero; a branch whose tip is its upstream's tip is reported with both
/// distances zero and not local-only.
pub proof fn lemma_divergence_zero_cases()
    ensures
        spec_divergence(DivergenceQuery::NoUpstream) == (DivergenceInfo {
            is_local_only: true,
            ahead: 0,
            behind: 0,
        }),
        spec_divergence(DivergenceQuery::SameTip) == (DivergenceInfo {
            is_local_only: false,
            ahead: 0,
            behind: 0,
        }),
{
}

/// Swapping the provider's two counts swaps what is reported as ahead and
/// behind: the aggregator preserves the graph query's swap symmetry, under
/// which the commits ahead of one tip are the commits behind the other.
pub proof fn lemma_divergence_swap(a: usize, b: usize)
    ensures
        spec_divergence(DivergenceQuery::Counted { ahead: a, behind: b }).ahead == spec_divergence(
            DivergenceQuery::Counted { ahead: b, behind: a },
        ).behind,
        spec_divergence(DivergenceQuery::Counted { ahead: a, behind: b }).behind
            == spec_divergence(DivergenceQuery::Counted { ahead: b, behind: a }).ahead,
{
}

} // verus!
