//! Resolving the label under which the current head is shown.
//!
//! The surrounding program queries the provider for the current head and
//! hands the outcome in as a [`HeadQuery`]; the functions here decide what
//! label the prompt shows for it, including the fallback for a branch with
//! no commits yet and the `<unknown>` placeholder when nothing resolved.

use vstd::prelude::*;
use crate::text::spec_head_file_label;
use crate::text::head_file_label;

verus! {

/// The provider's answer to the current-head query, reduced to the facts
/// the label decision needs.
pub enum HeadQuery {
    /// The head points at a branch; `shorthand` is the branch's short name,
    /// or nothing when the provider could not render one.
    Branch { shorthand: Option<String> },
    /// The head is detached; `oid_hex` is the full lowercase hex of the
    /// commit it points at, or nothing when the head has no target.
    Detached { oid_hex: Option<String> },
    /// The branch has no commits yet; `head_file` is the raw content of the
    /// repository's head pointer file, or nothing when it was unreadable.
    Unborn { head_file: Option<String> },
    /// The head query failed for any other reason.
    Failed,
}

/// The operation the repository is in the middle of, as far as the label
/// cares: merging and rebasing are called out, everything else is normal.
#[derive(Clone, Copy, Debug, PartialEq, Eq, Structural)]
pub enum RepoPhase {
    Normal,
    Merging,
    Rebasing,
}

/// The provider's repository-state answer, one variant per reported state.
#[derive(Clone, Copy, Debug, PartialEq, Eq, Structural)]
pub enum ProviderState {
    Clean,
    Merge,
    Revert,
    RevertSequence,
    CherryPick,
    CherryPickSequence,
    Bisect,
    Rebase,
    RebaseInteractive,
    RebaseMerge,
    ApplyMailbox,
    ApplyMailboxOrRebase,
}

/// Which phase a reported repository state maps to: a merge, and a merge
/// interrupted by rebase conflicts, read as merging; both rebase flavours
/// read as rebasing; everything else is normal.
pub open spec fn spec_phase(s: ProviderState) -> RepoPhase {
    match s {
        ProviderState::Merge => RepoPhase::Merging,
        ProviderState::RebaseMerge => RepoPhase::Merging,
        ProviderState::Rebase => RepoPhase::Rebasing,
        ProviderState::RebaseInteractive => RepoPhase::Rebasing,
        _ => RepoPhase::Normal,
    }
}

/// Map the provider's repository state to the phase shown in the label.
pub fn phase_of(s: &ProviderState) -> (phase: RepoPhase)
    ensures
        phase == spec_phase(*s),
{
    match s {
        ProviderState::Merge => RepoPhase::Merging,
        ProviderState::RebaseMerge => RepoPhase::Merging,
        ProviderState::Rebase => RepoPhase::Rebasing,
        ProviderState::RebaseInteractive => RepoPhase::Rebasing,
        _ => RepoPhase::Normal,
    }
}

/// The label for a detached head: `:` followed by the first seven
/// characters of the commit hash (all of it when shorter).
pub open spec fn spec_detached_label(oid: Seq<char>) -> Seq<char> {
    seq![':'] + if oid.len() <= 7 {
        oid
    } else {
        oid.take(7)
    }
}

/// The label each head query yields, when it yields one:
/// a branch shows its short name; a detached head shows an abbreviated
/// hash; an unborn branch falls back to the raw head pointer file.
pub open spec fn spec_head_label(q: HeadQuery) -> Option<Seq<char>> {
    match q {
        HeadQuery::Branch { shorthand } => match shorthand {
            Some(name) => Some(name@),
            None => None,
        },
        HeadQuery::Detached { oid_hex } => match oid_hex {
            Some(oid) => Some(spec_detached_label(oid@)),
            None => None,
        },
        HeadQuery::Unborn { head_file } => match head_file {
            Some(content) => if content@.len() > 0 {
                Some(spec_head_file_label(content@))
            } else {
                None
            },
            None => None,
        },
        HeadQuery::Failed => None,
    }
}

/// Decide the head label, or nothing when the query left nothing usable.
pub fn head_label(q: &HeadQuery) -> (r: Option<String>)
    ensures
        r.deep_view() == spec_head_label(*q),
{
    match q {
        HeadQuery::Branch { shorthand } => match shorthand {
            Some(name) => Some(name.clone()),
            None => None,
        },
        HeadQuery::Detached { oid_hex } => match oid_hex {
            Some(oid) => {
                let n = oid.as_str().unicode_len();
                let cut = if n <= 7 {
                    n
                } else {
                    7
                };
                let short = oid.as_str().substring_char(0, cut);
                let label = String::from_str(":").concat(short);
                proof {
                    reveal_strlit(":");
                    assert(label@ =~= spec_detached_label(oid@));
                }
                Some(label)
            },
            None => None,
        },
        HeadQuery::Unborn { head_file } => match head_file {
            Some(content) => head_file_label(content.as_str()),
            None => None,
        },
        HeadQuery::Failed => None,
    }
}

/// The label shown when nothing resolved.
pub open spec fn spec_unknown_label() -> Seq<char> {
    "<unknown>"@
}

/// The head label, with the placeholder filled in when the query yielded
/// none.
pub open spec fn spec_resolved_label(q: HeadQuery) -> Seq<char> {
    match spec_head_label(q) {
        Some(l) => l,
        None => spec_unknown_label(),
    }
}

/// Decide the head label, degrading to the `<unknown>` placeholder.
pub fn resolve_head_label(q: &HeadQuery) -> (r: String)
    ensures
        r@ == spec_resolved_label(*q),
{
    match head_label(q) {
        Some(l) => l,
        None => String::from_str("<unknown>"),
    }
}

/// The label decorated with the repository phase: `|MERGING` or
/// `|REBASING` is appended when the repository is mid-merge or mid-rebase.
pub open spec fn spec_decorated_label(label: Seq<char>, phase: RepoPhase) -> Seq<char> {
    match phase {
        RepoPhase::Normal => label,
        RepoPhase::Merging => label + "|MERGING"@,
        RepoPhase::Rebasing => label + "|REBASING"@,
    }
}

/// Append the phase marker to a head label.
pub fn decorate_label(label: String, phase: &RepoPhase) -> (r: String)
    ensures
        r@ == spec_decorated_label(label@, *phase),
{
    match phase {
        RepoPhase::Normal => label,
        RepoPhase::Merging => label.concat("|MERGING"),
        RepoPhase::Rebasing => label.concat("|REBASING"),
    }
}

} // verus!
