//! Deciding whether, and how, the background fetch runs.
//!
//! The fetch of the upstream's remote-tracking ref is opportunistic and
//! throttled: it is planned only when the head is a branch with a name,
//! the last-fetch marker is absent or old enough, and an upstream remote
//! and ref are configured.  The plan names the one remote and the one ref
//! to fetch; the surrounding program performs the fetch and swallows any
//! failure.  The credential policy is decided here as well.

use vstd::prelude::*;
use crate::text::last_segment;
use crate::text::spec_last_segment;

verus! {

/// The throttle window: no second fetch within fifteen minutes.
pub const THROTTLE_WINDOW_SECS: u64 = 900;

/// What the last-fetch marker file looked like.
pub enum MarkerState {
    /// No marker: no fetch recorded yet.
    Absent,
    /// The marker was last written this many seconds ago.
    AgeSecs(u64),
    /// The marker exists but its modification time could not be read, or
    /// lies in the future.
    TimeUnreadable,
}

/// Whether the marker permits a fetch: it does when it is absent, or when
/// its age has reached the throttle window.
pub open spec fn spec_marker_allows(m: MarkerState) -> bool {
    match m {
        MarkerState::Absent => true,
        MarkerState::AgeSecs(age) => age >= THROTTLE_WINDOW_SECS,
        MarkerState::TimeUnreadable => false,
    }
}

/// How the provider reported the current head, as far as the fetch cares.
pub enum HeadRef {
    /// The head query failed.
    Unresolved,
    /// The head is not a branch.
    NotBranch,
    /// The head is a branch; `refname` is the branch's full ref name, or
    /// nothing when the provider could not render one.
    Branch { refname: Option<String> },
}

/// The one fetch the throttler may order: one ref from one remote.
pub struct FetchPlan {
    /// The name of the remote the upstream lives on.
    pub remote_name: String,
    /// The short name of the upstream ref to fetch: the last
    /// `/`-separated segment of the upstream's full ref name.
    pub refspec: String,
}

/// All the preconditions of a fetch: the head is a branch with a ref
/// name, the marker allows it, and an upstream remote and ref are
/// configured.
pub open spec fn spec_fetch_due(
    head: HeadRef,
    marker: MarkerState,
    upstream_remote: Option<String>,
    upstream_ref: Option<String>,
) -> bool {
    &&& head matches HeadRef::Branch { refname: Some(_) }
    &&& spec_marker_allows(marker)
    &&& upstream_remote is Some
    &&& upstream_ref is Some
}

/// Decide whether a fetch is due and, when it is, of what.
///
/// A plan comes back exactly when every precondition holds; the plan
/// names the configured remote and the last `/`-separated segment of the
/// upstream's full ref name.
pub fn plan_fetch(
    head: &HeadRef,
    marker: &MarkerState,
    upstream_remote: &Option<String>,
    upstream_ref: &Option<String>,
) -> (r: Option<FetchPlan>)
    ensures
        r is Some <==> spec_fetch_due(*head, *marker, *upstream_remote, *upstream_ref),
        r matches Some(plan) ==> {
            &&& plan.remote_name@ == upstream_remote->Some_0@
            &&& plan.refspec@ == spec_last_segment(upstream_ref->Some_0@)
        },
{
    let refname_known = match head {
        HeadRef::Branch { refname: Some(_) } => true,
        _ => false,
    };
    if !refname_known {
        return None;
    }
    let allowed = match marker {
        MarkerState::Absent => true,
        MarkerState::AgeSecs(age) => *age >= THROTTLE_WINDOW_SECS,
        MarkerState::TimeUnreadable => false,
    };
    if !allowed {
        return None;
    }
    match (upstream_remote, upstream_ref) {
        (Some(remote), Some(full_ref)) => {
            let refspec = last_segment(full_ref.as_str());
            Some(FetchPlan { remote_name: remote.clone(), refspec })
        },
        _ => None,
    }
}

/// How the fetch authenticates.
pub enum CredentialChoice {
    /// Ask the local key agent for a key for this user.
    KeyFromAgent { username: String },
    /// Fall back to the provider's default credential strategy.
    ProviderDefault,
}

/// The credential policy: when the transport supplies a username, keys
/// from the local agent are tried for it; otherwise the provider's
/// default strategy is used.  Nothing ever prompts.
pub fn choose_credentials(username: &Option<String>) -> (r: CredentialChoice)
    ensures
        username matches Some(u) ==> r matches CredentialChoice::KeyFromAgent { username: c }
            && c@ == u@,
        username is None ==> r is ProviderDefault,
{
    match username {
        Some(u) => CredentialChoice::KeyFromAgent { username: u.clone() },
        None => CredentialChoice::ProviderDefault,
    }
}

/// The fetch is due exactly when every one of its preconditions holds:
/// one false condition alone forbids it.
pub proof fn lemma_fetch_iff(
    head: HeadRef,
    marker: MarkerState,
    upstream_remote: Option<String>,
    upstream_ref: Option<String>,
)
    ensures
        !(head matches HeadRef::Branch { refname: Some(_) }) ==> !spec_fetch_due(
            head,
            marker,
            upstream_remote,
            upstream_ref,
        ),
        !spec_marker_allows(marker) ==> !spec_fetch_due(
            head,
            marker,
            upstream_remote,
            upstream_ref,
        ),
        upstream_remote is None ==> !spec_fetch_due(head, marker, upstream_remote, upstream_ref),
        upstream_ref is None ==> !spec_fetch_due(head, marker, upstream_remote, upstream_ref),
{
}

} // verus!
