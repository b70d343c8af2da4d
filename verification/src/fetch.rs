//! Fetch planning: whether a refresh cycle contacts the remote source at
//! all, and with which validator token.
//!
//! A cycle that was not forced is skipped entirely while the last completed
//! check is younger than the check interval; a forced cycle bypasses both
//! the interval guard and the validator token. The network call itself is
//! not made here: the caller performs the conditional GET that the returned
//! plan describes and hands the outcome back as a `FetchEvent`.

use vstd::prelude::*;
use crate::store::Store;

verus! {

/// How long a completed check suppresses further non-forced checks.
pub const CHECK_INTERVAL_SECS: u64 = 86400;

/// The response status that carries a new payload.
pub const STATUS_OK: u16 = 200;

/// The response status that confirms the artifact is current.
pub const STATUS_NOT_MODIFIED: u16 = 304;

/// Whether the last completed check is younger than the check interval.
pub open spec fn spec_checked_recently(last_checked: Option<u64>, now: u64) -> bool {
    last_checked matches Some(t) && now < t + CHECK_INTERVAL_SECS
}

/// What one fetch attempt came back with: a response with its status, the
/// entity tag of its headers and its body, or a failure below the protocol
/// (resolution, connection, TLS, timeout).
pub enum FetchEvent {
    Response { status: u16, etag: Option<String>, body: Vec<u8> },
    NetworkError,
}

/// What a triggered refresh cycle should do before any network is touched.
pub enum CyclePlan {
    /// No remote source is configured but an artifact exists: keep serving it.
    ServeExisting,
    /// No remote source is configured and nothing is on disk: the process
    /// cannot come up.
    FatalNoSource,
    /// A non-forced cycle found the last check younger than the interval:
    /// do not contact the network at all.
    SkipRecentlyChecked,
    /// Contact the remote source, carrying this validator token (`None`
    /// for an unconditional request).
    Fetch(Option<String>),
}

/// Decide what a triggered cycle does: serve or fail without a configured
/// source, skip a non-forced cycle checked recently, and otherwise fetch —
/// conditionally on the stored validator token unless forced.
pub fn plan_cycle(store: &Store, has_url: bool, force: bool, now: u64) -> (r: CyclePlan)
    ensures
        !has_url && store.artifact is Some ==> r is ServeExisting,
        !has_url && store.artifact is None ==> r is FatalNoSource,
        has_url && !force && store.artifact is Some && spec_checked_recently(store.last_checked,
            now) ==> r is SkipRecentlyChecked,
        has_url && (force || store.artifact is None || !spec_checked_recently(store.last_checked,
            now)) ==> {
            &&& r matches CyclePlan::Fetch(token)
            &&& !force && store.artifact is Some ==> token == store.etag
            &&& force || store.artifact is None ==> token is None
        },
{
    if !has_url {
        if store.artifact.is_some() {
            return CyclePlan::ServeExisting;
        }
        return CyclePlan::FatalNoSource;
    }
    let has_artifact = store.artifact.is_some();
    if !force && has_artifact && checked_recently(&store.last_checked, now) {
        return CyclePlan::SkipRecentlyChecked;
    }
    if !force && has_artifact {
        let token = match &store.etag {
            Some(t) => Some(t.clone()),
            None => None,
        };
        CyclePlan::Fetch(token)
    } else {
        CyclePlan::Fetch(None)
    }
}

/// Whether the last completed check is younger than the check interval.
fn checked_recently(last_checked: &Option<u64>, now: u64) -> (r: bool)
    ensures
        r == spec_checked_recently(*last_checked, now),
{
    match last_checked {
        Some(t) => {
            let t = *t;
            t >= now || now - t < CHECK_INTERVAL_SECS
        },
        None => false,
    }
}

} // verus!
