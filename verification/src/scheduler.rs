//! The refresh cycle: turn one fetch outcome into the next persisted state,
//! and the busy flag that keeps at most one cycle in flight.
//!
//! Availability is preferred over freshness: any failure — an unexpected
//! status, a network error, a body that hides no database, a candidate that
//! fails validation — leaves the persisted state untouched, and is fatal
//! only when there is no existing artifact to keep serving.

use vstd::prelude::*;
use crate::archive::{ExtractError, MAX_LAYERS, extract, spec_extract};
use crate::database::{Handle, mmdb_open_of};
use crate::fetch::{FetchEvent, STATUS_NOT_MODIFIED, STATUS_OK};
use crate::store::{InstallOutcome, Store, install};

verus! {

/// Why a cycle could not install a new artifact.
#[derive(Clone, Copy, PartialEq, Eq, Debug, Structural)]
pub enum CycleFailure {
    /// The remote answered with a status other than 200 or 304.
    BadStatus(u16),
    /// The remote could not be reached at all.
    Network,
    /// The response body could not be unwrapped to a payload.
    BadPayload(ExtractError),
    /// The unwrapped payload failed validation by opening.
    InvalidDatabase,
}

/// How one refresh cycle ended.
pub enum CycleOutcome {
    /// A new artifact was validated and installed; its opened handle.
    Installed(Handle),
    /// The artifact on disk was confirmed current; only the last-checked
    /// marker moved.
    Unchanged,
    /// The cycle failed but an artifact exists, so the service keeps
    /// serving it; nothing persisted changed.
    Stale(CycleFailure),
    /// The cycle failed and nothing is on disk to fall back on.
    Fatal(CycleFailure),
}

/// Drive one refresh cycle from the outcome of its fetch: confirm the
/// artifact current on 304, unwrap — validate — install on 200, and treat
/// everything else as a failure that is tolerated exactly when an artifact
/// already exists.
pub fn run_cycle_on_event(store: &mut Store, event: FetchEvent, now: u64) -> (r: CycleOutcome)
    ensures
        event matches FetchEvent::Response { status, etag, body } ==> {
            &&& status == STATUS_NOT_MODIFIED ==> {
                &&& r is Unchanged
                &&& final(store).artifact == old(store).artifact
                &&& final(store).etag == old(store).etag
                &&& final(store).last_checked == Some(now)
            }
            &&& status == STATUS_OK ==> {
                &&& spec_extract(body@, MAX_LAYERS as nat) matches Ok(p) ==> {
                    &&& mmdb_open_of(p) is Some ==> {
                        &&& r matches CycleOutcome::Installed(h) && mmdb_open_of(p)
                            == Some((h.build_epoch, h.database_type@))
                        &&& final(store).artifact matches Some(a) && a@ == p
                        &&& final(store).etag == etag
                        &&& final(store).last_checked == Some(now)
                    }
                    &&& mmdb_open_of(p) is None ==> failure_outcome(r, *old(store),
                        *final(store), CycleFailure::InvalidDatabase)
                }
                &&& spec_extract(body@, MAX_LAYERS as nat) matches Err(x)
                    ==> failure_outcome(r, *old(store), *final(store),
                        CycleFailure::BadPayload(x))
            }
            &&& status != STATUS_NOT_MODIFIED && status != STATUS_OK
                ==> failure_outcome(r, *old(store), *final(store),
                    CycleFailure::BadStatus(status))
        },
        event is NetworkError ==> failure_outcome(r, *old(store), *final(store),
            CycleFailure::Network),
        old(store).wf() ==> final(store).wf(),
{
    match event {
        FetchEvent::Response { status, etag, body } => {
            if status == STATUS_NOT_MODIFIED {
                store.last_checked = Some(now);
                return CycleOutcome::Unchanged;
            }
            if status != STATUS_OK {
                return fail(store, CycleFailure::BadStatus(status));
            }
            match extract(body) {
                Ok(payload) => {
                    let ghost p = payload@;
                    match install(store, payload, etag) {
                        InstallOutcome::Installed(handle) => {
                            store.last_checked = Some(now);
                            CycleOutcome::Installed(handle)
                        },
                        InstallOutcome::Rejected => fail(store,
                            CycleFailure::InvalidDatabase),
                    }
                },
                Err(x) => fail(store, CycleFailure::BadPayload(x)),
            }
        },
        FetchEvent::NetworkError => fail(store, CycleFailure::Network),
    }
}

/// A failed cycle leaves everything persisted untouched, and is `Stale`
/// exactly when an artifact exists to keep serving, `Fatal` when not.
pub open spec fn failure_outcome(r: CycleOutcome, pre: Store, post: Store, failure:
    CycleFailure) -> bool {
    &&& post == pre
    &&& pre.artifact is Some ==> r == CycleOutcome::Stale(failure)
    &&& pre.artifact is None ==> r == CycleOutcome::Fatal(failure)
}

/// Report a cycle failure, tolerated exactly when an artifact exists.
fn fail(store: &mut Store, failure: CycleFailure) -> (r: CycleOutcome)
    ensures
        failure_outcome(r, *old(store), *final(store), failure),
{
    if store.artifact.is_some() {
        CycleOutcome::Stale(failure)
    } else {
        CycleOutcome::Fatal(failure)
    }
}

/// Serializes refresh cycles: at most one runs at a time,
/// and a trigger that fires while one is running is dropped, not queued.
pub struct SchedulerGate {
    busy: bool,
}

impl SchedulerGate {
    /// Whether a cycle is in flight.
    pub closed spec fn spec_busy(self) -> bool {
        self.busy
    }

    /// A gate with no cycle in flight.
    pub fn new() -> (g: SchedulerGate)
        ensures
            !g.spec_busy(),
    {
        SchedulerGate { busy: false }
    }

    /// Ask to start a cycle: granted exactly when none is in flight; a
    /// trigger that is not granted changes nothing and is never queued.
    pub fn try_acquire(&mut self) -> (granted: bool)
        ensures
            granted == !old(self).spec_busy(),
            final(self).spec_busy(),
    {
        if self.busy {
            false
        } else {
            self.busy = true;
            true
        }
    }

    /// End the cycle in flight, letting the next trigger through.
    pub fn release(&mut self)
        ensures
            !final(self).spec_busy(),
    {
        self.busy = false;
    }
}

/// Law: while one cycle is in flight, every further trigger is refused and
/// leaves the busy state exactly as it was — the trigger has no effect.
pub proof fn lemma_trigger_dropped_while_busy(pre: SchedulerGate, post: SchedulerGate,
    granted: bool)
    requires
        pre.spec_busy(),
        granted == !pre.spec_busy(),
        post.spec_busy(),
    ensures
        !granted,
        post == pre,
{
    assert(post.spec_busy() == pre.spec_busy());
    assert(post == pre) by {
        lemma_gate_determined(pre, post);
    }
}

/// Two gates in the same busy state are the same gate.
proof fn lemma_gate_determined(a: SchedulerGate, b: SchedulerGate)
    requires
        a.spec_busy() == b.spec_busy(),
    ensures
        a == b,
{
}

} // verus!
