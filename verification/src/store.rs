//! The persisted refresh state and the installer.
//!
//! The canonical artifact, its validator token (the entity tag of the last
//! successful download) and the last-checked marker live side by side in one
//! data directory. `Store` models that directory's observable content; the
//! installer validates a candidate payload by opening it and only then
//! replaces the artifact and token together, so a candidate that fails
//! validation never touches either.

use vstd::prelude::*;
use vstd::string::StringExecFns;
use crate::database::{Handle, mmdb_open_of, open_payload};

verus! {

/// The observable persisted state of the data directory: the canonical
/// artifact bytes, the validator token beside it, and the epoch second of
/// the last completed freshness check.
pub struct Store {
    pub artifact: Option<Vec<u8>>,
    pub etag: Option<String>,
    pub last_checked: Option<u64>,
}

impl Store {
    /// Invariant of the persisted state: an installed artifact is always
    /// openable — a candidate that failed validation is never installed.
    pub open spec fn wf(self) -> bool {
        self.artifact matches Some(a) ==> mmdb_open_of(a@) is Some
    }

    /// The empty data directory of a first run.
    pub fn new() -> (s: Store)
        ensures
            s.artifact is None,
            s.etag is None,
            s.last_checked is None,
            s.wf(),
    {
        Store { artifact: None, etag: None, last_checked: None }
    }
}

/// What installing a candidate payload produced: the handle of the newly
/// validated artifact, or rejection with every persisted value untouched.
pub enum InstallOutcome {
    Installed(Handle),
    Rejected,
}

/// Validate a candidate payload by opening it; on success replace the
/// canonical artifact and its validator token together, on failure leave
/// both exactly as they were.
pub fn install(store: &mut Store, payload: Vec<u8>, new_etag: Option<String>) -> (r:
    InstallOutcome)
    ensures
        mmdb_open_of(payload@) is Some ==> {
            &&& r matches InstallOutcome::Installed(h) && mmdb_open_of(payload@)
                == Some((h.build_epoch, h.database_type@))
            &&& final(store).artifact == Some(payload)
            &&& final(store).etag == new_etag
            &&& final(store).last_checked == old(store).last_checked
        },
        mmdb_open_of(payload@) is None ==> r is Rejected && *final(store) == *old(store),
        final(store).wf() || !old(store).wf(),
{
    match open_payload(&payload) {
        Some(handle) => {
            store.artifact = Some(payload);
            store.etag = new_etag;
            InstallOutcome::Installed(handle)
        },
        None => InstallOutcome::Rejected,
    }
}

/// Law: a successful install stores the validated payload itself as the
/// canonical artifact, so opening the canonical artifact afterwards
/// succeeds and reports the same metadata as opening the payload directly.
pub proof fn lemma_install_round_trip(post: Store, payload: Vec<u8>, h: Handle)
    requires
        post.artifact == Some(payload),
        mmdb_open_of(payload@) == Some((h.build_epoch, h.database_type@)),
    ensures
        post.artifact matches Some(a) && mmdb_open_of(a@) == Some((h.build_epoch,
            h.database_type@)),
        post.wf(),
{
}

/// The canonical artifact path inside a data directory.
pub fn database_path(data_dir: &str) -> (p: String)
    ensures
        p@ == data_dir@ + "/database.mmdb"@,
{
    let mut p = String::from_str(data_dir);
    p.append("/database.mmdb");
    p
}

/// The scratch path the downloaded body is first written to.
pub fn temp_path(data_dir: &str) -> (p: String)
    ensures
        p@ == data_dir@ + "/database.mmdb.temp"@,
{
    let mut p = String::from_str(data_dir);
    p.append("/database.mmdb.temp");
    p
}

/// The sidecar path of the validator token.
pub fn etag_path(data_dir: &str) -> (p: String)
    ensures
        p@ == data_dir@ + "/etag"@,
{
    let mut p = String::from_str(data_dir);
    p.append("/etag");
    p
}

/// The sidecar path of the last-checked marker.
pub fn stamp_path(data_dir: &str) -> (p: String)
    ensures
        p@ == data_dir@ + "/stamp"@,
{
    let mut p = String::from_str(data_dir);
    p.append("/stamp");
    p
}

} // verus!
