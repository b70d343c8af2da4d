//! The opaque database boundary: validating a candidate payload by opening
//! it, and the handle that an opened database presents to the rest of the
//! system.
//!
//! The binary search-tree format of the database itself is not this crate's
//! concern; whether bytes form an openable database, and which build epoch
//! and type string the opened metadata reports, is delegated to the outside
//! reader and only named here.

use vstd::prelude::*;

verus! {

/// An opened, queryable representation of a database artifact, reduced to
/// the metadata the lifecycle logic reads: when the database was built and
/// what kind of database it is.
#[derive(Clone, Debug, PartialEq, Eq)]
pub struct Handle {
    pub build_epoch: u64,
    pub database_type: String,
}

/// What opening given bytes as a database yields: `None` where the bytes
/// are not a well-formed database, otherwise the build epoch and type
/// string of its metadata. A pure function of the bytes.
pub uninterp spec fn mmdb_open_of(s: Seq<u8>) -> Option<(u64, Seq<char>)>;

/// Relies on maxminddb::Reader::from_source: whether in-memory bytes parse
/// as a database, and the build epoch and type string of the parsed
/// metadata, depend on the bytes alone.
#[verifier::external_body]
pub(crate) fn open_payload(data: &Vec<u8>) -> (r: Option<Handle>)
    ensures
        r is Some <==> mmdb_open_of(data@) is Some,
        r matches Some(h) ==> mmdb_open_of(data@) == Some((h.build_epoch, h.database_type@)),
{
    match maxminddb::Reader::from_source(data.as_slice()) {
        Ok(reader) => Some(Handle {
            build_epoch: reader.metadata().build_epoch,
            database_type: reader.metadata().database_type.clone(),
        }),
        Err(_) => None,
    }
}

} // verus!
