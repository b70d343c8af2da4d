//! Tests for the installer, the live handle registry and the refresh
//! cycle: validation gates every install, failures leave persisted state
//! untouched, reads interleaved with a swap never observe a torn handle,
//! and each fetch outcome drives the cycle as specified.

use geoip_db::database::Handle;
use geoip_db::fetch::{plan_cycle, CyclePlan, FetchEvent};
use geoip_db::registry::{reload_database, Registry};
use geoip_db::scheduler::{run_cycle_on_event, CycleFailure, CycleOutcome, SchedulerGate};
use geoip_db::store::{database_path, etag_path, install, stamp_path, InstallOutcome, Store};

/// Append one length-prefixed string (a metadata key or value) in the
/// database's type-tagged encoding.
fn push_tagged_str(out: &mut Vec<u8>, s: &str) {
    out.push(0x40 | s.len() as u8);
    out.extend_from_slice(s.as_bytes());
}

/// A minimal well-formed database: a one-node search tree, the data
/// section separator, the metadata marker and a metadata map reporting
/// build epoch 1700000000 and type "Test".
fn valid_mmdb_bytes() -> Vec<u8> {
    let mut out: Vec<u8> = Vec::new();
    // 6 bytes of search tree (one node at record size 24) + 16 separator bytes
    out.resize(22, 0u8);
    out.extend_from_slice(&[0xab, 0xcd, 0xef]);
    out.extend_from_slice(b"MaxMind.com");
    out.push(0xe9); // map of 9 entries
    push_tagged_str(&mut out, "binary_format_major_version");
    out.extend_from_slice(&[0xa1, 0x02]); // uint16: 2
    push_tagged_str(&mut out, "binary_format_minor_version");
    out.push(0xa0); // uint16: 0
    push_tagged_str(&mut out, "build_epoch");
    out.extend_from_slice(&[0x04, 0x02, 0x65, 0x53, 0xf1, 0x00]); // uint64: 1700000000
    push_tagged_str(&mut out, "database_type");
    push_tagged_str(&mut out, "Test");
    push_tagged_str(&mut out, "description");
    out.push(0xe0); // empty map
    push_tagged_str(&mut out, "ip_version");
    out.extend_from_slice(&[0xa1, 0x04]); // uint16: 4
    push_tagged_str(&mut out, "languages");
    out.extend_from_slice(&[0x00, 0x04]); // empty array
    push_tagged_str(&mut out, "node_count");
    out.extend_from_slice(&[0xc1, 0x01]); // uint32: 1
    push_tagged_str(&mut out, "record_size");
    out.extend_from_slice(&[0xa1, 0x18]); // uint16: 24
    out
}

fn gzip_bytes(data: &[u8]) -> Vec<u8> {
    let mut encoder = flate2::write::GzEncoder::new(Vec::new(), flate2::Compression::default());
    std::io::Write::write_all(&mut encoder, data).unwrap();
    encoder.finish().unwrap()
}

fn store_with_artifact() -> Store {
    let mut store = Store::new();
    store.artifact = Some(valid_mmdb_bytes());
    store.etag = Some("\"old-token\"".to_string());
    store.last_checked = Some(1_000_000);
    store
}

#[test]
fn crafted_database_opens_directly() {
    let bytes = valid_mmdb_bytes();
    let reader = maxminddb::Reader::from_source(bytes).unwrap();
    assert_eq!(reader.metadata().build_epoch, 1_700_000_000);
    assert_eq!(reader.metadata().database_type, "Test");
}

#[test]
fn install_valid_payload_replaces_artifact_and_token() {
    let mut store = store_with_artifact();
    let payload = valid_mmdb_bytes();
    let outcome = install(&mut store, payload.clone(), Some("\"new-token\"".to_string()));
    match outcome {
        InstallOutcome::Installed(handle) => {
            assert_eq!(handle.build_epoch, 1_700_000_000);
            assert_eq!(handle.database_type, "Test");
        },
        InstallOutcome::Rejected => panic!("valid payload was rejected"),
    }
    assert_eq!(store.artifact, Some(payload));
    assert_eq!(store.etag, Some("\"new-token\"".to_string()));
}

#[test]
fn install_round_trip_reports_same_metadata_as_direct_open() {
    let mut store = Store::new();
    let payload = valid_mmdb_bytes();
    let direct = maxminddb::Reader::from_source(payload.clone()).unwrap();
    let outcome = install(&mut store, payload, None);
    let handle = match outcome {
        InstallOutcome::Installed(handle) => handle,
        InstallOutcome::Rejected => panic!("valid payload was rejected"),
    };
    // the canonical artifact now opens, and reports the same metadata
    let canonical = maxminddb::Reader::from_source(store.artifact.unwrap()).unwrap();
    assert_eq!(canonical.metadata().build_epoch, direct.metadata().build_epoch);
    assert_eq!(canonical.metadata().database_type, direct.metadata().database_type);
    assert_eq!(handle.build_epoch, direct.metadata().build_epoch);
    assert_eq!(handle.database_type, direct.metadata().database_type);
}

#[test]
fn install_corrupted_payload_changes_nothing() {
    let mut store = store_with_artifact();
    let artifact_before = store.artifact.clone();
    let etag_before = store.etag.clone();
    let outcome = install(&mut store, b"not a database".to_vec(), Some("\"x\"".to_string()));
    assert!(matches!(outcome, InstallOutcome::Rejected));
    assert_eq!(store.artifact, artifact_before);
    assert_eq!(store.etag, etag_before);
}

#[test]
fn concurrent_reads_observe_only_pre_or_post_handle() {
    let pre = Handle { build_epoch: 1, database_type: "A".to_string() };
    let post = Handle { build_epoch: 2, database_type: "B".to_string() };
    let mut registry = Registry::new(pre.clone());
    let mut observed: Vec<Handle> = Vec::new();
    for step in 0..10 {
        if step == 5 {
            registry.replace(post.clone());
        }
        observed.push(registry.current().clone());
    }
    for (step, handle) in observed.iter().enumerate() {
        assert!(*handle == pre || *handle == post);
        if step < 5 {
            assert_eq!(*handle, pre);
        } else {
            assert_eq!(*handle, post);
        }
    }
}

#[test]
fn scenario_no_artifact_and_unreachable_source_is_fatal() {
    let mut store = Store::new();
    let outcome = run_cycle_on_event(&mut store, FetchEvent::NetworkError, 500);
    assert!(matches!(outcome, CycleOutcome::Fatal(CycleFailure::Network)));
    assert_eq!(store.artifact, None);
}

#[test]
fn scenario_not_modified_updates_only_last_checked() {
    let mut store = store_with_artifact();
    let artifact_before = store.artifact.clone();
    let etag_before = store.etag.clone();
    let event = FetchEvent::Response { status: 304, etag: None, body: Vec::new() };
    let outcome = run_cycle_on_event(&mut store, event, 2_000_000);
    assert!(matches!(outcome, CycleOutcome::Unchanged));
    assert_eq!(store.artifact, artifact_before);
    assert_eq!(store.etag, etag_before);
    assert_eq!(store.last_checked, Some(2_000_000));
}

#[test]
fn scenario_new_valid_payload_replaces_artifact_and_swaps_handle() {
    let mut store = store_with_artifact();
    let payload = valid_mmdb_bytes();
    let event = FetchEvent::Response {
        status: 200,
        etag: Some("\"new-token\"".to_string()),
        body: gzip_bytes(&payload),
    };
    let outcome = run_cycle_on_event(&mut store, event, 2_000_000);
    let handle = match outcome {
        CycleOutcome::Installed(handle) => handle,
        _ => panic!("expected an install"),
    };
    assert_eq!(store.artifact, Some(payload));
    assert_eq!(store.etag, Some("\"new-token\"".to_string()));
    assert_eq!(store.last_checked, Some(2_000_000));
    // subsequent lookups read the new handle
    let old_handle = Handle { build_epoch: 1, database_type: "Old".to_string() };
    let mut registry = Registry::new(old_handle);
    reload_database(&mut registry, handle.clone());
    assert_eq!(*registry.current(), handle);
    assert_eq!(registry.current().build_epoch, 1_700_000_000);
}

#[test]
fn scenario_invalid_payload_keeps_serving_old_artifact() {
    let mut store = store_with_artifact();
    let artifact_before = store.artifact.clone();
    let etag_before = store.etag.clone();
    let checked_before = store.last_checked;
    let event = FetchEvent::Response {
        status: 200,
        etag: Some("\"new-token\"".to_string()),
        body: gzip_bytes(b"garbage that is no database"),
    };
    let outcome = run_cycle_on_event(&mut store, event, 2_000_000);
    assert!(matches!(outcome, CycleOutcome::Stale(CycleFailure::InvalidDatabase)));
    assert_eq!(store.artifact, artifact_before);
    assert_eq!(store.etag, etag_before);
    assert_eq!(store.last_checked, checked_before);
}

#[test]
fn scenario_bad_status_with_artifact_degrades_to_stale() {
    let mut store = store_with_artifact();
    let artifact_before = store.artifact.clone();
    let event = FetchEvent::Response { status: 503, etag: None, body: Vec::new() };
    let outcome = run_cycle_on_event(&mut store, event, 2_000_000);
    assert!(matches!(outcome, CycleOutcome::Stale(CycleFailure::BadStatus(503))));
    assert_eq!(store.artifact, artifact_before);
}

#[test]
fn scenario_bad_status_without_artifact_is_fatal() {
    let mut store = Store::new();
    let event = FetchEvent::Response { status: 503, etag: None, body: Vec::new() };
    let outcome = run_cycle_on_event(&mut store, event, 2_000_000);
    assert!(matches!(outcome, CycleOutcome::Fatal(CycleFailure::BadStatus(503))));
}

#[test]
fn scenario_trigger_while_cycle_running_is_dropped() {
    let mut gate = SchedulerGate::new();
    assert!(gate.try_acquire());
    // a second trigger while the first cycle runs has no effect
    assert!(!gate.try_acquire());
    assert!(!gate.try_acquire());
    gate.release();
    assert!(gate.try_acquire());
}

#[test]
fn plan_skips_nonforced_cycle_checked_recently() {
    let mut store = store_with_artifact();
    store.last_checked = Some(1_000_000);
    let plan = plan_cycle(&store, true, false, 1_000_000 + 86_399);
    assert!(matches!(plan, CyclePlan::SkipRecentlyChecked));
    let plan = plan_cycle(&store, true, false, 1_000_000 + 86_400);
    assert!(matches!(plan, CyclePlan::Fetch(Some(_))));
}

#[test]
fn plan_sends_stored_token_only_when_not_forced() {
    let store = store_with_artifact();
    match plan_cycle(&store, true, false, 2_000_000) {
        CyclePlan::Fetch(token) => assert_eq!(token, Some("\"old-token\"".to_string())),
        _ => panic!("expected a fetch"),
    }
    match plan_cycle(&store, true, true, 1_000_100) {
        CyclePlan::Fetch(token) => assert_eq!(token, None),
        _ => panic!("expected a fetch"),
    }
}

#[test]
fn plan_without_source_serves_or_fails_by_artifact() {
    let store = store_with_artifact();
    assert!(matches!(plan_cycle(&store, false, false, 0), CyclePlan::ServeExisting));
    let empty = Store::new();
    assert!(matches!(plan_cycle(&empty, false, false, 0), CyclePlan::FatalNoSource));
}

#[test]
fn paths_join_the_data_directory() {
    assert_eq!(database_path("/data"), "/data/database.mmdb");
    assert_eq!(etag_path("/data"), "/data/etag");
    assert_eq!(stamp_path("/data"), "/data/stamp");
}

#[test]
fn plan_fetches_when_no_stamp_exists() {
    let mut store = store_with_artifact();
    store.last_checked = None;
    assert!(matches!(plan_cycle(&store, true, false, 2_000_000), CyclePlan::Fetch(Some(_))));
}

#[test]
fn plan_fetches_unconditionally_without_artifact() {
    let mut store = Store::new();
    store.etag = Some("\"left-over-token\"".to_string());
    match plan_cycle(&store, true, false, 2_000_000) {
        CyclePlan::Fetch(token) => assert_eq!(token, None),
        _ => panic!("expected a fetch"),
    }
}

#[test]
fn cycle_on_raw_valid_payload_installs_without_etag() {
    let mut store = Store::new();
    let payload = valid_mmdb_bytes();
    let event = FetchEvent::Response { status: 200, etag: None, body: payload.clone() };
    let outcome = run_cycle_on_event(&mut store, event, 3_000_000);
    assert!(matches!(outcome, CycleOutcome::Installed(_)));
    assert_eq!(store.artifact, Some(payload));
    assert_eq!(store.etag, None);
    assert_eq!(store.last_checked, Some(3_000_000));
}

#[test]
fn cycle_with_archive_lacking_payload_is_stale_with_artifact() {
    let mut store = store_with_artifact();
    let artifact_before = store.artifact.clone();
    let mut builder = tar::Builder::new(Vec::new());
    let mut header = tar::Header::new_gnu();
    let data = b"no database here";
    header.set_size(data.len() as u64);
    builder.append_data(&mut header, "readme.txt", data.as_slice()).unwrap();
    let body = builder.into_inner().unwrap();
    let event = FetchEvent::Response { status: 200, etag: None, body };
    let outcome = run_cycle_on_event(&mut store, event, 3_000_000);
    assert!(matches!(
        outcome,
        CycleOutcome::Stale(CycleFailure::BadPayload(
            geoip_db::archive::ExtractError::NoPayloadFound
        ))
    ));
    assert_eq!(store.artifact, artifact_before);
}
