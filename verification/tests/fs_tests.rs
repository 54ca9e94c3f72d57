//! End-to-end coverage over a local filesystem backend, which — unlike
//! the in-memory backend — can be shared between an engine client, a
//! reader and an admin handle bound to the same path.

use slatedb_bindings::admin::Admin;
use slatedb_bindings::database::Database;
use slatedb_bindings::options::{OptValue, OptionMap};
use slatedb_bindings::reader::Reader;
use slatedb_bindings::runtime::EngineRuntime;

fn unique_path(tag: &str) -> String {
    let nanos = std::time::SystemTime::now()
        .duration_since(std::time::UNIX_EPOCH)
        .unwrap()
        .as_nanos();
    format!("tmp/slatedb_bindings_{}_{}", tag, nanos)
}

fn file_url() -> Option<String> {
    Some("file:///".to_string())
}

#[test]
fn reader_shares_state_written_by_the_client() {
    let rt = EngineRuntime::new().unwrap();
    let path = unique_path("reader");
    let db = Database::open(&rt, &path, &file_url()).unwrap();
    db.put("r1", "v1").unwrap();
    db.flush().unwrap();
    db.close().unwrap();

    let reader = Reader::open(&rt, &path, &file_url(), &None, &OptionMap::new()).unwrap();
    assert_eq!(reader.get("r1").unwrap(), Some("v1".to_string()));
    assert_eq!(reader.get_bytes("r1").unwrap(), Some(b"v1".to_vec()));
    assert_eq!(reader.get("absent").unwrap(), None);
    let mut it = reader.scan("r", &None).unwrap();
    assert_eq!(it.next_entry().unwrap(), Some(("r1".to_string(), "v1".to_string())));
    assert_eq!(it.next_entry().unwrap(), None);
    reader.close().unwrap();
}

#[test]
fn admin_manages_manifests_and_checkpoints() {
    let rt = EngineRuntime::new().unwrap();
    let path = unique_path("admin");
    let db = Database::open(&rt, &path, &file_url()).unwrap();
    db.put("a", "1").unwrap();
    db.close().unwrap();

    let admin = Admin::new(&rt, &path, &file_url()).unwrap();
    let latest = admin.read_manifest(None).unwrap().unwrap();
    assert!(latest.id > 0);
    assert_eq!(admin.read_manifest(Some(latest.id)).unwrap().unwrap().id, latest.id);
    let manifests = admin.list_manifests(None, None).unwrap();
    assert!(manifests.iter().any(|m| m.id == latest.id));
    let below = admin.list_manifests(None, Some(latest.id)).unwrap();
    assert!(!below.iter().any(|m| m.id == latest.id));
    let from_latest = admin.list_manifests(Some(latest.id), None).unwrap();
    assert!(from_latest.iter().any(|m| m.id == latest.id));
    assert!(from_latest.iter().all(|m| m.id >= latest.id));

    let mut opts = OptionMap::new();
    opts.insert("name", OptValue::Str("trial".to_string()));
    opts.insert("lifetime", OptValue::UInt(600_000));
    let created = admin.create_checkpoint(&opts).unwrap();
    assert!(created.manifest_id > 0);

    let listed = admin.list_checkpoints(&Some("trial".to_string())).unwrap();
    assert!(listed.iter().any(|c| c.id == created.id));

    admin.refresh_checkpoint(&created.id, Some(1_200_000)).unwrap();
    admin.delete_checkpoint(&created.id).unwrap();
    let listed = admin.list_checkpoints(&None).unwrap();
    assert!(!listed.iter().any(|c| c.id == created.id));

    admin.run_gc(&OptionMap::new()).unwrap();
}
