use slatedb_bindings::database::Database;
use slatedb_bindings::errors::ErrorKind;
use slatedb_bindings::options::{OptValue, OptionMap};
use slatedb_bindings::reader::Reader;
use slatedb_bindings::runtime::{EngineRuntime, block_on, block_on_result};
use slatedb_bindings::write_batch::WriteBatch;


fn err_of<T>(r: Result<T, slatedb_bindings::errors::DbError>) -> slatedb_bindings::errors::DbError {
    match r {
        Err(e) => e,
        Ok(_) => panic!("expected an error"),
    }
}

fn open_db(rt: &EngineRuntime) -> Database {
    Database::open(rt, "test_db", &None).unwrap()
}

#[test]
fn bridge_drives_a_future_to_completion() {
    let rt = EngineRuntime::new().unwrap();
    let v = block_on(&rt, async { 41 + 1 });
    assert_eq!(v, 42);
}

#[test]
fn bridge_maps_engine_errors_after_the_wait() {
    let rt = EngineRuntime::new().unwrap();
    let ok: Result<u8, _> = block_on_result(&rt, async { Ok(7) });
    assert_eq!(ok.unwrap(), 7);
    let err: Result<u8, _> =
        block_on_result(&rt, async { Err(slatedb::Error::unavailable("down".to_string())) });
    assert_eq!(err.unwrap_err().kind, ErrorKind::Unavailable);
}

#[test]
fn put_then_get_and_delete_then_get() {
    let rt = EngineRuntime::new().unwrap();
    let db = open_db(&rt);
    db.put("a", "1").unwrap();
    assert_eq!(db.get("a").unwrap(), Some("1".to_string()));
    db.delete("a").unwrap();
    assert_eq!(db.get("a").unwrap(), None);
    db.close().unwrap();
}

#[test]
fn get_bytes_returns_raw_value() {
    let rt = EngineRuntime::new().unwrap();
    let db = open_db(&rt);
    db.put("k", "v1").unwrap();
    assert_eq!(db.get_bytes("k").unwrap(), Some(b"v1".to_vec()));
    assert_eq!(db.get_bytes("absent").unwrap(), None);
}

#[test]
fn empty_key_fails_before_any_engine_call() {
    let rt = EngineRuntime::new().unwrap();
    let db = open_db(&rt);
    assert_eq!(db.get("").unwrap_err().kind, ErrorKind::Invalid);
    assert_eq!(db.put("", "v").unwrap_err().kind, ErrorKind::Invalid);
    assert_eq!(db.delete("").unwrap_err().kind, ErrorKind::Invalid);
    assert_eq!(err_of(db.scan("", &None)).kind, ErrorKind::Invalid);
}

#[test]
fn invalid_durability_filter_fails_before_any_engine_call() {
    let rt = EngineRuntime::new().unwrap();
    let db = open_db(&rt);
    let mut opts = OptionMap::new();
    opts.insert("durability_filter", OptValue::Str("invalid".to_string()));
    assert_eq!(db.get_with_options("a", &opts).unwrap_err().kind, ErrorKind::Invalid);
    assert_eq!(err_of(db.scan_with_options("a", &None, &opts)).kind, ErrorKind::Invalid);
}

#[test]
fn end_to_end_scan_yields_ascending_pairs() {
    let rt = EngineRuntime::new().unwrap();
    let db = open_db(&rt);
    db.put("a", "1").unwrap();
    db.put("b", "2").unwrap();
    let mut it = db.scan("a", &Some("c".to_string())).unwrap();
    assert_eq!(it.next_entry().unwrap(), Some(("a".to_string(), "1".to_string())));
    assert_eq!(it.next_entry().unwrap(), Some(("b".to_string(), "2".to_string())));
    assert_eq!(it.next_entry().unwrap(), None);
    db.close().unwrap();
}

#[test]
fn scan_respects_exclusive_end() {
    let rt = EngineRuntime::new().unwrap();
    let db = open_db(&rt);
    db.put("a", "1").unwrap();
    db.put("c", "3").unwrap();
    let mut it = db.scan("a", &Some("c".to_string())).unwrap();
    assert_eq!(it.next_entry().unwrap(), Some(("a".to_string(), "1".to_string())));
    assert_eq!(it.next_entry().unwrap(), None);
}

#[test]
fn seek_positions_at_smallest_key_at_or_past_target() {
    let rt = EngineRuntime::new().unwrap();
    let db = open_db(&rt);
    db.put("a", "1").unwrap();
    db.put("k", "2").unwrap();
    db.put("q", "3").unwrap();
    let mut it = db.scan("a", &None).unwrap();
    it.seek("m").unwrap();
    assert_eq!(it.next_entry().unwrap(), Some(("q".to_string(), "3".to_string())));
    assert_eq!(it.next_entry().unwrap(), None);
    assert_eq!(it.next_entry().unwrap(), None);
}

#[test]
fn seek_past_everything_leaves_nothing() {
    let rt = EngineRuntime::new().unwrap();
    let db = open_db(&rt);
    db.put("a", "1").unwrap();
    let mut it = db.scan("a", &None).unwrap();
    it.seek("z").unwrap();
    assert_eq!(it.next_entry().unwrap(), None);
    assert_eq!(it.next_entry().unwrap(), None);
}

#[test]
fn iterator_after_close_fails_with_closed_error() {
    let rt = EngineRuntime::new().unwrap();
    let db = open_db(&rt);
    db.put("a", "1").unwrap();
    let mut it = db.scan("a", &None).unwrap();
    it.close().unwrap();
    it.close().unwrap();
    assert_eq!(it.next_entry().unwrap_err().kind, ErrorKind::Closed);
    assert_eq!(it.next_entry_bytes().unwrap_err().kind, ErrorKind::Closed);
    assert_eq!(it.seek("a").unwrap_err().kind, ErrorKind::Closed);
    assert_eq!(it.seek("").unwrap_err().kind, ErrorKind::Invalid);
}

#[test]
fn write_batch_applies_atomically_and_is_reusable() {
    let rt = EngineRuntime::new().unwrap();
    let db = open_db(&rt);
    let mut b = WriteBatch::new();
    b.put("a", "1").unwrap();
    b.put("b", "2").unwrap();
    db.write(&mut b).unwrap();
    assert_eq!(db.get("a").unwrap(), Some("1".to_string()));
    assert_eq!(db.get("b").unwrap(), Some("2".to_string()));
    assert_eq!(b.len(), 0);

    b.delete("a").unwrap();
    db.write(&mut b).unwrap();
    assert_eq!(db.get("a").unwrap(), None);
    assert_eq!(db.get("b").unwrap(), Some("2".to_string()));
}

#[test]
fn write_with_bad_options_leaves_batch_intact() {
    let rt = EngineRuntime::new().unwrap();
    let db = open_db(&rt);
    let mut b = WriteBatch::new();
    b.put("a", "1").unwrap();
    let mut bad = OptionMap::new();
    bad.insert("await_durable", OptValue::UInt(1));
    assert_eq!(db.write_with_options(&mut b, &bad).unwrap_err().kind, ErrorKind::Invalid);
    assert_eq!(b.len(), 1);
    db.write(&mut b).unwrap();
    assert_eq!(db.get("a").unwrap(), Some("1".to_string()));
}

#[test]
fn transaction_sees_own_writes_and_commits() {
    let rt = EngineRuntime::new().unwrap();
    let db = open_db(&rt);
    let mut txn = db.begin_transaction(&None).unwrap();
    assert!(!txn.is_closed());
    txn.put("t", "42").unwrap();
    assert_eq!(txn.get("t").unwrap(), Some("42".to_string()));
    assert_eq!(db.get("t").unwrap(), None);
    txn.commit().unwrap();
    assert!(txn.is_closed());
    assert_eq!(db.get("t").unwrap(), Some("42".to_string()));
}

#[test]
fn rollback_discards_buffered_writes() {
    let rt = EngineRuntime::new().unwrap();
    let db = open_db(&rt);
    let mut txn = db.begin_transaction(&None).unwrap();
    txn.put("gone", "1").unwrap();
    txn.rollback().unwrap();
    assert!(txn.is_closed());
    txn.rollback().unwrap();
    assert_eq!(db.get("gone").unwrap(), None);
}

#[test]
fn closed_transaction_rejects_every_operation_but_rollback() {
    let rt = EngineRuntime::new().unwrap();
    let db = open_db(&rt);
    let mut txn = db.begin_transaction(&None).unwrap();
    txn.commit().unwrap();
    assert_eq!(txn.get("a").unwrap_err().kind, ErrorKind::Closed);
    assert_eq!(txn.put("a", "1").unwrap_err().kind, ErrorKind::Closed);
    assert_eq!(txn.delete("a").unwrap_err().kind, ErrorKind::Closed);
    assert_eq!(err_of(txn.scan("a", &None)).kind, ErrorKind::Closed);
    assert_eq!(txn.commit().unwrap_err().kind, ErrorKind::Closed);
    assert!(txn.rollback().is_ok());
}

#[test]
fn invalid_isolation_literal_fails_before_any_engine_call() {
    let rt = EngineRuntime::new().unwrap();
    let db = open_db(&rt);
    let err = err_of(db.begin_transaction(&Some("chaos".to_string())));
    assert_eq!(err.kind, ErrorKind::Invalid);
}

#[test]
fn serializable_conflict_closes_the_loser() {
    let rt = EngineRuntime::new().unwrap();
    let db = open_db(&rt);
    let iso = Some("serializable".to_string());
    let mut t1 = db.begin_transaction(&iso).unwrap();
    let mut t2 = db.begin_transaction(&iso).unwrap();
    t1.put("k", "one").unwrap();
    t2.put("k", "two").unwrap();
    let r1 = t1.commit();
    let r2 = t2.commit();
    assert!(!(r1.is_ok() && r2.is_ok()));
    assert!(r1.is_ok() || r2.is_ok());
    let loser = if r1.is_ok() { r2 } else { r1 };
    assert_eq!(loser.unwrap_err().kind, ErrorKind::Transaction);
    assert!(t1.is_closed());
    assert!(t2.is_closed());
}

#[test]
fn snapshot_is_a_frozen_view_and_closes_idempotently() {
    let rt = EngineRuntime::new().unwrap();
    let db = open_db(&rt);
    db.put("s", "before").unwrap();
    let mut snap = db.snapshot().unwrap();
    assert!(!snap.is_closed());
    db.put("s", "after").unwrap();
    assert_eq!(snap.get("s").unwrap(), Some("before".to_string()));
    let mut it = snap.scan("s", &None).unwrap();
    assert_eq!(it.next_entry().unwrap(), Some(("s".to_string(), "before".to_string())));
    snap.close().unwrap();
    snap.close().unwrap();
    assert!(snap.is_closed());
    assert_eq!(snap.get("s").unwrap_err().kind, ErrorKind::Closed);
    assert_eq!(err_of(snap.scan("s", &None)).kind, ErrorKind::Closed);
}

#[test]
fn open_rejects_a_malformed_url() {
    let rt = EngineRuntime::new().unwrap();
    let err = err_of(Database::open(&rt, "p", &Some("not a url".to_string())));
    assert_eq!(err.kind, ErrorKind::Invalid);
}

#[test]
fn open_rejects_an_unrecognized_scheme_as_unavailable() {
    let rt = EngineRuntime::new().unwrap();
    let err = err_of(Database::open(&rt, "p", &Some("carrier-pigeon://x".to_string())));
    assert_eq!(err.kind, ErrorKind::Unavailable);
}

#[test]
fn flush_succeeds_on_an_open_database() {
    let rt = EngineRuntime::new().unwrap();
    let db = open_db(&rt);
    db.put("f", "1").unwrap();
    db.flush().unwrap();
    assert_eq!(db.get("f").unwrap(), Some("1".to_string()));
}

#[test]
fn reader_open_validates_before_the_engine() {
    let rt = EngineRuntime::new().unwrap();
    let err = err_of(Reader::open(
        &rt,
        "p",
        &None,
        &Some("not-a-uuid".to_string()),
        &OptionMap::new(),
    ));
    assert_eq!(err.kind, ErrorKind::Invalid);

    let mut bad = OptionMap::new();
    bad.insert("manifest_poll_interval", OptValue::Str("fast".to_string()));
    let err = err_of(Reader::open(&rt, "p", &None, &None, &bad));
    assert_eq!(err.kind, ErrorKind::Invalid);
}

#[test]
fn batch_last_operation_per_key_wins() {
    let rt = EngineRuntime::new().unwrap();
    let db = open_db(&rt);
    let mut b = WriteBatch::new();
    b.put("k", "one").unwrap();
    b.put("k", "two").unwrap();
    b.put("j", "x").unwrap();
    b.delete("j").unwrap();
    db.write(&mut b).unwrap();
    assert_eq!(db.get("k").unwrap(), Some("two".to_string()));
    assert_eq!(db.get("j").unwrap(), None);
}

#[test]
fn empty_scan_range_is_rejected_before_the_engine() {
    let rt = EngineRuntime::new().unwrap();
    let db = open_db(&rt);
    assert_eq!(err_of(db.scan("b", &Some("a".to_string()))).kind, ErrorKind::Invalid);
    assert_eq!(err_of(db.scan("a", &Some("a".to_string()))).kind, ErrorKind::Invalid);
    let mut it = db.scan("a", &Some("ab".to_string())).unwrap();
    assert_eq!(it.next_entry().unwrap(), None);
}
