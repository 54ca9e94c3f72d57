use slatedb_bindings::admin::Admin;
use slatedb_bindings::errors::ErrorKind;
use slatedb_bindings::options::{OptValue, OptionMap};
use slatedb_bindings::runtime::EngineRuntime;

fn open_admin(rt: &EngineRuntime) -> Admin {
    Admin::new(rt, "admin_db", &None).unwrap()
}

#[test]
fn malformed_checkpoint_ids_fail_before_any_engine_call() {
    let rt = EngineRuntime::new().unwrap();
    let admin = open_admin(&rt);
    let err = admin.refresh_checkpoint(&"nope".to_string(), Some(1000)).unwrap_err();
    assert_eq!(err.kind, ErrorKind::Invalid);
    let err = admin.delete_checkpoint(&"nope".to_string()).unwrap_err();
    assert_eq!(err.kind, ErrorKind::Invalid);
}

#[test]
fn create_checkpoint_rejects_a_malformed_source_before_any_engine_call() {
    let rt = EngineRuntime::new().unwrap();
    let admin = open_admin(&rt);
    let mut opts = OptionMap::new();
    opts.insert("source", OptValue::Str("mangled".to_string()));
    let err = admin.create_checkpoint(&opts).unwrap_err();
    assert_eq!(err.kind, ErrorKind::Invalid);
}

#[test]
fn run_gc_rejects_a_mistyped_age_before_any_engine_call() {
    let rt = EngineRuntime::new().unwrap();
    let admin = open_admin(&rt);
    let mut opts = OptionMap::new();
    opts.insert("min_age", OptValue::Str("a while".to_string()));
    let err = admin.run_gc(&opts).unwrap_err();
    assert_eq!(err.kind, ErrorKind::Invalid);
}

#[test]
fn admin_rejects_a_malformed_url() {
    let rt = EngineRuntime::new().unwrap();
    let err = match Admin::new(&rt, "p", &Some("no scheme at all".to_string())) {
        Err(e) => e,
        Ok(_) => panic!("expected an error"),
    };
    assert!(err.kind == ErrorKind::Invalid || err.kind == ErrorKind::Unavailable);
}
