use slatedb_bindings::errors::ErrorKind;
use slatedb_bindings::options::{
    OptValue, OptionMap, Durability, Isolation, parse_durability, parse_isolation,
    parse_read_options, parse_scan_options, parse_put_options, parse_write_options,
    parse_reader_options, parse_checkpoint_options, parse_gc_options, parse_uuid,
    resolve_gc_ages, GC_DEFAULT_MANIFEST_MIN_AGE_MS, GC_DEFAULT_WAL_MIN_AGE_MS,
    GC_DEFAULT_COMPACTED_MIN_AGE_MS,
};

fn map(entries: Vec<(&str, OptValue)>) -> OptionMap {
    let mut m = OptionMap::new();
    for (k, v) in entries {
        m.insert(k, v);
    }
    m
}

#[test]
fn find_returns_first_binding() {
    let m = map(vec![
        ("dirty", OptValue::Bool(true)),
        ("dirty", OptValue::Bool(false)),
    ]);
    assert_eq!(m.get_bool("dirty").unwrap(), Some(true));
    assert_eq!(m.get_bool("absent").unwrap(), None);
}

#[test]
fn typed_getters_reject_wrong_types_naming_the_key() {
    let m = map(vec![("ttl", OptValue::Str("soon".to_string()))]);
    let err = m.get_u64("ttl").unwrap_err();
    assert_eq!(err.kind, ErrorKind::Invalid);
    assert_eq!(err.msg, "ttl option has the wrong type");
    let err = m.get_bool("ttl").unwrap_err();
    assert_eq!(err.kind, ErrorKind::Invalid);
    assert_eq!(err.msg, "ttl option has the wrong type");
    assert_eq!(m.get_str("ttl").unwrap(), Some("soon".to_string()));
}

#[test]
fn durability_literals() {
    assert_eq!(parse_durability(&"remote".to_string()).unwrap(), Durability::Remote);
    assert_eq!(parse_durability(&"memory".to_string()).unwrap(), Durability::Memory);
    let err = parse_durability(&"invalid".to_string()).unwrap_err();
    assert_eq!(err.kind, ErrorKind::Invalid);
    assert_eq!(err.msg, "invalid durability_filter (expected 'remote' or 'memory')");
}

#[test]
fn isolation_literals() {
    assert_eq!(parse_isolation(&None).unwrap(), Isolation::Snapshot);
    for s in ["snapshot", "si"] {
        assert_eq!(parse_isolation(&Some(s.to_string())).unwrap(), Isolation::Snapshot);
    }
    for s in ["serializable", "ssi", "serializable_snapshot"] {
        assert_eq!(parse_isolation(&Some(s.to_string())).unwrap(), Isolation::Serializable);
    }
    let err = parse_isolation(&Some("chaos".to_string())).unwrap_err();
    assert_eq!(err.kind, ErrorKind::Invalid);
    assert_eq!(err.msg, "invalid isolation level (expected 'snapshot' or 'serializable')");
}

#[test]
fn read_options_translate() {
    let m = map(vec![
        ("durability_filter", OptValue::Str("remote".to_string())),
        ("dirty", OptValue::Bool(true)),
    ]);
    let o = parse_read_options(&m).unwrap();
    assert_eq!(o.durability_filter, Some(Durability::Remote));
    assert_eq!(o.dirty, Some(true));

    let o = parse_read_options(&OptionMap::new()).unwrap();
    assert_eq!(o.durability_filter, None);
    assert_eq!(o.dirty, None);
}

#[test]
fn read_options_reject_bad_durability_before_anything_else() {
    let m = map(vec![("durability_filter", OptValue::Str("invalid".to_string()))]);
    let err = parse_read_options(&m).unwrap_err();
    assert_eq!(err.kind, ErrorKind::Invalid);
}

#[test]
fn scan_options_translate() {
    let m = map(vec![
        ("durability_filter", OptValue::Str("memory".to_string())),
        ("read_ahead_bytes", OptValue::UInt(4096)),
        ("cache_blocks", OptValue::Bool(true)),
        ("max_fetch_tasks", OptValue::UInt(4)),
    ]);
    let o = parse_scan_options(&m).unwrap();
    assert_eq!(o.durability_filter, Some(Durability::Memory));
    assert_eq!(o.dirty, None);
    assert_eq!(o.read_ahead_bytes, Some(4096));
    assert_eq!(o.cache_blocks, Some(true));
    assert_eq!(o.max_fetch_tasks, Some(4));
}

#[test]
fn scan_options_reject_one_bad_field_atomically() {
    let m = map(vec![
        ("read_ahead_bytes", OptValue::UInt(4096)),
        ("max_fetch_tasks", OptValue::Str("many".to_string())),
    ]);
    let err = parse_scan_options(&m).unwrap_err();
    assert_eq!(err.kind, ErrorKind::Invalid);
}

#[test]
fn put_and_write_options_translate() {
    let m = map(vec![("ttl", OptValue::UInt(1500))]);
    assert_eq!(parse_put_options(&m).unwrap().ttl_ms, Some(1500));
    assert_eq!(parse_put_options(&OptionMap::new()).unwrap().ttl_ms, None);

    assert!(parse_write_options(&OptionMap::new()).unwrap().await_durable);
    let m = map(vec![("await_durable", OptValue::Bool(false))]);
    assert!(!parse_write_options(&m).unwrap().await_durable);
    let m = map(vec![("await_durable", OptValue::UInt(1))]);
    assert_eq!(parse_write_options(&m).unwrap_err().kind, ErrorKind::Invalid);
}

#[test]
fn reader_options_translate() {
    let m = map(vec![
        ("manifest_poll_interval", OptValue::UInt(250)),
        ("max_memtable_bytes", OptValue::UInt(1048576)),
    ]);
    let o = parse_reader_options(&m).unwrap();
    assert_eq!(o.manifest_poll_interval_ms, Some(250));
    assert_eq!(o.checkpoint_lifetime_ms, None);
    assert_eq!(o.max_memtable_bytes, Some(1048576));
}

#[test]
fn uuid_parsing() {
    assert!(parse_uuid(&"0192cfa2-mangled".to_string()).is_err());
    let err = parse_uuid(&"not a uuid".to_string()).unwrap_err();
    assert_eq!(err.kind, ErrorKind::Invalid);
    assert_eq!(err.msg, "invalid checkpoint UUID");
    assert!(parse_uuid(&"67e55044-10b1-426f-9247-bb680e5fe0c8".to_string()).is_ok());
}

#[test]
fn checkpoint_options_translate() {
    let m = map(vec![
        ("lifetime", OptValue::UInt(60000)),
        ("source", OptValue::Str("67e55044-10b1-426f-9247-bb680e5fe0c8".to_string())),
        ("name", OptValue::Str("nightly".to_string())),
    ]);
    let o = parse_checkpoint_options(&m).unwrap();
    assert_eq!(o.lifetime_ms, Some(60000));
    assert!(o.source.is_some());
    assert_eq!(o.name, Some("nightly".to_string()));
}

#[test]
fn checkpoint_options_reject_malformed_source() {
    let m = map(vec![("source", OptValue::Str("not-a-uuid".to_string()))]);
    let err = parse_checkpoint_options(&m).unwrap_err();
    assert_eq!(err.kind, ErrorKind::Invalid);
}

#[test]
fn gc_defaults_when_nothing_given() {
    let g = resolve_gc_ages(None, None, None, None);
    assert_eq!(g.manifest_min_age_ms, 86_400_000);
    assert_eq!(g.wal_min_age_ms, 60_000);
    assert_eq!(g.compacted_min_age_ms, 60_000);
    assert_eq!(g.manifest_min_age_ms, GC_DEFAULT_MANIFEST_MIN_AGE_MS);
    assert_eq!(g.wal_min_age_ms, GC_DEFAULT_WAL_MIN_AGE_MS);
    assert_eq!(g.compacted_min_age_ms, GC_DEFAULT_COMPACTED_MIN_AGE_MS);
}

#[test]
fn gc_general_age_applies_to_all_areas() {
    let g = resolve_gc_ages(Some(5000), None, None, None);
    assert_eq!(g.manifest_min_age_ms, 5000);
    assert_eq!(g.wal_min_age_ms, 5000);
    assert_eq!(g.compacted_min_age_ms, 5000);
}

#[test]
fn gc_specific_override_wins_over_general() {
    let g = resolve_gc_ages(Some(5000), None, Some(750), None);
    assert_eq!(g.manifest_min_age_ms, 5000);
    assert_eq!(g.wal_min_age_ms, 750);
    assert_eq!(g.compacted_min_age_ms, 5000);
}

#[test]
fn gc_option_map_translates_and_rejects() {
    let m = map(vec![
        ("min_age", OptValue::UInt(9000)),
        ("compacted_min_age", OptValue::UInt(10)),
    ]);
    let g = parse_gc_options(&m).unwrap();
    assert_eq!(g.manifest_min_age_ms, 9000);
    assert_eq!(g.wal_min_age_ms, 9000);
    assert_eq!(g.compacted_min_age_ms, 10);

    let m = map(vec![("min_age", OptValue::Bool(true))]);
    assert_eq!(parse_gc_options(&m).unwrap_err().kind, ErrorKind::Invalid);
}
