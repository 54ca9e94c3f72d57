use slatedb_bindings::errors::ErrorKind;
use slatedb_bindings::options::{OptValue, OptionMap};
use slatedb_bindings::write_batch::{BatchOp, WriteBatch};

#[test]
fn operations_accumulate_in_order() {
    let mut b = WriteBatch::new();
    b.put("a", "1").unwrap();
    let mut ttl = OptionMap::new();
    ttl.insert("ttl", OptValue::UInt(2500));
    b.put_with_options("b", "2", &ttl).unwrap();
    b.delete("a").unwrap();
    assert_eq!(b.len(), 3);

    let ops = b.take();
    assert_eq!(ops.len(), 3);
    assert!(matches!(
        &ops[0],
        BatchOp::Put { key, value, ttl_ms: None } if key == "a" && value == "1"
    ));
    assert!(matches!(
        &ops[1],
        BatchOp::Put { key, value, ttl_ms: Some(2500) } if key == "b" && value == "2"
    ));
    assert!(matches!(&ops[2], BatchOp::Delete { key } if key == "a"));
}

#[test]
fn take_twice_second_is_empty() {
    let mut b = WriteBatch::new();
    b.put("a", "1").unwrap();
    let first = b.take();
    assert_eq!(first.len(), 1);
    let second = b.take();
    assert_eq!(second.len(), 0);
    assert_eq!(b.len(), 0);
}

#[test]
fn op_between_takes_appears_only_in_second() {
    let mut b = WriteBatch::new();
    b.put("a", "1").unwrap();
    let first = b.take();
    b.delete("z").unwrap();
    let second = b.take();

    assert_eq!(first.len(), 1);
    assert!(matches!(&first[0], BatchOp::Put { key, .. } if key == "a"));
    assert_eq!(second.len(), 1);
    assert!(matches!(&second[0], BatchOp::Delete { key } if key == "z"));
}

#[test]
fn empty_key_is_rejected_and_nothing_is_appended() {
    let mut b = WriteBatch::new();
    assert_eq!(b.put("", "1").unwrap_err().kind, ErrorKind::Invalid);
    assert_eq!(b.delete("").unwrap_err().kind, ErrorKind::Invalid);
    let empty = OptionMap::new();
    assert_eq!(b.put_with_options("", "1", &empty).unwrap_err().kind, ErrorKind::Invalid);
    assert_eq!(b.len(), 0);
}

#[test]
fn bad_ttl_option_rejects_and_leaves_batch_unchanged() {
    let mut b = WriteBatch::new();
    b.put("a", "1").unwrap();
    let mut bad = OptionMap::new();
    bad.insert("ttl", OptValue::Str("soon".to_string()));
    assert_eq!(b.put_with_options("b", "2", &bad).unwrap_err().kind, ErrorKind::Invalid);
    assert_eq!(b.len(), 1);
}
