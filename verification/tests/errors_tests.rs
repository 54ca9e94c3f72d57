use slatedb_bindings::errors::{
    DbError, ErrorKind, ExceptionClasses, ExceptionRegistry, closed_error, engine_error,
    internal_error, invalid_argument_error, map_error,
};

fn classes() -> ExceptionClasses {
    ExceptionClasses {
        base: 1,
        transaction: 2,
        closed: 3,
        unavailable: 4,
        invalid: 5,
        data: 6,
        internal: 7,
    }
}

#[test]
fn direct_constructors_carry_kind_and_message() {
    let e = invalid_argument_error("bad key");
    assert_eq!(e.kind, ErrorKind::Invalid);
    assert_eq!(e.msg, "bad key");
    assert_eq!(internal_error("boom").kind, ErrorKind::Internal);
    assert_eq!(closed_error("done").kind, ErrorKind::Closed);
}

#[test]
fn populated_registry_maps_each_kind_to_its_class() {
    let mut reg = ExceptionRegistry::empty(100, 101);
    reg.populate(classes());
    let cases = [
        (ErrorKind::Transaction, 2),
        (ErrorKind::Closed, 3),
        (ErrorKind::Unavailable, 4),
        (ErrorKind::Invalid, 5),
        (ErrorKind::Data, 6),
        (ErrorKind::Internal, 7),
        (ErrorKind::Other, 7),
    ];
    for (kind, class) in cases {
        let exc = map_error(&reg, DbError { kind, msg: "m".to_string() });
        assert_eq!(exc.class, class);
        assert_eq!(exc.msg, "m");
    }
}

#[test]
fn unpopulated_registry_falls_back_to_host_classes() {
    let reg = ExceptionRegistry::empty(100, 101);
    let exc = map_error(&reg, invalid_argument_error("x"));
    assert_eq!(exc.class, 101);
    let exc = map_error(&reg, internal_error("y"));
    assert_eq!(exc.class, 100);
}

#[test]
fn registry_is_write_once() {
    let mut reg = ExceptionRegistry::empty(100, 101);
    reg.populate(classes());
    let mut other = classes();
    other.transaction = 99;
    reg.populate(other);
    let exc = map_error(&reg, DbError { kind: ErrorKind::Transaction, msg: String::new() });
    assert_eq!(exc.class, 2);
}

#[test]
fn engine_errors_map_kind_for_kind() {
    assert_eq!(engine_error(slatedb::Error::transaction("t".to_string())).kind, ErrorKind::Transaction);
    assert_eq!(engine_error(slatedb::Error::unavailable("u".to_string())).kind, ErrorKind::Unavailable);
    assert_eq!(engine_error(slatedb::Error::invalid("i".to_string())).kind, ErrorKind::Invalid);
    assert_eq!(engine_error(slatedb::Error::data("d".to_string())).kind, ErrorKind::Data);
    assert_eq!(engine_error(slatedb::Error::internal("n".to_string())).kind, ErrorKind::Internal);
    let e = engine_error(
        slatedb::Error::closed("c".to_string(), slatedb::CloseReason::Clean),
    );
    assert_eq!(e.kind, ErrorKind::Closed);
}
