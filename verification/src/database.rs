//! The engine client: a long-lived handle to an opened engine instance.
//!
//! Open resolves the backend, then performs one bootstrap call through
//! the bridge. Every call validates its arguments and translates its
//! option map before any engine work; a validation failure therefore
//! never has side effects. Closing is delegated to the engine itself:
//! derived handles hold their own shares of the engine state and stay
//! usable until their own close.

use vstd::prelude::*;

use crate::errors::{DbError, ErrorKind, engine_error};
use crate::iterator::Iterator;
use crate::options::{
    OptionMap, ReadOpts, ScanOpts, spec_parse_read, spec_parse_scan, spec_parse_put,
    spec_parse_write, parse_read_options, parse_scan_options, parse_put_options,
    parse_write_options, parse_isolation, spec_isolation_of, engine_read_options,
    engine_scan_options,
};
use crate::runtime::{EngineRuntime, block_on};
use crate::snapshot::Snapshot;
use crate::store::{StoreHandle, memory_store, resolve_object_store, spec_url_class, UrlClass};
use crate::text::utf8_lossy;
use crate::transaction::Transaction;
use crate::validate::{
    spec_valid_key, spec_valid_value, spec_text_lt, check_key, check_value, check_range,
};
use crate::write_batch::{
    BatchOp, BatchOpModel, WriteBatch, spec_ops, spec_op_key, spec_batch_effect,
};

verus! {

#[verifier::external_type_specification]
#[verifier::external_body]
pub struct ExDb(slatedb::Db);

#[verifier::external_type_specification]
#[verifier::external_body]
pub struct ExWriteHandle(slatedb::WriteHandle);

/// An engine-side batch under construction for one atomic submission.
/// The engine's batch type shares its name with this crate's
/// accumulator, so it is held opaquely here.
#[verifier::external_body]
pub(crate) struct EngineBatch {
    inner: slatedb::WriteBatch,
}

/// The engine client handle.
pub struct Database {
    rt: EngineRuntime,
    inner: slatedb::Db,
}

/// Relies on slatedb::Db::builder driven on the runtime: opens the
/// engine at `path` over the resolved backend.
#[verifier::external_body]
fn engine_open(rt: &EngineRuntime, path: &str, store: StoreHandle) -> (r: Result<
    slatedb::Db,
    DbError,
>)
{
    match block_on(rt, slatedb::Db::builder(path, store.store).build()) {
        Ok(db) => Ok(db),
        Err(e) => Err(engine_error(e)),
    }
}

/// Relies on slatedb::Db::get_with_options driven on the runtime: the
/// value stored under the key, as bytes, if any.
#[verifier::external_body]
fn engine_db_get(
    rt: &EngineRuntime,
    db: &slatedb::Db,
    key: &str,
    o: &slatedb::config::ReadOptions,
) -> (r: Result<Option<Vec<u8>>, DbError>)
{
    match block_on(rt, db.get_with_options(key.as_bytes(), o)) {
        Ok(Some(b)) => Ok(Some(b.to_vec())),
        Ok(None) => Ok(None),
        Err(e) => Err(engine_error(e)),
    }
}

/// Relies on slatedb::Db::put_with_options driven on the runtime:
/// stores the value under the key with the given time-to-live. The key
/// and value must be within the engine's limits, or the call would
/// abort.
#[verifier::external_body]
fn engine_db_put(
    rt: &EngineRuntime,
    db: &slatedb::Db,
    key: &str,
    value: &str,
    ttl_ms: Option<u64>,
) -> (r: Result<slatedb::WriteHandle, DbError>)
    requires
        spec_valid_key(key@),
        spec_valid_value(value@),
{
    let po = slatedb::config::PutOptions {
        ttl: match ttl_ms {
            Some(ms) => slatedb::config::Ttl::ExpireAfterMillis(ms),
            None => slatedb::config::Ttl::Default,
        },
    };
    let wo = slatedb::config::WriteOptions::default();
    match block_on(rt, db.put_with_options(key.as_bytes(), value.as_bytes(), &po, &wo)) {
        Ok(h) => Ok(h),
        Err(e) => Err(engine_error(e)),
    }
}

/// Relies on slatedb::Db::delete driven on the runtime: removes
/// whatever is stored under the key. The key must be within the
/// engine's limits, or the call would abort.
#[verifier::external_body]
fn engine_db_delete(rt: &EngineRuntime, db: &slatedb::Db, key: &str) -> (r: Result<
    slatedb::WriteHandle,
    DbError,
>)
    requires
        spec_valid_key(key@),
{
    match block_on(rt, db.delete(key.as_bytes())) {
        Ok(h) => Ok(h),
        Err(e) => Err(engine_error(e)),
    }
}

/// Relies on slatedb::WriteHandle::await_durable driven on the runtime:
/// blocks until the write the handle stands for is durably stored.
#[verifier::external_body]
pub(crate) fn engine_await_durable(rt: &EngineRuntime, h: &slatedb::WriteHandle) -> (r: Result<(), DbError>)
{
    match block_on(rt, h.await_durable()) {
        Ok(()) => Ok(()),
        Err(e) => Err(engine_error(e)),
    }
}

/// Relies on slatedb::Db::scan_with_options driven on the runtime: a
/// cursor over the half-open key range, ascending. The range must hold
/// at least one key, or the engine would abort; the engine's byte-wise
/// key order agrees with the character-wise order required here.
#[verifier::external_body]
fn engine_db_scan(
    rt: &EngineRuntime,
    db: &slatedb::Db,
    start: &str,
    end: &Option<String>,
    o: &slatedb::config::ScanOptions,
) -> (r: Result<slatedb::DbIterator, DbError>)
    requires
        end matches Some(e) ==> spec_text_lt(start@, e@),
{
    let start_bytes = start.as_bytes().to_vec();
    let outcome = match end {
        Some(e) => block_on(rt, db.scan_with_options(start_bytes..e.as_bytes().to_vec(), o)),
        None => block_on(rt, db.scan_with_options(start_bytes.., o)),
    };
    match outcome {
        Ok(it) => Ok(it),
        Err(e) => Err(engine_error(e)),
    }
}

/// What the engine-side batch holds: for each key it touches, the
/// operation that will apply — the engine's batch keeps only the last
/// operation recorded per key.
pub uninterp spec fn engine_batch_ops(b: EngineBatch) -> Map<Seq<char>, BatchOpModel>;

/// Relies on slatedb::WriteBatch::new: an empty engine-side batch.
#[verifier::external_body]
fn engine_batch_new() -> (r: EngineBatch)
    ensures
        (engine_batch_ops(r) == Map::<Seq<char>, BatchOpModel>::empty()),
{
    EngineBatch { inner: slatedb::WriteBatch::new() }
}

/// Relies on slatedb::WriteBatch::put_with_options: records a put of
/// the value under the key with the given time-to-live; a later
/// operation on the same key replaces an earlier one. The key and value
/// must be within the engine's limits, or the call would abort.
#[verifier::external_body]
fn engine_batch_put(b: &mut EngineBatch, key: &String, value: &String, ttl_ms: Option<u64>)
    requires
        spec_valid_key(key@),
        spec_valid_value(value@),
    ensures
        engine_batch_ops(*final(b)) == engine_batch_ops(*old(b)).insert(
            key@,
            BatchOpModel::Put { key: key@, value: value@, ttl_ms },
        ),
{
    let po = slatedb::config::PutOptions {
        ttl: match ttl_ms {
            Some(ms) => slatedb::config::Ttl::ExpireAfterMillis(ms),
            None => slatedb::config::Ttl::Default,
        },
    };
    b.inner.put_with_options(key.as_bytes(), value.as_bytes(), &po);
}

/// Relies on slatedb::WriteBatch::delete: records a delete of the key;
/// a later operation on the same key replaces an earlier one. The key
/// must be within the engine's limits, or the call would abort.
#[verifier::external_body]
fn engine_batch_delete(b: &mut EngineBatch, key: &String)
    requires
        spec_valid_key(key@),
    ensures
        engine_batch_ops(*final(b)) == engine_batch_ops(*old(b)).insert(
            key@,
            BatchOpModel::Delete { key: key@ },
        ),
{
    b.inner.delete(key.as_bytes());
}

/// Relies on slatedb::Db::write_with_options driven on the runtime:
/// applies the batch atomically.
#[verifier::external_body]
fn engine_db_write(rt: &EngineRuntime, db: &slatedb::Db, batch: EngineBatch) -> (r: Result<
    slatedb::WriteHandle,
    DbError,
>)
{
    let wo = slatedb::config::WriteOptions::default();
    match block_on(rt, db.write_with_options(batch.inner, &wo)) {
        Ok(h) => Ok(h),
        Err(e) => Err(engine_error(e)),
    }
}

/// Relies on slatedb::Db::flush driven on the runtime: blocks until
/// in-memory writes are durably stored.
#[verifier::external_body]
fn engine_db_flush(rt: &EngineRuntime, db: &slatedb::Db) -> (r: Result<(), DbError>)
{
    match block_on(rt, db.flush()) {
        Ok(()) => Ok(()),
        Err(e) => Err(engine_error(e)),
    }
}

/// Relies on slatedb::Db::close driven on the runtime: shuts the engine
/// instance down; later engine calls through any sharer fail with a
/// closed error from the engine itself.
#[verifier::external_body]
fn engine_db_close(rt: &EngineRuntime, db: &slatedb::Db) -> (r: Result<(), DbError>)
{
    match block_on(rt, db.close()) {
        Ok(()) => Ok(()),
        Err(e) => Err(engine_error(e)),
    }
}

impl Database {
    /// Open an engine instance at `path`. With a URL the backend is
    /// resolved from it — an unparseable URL fails as an invalid
    /// argument before any engine work — and without one a fresh
    /// in-memory backend is used.
    pub fn open(rt: &EngineRuntime, path: &str, url: &Option<String>) -> (r: Result<
        Database,
        DbError,
    >)
        ensures
            (url matches Some(u) && spec_url_class(u@) == UrlClass::NotAUrl) ==> (r matches Err(e)
                && e.kind == ErrorKind::Invalid),
            (url matches Some(u) && spec_url_class(u@) == UrlClass::Unrecognized) ==> (r matches
            Err(e) && e.kind == ErrorKind::Unavailable),
    {
        let store = match url {
            Some(u) => resolve_object_store(u)?,
            None => memory_store(),
        };
        let inner = engine_open(rt, path, store)?;
        Ok(Database { rt: rt.clone(), inner })
    }

    /// The value stored under `key`, as text, with default read
    /// options. An invalid key fails as an invalid argument with no
    /// engine call.
    pub fn get(&self, key: &str) -> (r: Result<Option<String>, DbError>)
        ensures
            !spec_valid_key(key@) ==> (r matches Err(e) && e.kind == ErrorKind::Invalid),
    {
        check_key(key)?;
        let o = engine_read_options(&ReadOpts { durability_filter: None, dirty: None });
        match engine_db_get(&self.rt, &self.inner, key, &o) {
            Ok(Some(b)) => Ok(Some(utf8_lossy(&b))),
            Ok(None) => Ok(None),
            Err(e) => Err(e),
        }
    }

    /// The value stored under `key`, as text, under a translated read
    /// option map. An invalid key or option map fails as an invalid
    /// argument with no engine call.
    pub fn get_with_options(&self, key: &str, opts: &OptionMap) -> (r: Result<
        Option<String>,
        DbError,
    >)
        ensures
            !spec_valid_key(key@) ==> (r matches Err(e) && e.kind == ErrorKind::Invalid),
            spec_valid_key(key@) && spec_parse_read(opts.entries@) is None ==> (r matches Err(e)
                && e.kind == ErrorKind::Invalid),
    {
        check_key(key)?;
        let ro: ReadOpts = parse_read_options(opts)?;
        let o = engine_read_options(&ro);
        match engine_db_get(&self.rt, &self.inner, key, &o) {
            Ok(Some(b)) => Ok(Some(utf8_lossy(&b))),
            Ok(None) => Ok(None),
            Err(e) => Err(e),
        }
    }

    /// The value stored under `key`, as raw bytes, with default read
    /// options. An invalid key fails as an invalid argument with no
    /// engine call.
    pub fn get_bytes(&self, key: &str) -> (r: Result<Option<Vec<u8>>, DbError>)
        ensures
            !spec_valid_key(key@) ==> (r matches Err(e) && e.kind == ErrorKind::Invalid),
    {
        check_key(key)?;
        let o = engine_read_options(&ReadOpts { durability_filter: None, dirty: None });
        engine_db_get(&self.rt, &self.inner, key, &o)
    }

    /// Store `value` under `key` and wait until the write is durable.
    /// An invalid key or value fails as an invalid argument with no
    /// engine call.
    pub fn put(&self, key: &str, value: &str) -> (r: Result<(), DbError>)
        ensures
            !(spec_valid_key(key@) && spec_valid_value(value@)) ==> (r matches Err(e) && e.kind
                == ErrorKind::Invalid),
    {
        check_key(key)?;
        check_value(value)?;
        let h = engine_db_put(&self.rt, &self.inner, key, value, None)?;
        engine_await_durable(&self.rt, &h)
    }

    /// Store `value` under `key` under a translated option map: an
    /// optional time-to-live override, and whether to wait for
    /// durability (waiting unless disabled). An invalid key, value or
    /// option map fails as an invalid argument with no engine call.
    pub fn put_with_options(&self, key: &str, value: &str, opts: &OptionMap) -> (r: Result<
        (),
        DbError,
    >)
        ensures
            !(spec_valid_key(key@) && spec_valid_value(value@)) ==> (r matches Err(e) && e.kind
                == ErrorKind::Invalid),
            spec_valid_key(key@) && spec_valid_value(value@) && (spec_parse_put(opts.entries@)
                is None || spec_parse_write(opts.entries@) is None) ==> (r matches Err(e) && e.kind
                == ErrorKind::Invalid),
    {
        check_key(key)?;
        check_value(value)?;
        let p = parse_put_options(opts)?;
        let w = parse_write_options(opts)?;
        let h = engine_db_put(&self.rt, &self.inner, key, value, p.ttl_ms)?;
        if w.await_durable {
            engine_await_durable(&self.rt, &h)?;
        }
        Ok(())
    }

    /// Remove whatever is stored under `key` and wait until the delete
    /// is durable. An invalid key fails as an invalid argument with no
    /// engine call.
    pub fn delete(&self, key: &str) -> (r: Result<(), DbError>)
        ensures
            !spec_valid_key(key@) ==> (r matches Err(e) && e.kind == ErrorKind::Invalid),
    {
        check_key(key)?;
        let h = engine_db_delete(&self.rt, &self.inner, key)?;
        engine_await_durable(&self.rt, &h)
    }

    /// Remove whatever is stored under `key` under a translated option
    /// map: whether to wait for durability (waiting unless disabled).
    /// An invalid key or option map fails as an invalid argument with
    /// no engine call.
    pub fn delete_with_options(&self, key: &str, opts: &OptionMap) -> (r: Result<(), DbError>)
        ensures
            !spec_valid_key(key@) ==> (r matches Err(e) && e.kind == ErrorKind::Invalid),
            spec_valid_key(key@) && spec_parse_write(opts.entries@) is None ==> (r matches Err(e)
                && e.kind == ErrorKind::Invalid),
    {
        check_key(key)?;
        let w = parse_write_options(opts)?;
        let h = engine_db_delete(&self.rt, &self.inner, key)?;
        if w.await_durable {
            engine_await_durable(&self.rt, &h)?;
        }
        Ok(())
    }

    /// A cursor over the half-open range from `start` (inclusive) to
    /// `end` (exclusive), or to the end of the keyspace without `end`,
    /// with default scan options. An invalid start key fails as an
    /// invalid argument with no engine call; the returned cursor starts
    /// open.
    pub fn scan(&self, start: &str, end: &Option<String>) -> (r: Result<Iterator, DbError>)
        ensures
            !spec_valid_key(start@) ==> (r matches Err(e) && e.kind == ErrorKind::Invalid),
            (spec_valid_key(start@) && (end matches Some(e) && !spec_text_lt(start@, e@))) ==> (r
                matches Err(er) && er.kind == ErrorKind::Invalid),
            r matches Ok(it) ==> !it.spec_is_closed(),
    {
        check_key(start)?;
        check_range(start, end)?;
        let o = engine_scan_options(
            &ScanOpts {
                durability_filter: None,
                dirty: None,
                read_ahead_bytes: None,
                cache_blocks: None,
                max_fetch_tasks: None,
            },
        );
        let it = engine_db_scan(&self.rt, &self.inner, start, end, &o)?;
        Ok(Iterator::new(&self.rt, it))
    }

    /// A cursor over the half-open range under a translated scan option
    /// map. An invalid start key or option map fails as an invalid
    /// argument with no engine call; the returned cursor starts open.
    pub fn scan_with_options(&self, start: &str, end: &Option<String>, opts: &OptionMap) -> (r:
        Result<Iterator, DbError>)
        ensures
            !spec_valid_key(start@) ==> (r matches Err(e) && e.kind == ErrorKind::Invalid),
            (spec_valid_key(start@) && (end matches Some(e) && !spec_text_lt(start@, e@))) ==> (r
                matches Err(er) && er.kind == ErrorKind::Invalid),
            spec_valid_key(start@) && (end matches Some(e) ==> spec_text_lt(start@, e@))
                && spec_parse_scan(opts.entries@) is None ==> (r matches Err(e) && e.kind
                == ErrorKind::Invalid),
            r matches Ok(it) ==> !it.spec_is_closed(),
    {
        check_key(start)?;
        check_range(start, end)?;
        let so: ScanOpts = parse_scan_options(opts)?;
        let o = engine_scan_options(&so);
        let it = engine_db_scan(&self.rt, &self.inner, start, end, &o)?;
        Ok(Iterator::new(&self.rt, it))
    }

    /// Build the engine-side batch for one submission, re-checking
    /// each key and value against the engine's limits on the way. The
    /// built batch holds exactly the net effect of the taken
    /// operations: for each key, the last operation on it.
    fn build_engine_batch(&self, ops: &Vec<BatchOp>) -> (r: Result<EngineBatch, DbError>)
        ensures
            r matches Ok(eb) ==> engine_batch_ops(eb) == spec_batch_effect(spec_ops(ops@)),
            r matches Err(e) ==> e.kind == ErrorKind::Invalid,
    {
        let mut eb = engine_batch_new();
        let mut i: usize = 0;
        proof {
            assert(ops@.subrange(0, 0) =~= Seq::<BatchOp>::empty());
            assert(spec_ops(Seq::<BatchOp>::empty()) =~= Seq::<BatchOpModel>::empty());
        }
        while i < ops.len()
            invariant
                i <= ops.len(),
                engine_batch_ops(eb) == spec_batch_effect(spec_ops(ops@.subrange(0, i as int))),
            decreases ops.len() - i,
        {
            match &ops[i] {
                BatchOp::Put { key, value, ttl_ms } => {
                    check_key(key.as_str())?;
                    check_value(value.as_str())?;
                    engine_batch_put(&mut eb, key, value, *ttl_ms);
                },
                BatchOp::Delete { key } => {
                    check_key(key.as_str())?;
                    engine_batch_delete(&mut eb, key);
                },
            }
            proof {
                let m1 = spec_ops(ops@.subrange(0, i + 1));
                assert(ops@.subrange(0, i + 1).drop_last() =~= ops@.subrange(0, i as int));
                assert(m1.drop_last() =~= spec_ops(ops@.subrange(0, i as int)));
                assert(m1.last() == ops@[i as int]@);
            }
            i = i + 1;
        }
        proof {
            assert(ops@.subrange(0, ops@.len() as int) =~= ops@);
        }
        Ok(eb)
    }

    /// Submit taken operations as one engine batch.
    fn submit_ops(&self, ops: &Vec<BatchOp>, await_durable: bool) -> (r: Result<(), DbError>)
    {
        let eb = self.build_engine_batch(ops)?;
        let h = engine_db_write(&self.rt, &self.inner, eb)?;
        if await_durable {
            engine_await_durable(&self.rt, &h)?;
        }
        Ok(())
    }

    /// Apply the batch's accumulated operations atomically and wait
    /// until the write is durable. The batch is consumed: it is left
    /// empty and reusable, and no operation it held can be submitted
    /// twice.
    pub fn write(&self, batch: &mut WriteBatch) -> (r: Result<(), DbError>)
        ensures
            final(batch)@ =~= Seq::<BatchOpModel>::empty(),
    {
        let ops = batch.take();
        self.submit_ops(&ops, true)
    }

    /// Apply the batch's accumulated operations atomically under a
    /// translated option map: whether to wait for durability (waiting
    /// unless disabled). An invalid option map fails as an invalid
    /// argument before the batch is consumed; otherwise the batch is
    /// left empty.
    pub fn write_with_options(&self, batch: &mut WriteBatch, opts: &OptionMap) -> (r: Result<
        (),
        DbError,
    >)
        ensures
            spec_parse_write(opts.entries@) is None ==> (r matches Err(e) && e.kind
                == ErrorKind::Invalid) && final(batch)@ == old(batch)@,
            spec_parse_write(opts.entries@) is Some ==> final(batch)@ =~= Seq::<
                BatchOpModel,
            >::empty(),
    {
        let w = parse_write_options(opts)?;
        let ops = batch.take();
        self.submit_ops(&ops, w.await_durable)
    }

    /// Begin a transaction under the denoted isolation level: snapshot
    /// isolation when none is given, serializable snapshot isolation on
    /// request. An unrecognized literal fails as an invalid argument
    /// with no engine call; a begun transaction starts open.
    pub fn begin_transaction(&self, isolation: &Option<String>) -> (r: Result<Transaction, DbError>)
        ensures
            (isolation matches Some(s) && spec_isolation_of(s@) is None) ==> (r matches Err(e)
                && e.kind == ErrorKind::Invalid),
            r matches Ok(t) ==> !t.spec_is_closed(),
    {
        let level = parse_isolation(isolation)?;
        let txn = crate::transaction::engine_begin(&self.rt, &self.inner, level)?;
        Ok(Transaction::new(&self.rt, txn))
    }

    /// A consistent point-in-time view of the engine. A created
    /// snapshot starts open.
    pub fn snapshot(&self) -> (r: Result<Snapshot, DbError>)
        ensures
            r matches Ok(s) ==> !s.spec_is_closed(),
    {
        let snap = crate::snapshot::engine_snapshot(&self.rt, &self.inner)?;
        Ok(Snapshot::new(&self.rt, snap))
    }

    /// Block until all in-memory writes are durably stored.
    pub fn flush(&self) -> (r: Result<(), DbError>)
    {
        engine_db_flush(&self.rt, &self.inner)
    }

    /// Shut the engine instance down. The handle itself keeps no local
    /// state: whether later calls fail is the engine's decision, shared
    /// by every owner of the instance.
    pub fn close(&self) -> (r: Result<(), DbError>)
    {
        engine_db_close(&self.rt, &self.inner)
    }
}

} // verus!
