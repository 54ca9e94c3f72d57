//! A single-owner transaction handle.
//!
//! The handle begins open. Reads observe the transaction's own buffered
//! writes over a consistent base view fixed at begin, under the
//! isolation level chosen there. Put and delete buffer locally with no
//! engine round-trip. Commit consumes the handle — whether it succeeds
//! or fails, the handle is closed afterwards and a failed commit is
//! never retried on it. Rollback discards the buffered state without
//! contacting storage and is harmless on a closed handle. Every other
//! operation on a closed handle fails with a lifecycle error and does
//! no engine work.

use vstd::prelude::*;

use crate::errors::{DbError, ErrorKind, closed_error, engine_error};
use crate::iterator::Iterator;
use crate::options::{
    OptionMap, ReadOpts, ScanOpts, Isolation, spec_parse_read, spec_parse_scan, spec_parse_put,
    spec_parse_write, parse_read_options, parse_scan_options, parse_put_options,
    parse_write_options, engine_read_options, engine_scan_options,
};
use crate::runtime::{EngineRuntime, block_on};
use crate::text::utf8_lossy;
use crate::validate::{
    spec_valid_key, spec_valid_value, spec_text_lt, check_key, check_value, check_range,
};

verus! {

#[verifier::external_type_specification]
#[verifier::external_body]
pub struct ExDbTransaction(slatedb::DbTransaction);

/// A transaction handle: the engine transaction while open, nothing
/// once committed or rolled back.
pub struct Transaction {
    rt: EngineRuntime,
    inner: Option<slatedb::DbTransaction>,
}

/// Relies on slatedb::Db::begin driven on the runtime: starts a
/// transaction under the given isolation level.
#[verifier::external_body]
pub(crate) fn engine_begin(rt: &EngineRuntime, db: &slatedb::Db, level: Isolation) -> (r: Result<
    slatedb::DbTransaction,
    DbError,
>)
{
    let l = match level {
        Isolation::Snapshot => slatedb::IsolationLevel::Snapshot,
        Isolation::Serializable => slatedb::IsolationLevel::SerializableSnapshot,
    };
    match block_on(rt, db.begin(l)) {
        Ok(txn) => Ok(txn),
        Err(e) => Err(engine_error(e)),
    }
}

/// Relies on slatedb::DbTransaction::get_with_options driven on the
/// runtime: the value under the key as this transaction sees it — its
/// own buffered writes layered over the base view.
#[verifier::external_body]
fn engine_txn_get(
    rt: &EngineRuntime,
    txn: &slatedb::DbTransaction,
    key: &str,
    o: &slatedb::config::ReadOptions,
) -> (r: Result<Option<Vec<u8>>, DbError>)
{
    match block_on(rt, txn.get_with_options(key.as_bytes(), o)) {
        Ok(Some(b)) => Ok(Some(b.to_vec())),
        Ok(None) => Ok(None),
        Err(e) => Err(engine_error(e)),
    }
}

/// Relies on slatedb::DbTransaction::put_with_options: buffers a put in
/// the transaction, no engine round-trip. The key and value must be
/// within the engine's limits, or the call would abort.
#[verifier::external_body]
fn engine_txn_put(
    txn: &slatedb::DbTransaction,
    key: &str,
    value: &str,
    ttl_ms: Option<u64>,
) -> (r: Result<(), DbError>)
    requires
        spec_valid_key(key@),
        spec_valid_value(value@),
{
    let po = slatedb::config::PutOptions {
        ttl: match ttl_ms {
            Some(ms) => slatedb::config::Ttl::ExpireAfterMillis(ms),
            None => slatedb::config::Ttl::Default,
        },
    };
    match txn.put_with_options(key.as_bytes(), value.as_bytes(), &po) {
        Ok(()) => Ok(()),
        Err(e) => Err(engine_error(e)),
    }
}

/// Relies on slatedb::DbTransaction::delete: buffers a delete in the
/// transaction, no engine round-trip. The key must be within the
/// engine's limits, or the call would abort.
#[verifier::external_body]
fn engine_txn_delete(txn: &slatedb::DbTransaction, key: &str) -> (r: Result<(), DbError>)
    requires
        spec_valid_key(key@),
{
    match txn.delete(key.as_bytes()) {
        Ok(()) => Ok(()),
        Err(e) => Err(engine_error(e)),
    }
}

/// Relies on slatedb::DbTransaction::scan_with_options driven on the
/// runtime: a cursor over the half-open range as this transaction sees
/// it. The range must hold at least one key, or the engine would
/// abort; the engine's byte-wise key order agrees with the
/// character-wise order required here.
#[verifier::external_body]
fn engine_txn_scan(
    rt: &EngineRuntime,
    txn: &slatedb::DbTransaction,
    start: &str,
    end: &Option<String>,
    o: &slatedb::config::ScanOptions,
) -> (r: Result<slatedb::DbIterator, DbError>)
    requires
        end matches Some(e) ==> spec_text_lt(start@, e@),
{
    let start_bytes = start.as_bytes().to_vec();
    let outcome = match end {
        Some(e) => block_on(rt, txn.scan_with_options(start_bytes..e.as_bytes().to_vec(), o)),
        None => block_on(rt, txn.scan_with_options(start_bytes.., o)),
    };
    match outcome {
        Ok(it) => Ok(it),
        Err(e) => Err(engine_error(e)),
    }
}

/// Relies on slatedb::DbTransaction::commit driven on the runtime:
/// commits the buffered writes, detecting conflicts under the chosen
/// isolation level, and consumes the transaction either way.
#[verifier::external_body]
fn engine_txn_commit(rt: &EngineRuntime, txn: slatedb::DbTransaction) -> (r: Result<
    Option<slatedb::WriteHandle>,
    DbError,
>)
{
    match block_on(rt, txn.commit()) {
        Ok(h) => Ok(h),
        Err(e) => Err(engine_error(e)),
    }
}

/// Relies on slatedb::DbTransaction::rollback: discards the buffered
/// state without contacting storage.
#[verifier::external_body]
fn engine_txn_rollback(txn: slatedb::DbTransaction)
{
    txn.rollback();
}

impl Transaction {
    /// Whether the transaction has reached its terminal closed state.
    pub closed spec fn spec_is_closed(&self) -> bool {
        self.inner is None
    }

    /// Wrap a begun engine transaction; the new handle is open.
    pub fn new(rt: &EngineRuntime, txn: slatedb::DbTransaction) -> (r: Transaction)
        ensures
            !r.spec_is_closed(),
    {
        Transaction { rt: rt.clone(), inner: Some(txn) }
    }

    /// The value under `key` as this transaction sees it, as text. An
    /// invalid key is an invalid argument and a closed handle a
    /// lifecycle error, each with no engine work.
    pub fn get(&self, key: &str) -> (r: Result<Option<String>, DbError>)
        ensures
            !spec_valid_key(key@) ==> (r matches Err(e) && e.kind == ErrorKind::Invalid),
            spec_valid_key(key@) && self.spec_is_closed() ==> (r matches Err(e) && e.kind
                == ErrorKind::Closed),
    {
        check_key(key)?;
        match &self.inner {
            None => Err(closed_error("transaction is closed")),
            Some(txn) => {
                let o = engine_read_options(&ReadOpts { durability_filter: None, dirty: None });
                match engine_txn_get(&self.rt, txn, key, &o) {
                    Ok(Some(b)) => Ok(Some(utf8_lossy(&b))),
                    Ok(None) => Ok(None),
                    Err(e) => Err(e),
                }
            },
        }
    }

    /// The value under `key` as this transaction sees it, under a
    /// translated read option map. An invalid key or option map is an
    /// invalid argument and a closed handle a lifecycle error, each
    /// with no engine work.
    pub fn get_with_options(&self, key: &str, opts: &OptionMap) -> (r: Result<
        Option<String>,
        DbError,
    >)
        ensures
            !spec_valid_key(key@) ==> (r matches Err(e) && e.kind == ErrorKind::Invalid),
            spec_valid_key(key@) && spec_parse_read(opts.entries@) is None ==> (r matches Err(e)
                && e.kind == ErrorKind::Invalid),
            spec_valid_key(key@) && spec_parse_read(opts.entries@) is Some
                && self.spec_is_closed() ==> (r matches Err(e) && e.kind == ErrorKind::Closed),
    {
        check_key(key)?;
        let ro: ReadOpts = parse_read_options(opts)?;
        match &self.inner {
            None => Err(closed_error("transaction is closed")),
            Some(txn) => {
                let o = engine_read_options(&ro);
                match engine_txn_get(&self.rt, txn, key, &o) {
                    Ok(Some(b)) => Ok(Some(utf8_lossy(&b))),
                    Ok(None) => Ok(None),
                    Err(e) => Err(e),
                }
            },
        }
    }

    /// Buffer a put of `value` under `key` with the default
    /// time-to-live; no engine round-trip. An invalid key or value is
    /// an invalid argument and a closed handle a lifecycle error.
    pub fn put(&self, key: &str, value: &str) -> (r: Result<(), DbError>)
        ensures
            !(spec_valid_key(key@) && spec_valid_value(value@)) ==> (r matches Err(e) && e.kind
                == ErrorKind::Invalid),
            spec_valid_key(key@) && spec_valid_value(value@) && self.spec_is_closed() ==> (r
                matches Err(e) && e.kind == ErrorKind::Closed),
    {
        check_key(key)?;
        check_value(value)?;
        match &self.inner {
            None => Err(closed_error("transaction is closed")),
            Some(txn) => engine_txn_put(txn, key, value, None),
        }
    }

    /// Buffer a put of `value` under `key`, with an optional
    /// time-to-live override from the option map; no engine round-trip.
    /// An invalid key, value or option map is an invalid argument and a
    /// closed handle a lifecycle error.
    pub fn put_with_options(&self, key: &str, value: &str, opts: &OptionMap) -> (r: Result<
        (),
        DbError,
    >)
        ensures
            !(spec_valid_key(key@) && spec_valid_value(value@)) ==> (r matches Err(e) && e.kind
                == ErrorKind::Invalid),
            spec_valid_key(key@) && spec_valid_value(value@) && spec_parse_put(opts.entries@)
                is None ==> (r matches Err(e) && e.kind == ErrorKind::Invalid),
            spec_valid_key(key@) && spec_valid_value(value@) && spec_parse_put(opts.entries@)
                is Some && self.spec_is_closed() ==> (r matches Err(e) && e.kind
                == ErrorKind::Closed),
    {
        check_key(key)?;
        check_value(value)?;
        let p = parse_put_options(opts)?;
        match &self.inner {
            None => Err(closed_error("transaction is closed")),
            Some(txn) => engine_txn_put(txn, key, value, p.ttl_ms),
        }
    }

    /// Buffer a delete of `key`; no engine round-trip. An invalid key
    /// is an invalid argument and a closed handle a lifecycle error.
    pub fn delete(&self, key: &str) -> (r: Result<(), DbError>)
        ensures
            !spec_valid_key(key@) ==> (r matches Err(e) && e.kind == ErrorKind::Invalid),
            spec_valid_key(key@) && self.spec_is_closed() ==> (r matches Err(e) && e.kind
                == ErrorKind::Closed),
    {
        check_key(key)?;
        match &self.inner {
            None => Err(closed_error("transaction is closed")),
            Some(txn) => engine_txn_delete(txn, key),
        }
    }

    /// A cursor over the half-open range as this transaction sees it,
    /// with default scan options. An invalid start key is an invalid
    /// argument and a closed handle a lifecycle error; the returned
    /// cursor starts open.
    pub fn scan(&self, start: &str, end: &Option<String>) -> (r: Result<Iterator, DbError>)
        ensures
            !spec_valid_key(start@) ==> (r matches Err(e) && e.kind == ErrorKind::Invalid),
            (spec_valid_key(start@) && (end matches Some(e) && !spec_text_lt(start@, e@))) ==> (r
                matches Err(er) && er.kind == ErrorKind::Invalid),
            spec_valid_key(start@) && (end matches Some(e) ==> spec_text_lt(start@, e@))
                && self.spec_is_closed() ==> (r matches Err(e) && e.kind == ErrorKind::Closed),
            r matches Ok(it) ==> !it.spec_is_closed(),
    {
        check_key(start)?;
        check_range(start, end)?;
        match &self.inner {
            None => Err(closed_error("transaction is closed")),
            Some(txn) => {
                let o = engine_scan_options(
                    &ScanOpts {
                        durability_filter: None,
                        dirty: None,
                        read_ahead_bytes: None,
                        cache_blocks: None,
                        max_fetch_tasks: None,
                    },
                );
                let it = engine_txn_scan(&self.rt, txn, start, end, &o)?;
                Ok(Iterator::new(&self.rt, it))
            },
        }
    }

    /// A cursor over the half-open range as this transaction sees it,
    /// under a translated scan option map. An invalid start key or
    /// option map is an invalid argument and a closed handle a
    /// lifecycle error; the returned cursor starts open.
    pub fn scan_with_options(&self, start: &str, end: &Option<String>, opts: &OptionMap) -> (r:
        Result<Iterator, DbError>)
        ensures
            !spec_valid_key(start@) ==> (r matches Err(e) && e.kind == ErrorKind::Invalid),
            (spec_valid_key(start@) && (end matches Some(e) && !spec_text_lt(start@, e@))) ==> (r
                matches Err(er) && er.kind == ErrorKind::Invalid),
            spec_valid_key(start@) && (end matches Some(e) ==> spec_text_lt(start@, e@))
                && spec_parse_scan(opts.entries@) is None ==> (r matches Err(e) && e.kind
                == ErrorKind::Invalid),
            spec_valid_key(start@) && (end matches Some(e) ==> spec_text_lt(start@, e@))
                && spec_parse_scan(opts.entries@) is Some && self.spec_is_closed() ==> (r matches
            Err(e) && e.kind == ErrorKind::Closed),
            r matches Ok(it) ==> !it.spec_is_closed(),
    {
        check_key(start)?;
        check_range(start, end)?;
        let so: ScanOpts = parse_scan_options(opts)?;
        match &self.inner {
            None => Err(closed_error("transaction is closed")),
            Some(txn) => {
                let o = engine_scan_options(&so);
                let it = engine_txn_scan(&self.rt, txn, start, end, &o)?;
                Ok(Iterator::new(&self.rt, it))
            },
        }
    }

    /// Commit the buffered writes and wait until they are durable. The
    /// handle is consumed: whether the commit succeeds or fails — a
    /// conflict under the serializable mode surfaces here as a
    /// transaction error — the handle is closed afterwards, and a
    /// failed commit is never retried on it. On an already-closed
    /// handle: a lifecycle error.
    pub fn commit(&mut self) -> (r: Result<(), DbError>)
        ensures
            old(self).spec_is_closed() ==> (r matches Err(e) && e.kind == ErrorKind::Closed),
            final(self).spec_is_closed(),
    {
        match self.inner.take() {
            None => Err(closed_error("transaction is closed")),
            Some(txn) => match engine_txn_commit(&self.rt, txn) {
                Ok(Some(h)) => crate::database::engine_await_durable(&self.rt, &h),
                Ok(None) => Ok(()),
                Err(e) => Err(e),
            },
        }
    }

    /// Commit under a translated option map: whether to wait for
    /// durability (waiting unless disabled). An invalid option map is
    /// an invalid argument and leaves the handle as it was; otherwise
    /// the handle is closed whatever the outcome.
    pub fn commit_with_options(&mut self, opts: &OptionMap) -> (r: Result<(), DbError>)
        ensures
            spec_parse_write(opts.entries@) is None ==> (r matches Err(e) && e.kind
                == ErrorKind::Invalid) && final(self).spec_is_closed() == old(
                self,
            ).spec_is_closed(),
            spec_parse_write(opts.entries@) is Some && old(self).spec_is_closed() ==> (r matches
            Err(e) && e.kind == ErrorKind::Closed),
            spec_parse_write(opts.entries@) is Some ==> final(self).spec_is_closed(),
    {
        let w = parse_write_options(opts)?;
        match self.inner.take() {
            None => Err(closed_error("transaction is closed")),
            Some(txn) => match engine_txn_commit(&self.rt, txn) {
                Ok(Some(h)) => {
                    if w.await_durable {
                        crate::database::engine_await_durable(&self.rt, &h)
                    } else {
                        Ok(())
                    }
                },
                Ok(None) => Ok(()),
                Err(e) => Err(e),
            },
        }
    }

    /// Discard the buffered state without contacting storage and close
    /// the handle. Harmless on a closed handle: it succeeds and changes
    /// nothing.
    pub fn rollback(&mut self) -> (r: Result<(), DbError>)
        ensures
            final(self).spec_is_closed(),
            r is Ok,
    {
        match self.inner.take() {
            None => Ok(()),
            Some(txn) => {
                engine_txn_rollback(txn);
                Ok(())
            },
        }
    }

    /// Whether the transaction has been committed or rolled back.
    pub fn is_closed(&self) -> (r: bool)
        ensures
            r == self.spec_is_closed(),
    {
        self.inner.is_none()
    }
}

} // verus!
