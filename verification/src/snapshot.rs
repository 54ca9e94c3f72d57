//! A single-owner wrapper over a shared point-in-time view.
//!
//! The handle holds an optional share of the view. Reads require the
//! share to be present; close extracts and drops it, and is harmless
//! when repeated. A read on a closed handle fails with a lifecycle
//! error and does no engine work.

use vstd::prelude::*;

use crate::errors::{DbError, ErrorKind, closed_error, engine_error};
use crate::iterator::Iterator;
use crate::options::{
    OptionMap, ReadOpts, ScanOpts, spec_parse_read, spec_parse_scan, parse_read_options,
    parse_scan_options, engine_read_options, engine_scan_options,
};
use crate::runtime::{EngineRuntime, block_on};
use crate::text::utf8_lossy;
use crate::validate::{spec_valid_key, spec_text_lt, check_key, check_range};

verus! {

#[verifier::external_type_specification]
#[verifier::external_body]
pub struct ExDbSnapshot(slatedb::DbSnapshot);

/// A snapshot handle: a share of the point-in-time view while open,
/// nothing once closed.
pub struct Snapshot {
    rt: EngineRuntime,
    inner: Option<std::sync::Arc<slatedb::DbSnapshot>>,
}

/// Relies on slatedb::Db::snapshot driven on the runtime: a shared
/// point-in-time view of the engine.
#[verifier::external_body]
pub(crate) fn engine_snapshot(rt: &EngineRuntime, db: &slatedb::Db) -> (r: Result<
    std::sync::Arc<slatedb::DbSnapshot>,
    DbError,
>)
{
    match block_on(rt, db.snapshot()) {
        Ok(s) => Ok(s),
        Err(e) => Err(engine_error(e)),
    }
}

/// Relies on slatedb::DbSnapshot::get_with_options driven on the
/// runtime: the value under the key as of the snapshot's point in time.
#[verifier::external_body]
fn engine_snap_get(
    rt: &EngineRuntime,
    snap: &std::sync::Arc<slatedb::DbSnapshot>,
    key: &str,
    o: &slatedb::config::ReadOptions,
) -> (r: Result<Option<Vec<u8>>, DbError>)
{
    match block_on(rt, snap.get_with_options(key.as_bytes(), o)) {
        Ok(Some(b)) => Ok(Some(b.to_vec())),
        Ok(None) => Ok(None),
        Err(e) => Err(engine_error(e)),
    }
}

/// Relies on slatedb::DbSnapshot::scan_with_options driven on the
/// runtime: a cursor over the half-open range as of the snapshot's
/// point in time. The range must hold at least one key, or the engine
/// would abort; the engine's byte-wise key order agrees with the
/// character-wise order required here.
#[verifier::external_body]
fn engine_snap_scan(
    rt: &EngineRuntime,
    snap: &std::sync::Arc<slatedb::DbSnapshot>,
    start: &str,
    end: &Option<String>,
    o: &slatedb::config::ScanOptions,
) -> (r: Result<slatedb::DbIterator, DbError>)
    requires
        end matches Some(e) ==> spec_text_lt(start@, e@),
{
    let start_bytes = start.as_bytes().to_vec();
    let outcome = match end {
        Some(e) => block_on(rt, snap.scan_with_options(start_bytes..e.as_bytes().to_vec(), o)),
        None => block_on(rt, snap.scan_with_options(start_bytes.., o)),
    };
    match outcome {
        Ok(it) => Ok(it),
        Err(e) => Err(engine_error(e)),
    }
}

impl Snapshot {
    /// Whether the share has been dropped.
    pub closed spec fn spec_is_closed(&self) -> bool {
        self.inner is None
    }

    /// Wrap a share of a point-in-time view; the new handle is open.
    pub fn new(rt: &EngineRuntime, snapshot: std::sync::Arc<slatedb::DbSnapshot>) -> (r: Snapshot)
        ensures
            !r.spec_is_closed(),
    {
        Snapshot { rt: rt.clone(), inner: Some(snapshot) }
    }

    /// The value under `key` as of the snapshot's point in time, as
    /// text. An invalid key is an invalid argument and a closed handle
    /// a lifecycle error, each with no engine work.
    pub fn get(&self, key: &str) -> (r: Result<Option<String>, DbError>)
        ensures
            !spec_valid_key(key@) ==> (r matches Err(e) && e.kind == ErrorKind::Invalid),
            spec_valid_key(key@) && self.spec_is_closed() ==> (r matches Err(e) && e.kind
                == ErrorKind::Closed),
    {
        check_key(key)?;
        match &self.inner {
            None => Err(closed_error("snapshot is closed")),
            Some(snap) => {
                let o = engine_read_options(&ReadOpts { durability_filter: None, dirty: None });
                match engine_snap_get(&self.rt, snap, key, &o) {
                    Ok(Some(b)) => Ok(Some(utf8_lossy(&b))),
                    Ok(None) => Ok(None),
                    Err(e) => Err(e),
                }
            },
        }
    }

    /// The value under `key` as of the snapshot's point in time, under
    /// a translated read option map. An invalid key or option map is an
    /// invalid argument and a closed handle a lifecycle error, each
    /// with no engine work.
    pub fn get_with_options(&self, key: &str, opts: &OptionMap) -> (r: Result<
        Option<String>,
        DbError,
    >)
        ensures
            !spec_valid_key(key@) ==> (r matches Err(e) && e.kind == ErrorKind::Invalid),
            spec_valid_key(key@) && spec_parse_read(opts.entries@) is None ==> (r matches Err(e)
                && e.kind == ErrorKind::Invalid),
            spec_valid_key(key@) && spec_parse_read(opts.entries@) is Some
                && self.spec_is_closed() ==> (r matches Err(e) && e.kind == ErrorKind::Closed),
    {
        check_key(key)?;
        let ro: ReadOpts = parse_read_options(opts)?;
        match &self.inner {
            None => Err(closed_error("snapshot is closed")),
            Some(snap) => {
                let o = engine_read_options(&ro);
                match engine_snap_get(&self.rt, snap, key, &o) {
                    Ok(Some(b)) => Ok(Some(utf8_lossy(&b))),
                    Ok(None) => Ok(None),
                    Err(e) => Err(e),
                }
            },
        }
    }

    /// A cursor over the half-open range as of the snapshot's point in
    /// time, with default scan options. An invalid start key is an
    /// invalid argument and a closed handle a lifecycle error; the
    /// returned cursor starts open.
    pub fn scan(&self, start: &str, end: &Option<String>) -> (r: Result<Iterator, DbError>)
        ensures
            !spec_valid_key(start@) ==> (r matches Err(e) && e.kind == ErrorKind::Invalid),
            (spec_valid_key(start@) && (end matches Some(e) && !spec_text_lt(start@, e@))) ==> (r
                matches Err(er) && er.kind == ErrorKind::Invalid),
            spec_valid_key(start@) && (end matches Some(e) ==> spec_text_lt(start@, e@))
                && self.spec_is_closed() ==> (r matches Err(e) && e.kind == ErrorKind::Closed),
            r matches Ok(it) ==> !it.spec_is_closed(),
    {
        check_key(start)?;
        check_range(start, end)?;
        match &self.inner {
            None => Err(closed_error("snapshot is closed")),
            Some(snap) => {
                let o = engine_scan_options(
                    &ScanOpts {
                        durability_filter: None,
                        dirty: None,
                        read_ahead_bytes: None,
                        cache_blocks: None,
                        max_fetch_tasks: None,
                    },
                );
                let it = engine_snap_scan(&self.rt, snap, start, end, &o)?;
                Ok(Iterator::new(&self.rt, it))
            },
        }
    }

    /// A cursor over the half-open range as of the snapshot's point in
    /// time, under a translated scan option map. An invalid start key
    /// or option map is an invalid argument and a closed handle a
    /// lifecycle error; the returned cursor starts open.
    pub fn scan_with_options(&self, start: &str, end: &Option<String>, opts: &OptionMap) -> (r:
        Result<Iterator, DbError>)
        ensures
            !spec_valid_key(start@) ==> (r matches Err(e) && e.kind == ErrorKind::Invalid),
            (spec_valid_key(start@) && (end matches Some(e) && !spec_text_lt(start@, e@))) ==> (r
                matches Err(er) && er.kind == ErrorKind::Invalid),
            spec_valid_key(start@) && (end matches Some(e) ==> spec_text_lt(start@, e@))
                && spec_parse_scan(opts.entries@) is None ==> (r matches Err(e) && e.kind
                == ErrorKind::Invalid),
            spec_valid_key(start@) && (end matches Some(e) ==> spec_text_lt(start@, e@))
                && spec_parse_scan(opts.entries@) is Some && self.spec_is_closed() ==> (r matches
            Err(e) && e.kind == ErrorKind::Closed),
            r matches Ok(it) ==> !it.spec_is_closed(),
    {
        check_key(start)?;
        check_range(start, end)?;
        let so: ScanOpts = parse_scan_options(opts)?;
        match &self.inner {
            None => Err(closed_error("snapshot is closed")),
            Some(snap) => {
                let o = engine_scan_options(&so);
                let it = engine_snap_scan(&self.rt, snap, start, end, &o)?;
                Ok(Iterator::new(&self.rt, it))
            },
        }
    }

    /// Extract and drop the share of the point-in-time view.
    /// Idempotent: closing a closed handle succeeds and changes
    /// nothing.
    pub fn close(&mut self) -> (r: Result<(), DbError>)
        ensures
            final(self).spec_is_closed(),
            r is Ok,
    {
        self.inner = None;
        Ok(())
    }

    /// Whether the share has been dropped. A pure query: it never
    /// fails and never changes the handle.
    pub fn is_closed(&self) -> (r: bool)
        ensures
            r == self.spec_is_closed(),
    {
        self.inner.is_none()
    }
}

} // verus!
