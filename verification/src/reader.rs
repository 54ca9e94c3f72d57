//! A read-only handle, optionally pinned to one checkpoint for its
//! whole life.
//!
//! Open resolves the backend, validates the checkpoint identifier and
//! translates the reader option map before the engine is touched: a
//! malformed identifier or option map never reaches the engine.

use vstd::prelude::*;

use crate::errors::{DbError, ErrorKind, engine_error};
use crate::iterator::Iterator;
use crate::options::{
    OptionMap, ReadOpts, ScanOpts, ReaderOpts, spec_parse_read, spec_parse_scan,
    spec_parse_reader, parse_read_options, parse_scan_options, parse_reader_options, parse_uuid,
    uuid_accepts, engine_read_options, engine_scan_options,
};
use crate::runtime::{EngineRuntime, block_on};
use crate::store::{StoreHandle, memory_store, resolve_object_store, spec_url_class, UrlClass};
use crate::text::utf8_lossy;
use crate::validate::{spec_valid_key, spec_text_lt, check_key, check_range};

verus! {

#[verifier::external_type_specification]
#[verifier::external_body]
pub struct ExDbReader(slatedb::DbReader);

#[verifier::external_type_specification]
#[verifier::external_body]
pub struct ExDbReaderMode(slatedb::DbReaderMode);

#[verifier::external_type_specification]
#[verifier::external_body]
pub struct ExDbReaderOptions(slatedb::config::DbReaderOptions);

/// The read-only handle.
pub struct Reader {
    rt: EngineRuntime,
    inner: slatedb::DbReader,
}

/// Relies on slatedb::DbReaderMode: the reader stays pinned to the
/// given checkpoint, or manages its own without one.
#[verifier::external_body]
fn engine_reader_mode(checkpoint: Option<uuid::Uuid>) -> (r: slatedb::DbReaderMode)
{
    match checkpoint {
        Some(id) => slatedb::DbReaderMode::Checkpoint(id),
        None => slatedb::DbReaderMode::ManagedCheckpoint,
    }
}

/// Relies on slatedb::config::DbReaderOptions::default: engine reader
/// options with the validated overrides applied; an absent field keeps
/// the engine default.
#[verifier::external_body]
fn engine_reader_options(o: &ReaderOpts) -> (r: slatedb::config::DbReaderOptions)
{
    let mut options = slatedb::config::DbReaderOptions::default();
    if let Some(ms) = o.manifest_poll_interval_ms {
        options.manifest_poll_interval = std::time::Duration::from_millis(ms);
    }
    if let Some(ms) = o.checkpoint_lifetime_ms {
        options.checkpoint_lifetime = std::time::Duration::from_millis(ms);
    }
    if let Some(bytes) = o.max_memtable_bytes {
        options.max_memtable_bytes = bytes;
    }
    options
}

/// Relies on slatedb::DbReader::open driven on the runtime: opens a
/// read-only view at `path` in the given mode under the given options.
#[verifier::external_body]
fn engine_reader_open(
    rt: &EngineRuntime,
    path: &str,
    store: StoreHandle,
    mode: slatedb::DbReaderMode,
    options: slatedb::config::DbReaderOptions,
) -> (r: Result<slatedb::DbReader, DbError>)
{
    match block_on(rt, slatedb::DbReader::open(path, store.store, mode, options)) {
        Ok(reader) => Ok(reader),
        Err(e) => Err(engine_error(e)),
    }
}

/// Relies on slatedb::DbReader::get_with_options driven on the runtime:
/// the value stored under the key, as bytes, if any.
#[verifier::external_body]
fn engine_reader_get(
    rt: &EngineRuntime,
    reader: &slatedb::DbReader,
    key: &str,
    o: &slatedb::config::ReadOptions,
) -> (r: Result<Option<Vec<u8>>, DbError>)
{
    match block_on(rt, reader.get_with_options(key.as_bytes(), o)) {
        Ok(Some(b)) => Ok(Some(b.to_vec())),
        Ok(None) => Ok(None),
        Err(e) => Err(engine_error(e)),
    }
}

/// Relies on slatedb::DbReader::scan_with_options driven on the
/// runtime: a cursor over the half-open key range, ascending. The
/// range must hold at least one key, or the engine would abort; the
/// engine's byte-wise key order agrees with the character-wise order
/// required here.
#[verifier::external_body]
fn engine_reader_scan(
    rt: &EngineRuntime,
    reader: &slatedb::DbReader,
    start: &str,
    end: &Option<String>,
    o: &slatedb::config::ScanOptions,
) -> (r: Result<slatedb::DbIterator, DbError>)
    requires
        end matches Some(e) ==> spec_text_lt(start@, e@),
{
    let start_bytes = start.as_bytes().to_vec();
    let outcome = match end {
        Some(e) => block_on(rt, reader.scan_with_options(start_bytes..e.as_bytes().to_vec(), o)),
        None => block_on(rt, reader.scan_with_options(start_bytes.., o)),
    };
    match outcome {
        Ok(it) => Ok(it),
        Err(e) => Err(engine_error(e)),
    }
}

/// Relies on slatedb::DbReader::close driven on the runtime: releases
/// the reader and any checkpoint it maintained.
#[verifier::external_body]
fn engine_reader_close(rt: &EngineRuntime, reader: &slatedb::DbReader) -> (r: Result<(), DbError>)
{
    match block_on(rt, reader.close()) {
        Ok(()) => Ok(()),
        Err(e) => Err(engine_error(e)),
    }
}

impl Reader {
    /// Open a read-only view at `path`, optionally pinned to the
    /// checkpoint whose identifier is given. A malformed checkpoint
    /// identifier, an invalid option map or an unparseable URL fails as
    /// an invalid argument before any engine call; without a URL a
    /// fresh in-memory backend is used.
    pub fn open(
        rt: &EngineRuntime,
        path: &str,
        url: &Option<String>,
        checkpoint_id: &Option<String>,
        opts: &OptionMap,
    ) -> (r: Result<Reader, DbError>)
        ensures
            spec_parse_reader(opts.entries@) is None ==> (r matches Err(e) && e.kind
                == ErrorKind::Invalid),
            (spec_parse_reader(opts.entries@) is Some && (checkpoint_id matches Some(s)
                && !uuid_accepts(s@))) ==> (r matches Err(e) && e.kind == ErrorKind::Invalid),
            (spec_parse_reader(opts.entries@) is Some && (checkpoint_id matches Some(s)
                ==> uuid_accepts(s@)) && (url matches Some(u) && spec_url_class(u@)
                == UrlClass::NotAUrl)) ==> (r matches Err(e) && e.kind == ErrorKind::Invalid),
    {
        let o: ReaderOpts = parse_reader_options(opts)?;
        let checkpoint = match checkpoint_id {
            Some(s) => Some(parse_uuid(s)?),
            None => None,
        };
        let store = match url {
            Some(u) => resolve_object_store(u)?,
            None => memory_store(),
        };
        let mode = engine_reader_mode(checkpoint);
        let options = engine_reader_options(&o);
        let inner = engine_reader_open(rt, path, store, mode, options)?;
        Ok(Reader { rt: rt.clone(), inner })
    }

    /// The value stored under `key`, as text, with default read
    /// options. An invalid key fails as an invalid argument with no
    /// engine call.
    pub fn get(&self, key: &str) -> (r: Result<Option<String>, DbError>)
        ensures
            !spec_valid_key(key@) ==> (r matches Err(e) && e.kind == ErrorKind::Invalid),
    {
        check_key(key)?;
        let o = engine_read_options(&ReadOpts { durability_filter: None, dirty: None });
        match engine_reader_get(&self.rt, &self.inner, key, &o) {
            Ok(Some(b)) => Ok(Some(utf8_lossy(&b))),
            Ok(None) => Ok(None),
            Err(e) => Err(e),
        }
    }

    /// The value stored under `key`, as text, under a translated read
    /// option map. An invalid key or option map fails as an invalid
    /// argument with no engine call.
    pub fn get_with_options(&self, key: &str, opts: &OptionMap) -> (r: Result<
        Option<String>,
        DbError,
    >)
        ensures
            !spec_valid_key(key@) ==> (r matches Err(e) && e.kind == ErrorKind::Invalid),
            spec_valid_key(key@) && spec_parse_read(opts.entries@) is None ==> (r matches Err(e)
                && e.kind == ErrorKind::Invalid),
    {
        check_key(key)?;
        let ro: ReadOpts = parse_read_options(opts)?;
        let o = engine_read_options(&ro);
        match engine_reader_get(&self.rt, &self.inner, key, &o) {
            Ok(Some(b)) => Ok(Some(utf8_lossy(&b))),
            Ok(None) => Ok(None),
            Err(e) => Err(e),
        }
    }

    /// The value stored under `key`, as raw bytes, with default read
    /// options. An invalid key fails as an invalid argument with no
    /// engine call.
    pub fn get_bytes(&self, key: &str) -> (r: Result<Option<Vec<u8>>, DbError>)
        ensures
            !spec_valid_key(key@) ==> (r matches Err(e) && e.kind == ErrorKind::Invalid),
    {
        check_key(key)?;
        let o = engine_read_options(&ReadOpts { durability_filter: None, dirty: None });
        engine_reader_get(&self.rt, &self.inner, key, &o)
    }

    /// A cursor over the half-open range from `start` (inclusive) to
    /// `end` (exclusive), with default scan options. An invalid start
    /// key fails as an invalid argument with no engine call; the
    /// returned cursor starts open.
    pub fn scan(&self, start: &str, end: &Option<String>) -> (r: Result<Iterator, DbError>)
        ensures
            !spec_valid_key(start@) ==> (r matches Err(e) && e.kind == ErrorKind::Invalid),
            (spec_valid_key(start@) && (end matches Some(e) && !spec_text_lt(start@, e@))) ==> (r
                matches Err(er) && er.kind == ErrorKind::Invalid),
            r matches Ok(it) ==> !it.spec_is_closed(),
    {
        check_key(start)?;
        check_range(start, end)?;
        let o = engine_scan_options(
            &ScanOpts {
                durability_filter: None,
                dirty: None,
                read_ahead_bytes: None,
                cache_blocks: None,
                max_fetch_tasks: None,
            },
        );
        let it = engine_reader_scan(&self.rt, &self.inner, start, end, &o)?;
        Ok(Iterator::new(&self.rt, it))
    }

    /// A cursor over the half-open range under a translated scan option
    /// map. An invalid start key or option map fails as an invalid
    /// argument with no engine call; the returned cursor starts open.
    pub fn scan_with_options(&self, start: &str, end: &Option<String>, opts: &OptionMap) -> (r:
        Result<Iterator, DbError>)
        ensures
            !spec_valid_key(start@) ==> (r matches Err(e) && e.kind == ErrorKind::Invalid),
            (spec_valid_key(start@) && (end matches Some(e) && !spec_text_lt(start@, e@))) ==> (r
                matches Err(er) && er.kind == ErrorKind::Invalid),
            spec_valid_key(start@) && (end matches Some(e) ==> spec_text_lt(start@, e@))
                && spec_parse_scan(opts.entries@) is None ==> (r matches Err(e) && e.kind
                == ErrorKind::Invalid),
            r matches Ok(it) ==> !it.spec_is_closed(),
    {
        check_key(start)?;
        check_range(start, end)?;
        let so: ScanOpts = parse_scan_options(opts)?;
        let o = engine_scan_options(&so);
        let it = engine_reader_scan(&self.rt, &self.inner, start, end, &o)?;
        Ok(Iterator::new(&self.rt, it))
    }

    /// Release the reader and any checkpoint it maintained. The handle
    /// keeps no local state: whether later calls fail is the engine's
    /// decision.
    pub fn close(&self) -> (r: Result<(), DbError>)
    {
        engine_reader_close(&self.rt, &self.inner)
    }
}

} // verus!
