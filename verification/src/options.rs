//! Translation of loosely-typed option maps into validated engine options.
//!
//! Every call family has a default-options form and a with-options form
//! that takes a generic string-keyed map. The rule, applied uniformly:
//! an absent key leaves the engine default in place; a present and valid
//! value is converted; a present but invalid value rejects the whole call
//! with an invalid-argument error naming the offending key, before any
//! engine work happens.

use vstd::prelude::*;

use crate::errors::{DbError, ErrorKind, invalid_argument_error};

verus! {

/// A loosely-typed option value, as handed across the host boundary.
#[derive(Clone, Debug)]
pub enum OptValue {
    Bool(bool),
    UInt(u64),
    Str(String),
}

/// A generic string-keyed option map. Lookup takes the first entry with
/// a matching key.
#[derive(Clone, Debug)]
pub struct OptionMap {
    pub entries: Vec<(String, OptValue)>,
}

/// The first value bound to `key`, or `None` when the key is absent.
pub open spec fn spec_find(entries: Seq<(String, OptValue)>, key: Seq<char>) -> Option<OptValue>
    decreases entries.len(),
{
    if entries.len() == 0 {
        None
    } else if entries[0].0@ == key {
        Some(entries[0].1)
    } else {
        spec_find(entries.subrange(1, entries.len() as int), key)
    }
}

/// Skipping a prefix of entries that do not bind `key` leaves the lookup
/// result unchanged.
proof fn lemma_spec_find_skip(entries: Seq<(String, OptValue)>, key: Seq<char>, i: int)
    requires
        0 <= i <= entries.len(),
        forall|j: int| 0 <= j < i ==> entries[j].0@ != key,
    ensures
        spec_find(entries, key) == spec_find(entries.subrange(i, entries.len() as int), key),
    decreases i,
{
    if i > 0 {
        assert(entries.subrange(1, entries.len() as int).subrange(i - 1, entries.len() - 1)
            =~= entries.subrange(i, entries.len() as int));
        lemma_spec_find_skip(entries.subrange(1, entries.len() as int), key, i - 1);
    } else {
        assert(entries.subrange(0, entries.len() as int) =~= entries);
    }
}

/// An invalid-argument error naming the key whose value has the wrong
/// type.
fn wrong_type_error(key: &str) -> (r: DbError)
    ensures
        r.kind == ErrorKind::Invalid,
        r.msg@ == key@ + " option has the wrong type"@,
{
    let mut msg: String = key.to_owned();
    msg.append(" option has the wrong type");
    DbError { kind: ErrorKind::Invalid, msg }
}

impl OptionMap {
    /// An empty map: every key is absent, every call family gets its
    /// engine defaults.
    pub fn new() -> (r: OptionMap)
        ensures
            r.entries@.len() == 0,
    {
        OptionMap { entries: Vec::new() }
    }

    /// Bind `key` to `value`, shadowing nothing: the entry only takes
    /// effect if the key was absent, since lookup takes the first match.
    pub fn insert(&mut self, key: &str, value: OptValue)
        ensures
            final(self).entries@.len() == old(self).entries@.len() + 1,
            final(self).entries@[old(self).entries@.len() as int].0@ == key@,
            final(self).entries@[old(self).entries@.len() as int].1 == value,
            forall|j: int|
                0 <= j < old(self).entries@.len() ==> final(self).entries@[j] == old(
                    self,
                ).entries@[j],
    {
        self.entries.push((key.to_owned(), value));
    }

    /// The first value bound to `key`, if any.
    pub fn find(&self, key: &str) -> (r: Option<&OptValue>)
        ensures
            match spec_find(self.entries@, key@) {
                Some(v) => r matches Some(rv) && *rv == v,
                None => r is None,
            },
    {
        let key_string = key.to_owned();
        let n = self.entries.len();
        let mut i: usize = 0;
        while i < n
            invariant
                n == self.entries@.len(),
                0 <= i <= n,
                key_string@ == key@,
                forall|j: int| 0 <= j < i ==> self.entries@[j].0@ != key@,
            decreases n - i,
        {
            if self.entries[i].0 == key_string {
                proof {
                    lemma_spec_find_skip(self.entries@, key@, i as int);
                }
                return Some(&self.entries[i].1);
            }
            i = i + 1;
        }
        proof {
            lemma_spec_find_skip(self.entries@, key@, n as int);
        }
        None
    }

    /// The boolean bound to `key`: absent gives `None`, a non-boolean
    /// value is an invalid argument.
    pub fn get_bool(&self, key: &str) -> (r: Result<Option<bool>, DbError>)
        ensures
            match spec_find(self.entries@, key@) {
                None => r == Ok::<Option<bool>, DbError>(None),
                Some(v) => match v {
                    OptValue::Bool(b) => r == Ok::<Option<bool>, DbError>(Some(b)),
                    _ => r matches Err(e) && e.kind == ErrorKind::Invalid && e.msg@ == key@
                        + " option has the wrong type"@,
                },
            },
    {
        match self.find(key) {
            None => Ok(None),
            Some(OptValue::Bool(b)) => Ok(Some(*b)),
            Some(_) => Err(wrong_type_error(key)),
        }
    }

    /// The unsigned integer bound to `key`: absent gives `None`, a
    /// non-integer value is an invalid argument.
    pub fn get_u64(&self, key: &str) -> (r: Result<Option<u64>, DbError>)
        ensures
            match spec_find(self.entries@, key@) {
                None => r == Ok::<Option<u64>, DbError>(None),
                Some(v) => match v {
                    OptValue::UInt(n) => r == Ok::<Option<u64>, DbError>(Some(n)),
                    _ => r matches Err(e) && e.kind == ErrorKind::Invalid && e.msg@ == key@
                        + " option has the wrong type"@,
                },
            },
    {
        match self.find(key) {
            None => Ok(None),
            Some(OptValue::UInt(n)) => Ok(Some(*n)),
            Some(_) => Err(wrong_type_error(key)),
        }
    }

    /// The string bound to `key`: absent gives `None`, a non-string
    /// value is an invalid argument.
    pub fn get_str(&self, key: &str) -> (r: Result<Option<String>, DbError>)
        ensures
            match spec_find(self.entries@, key@) {
                None => r == Ok::<Option<String>, DbError>(None),
                Some(v) => match v {
                    OptValue::Str(s) => r matches Ok(os) && os matches Some(rs) && rs@ == s@,
                    _ => r matches Err(e) && e.kind == ErrorKind::Invalid && e.msg@ == key@
                        + " option has the wrong type"@,
                },
            },
    {
        match self.find(key) {
            None => Ok(None),
            Some(OptValue::Str(s)) => Ok(Some(s.clone())),
            Some(_) => Err(wrong_type_error(key)),
        }
    }
}


/// Minimum durability tier a read accepts.
#[derive(Clone, Copy, PartialEq, Eq, Structural, Debug)]
pub enum Durability {
    /// Only data durably stored in object storage.
    Remote,
    /// Remote data plus data still buffered in memory.
    Memory,
}

/// Isolation level for a transaction.
#[derive(Clone, Copy, PartialEq, Eq, Structural, Debug)]
pub enum Isolation {
    /// Snapshot isolation: write-write conflicts only.
    Snapshot,
    /// Serializable snapshot isolation: read-write and write-write
    /// conflicts.
    Serializable,
}

/// The durability literal a string denotes, if any.
pub open spec fn spec_durability_of(s: Seq<char>) -> Option<Durability> {
    if s == "remote"@ {
        Some(Durability::Remote)
    } else if s == "memory"@ {
        Some(Durability::Memory)
    } else {
        None
    }
}

/// The isolation literal a string denotes, if any.
pub open spec fn spec_isolation_of(s: Seq<char>) -> Option<Isolation> {
    if s == "snapshot"@ || s == "si"@ {
        Some(Isolation::Snapshot)
    } else if s == "serializable"@ || s == "ssi"@ || s == "serializable_snapshot"@ {
        Some(Isolation::Serializable)
    } else {
        None
    }
}

/// True when a string equals a literal, by contents.
fn string_is(s: &String, lit: &str) -> (r: bool)
    ensures
        r == (s@ == lit@),
{
    let l: String = lit.to_owned();
    *s == l
}

/// Parse a durability literal: `remote` or `memory`, anything else is an
/// invalid argument.
pub fn parse_durability(s: &String) -> (r: Result<Durability, DbError>)
    ensures
        match spec_durability_of(s@) {
            Some(d) => r == Ok::<Durability, DbError>(d),
            None => r matches Err(e) && e.kind == ErrorKind::Invalid && e.msg@
                == "invalid durability_filter (expected 'remote' or 'memory')"@,
        },
{
    if string_is(s, "remote") {
        Ok(Durability::Remote)
    } else if string_is(s, "memory") {
        Ok(Durability::Memory)
    } else {
        Err(invalid_argument_error("invalid durability_filter (expected 'remote' or 'memory')"))
    }
}

/// Parse an isolation literal. An absent literal means snapshot
/// isolation; `snapshot`/`si` and `serializable`/`ssi`/
/// `serializable_snapshot` are accepted, anything else is an invalid
/// argument.
pub fn parse_isolation(iso: &Option<String>) -> (r: Result<Isolation, DbError>)
    ensures
        match iso {
            None => r == Ok::<Isolation, DbError>(Isolation::Snapshot),
            Some(s) => match spec_isolation_of(s@) {
                Some(level) => r == Ok::<Isolation, DbError>(level),
                None => r matches Err(e) && e.kind == ErrorKind::Invalid && e.msg@
                    == "invalid isolation level (expected 'snapshot' or 'serializable')"@,
            },
        },
{
    match iso {
        None => Ok(Isolation::Snapshot),
        Some(s) => {
            if string_is(s, "snapshot") || string_is(s, "si") {
                Ok(Isolation::Snapshot)
            } else if string_is(s, "serializable") || string_is(s, "ssi") || string_is(
                s,
                "serializable_snapshot",
            ) {
                Ok(Isolation::Serializable)
            } else {
                Err(
                    invalid_argument_error(
                        "invalid isolation level (expected 'snapshot' or 'serializable')",
                    ),
                )
            }
        },
    }
}

/// Validated options for a read (get) call. `None` leaves the engine
/// default for the field.
#[derive(Clone, Copy, PartialEq, Eq, Structural, Debug)]
pub struct ReadOpts {
    pub durability_filter: Option<Durability>,
    pub dirty: Option<bool>,
}

/// Validated options for a scan call. `None` leaves the engine default
/// for the field.
#[derive(Clone, Copy, PartialEq, Eq, Structural, Debug)]
pub struct ScanOpts {
    pub durability_filter: Option<Durability>,
    pub dirty: Option<bool>,
    pub read_ahead_bytes: Option<u64>,
    pub cache_blocks: Option<bool>,
    pub max_fetch_tasks: Option<u64>,
}

/// Validated options for a put call: an optional time-to-live override
/// in milliseconds; `None` uses the engine's default time-to-live.
#[derive(Clone, Copy, PartialEq, Eq, Structural, Debug)]
pub struct PutOpts {
    pub ttl_ms: Option<u64>,
}

/// Validated options for a write, delete or commit call: whether the
/// call waits until the write is durable. Defaults to waiting.
#[derive(Clone, Copy, PartialEq, Eq, Structural, Debug)]
pub struct WriteOpts {
    pub await_durable: bool,
}

/// Validated options for opening a reader. `None` leaves the engine
/// default for the field. Durations are in milliseconds.
#[derive(Clone, Copy, PartialEq, Eq, Structural, Debug)]
pub struct ReaderOpts {
    pub manifest_poll_interval_ms: Option<u64>,
    pub checkpoint_lifetime_ms: Option<u64>,
    pub max_memtable_bytes: Option<u64>,
}

/// A boolean-typed field: absent is fine, a non-boolean value is not.
pub open spec fn spec_field_bool(v: Option<OptValue>) -> Option<Option<bool>> {
    match v {
        None => Some(None),
        Some(OptValue::Bool(b)) => Some(Some(b)),
        Some(_) => None,
    }
}

/// An integer-typed field: absent is fine, a non-integer value is not.
pub open spec fn spec_field_u64(v: Option<OptValue>) -> Option<Option<u64>> {
    match v {
        None => Some(None),
        Some(OptValue::UInt(n)) => Some(Some(n)),
        Some(_) => None,
    }
}

/// A durability-typed field: absent is fine, anything but a recognized
/// durability literal is not.
pub open spec fn spec_field_durability(v: Option<OptValue>) -> Option<Option<Durability>> {
    match v {
        None => Some(None),
        Some(OptValue::Str(s)) => match spec_durability_of(s@) {
            Some(d) => Some(Some(d)),
            None => None,
        },
        Some(_) => None,
    }
}

/// The read options a map denotes, or `None` when some present field is
/// invalid.
pub open spec fn spec_parse_read(m: Seq<(String, OptValue)>) -> Option<ReadOpts> {
    match (spec_field_durability(spec_find(m, "durability_filter"@)), spec_field_bool(
        spec_find(m, "dirty"@),
    )) {
        (Some(df), Some(dirty)) => Some(ReadOpts { durability_filter: df, dirty }),
        _ => None,
    }
}

/// Translate a read option map. A present and invalid field rejects the
/// whole map with an invalid-argument error; nothing is partially
/// applied.
pub fn parse_read_options(map: &OptionMap) -> (r: Result<ReadOpts, DbError>)
    ensures
        match spec_parse_read(map.entries@) {
            Some(o) => r == Ok::<ReadOpts, DbError>(o),
            None => r matches Err(e) && e.kind == ErrorKind::Invalid,
        },
{
    let durability_filter = match map.get_str("durability_filter")? {
        Some(s) => Some(parse_durability(&s)?),
        None => None,
    };
    let dirty = map.get_bool("dirty")?;
    Ok(ReadOpts { durability_filter, dirty })
}

/// The scan options a map denotes, or `None` when some present field is
/// invalid.
pub open spec fn spec_parse_scan(m: Seq<(String, OptValue)>) -> Option<ScanOpts> {
    match (spec_field_durability(spec_find(m, "durability_filter"@)), spec_field_bool(
        spec_find(m, "dirty"@),
    ), spec_field_u64(spec_find(m, "read_ahead_bytes"@)), spec_field_bool(
        spec_find(m, "cache_blocks"@),
    ), spec_field_u64(spec_find(m, "max_fetch_tasks"@))) {
        (Some(df), Some(dirty), Some(rab), Some(cb), Some(mft)) => Some(
            ScanOpts {
                durability_filter: df,
                dirty,
                read_ahead_bytes: rab,
                cache_blocks: cb,
                max_fetch_tasks: mft,
            },
        ),
        _ => None,
    }
}

/// Translate a scan option map. A present and invalid field rejects the
/// whole map with an invalid-argument error; nothing is partially
/// applied.
pub fn parse_scan_options(map: &OptionMap) -> (r: Result<ScanOpts, DbError>)
    ensures
        match spec_parse_scan(map.entries@) {
            Some(o) => r == Ok::<ScanOpts, DbError>(o),
            None => r matches Err(e) && e.kind == ErrorKind::Invalid,
        },
{
    let durability_filter = match map.get_str("durability_filter")? {
        Some(s) => Some(parse_durability(&s)?),
        None => None,
    };
    let dirty = map.get_bool("dirty")?;
    let read_ahead_bytes = map.get_u64("read_ahead_bytes")?;
    let cache_blocks = map.get_bool("cache_blocks")?;
    let max_fetch_tasks = map.get_u64("max_fetch_tasks")?;
    Ok(ScanOpts { durability_filter, dirty, read_ahead_bytes, cache_blocks, max_fetch_tasks })
}

/// The put options a map denotes, or `None` when a present
/// time-to-live field is invalid.
pub open spec fn spec_parse_put(m: Seq<(String, OptValue)>) -> Option<PutOpts> {
    match spec_field_u64(spec_find(m, "ttl"@)) {
        Some(ttl) => Some(PutOpts { ttl_ms: ttl }),
        None => None,
    }
}

/// Translate a put option map: an optional time-to-live override in
/// milliseconds.
pub fn parse_put_options(map: &OptionMap) -> (r: Result<PutOpts, DbError>)
    ensures
        match spec_parse_put(map.entries@) {
            Some(o) => r == Ok::<PutOpts, DbError>(o),
            None => r matches Err(e) && e.kind == ErrorKind::Invalid,
        },
{
    let ttl_ms = map.get_u64("ttl")?;
    Ok(PutOpts { ttl_ms })
}

/// The write options a map denotes, or `None` when a present
/// durability-wait field is invalid. Waiting for durability defaults to
/// on.
pub open spec fn spec_parse_write(m: Seq<(String, OptValue)>) -> Option<WriteOpts> {
    match spec_field_bool(spec_find(m, "await_durable"@)) {
        Some(None) => Some(WriteOpts { await_durable: true }),
        Some(Some(b)) => Some(WriteOpts { await_durable: b }),
        None => None,
    }
}

/// Translate a write/delete/commit option map: the durability-wait
/// toggle, on unless explicitly disabled.
pub fn parse_write_options(map: &OptionMap) -> (r: Result<WriteOpts, DbError>)
    ensures
        match spec_parse_write(map.entries@) {
            Some(o) => r == Ok::<WriteOpts, DbError>(o),
            None => r matches Err(e) && e.kind == ErrorKind::Invalid,
        },
{
    let await_durable = match map.get_bool("await_durable")? {
        Some(b) => b,
        None => true,
    };
    Ok(WriteOpts { await_durable })
}

/// The reader options a map denotes, or `None` when some present field
/// is invalid.
pub open spec fn spec_parse_reader(m: Seq<(String, OptValue)>) -> Option<ReaderOpts> {
    match (spec_field_u64(spec_find(m, "manifest_poll_interval"@)), spec_field_u64(
        spec_find(m, "checkpoint_lifetime"@),
    ), spec_field_u64(spec_find(m, "max_memtable_bytes"@))) {
        (Some(poll), Some(life), Some(bytes)) => Some(
            ReaderOpts {
                manifest_poll_interval_ms: poll,
                checkpoint_lifetime_ms: life,
                max_memtable_bytes: bytes,
            },
        ),
        _ => None,
    }
}

/// Translate a reader option map: poll interval, checkpoint pin
/// lifetime (both in milliseconds) and memtable byte cap.
pub fn parse_reader_options(map: &OptionMap) -> (r: Result<ReaderOpts, DbError>)
    ensures
        match spec_parse_reader(map.entries@) {
            Some(o) => r == Ok::<ReaderOpts, DbError>(o),
            None => r matches Err(e) && e.kind == ErrorKind::Invalid,
        },
{
    let manifest_poll_interval_ms = map.get_u64("manifest_poll_interval")?;
    let checkpoint_lifetime_ms = map.get_u64("checkpoint_lifetime")?;
    let max_memtable_bytes = map.get_u64("max_memtable_bytes")?;
    Ok(ReaderOpts { manifest_poll_interval_ms, checkpoint_lifetime_ms, max_memtable_bytes })
}

/// Built-in minimum age for garbage-collecting manifest files: one day.
pub const GC_DEFAULT_MANIFEST_MIN_AGE_MS: u64 = 86400000;

/// Built-in minimum age for garbage-collecting write-ahead-log files:
/// one minute.
pub const GC_DEFAULT_WAL_MIN_AGE_MS: u64 = 60000;

/// Built-in minimum age for garbage-collecting compacted files: one
/// minute.
pub const GC_DEFAULT_COMPACTED_MIN_AGE_MS: u64 = 60000;

/// Effective per-area minimum ages for one garbage-collection run, in
/// milliseconds.
#[derive(Clone, Copy, PartialEq, Eq, Structural, Debug)]
pub struct GcResolved {
    pub manifest_min_age_ms: u64,
    pub wal_min_age_ms: u64,
    pub compacted_min_age_ms: u64,
}

/// One area's effective minimum age: its specific override if given,
/// else the general minimum age if given, else the area's built-in
/// default.
pub open spec fn spec_gc_area(specific: Option<u64>, general: Option<u64>, dflt: u64) -> u64 {
    match specific {
        Some(ms) => ms,
        None => match general {
            Some(ms) => ms,
            None => dflt,
        },
    }
}

/// Resolve garbage-collection ages: a specific per-area override wins
/// over the general minimum age, and an area with neither falls back to
/// its built-in default.
pub fn resolve_gc_ages(
    min_age: Option<u64>,
    manifest_min_age: Option<u64>,
    wal_min_age: Option<u64>,
    compacted_min_age: Option<u64>,
) -> (r: GcResolved)
    ensures
        r.manifest_min_age_ms == spec_gc_area(
            manifest_min_age,
            min_age,
            GC_DEFAULT_MANIFEST_MIN_AGE_MS,
        ),
        r.wal_min_age_ms == spec_gc_area(wal_min_age, min_age, GC_DEFAULT_WAL_MIN_AGE_MS),
        r.compacted_min_age_ms == spec_gc_area(
            compacted_min_age,
            min_age,
            GC_DEFAULT_COMPACTED_MIN_AGE_MS,
        ),
{
    let manifest_min_age_ms = match manifest_min_age {
        Some(ms) => ms,
        None => match min_age {
            Some(ms) => ms,
            None => GC_DEFAULT_MANIFEST_MIN_AGE_MS,
        },
    };
    let wal_min_age_ms = match wal_min_age {
        Some(ms) => ms,
        None => match min_age {
            Some(ms) => ms,
            None => GC_DEFAULT_WAL_MIN_AGE_MS,
        },
    };
    let compacted_min_age_ms = match compacted_min_age {
        Some(ms) => ms,
        None => match min_age {
            Some(ms) => ms,
            None => GC_DEFAULT_COMPACTED_MIN_AGE_MS,
        },
    };
    GcResolved { manifest_min_age_ms, wal_min_age_ms, compacted_min_age_ms }
}

/// The resolved garbage-collection ages a map denotes, or `None` when
/// some present field is invalid.
pub open spec fn spec_parse_gc(m: Seq<(String, OptValue)>) -> Option<GcResolved> {
    match (spec_field_u64(spec_find(m, "min_age"@)), spec_field_u64(
        spec_find(m, "manifest_min_age"@),
    ), spec_field_u64(spec_find(m, "wal_min_age"@)), spec_field_u64(
        spec_find(m, "compacted_min_age"@),
    )) {
        (Some(general), Some(man), Some(wal), Some(comp)) => Some(
            GcResolved {
                manifest_min_age_ms: spec_gc_area(man, general, GC_DEFAULT_MANIFEST_MIN_AGE_MS),
                wal_min_age_ms: spec_gc_area(wal, general, GC_DEFAULT_WAL_MIN_AGE_MS),
                compacted_min_age_ms: spec_gc_area(
                    comp,
                    general,
                    GC_DEFAULT_COMPACTED_MIN_AGE_MS,
                ),
            },
        ),
        _ => None,
    }
}

/// Translate a garbage-collection option map and resolve the effective
/// per-area minimum ages.
pub fn parse_gc_options(map: &OptionMap) -> (r: Result<GcResolved, DbError>)
    ensures
        match spec_parse_gc(map.entries@) {
            Some(o) => r == Ok::<GcResolved, DbError>(o),
            None => r matches Err(e) && e.kind == ErrorKind::Invalid,
        },
{
    let min_age = map.get_u64("min_age")?;
    let manifest_min_age = map.get_u64("manifest_min_age")?;
    let wal_min_age = map.get_u64("wal_min_age")?;
    let compacted_min_age = map.get_u64("compacted_min_age")?;
    Ok(resolve_gc_ages(min_age, manifest_min_age, wal_min_age, compacted_min_age))
}

/// Garbage-collection resolution, spelled out. With only a general
/// minimum age, all three areas use it. With a general age plus one
/// area's override, the override applies to that area only and the
/// general age to the other two. With neither, each area uses its
/// built-in default: one day for manifests, one minute for the
/// write-ahead log, one minute for compacted files.
pub proof fn lemma_gc_resolution(general_ms: u64, override_ms: u64)
    ensures
        spec_parse_gc(Seq::empty()) == Some(
            GcResolved {
                manifest_min_age_ms: GC_DEFAULT_MANIFEST_MIN_AGE_MS,
                wal_min_age_ms: GC_DEFAULT_WAL_MIN_AGE_MS,
                compacted_min_age_ms: GC_DEFAULT_COMPACTED_MIN_AGE_MS,
            },
        ),
        spec_gc_area(None, Some(general_ms), GC_DEFAULT_MANIFEST_MIN_AGE_MS) == general_ms,
        spec_gc_area(None, Some(general_ms), GC_DEFAULT_WAL_MIN_AGE_MS) == general_ms,
        spec_gc_area(None, Some(general_ms), GC_DEFAULT_COMPACTED_MIN_AGE_MS) == general_ms,
        spec_gc_area(Some(override_ms), Some(general_ms), GC_DEFAULT_MANIFEST_MIN_AGE_MS)
            == override_ms,
        spec_gc_area(Some(override_ms), None, GC_DEFAULT_MANIFEST_MIN_AGE_MS) == override_ms,
{
}

#[verifier::external_type_specification]
#[verifier::external_body]
pub struct ExUuid(uuid::Uuid);

/// Whether a string is a well-formed textual UUID; acceptance depends
/// on the characters alone.
pub uninterp spec fn uuid_accepts(s: Seq<char>) -> bool;

/// Relies on uuid::Uuid::parse_str: parses a textual UUID, accepting a
/// string as a function of its characters alone.
#[verifier::external_body]
fn parse_uuid_str(s: &String) -> (r: Option<uuid::Uuid>)
    ensures
        (r is Some) == uuid_accepts(s@),
{
    uuid::Uuid::parse_str(s).ok()
}

/// Parse a checkpoint identifier: a UUID-formatted string. A malformed
/// string is an invalid argument, rejected before any engine call.
pub fn parse_uuid(s: &String) -> (r: Result<uuid::Uuid, DbError>)
    ensures
        uuid_accepts(s@) ==> r is Ok,
        !uuid_accepts(s@) ==> (r matches Err(e) && e.kind == ErrorKind::Invalid && e.msg@
            == "invalid checkpoint UUID"@),
{
    match parse_uuid_str(s) {
        Some(u) => Ok(u),
        None => Err(invalid_argument_error("invalid checkpoint UUID")),
    }
}

/// Validated options for creating a checkpoint: an optional lifetime in
/// milliseconds, an optional source checkpoint (already parsed from its
/// UUID string), and an optional name.
#[derive(Debug)]
pub struct CheckpointOpts {
    pub lifetime_ms: Option<u64>,
    pub source: Option<uuid::Uuid>,
    pub name: Option<String>,
}

/// A string-typed field: absent is fine, a non-string value is not.
pub open spec fn spec_field_str(v: Option<OptValue>) -> Option<Option<Seq<char>>> {
    match v {
        None => Some(None),
        Some(OptValue::Str(s)) => Some(Some(s@)),
        Some(_) => None,
    }
}

/// The contents of an optional string.
pub open spec fn spec_view_opt_string(o: Option<String>) -> Option<Seq<char>> {
    match o {
        None => None,
        Some(s) => Some(s@),
    }
}

/// The typed checkpoint fields a map denotes — lifetime, source string,
/// name — or `None` when some present field has the wrong type.
pub open spec fn spec_parse_checkpoint_fields(m: Seq<(String, OptValue)>) -> Option<
    (Option<u64>, Option<Seq<char>>, Option<Seq<char>>),
> {
    match (spec_field_u64(spec_find(m, "lifetime"@)), spec_field_str(
        spec_find(m, "source"@),
    ), spec_field_str(spec_find(m, "name"@))) {
        (Some(l), Some(s), Some(n)) => Some((l, s, n)),
        _ => None,
    }
}

/// Translate a checkpoint option map. A source identifier that is not a
/// well-formed UUID rejects the whole map with an invalid-argument
/// error, before any engine call.
pub fn parse_checkpoint_options(map: &OptionMap) -> (r: Result<CheckpointOpts, DbError>)
    ensures
        match spec_parse_checkpoint_fields(map.entries@) {
            None => r matches Err(e) && e.kind == ErrorKind::Invalid,
            Some(f) => match f.1 {
                None => r matches Ok(o) && o.lifetime_ms == f.0 && o.source is None
                    && spec_view_opt_string(o.name) == f.2,
                Some(src) => if uuid_accepts(src) {
                    r matches Ok(o) && o.lifetime_ms == f.0 && o.source is Some
                        && spec_view_opt_string(o.name) == f.2
                } else {
                    r matches Err(e) && e.kind == ErrorKind::Invalid
                },
            },
        },
{
    let lifetime_ms = map.get_u64("lifetime")?;
    let source_str = map.get_str("source")?;
    let name = map.get_str("name")?;
    let source = match source_str {
        None => None,
        Some(s) => match parse_uuid_str(&s) {
            Some(u) => Some(u),
            None => {
                return Err(invalid_argument_error("invalid source UUID"));
            },
        },
    };
    Ok(CheckpointOpts { lifetime_ms, source, name })
}

#[verifier::external_type_specification]
#[verifier::external_body]
pub struct ExDurabilityLevel(slatedb::config::DurabilityLevel);

#[verifier::external_type_specification]
#[verifier::external_body]
pub struct ExReadOptions(slatedb::config::ReadOptions);

#[verifier::external_type_specification]
#[verifier::external_body]
pub struct ExScanOptions(slatedb::config::ScanOptions);

/// Relies on slatedb::config::DurabilityLevel: the engine's durability
/// tier denoted by the validated literal.
#[verifier::external_body]
fn engine_durability(d: Durability) -> (r: slatedb::config::DurabilityLevel)
{
    match d {
        Durability::Remote => slatedb::config::DurabilityLevel::Remote,
        Durability::Memory => slatedb::config::DurabilityLevel::Memory,
    }
}

/// Relies on slatedb::config::ReadOptions::default: engine read options
/// with the validated overrides applied; an absent field keeps the
/// engine default.
#[verifier::external_body]
pub(crate) fn engine_read_options(opts: &ReadOpts) -> (r: slatedb::config::ReadOptions)
{
    let mut o = slatedb::config::ReadOptions::default();
    if let Some(d) = opts.durability_filter { o.durability_filter = engine_durability(d); }
    if let Some(dirty) = opts.dirty { o.dirty = dirty; }
    o
}

/// Relies on slatedb::config::ScanOptions::default: engine scan options
/// with the validated overrides applied; an absent field keeps the
/// engine default.
#[verifier::external_body]
pub(crate) fn engine_scan_options(opts: &ScanOpts) -> (r: slatedb::config::ScanOptions)
{
    let mut o = slatedb::config::ScanOptions::default();
    if let Some(d) = opts.durability_filter { o.durability_filter = engine_durability(d); }
    if let Some(dirty) = opts.dirty { o.dirty = dirty; }
    if let Some(rab) = opts.read_ahead_bytes { o.read_ahead_bytes = rab as usize; }
    if let Some(cb) = opts.cache_blocks { o.cache_blocks = cb; }
    if let Some(mft) = opts.max_fetch_tasks { o.max_fetch_tasks = mft as usize; }
    o
}

} // verus!
