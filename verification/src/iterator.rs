//! A single-owner cursor over a half-open key range.
//!
//! The cursor starts open and ends in a terminal closed state. `next`
//! yields entries in ascending key order within the originally
//! requested range and reports exhaustion as an empty result — not an
//! error, and not a state change. `seek` repositions the cursor. After
//! `close`, every `next` and `seek` fails with a lifecycle error and
//! performs no engine work. Methods take the handle exclusively, so two
//! host threads cannot race a close against a use.

use vstd::prelude::*;

use crate::errors::{DbError, ErrorKind, closed_error, invalid_argument_error, engine_error};
use crate::runtime::{EngineRuntime, block_on};
use crate::text::utf8_lossy;

verus! {

#[verifier::external_type_specification]
#[verifier::external_body]
pub struct ExDbIterator(slatedb::DbIterator);

/// A cursor handle: the engine cursor while open, nothing once closed.
pub struct Iterator {
    rt: EngineRuntime,
    inner: Option<slatedb::DbIterator>,
}

/// Relies on slatedb::DbIterator::next driven on the runtime: the next
/// entry of the range in ascending key order, or None once exhausted.
#[verifier::external_body]
fn engine_iter_next(rt: &EngineRuntime, it: &mut slatedb::DbIterator) -> (r: Result<
    Option<(Vec<u8>, Vec<u8>)>,
    DbError,
>)
{
    match block_on(rt, it.next()) {
        Ok(Some(kv)) => Ok(Some((kv.key.to_vec(), kv.value.to_vec()))),
        Ok(None) => Ok(None),
        Err(e) => Err(engine_error(e)),
    }
}

/// Relies on slatedb::DbIterator::seek driven on the runtime:
/// repositions the cursor so the following next returns the first
/// entry at or past the key, without materializing entries before it.
#[verifier::external_body]
fn engine_iter_seek(rt: &EngineRuntime, it: &mut slatedb::DbIterator, key: &str) -> (r: Result<
    (),
    DbError,
>)
{
    match block_on(rt, it.seek(key.as_bytes())) {
        Ok(()) => Ok(()),
        Err(e) => Err(engine_error(e)),
    }
}

impl Iterator {
    /// Whether the cursor has reached its terminal closed state.
    /// Exhaustion is a distinct condition: an exhausted cursor is still
    /// open.
    pub closed spec fn spec_is_closed(&self) -> bool {
        self.inner is None
    }

    /// Wrap an engine cursor; the new handle is open.
    pub fn new(rt: &EngineRuntime, iter: slatedb::DbIterator) -> (r: Iterator)
        ensures
            !r.spec_is_closed(),
    {
        Iterator { rt: rt.clone(), inner: Some(iter) }
    }

    /// The next key/value pair as text, or nothing once the range is
    /// exhausted. On a closed cursor: a lifecycle error, no engine
    /// work. The cursor's state never changes.
    pub fn next_entry(&mut self) -> (r: Result<Option<(String, String)>, DbError>)
        ensures
            old(self).spec_is_closed() ==> (r matches Err(e) && e.kind == ErrorKind::Closed),
            final(self).spec_is_closed() == old(self).spec_is_closed(),
    {
        let rt = self.rt.clone();
        match &mut self.inner {
            None => Err(closed_error("iterator is closed")),
            Some(it) => match engine_iter_next(&rt, it) {
                Ok(Some((kb, vb))) => Ok(Some((utf8_lossy(&kb), utf8_lossy(&vb)))),
                Ok(None) => Ok(None),
                Err(e) => Err(e),
            },
        }
    }

    /// The next key/value pair as raw bytes, or nothing once the range
    /// is exhausted. On a closed cursor: a lifecycle error, no engine
    /// work. The cursor's state never changes.
    pub fn next_entry_bytes(&mut self) -> (r: Result<Option<(Vec<u8>, Vec<u8>)>, DbError>)
        ensures
            old(self).spec_is_closed() ==> (r matches Err(e) && e.kind == ErrorKind::Closed),
            final(self).spec_is_closed() == old(self).spec_is_closed(),
    {
        let rt = self.rt.clone();
        match &mut self.inner {
            None => Err(closed_error("iterator is closed")),
            Some(it) => engine_iter_next(&rt, it),
        }
    }

    /// Reposition the cursor so the following next returns the first
    /// entry with key at or past `key`. An empty key is an invalid
    /// argument; a closed cursor a lifecycle error; neither touches the
    /// engine, and the cursor's state never changes.
    pub fn seek(&mut self, key: &str) -> (r: Result<(), DbError>)
        ensures
            key@.len() == 0 ==> (r matches Err(e) && e.kind == ErrorKind::Invalid),
            key@.len() > 0 && old(self).spec_is_closed() ==> (r matches Err(e) && e.kind
                == ErrorKind::Closed),
            final(self).spec_is_closed() == old(self).spec_is_closed(),
    {
        if key.unicode_len() == 0 {
            return Err(invalid_argument_error("key cannot be empty"));
        }
        let rt = self.rt.clone();
        match &mut self.inner {
            None => Err(closed_error("iterator is closed")),
            Some(it) => engine_iter_seek(&rt, it, key),
        }
    }

    /// Release the cursor and enter the terminal closed state.
    /// Idempotent: closing a closed cursor succeeds and changes
    /// nothing.
    pub fn close(&mut self) -> (r: Result<(), DbError>)
        ensures
            final(self).spec_is_closed(),
            r is Ok,
    {
        self.inner = None;
        Ok(())
    }
}

} // verus!
