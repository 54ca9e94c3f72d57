//! The closed error taxonomy and its mapping onto host exception classes.
//!
//! Every failure surfaced by this crate carries one of the kinds below.
//! A write-once registry, populated when the host module is initialized,
//! maps each kind to one host exception class so callers can rescue broadly
//! (the base class) or narrowly (one kind's class). Before the registry is
//! populated, mapping falls back to the host's generic error classes.

use vstd::prelude::*;

verus! {

/// The closed set of error kinds.
#[derive(Clone, Copy, PartialEq, Eq, Structural, Debug)]
pub enum ErrorKind {
    /// Conflict detected while committing a transaction.
    Transaction,
    /// Operation on a handle past its terminal state.
    Closed,
    /// Backend or object-store connectivity failure.
    Unavailable,
    /// Invalid argument: empty key, malformed identifier, bad enum literal.
    Invalid,
    /// Corrupt or invalid persisted data.
    Data,
    /// Engine invariant violation.
    Internal,
    /// Any engine failure outside the named kinds.
    Other,
}

/// An error of the taxonomy: a kind plus a plain message.
#[derive(Clone, Debug)]
pub struct DbError {
    pub kind: ErrorKind,
    pub msg: String,
}

impl DbError {
    /// Build an error of the given kind from a message.
    pub fn new(kind: ErrorKind, msg: &str) -> (r: DbError)
        ensures
            r.kind == kind,
            r.msg@ == msg@,
    {
        DbError { kind, msg: msg.to_owned() }
    }
}

/// Build an invalid-argument error from a plain message.
pub fn invalid_argument_error(msg: &str) -> (r: DbError)
    ensures
        r.kind == ErrorKind::Invalid,
        r.msg@ == msg@,
{
    DbError::new(ErrorKind::Invalid, msg)
}

/// Build an internal error from a plain message.
pub fn internal_error(msg: &str) -> (r: DbError)
    ensures
        r.kind == ErrorKind::Internal,
        r.msg@ == msg@,
{
    DbError::new(ErrorKind::Internal, msg)
}

/// Build a lifecycle (closed-handle) error from a plain message.
pub fn closed_error(msg: &str) -> (r: DbError)
    ensures
        r.kind == ErrorKind::Closed,
        r.msg@ == msg@,
{
    DbError::new(ErrorKind::Closed, msg)
}

/// Host exception classes, one per error kind, all descending from `base`.
/// A class is carried as the host runtime's opaque handle for it.
#[derive(Clone, Copy, PartialEq, Eq, Structural, Debug)]
pub struct ExceptionClasses {
    /// The base class every kind's class descends from.
    pub base: u64,
    pub transaction: u64,
    pub closed: u64,
    pub unavailable: u64,
    pub invalid: u64,
    pub data: u64,
    pub internal: u64,
}

/// A host exception value: a class handle plus a message.
#[derive(Clone, Debug)]
pub struct HostException {
    pub class: u64,
    pub msg: String,
}

/// Write-once, read-many mapping from error kinds to host exception
/// classes. `fallback_error` and `fallback_arg_error` are the host's
/// generic classes, used only when the registry was never populated.
#[derive(Clone, Copy, PartialEq, Eq, Structural, Debug)]
pub struct ExceptionRegistry {
    pub classes: Option<ExceptionClasses>,
    pub fallback_error: u64,
    pub fallback_arg_error: u64,
}

impl ExceptionRegistry {
    /// True once the taxonomy classes have been recorded.
    pub open spec fn is_populated(self) -> bool {
        self.classes is Some
    }

    /// The class an error kind maps to once the registry is populated.
    /// Kinds outside the six dedicated classes land on the internal class,
    /// so that every engine failure still descends from the base class.
    pub open spec fn spec_class_for(self, kind: ErrorKind) -> u64
        recommends
            self.is_populated(),
    {
        let c = self.classes->0;
        match kind {
            ErrorKind::Transaction => c.transaction,
            ErrorKind::Closed => c.closed,
            ErrorKind::Unavailable => c.unavailable,
            ErrorKind::Invalid => c.invalid,
            ErrorKind::Data => c.data,
            ErrorKind::Internal => c.internal,
            ErrorKind::Other => c.internal,
        }
    }

    /// The class used for a kind when the registry is not populated:
    /// the host's argument-error class for invalid arguments, its generic
    /// error class for everything else.
    pub open spec fn spec_fallback_for(self, kind: ErrorKind) -> u64 {
        match kind {
            ErrorKind::Invalid => self.fallback_arg_error,
            _ => self.fallback_error,
        }
    }

    /// An empty registry over the host's generic error classes.
    pub fn empty(fallback_error: u64, fallback_arg_error: u64) -> (r: ExceptionRegistry)
        ensures
            !r.is_populated(),
            r.fallback_error == fallback_error,
            r.fallback_arg_error == fallback_arg_error,
    {
        ExceptionRegistry { classes: None, fallback_error, fallback_arg_error }
    }

    /// Record the taxonomy classes. The registry is written at most once:
    /// a populated registry is left unchanged.
    pub fn populate(&mut self, classes: ExceptionClasses)
        ensures
            final(self).is_populated(),
            old(self).is_populated() ==> *final(self) == *old(self),
            !old(self).is_populated() ==> final(self).classes == Some(classes),
            final(self).fallback_error == old(self).fallback_error,
            final(self).fallback_arg_error == old(self).fallback_arg_error,
    {
        if self.classes.is_none() {
            self.classes = Some(classes);
        }
    }

    /// The exception class for an error kind: the registered class when
    /// populated, the host fallback class otherwise.
    pub fn class_for(&self, kind: ErrorKind) -> (r: u64)
        ensures
            self.is_populated() ==> r == self.spec_class_for(kind),
            !self.is_populated() ==> r == self.spec_fallback_for(kind),
    {
        match self.classes {
            Some(c) => match kind {
                ErrorKind::Transaction => c.transaction,
                ErrorKind::Closed => c.closed,
                ErrorKind::Unavailable => c.unavailable,
                ErrorKind::Invalid => c.invalid,
                ErrorKind::Data => c.data,
                ErrorKind::Internal => c.internal,
                ErrorKind::Other => c.internal,
            },
            None => match kind {
                ErrorKind::Invalid => self.fallback_arg_error,
                _ => self.fallback_error,
            },
        }
    }
}

/// Map an error of the taxonomy to a host exception: the registered class
/// for its kind (or the host fallback class when the registry was never
/// populated) together with the error's message.
pub fn map_error(registry: &ExceptionRegistry, err: DbError) -> (r: HostException)
    ensures
        registry.is_populated() ==> r.class == registry.spec_class_for(err.kind),
        !registry.is_populated() ==> r.class == registry.spec_fallback_for(err.kind),
        r.msg@ == err.msg@,
{
    HostException { class: registry.class_for(err.kind), msg: err.msg }
}

/// Every kind's class descends from the taxonomy: once the registry is
/// populated, mapping any error yields one of the seven registered
/// classes, so a host rescue of the base class's hierarchy catches it.
pub proof fn lemma_map_error_stays_in_taxonomy(registry: ExceptionRegistry, kind: ErrorKind)
    requires
        registry.is_populated(),
    ensures
        (registry.spec_class_for(kind) == registry.classes->0.transaction
            || registry.spec_class_for(kind) == registry.classes->0.closed
            || registry.spec_class_for(kind) == registry.classes->0.unavailable
            || registry.spec_class_for(kind) == registry.classes->0.invalid
            || registry.spec_class_for(kind) == registry.classes->0.data
            || registry.spec_class_for(kind) == registry.classes->0.internal),
{
}

#[verifier::external_type_specification]
#[verifier::external_body]
pub struct ExEngineError(slatedb::Error);

/// Relies on slatedb::Error::kind and its Display rendering: carries an
/// engine failure into the taxonomy, kind for kind and message for
/// message; engine kinds outside the named set land on Other.
#[verifier::external_body]
pub fn engine_error(e: slatedb::Error) -> (r: DbError)
{
    let msg = format!("{}", e);
    let kind = match e.kind() {
        slatedb::ErrorKind::Transaction => ErrorKind::Transaction,
        slatedb::ErrorKind::Closed(_) => ErrorKind::Closed,
        slatedb::ErrorKind::Unavailable => ErrorKind::Unavailable,
        slatedb::ErrorKind::Invalid => ErrorKind::Invalid,
        slatedb::ErrorKind::Data => ErrorKind::Data,
        slatedb::ErrorKind::Internal => ErrorKind::Internal,
        _ => ErrorKind::Other,
    };
    DbError { kind, msg }
}

} // verus!
