//! The concurrency bridge: a shared multi-threaded task pool that drives
//! engine futures to completion while the calling native thread blocks.
//!
//! Everything that runs inside the pool consumes and produces only
//! engine-native values and errors. A host embedding this crate arranges
//! for its own global lock to be released around each call into the
//! bridge and constructs host-visible values only after the call
//! returns; see the embedding layer for that arrangement.

use vstd::prelude::*;
use vstd::future::FutureAdditionalSpecFns;

use crate::errors::{DbError, ErrorKind, engine_error};

verus! {

#[verifier::external_type_specification]
#[verifier::external_body]
pub struct ExRuntime(tokio::runtime::Runtime);

/// A shared handle to the task pool. Handles derived from one another
/// share the same pool; cloning the handle never builds a second pool.
#[derive(Clone)]
pub struct EngineRuntime {
    rt: std::sync::Arc<tokio::runtime::Runtime>,
}

impl EngineRuntime {
    /// Relies on tokio::runtime::Builder::new_multi_thread: builds the
    /// task pool with all drivers enabled. Fails only when the system
    /// cannot supply worker threads.
    #[verifier::external_body]
    pub fn new() -> (r: Result<EngineRuntime, DbError>)
        ensures
            r matches Err(e) ==> e.kind == ErrorKind::Internal,
    {
        match tokio::runtime::Builder::new_multi_thread().enable_all().build() {
            Ok(rt) => Ok(EngineRuntime { rt: std::sync::Arc::new(rt) }),
            Err(e) => Err(DbError { kind: ErrorKind::Internal, msg: format!("{}", e) }),
        }
    }
}

/// Relies on tokio::runtime::Runtime::block_on: drives the future on
/// the shared pool, blocking the calling thread until it resolves, and
/// returns whatever the future resolved to.
#[verifier::external_body]
pub fn block_on<T, F: core::future::Future<Output = T>>(rt: &EngineRuntime, future: F) -> (r: T)
    ensures
        r == future@,
{
    rt.rt.block_on(future)
}

/// Drive a future that resolves to an engine result, then map an engine
/// failure into the error taxonomy. The mapping runs only after the
/// blocking wait has finished, so nothing host-visible is built while
/// the future runs.
pub fn block_on_result<T, F: core::future::Future<Output = Result<T, slatedb::Error>>>(
    rt: &EngineRuntime,
    future: F,
) -> (r: Result<T, DbError>)
    ensures
        (future@ matches Ok(v) ==> r matches Ok(rv) && rv == v),
        (future@ matches Err(_) ==> r is Err),
{
    match block_on(rt, future) {
        Ok(v) => Ok(v),
        Err(e) => Err(engine_error(e)),
    }
}

} // verus!
