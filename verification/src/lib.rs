//! Embedding layer for an asynchronous key-value storage engine.
//!
//! The crate wraps the engine behind handle types with an explicit
//! lifecycle, translates loosely-typed option maps into validated engine
//! configuration, resolves object-store URLs to storage backends, and maps
//! every engine failure into a closed taxonomy of error kinds that a host
//! runtime can surface as exception classes.

pub mod errors;
pub mod validate;
pub mod text;
pub mod options;
pub mod store;
pub mod runtime;
pub mod write_batch;
pub mod iterator;
pub mod database;
pub mod snapshot;
pub mod transaction;
pub mod reader;
pub mod admin;
