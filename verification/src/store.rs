//! Resolution of a backend URL to a concrete storage backend.
//!
//! The URL's scheme decides the path taken. The cloud provider whose
//! credentials live in environment variables gets a builder that reads
//! the provider's canonical upper-case variable names — the generic
//! resolver only recognizes lower-case keys and would silently ignore
//! correctly-named credentials. Every other scheme goes to the engine's
//! own resolver. An unparseable URL is an invalid argument; a backend
//! that cannot be built is an unavailability.

use vstd::prelude::*;

use crate::errors::{DbError, ErrorKind, engine_error, invalid_argument_error};

verus! {

/// A resolved storage backend, carried opaquely between the resolver
/// and the handle that opens the engine over it. The backend is a trait
/// object of the storage crate, which cannot be declared to the
/// verifier, so this struct hides it.
#[verifier::external_body]
pub struct StoreHandle {
    pub(crate) store: std::sync::Arc<dyn object_store::ObjectStore>,
}

/// Which family of backend a URL string denotes.
#[derive(Clone, Copy, PartialEq, Eq, Structural, Debug)]
pub enum UrlClass {
    /// The provider whose credentials are read from canonically-cased
    /// environment variables.
    AmazonS3,
    /// Any other scheme the storage crate recognizes.
    OtherScheme,
    /// Not a parseable URL.
    NotAUrl,
    /// A parseable URL whose scheme no backend matches.
    Unrecognized,
}

/// The class a URL string falls in; a function of its characters alone.
pub uninterp spec fn spec_url_class(url: Seq<char>) -> UrlClass;

/// Relies on url::Url::try_from and object_store::ObjectStoreScheme::parse:
/// classifies a URL string by its scheme, a function of the characters
/// alone.
#[verifier::external_body]
fn classify_store_url(url: &String) -> (r: UrlClass)
    ensures
        r == spec_url_class(url@),
{
    let parsed: Result<url::Url, url::ParseError> = url.as_str().try_into();
    match parsed {
        Err(_) => UrlClass::NotAUrl,
        Ok(u) => match object_store::ObjectStoreScheme::parse(&u) {
            Ok((object_store::ObjectStoreScheme::AmazonS3, _)) => UrlClass::AmazonS3,
            Ok(_) => UrlClass::OtherScheme,
            Err(_) => UrlClass::Unrecognized,
        },
    }
}

/// Relies on object_store::aws::AmazonS3Builder::from_env: builds the
/// backend from the provider's canonical upper-case environment
/// variables plus the URL. The outcome depends on the process
/// environment.
#[verifier::external_body]
fn build_s3_from_env(url: &String) -> (r: Result<StoreHandle, DbError>)
    ensures
        r matches Err(e) ==> e.kind == ErrorKind::Unavailable,
{
    match object_store::aws::AmazonS3Builder::from_env().with_url(url.as_str()).build() {
        Ok(store) => Ok(StoreHandle { store: std::sync::Arc::new(store) }),
        Err(e) => Err(DbError { kind: ErrorKind::Unavailable, msg: format!("{}", e) }),
    }
}

/// Relies on slatedb::Db::resolve_object_store: the engine's own
/// resolver, used for every scheme without a dedicated builder.
#[verifier::external_body]
pub(crate) fn engine_resolve_store(url: &String) -> (r: Result<StoreHandle, DbError>)
{
    match slatedb::Db::resolve_object_store(url.as_str()) {
        Ok(store) => Ok(StoreHandle { store }),
        Err(e) => Err(engine_error(e)),
    }
}

/// Relies on object_store::memory::InMemory: a fresh in-memory backend,
/// used when no URL is given.
#[verifier::external_body]
pub(crate) fn memory_store() -> (r: StoreHandle)
{
    StoreHandle { store: std::sync::Arc::new(object_store::memory::InMemory::new()) }
}

/// Resolve a backend URL. An unparseable URL fails as an invalid
/// argument and an unmatched scheme as an unavailability, both before
/// any backend is built; the provider with environment-sourced
/// credentials gets its canonically-cased builder, and every other
/// recognized scheme goes to the engine's resolver.
pub fn resolve_object_store(url: &String) -> (r: Result<StoreHandle, DbError>)
    ensures
        spec_url_class(url@) == UrlClass::NotAUrl ==> (r matches Err(e) && e.kind
            == ErrorKind::Invalid),
        spec_url_class(url@) == UrlClass::Unrecognized ==> (r matches Err(e) && e.kind
            == ErrorKind::Unavailable),
        spec_url_class(url@) == UrlClass::AmazonS3 ==> (r matches Err(e) ==> e.kind
            == ErrorKind::Unavailable),
{
    match classify_store_url(url) {
        UrlClass::NotAUrl => Err(invalid_argument_error("invalid object store URL")),
        UrlClass::Unrecognized => Err(
            DbError::new(ErrorKind::Unavailable, "unrecognized object store scheme"),
        ),
        UrlClass::AmazonS3 => build_s3_from_env(url),
        UrlClass::OtherScheme => engine_resolve_store(url),
    }
}

} // verus!
