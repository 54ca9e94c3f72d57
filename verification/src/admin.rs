//! A stateless management handle bound to a path and backend.
//!
//! It reads and lists manifests, creates, lists, refreshes and deletes
//! checkpoints, and runs garbage collection once. Checkpoint
//! identifiers are validated and option maps translated before any
//! engine call.

use vstd::prelude::*;

use crate::errors::{DbError, ErrorKind, engine_error};
use crate::options::{
    OptionMap, CheckpointOpts, GcResolved, spec_parse_checkpoint_fields, spec_parse_gc,
    parse_checkpoint_options, parse_gc_options, parse_uuid, uuid_accepts,
};
use crate::runtime::{EngineRuntime, block_on};
use crate::store::{StoreHandle, memory_store, engine_resolve_store};

verus! {

/// The engine's management handle, held opaquely: its type shares its
/// name with this crate's handle.
#[verifier::external_body]
pub(crate) struct AdminHandle {
    inner: slatedb::admin::Admin,
}

#[verifier::external_type_specification]
#[verifier::external_body]
pub struct ExVersionedManifest(slatedb::VersionedManifest);

#[verifier::external_type_specification]
#[verifier::external_body]
pub struct ExCheckpoint(slatedb::Checkpoint);

#[verifier::external_type_specification]
#[verifier::external_body]
pub struct ExGcDirectoryOptions(slatedb::config::GarbageCollectorDirectoryOptions);

/// The management handle.
pub struct Admin {
    rt: EngineRuntime,
    inner: AdminHandle,
}

/// A manifest version's plain facts.
#[derive(Clone, Copy, PartialEq, Eq, Structural, Debug)]
pub struct ManifestInfo {
    /// The manifest's version identifier.
    pub id: u64,
    /// The writer epoch recorded at this version.
    pub writer_epoch: u64,
    /// The compactor epoch recorded at this version.
    pub compactor_epoch: u64,
    /// Whether initialization had completed at this version.
    pub initialized: bool,
}

/// What creating a checkpoint yields: its identifier, in textual UUID
/// form, and the manifest version it pins.
#[derive(Clone, Debug)]
pub struct CheckpointCreated {
    pub id: String,
    pub manifest_id: u64,
}

/// One known checkpoint's plain facts. Times are rendered as text in
/// the engine's calendar format.
#[derive(Clone, Debug)]
pub struct CheckpointInfo {
    pub id: String,
    pub manifest_id: u64,
    pub expire_time: Option<String>,
    pub create_time: String,
    pub name: Option<String>,
}

/// Relies on slatedb::admin::AdminBuilder: binds a management handle to
/// the path and backend; no engine state is read yet.
#[verifier::external_body]
fn engine_admin_new(path: &str, store: StoreHandle) -> (r: AdminHandle)
{
    AdminHandle { inner: slatedb::admin::AdminBuilder::new(path, store.store).build() }
}

/// Relies on slatedb::VersionedManifest's accessors: copies a manifest
/// version's plain facts out of the opaque value.
#[verifier::external_body]
fn manifest_info(m: &slatedb::VersionedManifest) -> (r: ManifestInfo)
{
    ManifestInfo {
        id: m.id(),
        writer_epoch: m.writer_epoch(),
        compactor_epoch: m.compactor_epoch(),
        initialized: m.initialized(),
    }
}

/// Relies on slatedb::Checkpoint's fields, uuid::Uuid::to_string and
/// chrono's calendar rendering: copies one checkpoint's plain facts out
/// of the opaque value.
#[verifier::external_body]
fn checkpoint_info(cp: &slatedb::Checkpoint) -> (r: CheckpointInfo)
{
    CheckpointInfo {
        id: cp.id.to_string(),
        manifest_id: cp.manifest_id,
        expire_time: cp.expire_time.map(|t| t.to_rfc3339()),
        create_time: cp.create_time.to_rfc3339(),
        name: cp.name.clone(),
    }
}

/// Relies on slatedb::admin::Admin::read_manifest driven on the
/// runtime: the manifest with the given version, or the latest without
/// one; nothing when none exists.
#[verifier::external_body]
fn engine_read_manifest(rt: &EngineRuntime, a: &AdminHandle, id: Option<u64>) -> (r:
    Result<Option<slatedb::VersionedManifest>, DbError>)
{
    match block_on(rt, a.inner.read_manifest(id)) {
        Ok(m) => Ok(m),
        Err(e) => Err(engine_error(e)),
    }
}

/// The half-open manifest-version range a listing queries: from
/// `start`, or the first version without one, up to but not including
/// `end`, or the end of the version space without one.
pub open spec fn spec_manifest_range(start: Option<u64>, end: Option<u64>) -> (u64, u64) {
    (
        match start {
            Some(s) => s,
            None => 0,
        },
        match end {
            Some(e) => e,
            None => u64::MAX,
        },
    )
}

/// Resolve the queried manifest-version bounds: an absent start means
/// the first version, an absent end the end of the version space.
fn manifest_range(start: Option<u64>, end: Option<u64>) -> (r: (u64, u64))
    ensures
        r == spec_manifest_range(start, end),
{
    let lo: u64 = match start {
        Some(s) => s,
        None => 0,
    };
    let hi: u64 = match end {
        Some(e) => e,
        None => u64::MAX,
    };
    (lo, hi)
}

/// Relies on slatedb::admin::Admin::list_manifests driven on the
/// runtime: the manifests whose versions fall in the half-open range,
/// in ascending version order.
#[verifier::external_body]
fn engine_list_manifests(rt: &EngineRuntime, a: &AdminHandle, lo: u64, hi: u64) -> (r:
    Result<Vec<slatedb::VersionedManifest>, DbError>)
{
    match block_on(rt, a.inner.list_manifests(lo..hi)) {
        Ok(ms) => Ok(ms),
        Err(e) => Err(engine_error(e)),
    }
}

/// Relies on slatedb::admin::Admin::create_detached_checkpoint driven
/// on the runtime: writes a checkpoint under the validated options and
/// hands back its identifier and pinned manifest version.
#[verifier::external_body]
fn engine_create_checkpoint(rt: &EngineRuntime, a: &AdminHandle, o: &CheckpointOpts) -> (
    r: Result<CheckpointCreated, DbError>)
{
    let options = slatedb::config::CheckpointOptions {
        lifetime: o.lifetime_ms.map(std::time::Duration::from_millis),
        source: o.source,
        name: o.name.clone(),
    };
    match block_on(rt, a.inner.create_detached_checkpoint(&options)) {
        Ok(c) => Ok(CheckpointCreated { id: c.id.to_string(), manifest_id: c.manifest_id }),
        Err(e) => Err(engine_error(e)),
    }
}

/// Relies on slatedb::admin::Admin::list_checkpoints driven on the
/// runtime: the known checkpoints, filtered by name when one is given.
#[verifier::external_body]
fn engine_list_checkpoints(rt: &EngineRuntime, a: &AdminHandle, name: &Option<String>) -> (
    r: Result<Vec<slatedb::Checkpoint>, DbError>)
{
    match block_on(rt, a.inner.list_checkpoints(name.as_deref())) {
        Ok(cps) => Ok(cps),
        Err(e) => Err(engine_error(e)),
    }
}

/// Relies on slatedb::admin::Admin::refresh_checkpoint driven on the
/// runtime: sets the checkpoint's lifetime; clears its expiry without
/// one.
#[verifier::external_body]
fn engine_refresh_checkpoint(
    rt: &EngineRuntime,
    a: &AdminHandle,
    id: uuid::Uuid,
    lifetime_ms: Option<u64>,
) -> (r: Result<(), DbError>)
{
    let lifetime = lifetime_ms.map(std::time::Duration::from_millis);
    match block_on(rt, a.inner.refresh_checkpoint(id, lifetime)) {
        Ok(()) => Ok(()),
        Err(e) => Err(engine_error(e)),
    }
}

/// Relies on slatedb::admin::Admin::delete_checkpoint driven on the
/// runtime: removes the checkpoint with the given identifier.
#[verifier::external_body]
fn engine_delete_checkpoint(rt: &EngineRuntime, a: &AdminHandle, id: uuid::Uuid) -> (r:
    Result<(), DbError>)
{
    match block_on(rt, a.inner.delete_checkpoint(id)) {
        Ok(()) => Ok(()),
        Err(e) => Err(engine_error(e)),
    }
}

/// Relies on slatedb::config::GarbageCollectorDirectoryOptions::default:
/// one area's options with the resolved minimum age and the default
/// interval.
#[verifier::external_body]
fn gc_directory_options(min_age_ms: u64) -> (r:
    slatedb::config::GarbageCollectorDirectoryOptions)
{
    slatedb::config::GarbageCollectorDirectoryOptions {
        min_age: std::time::Duration::from_millis(min_age_ms),
        ..Default::default()
    }
}

/// Relies on slatedb::admin::Admin::run_gc_once driven on the runtime:
/// one garbage-collection pass with the three areas' resolved options;
/// every other knob keeps its engine default.
#[verifier::external_body]
fn engine_run_gc(
    rt: &EngineRuntime,
    a: &AdminHandle,
    manifest: slatedb::config::GarbageCollectorDirectoryOptions,
    wal: slatedb::config::GarbageCollectorDirectoryOptions,
    compacted: slatedb::config::GarbageCollectorDirectoryOptions,
) -> (r: Result<(), DbError>)
{
    let gc_opts = slatedb::config::GarbageCollectorOptions {
        manifest_options: Some(manifest),
        wal_options: Some(wal),
        compacted_options: Some(compacted),
        ..Default::default()
    };
    match block_on(rt, a.inner.run_gc_once(gc_opts)) {
        Ok(()) => Ok(()),
        Err(e) => Err(engine_error(e)),
    }
}

impl Admin {
    /// Bind a management handle to `path`. With a URL the backend comes
    /// from the engine's resolver; without one a fresh in-memory
    /// backend is used. No engine state is read yet.
    pub fn new(rt: &EngineRuntime, path: &str, url: &Option<String>) -> (r: Result<Admin, DbError>)
    {
        let store = match url {
            Some(u) => engine_resolve_store(u)?,
            None => memory_store(),
        };
        Ok(Admin { rt: rt.clone(), inner: engine_admin_new(path, store) })
    }

    /// The plain facts of the manifest with the given version, or of
    /// the latest manifest without one; nothing when none exists.
    pub fn read_manifest(&self, id: Option<u64>) -> (r: Result<Option<ManifestInfo>, DbError>)
    {
        match engine_read_manifest(&self.rt, &self.inner, id)? {
            Some(m) => Ok(Some(manifest_info(&m))),
            None => Ok(None),
        }
    }

    /// The plain facts of the manifests whose versions fall in the
    /// half-open range: from `start` (or the first version) up to but
    /// not including `end` (or the end of the version space).
    pub fn list_manifests(&self, start: Option<u64>, end: Option<u64>) -> (r: Result<
        Vec<ManifestInfo>,
        DbError,
    >)
    {
        let bounds = manifest_range(start, end);
        let manifests = engine_list_manifests(&self.rt, &self.inner, bounds.0, bounds.1)?;
        let mut infos: Vec<ManifestInfo> = Vec::new();
        let mut i: usize = 0;
        while i < manifests.len()
            decreases manifests.len() - i,
        {
            infos.push(manifest_info(&manifests[i]));
            i = i + 1;
        }
        Ok(infos)
    }

    /// Create a detached checkpoint under a translated option map:
    /// lifetime in milliseconds, source checkpoint identifier, name. A
    /// malformed source identifier or option map fails as an invalid
    /// argument before any engine call.
    pub fn create_checkpoint(&self, opts: &OptionMap) -> (r: Result<CheckpointCreated, DbError>)
        ensures
            spec_parse_checkpoint_fields(opts.entries@) is None ==> (r matches Err(e) && e.kind
                == ErrorKind::Invalid),
            (spec_parse_checkpoint_fields(opts.entries@) matches Some(f) && f.1 matches Some(src)
                && !uuid_accepts(src)) ==> (r matches Err(e) && e.kind == ErrorKind::Invalid),
    {
        let o: CheckpointOpts = parse_checkpoint_options(opts)?;
        engine_create_checkpoint(&self.rt, &self.inner, &o)
    }

    /// The known checkpoints' plain facts, filtered by name when one is
    /// given.
    pub fn list_checkpoints(&self, name: &Option<String>) -> (r: Result<
        Vec<CheckpointInfo>,
        DbError,
    >)
    {
        let checkpoints = engine_list_checkpoints(&self.rt, &self.inner, name)?;
        let mut infos: Vec<CheckpointInfo> = Vec::new();
        let mut i: usize = 0;
        while i < checkpoints.len()
            decreases checkpoints.len() - i,
        {
            infos.push(checkpoint_info(&checkpoints[i]));
            i = i + 1;
        }
        Ok(infos)
    }

    /// Refresh a checkpoint's lifetime, in milliseconds from now, or
    /// clear its expiry without one. A malformed identifier fails as an
    /// invalid argument before any engine call.
    pub fn refresh_checkpoint(&self, id: &String, lifetime_ms: Option<u64>) -> (r: Result<
        (),
        DbError,
    >)
        ensures
            !uuid_accepts(id@) ==> (r matches Err(e) && e.kind == ErrorKind::Invalid),
    {
        let checkpoint = parse_uuid(id)?;
        engine_refresh_checkpoint(&self.rt, &self.inner, checkpoint, lifetime_ms)
    }

    /// Delete the checkpoint with the given identifier. A malformed
    /// identifier fails as an invalid argument before any engine call.
    pub fn delete_checkpoint(&self, id: &String) -> (r: Result<(), DbError>)
        ensures
            !uuid_accepts(id@) ==> (r matches Err(e) && e.kind == ErrorKind::Invalid),
    {
        let checkpoint = parse_uuid(id)?;
        engine_delete_checkpoint(&self.rt, &self.inner, checkpoint)
    }

    /// Run one garbage-collection pass under a translated option map.
    /// Each area's minimum age is its specific override if given, else
    /// the general minimum age if given, else the area's built-in
    /// default; an invalid option map fails as an invalid argument
    /// before any engine call.
    pub fn run_gc(&self, opts: &OptionMap) -> (r: Result<(), DbError>)
        ensures
            spec_parse_gc(opts.entries@) is None ==> (r matches Err(e) && e.kind
                == ErrorKind::Invalid),
    {
        let g: GcResolved = parse_gc_options(opts)?;
        let manifest = gc_directory_options(g.manifest_min_age_ms);
        let wal = gc_directory_options(g.wal_min_age_ms);
        let compacted = gc_directory_options(g.compacted_min_age_ms);
        engine_run_gc(&self.rt, &self.inner, manifest, wal, compacted)
    }
}

} // verus!
