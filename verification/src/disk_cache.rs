use crate::consts::DEFAULT_READ_BUFFER_SIZE;
use crate::error::CacheError;
use crate::handle_hit::DiskHitHandler;
use crate::handle_miss::{tmp_name, DiskMissHandler};
use crate::key::{CacheKey, CompactCacheKey};
use crate::layout::{join, object_paths, ObjectPaths};
use crate::metrics::{counter_sum, CacheMetrics};
use crate::protocol::{
    failure_at, operation_of, site_failure, stage_action, DiskOp, Operation, Site, Stage,
};
use vstd::prelude::*;

verus! {

/// A point in time: seconds and nanoseconds since the Unix epoch.
#[derive(Clone, Copy, Debug, PartialEq, Eq, Structural)]
pub struct Timestamp {
    pub secs: u64,
    pub nanos: u32,
}

/// Why an object is purged.
#[derive(Clone, Copy, Debug, PartialEq, Eq, Structural)]
pub enum PurgeType {
    /// The cache is over its capacity.
    Eviction,
    /// The object was declared invalid from outside.
    Invalidation,
}

/// The content store: every object lives in a directory of its own, two
/// levels of shards below the root,
///
///   * `$CACHE_ROOT/hash[0..2]/hash[2..4]/hash/body`
///   * `$CACHE_ROOT/hash[0..2]/hash[2..4]/hash/meta`
///   * `$CACHE_ROOT/hash[0..2]/hash[2..4]/hash/hdr`
///
/// and counts as published only when all three files are there.
#[derive(Clone, Debug, PartialEq, Eq)]
pub struct DiskCache {
    pub root: String,
    pub start_time: Timestamp,
    pub uptime: u64,
    pub metrics: CacheMetrics,
}

/// Whether `stage` ends a lookup.
pub open spec fn ends_lookup(stage: Stage) -> bool {
    stage_action(stage) is None && operation_of(stage) == Operation::Lookup
}

/// Whether `stage` ends a meta update.
pub open spec fn ends_update(stage: Stage) -> bool {
    stage_action(stage) is None && operation_of(stage) == Operation::Update
}

/// Whether `stage` ends a purge.
pub open spec fn ends_purge(stage: Stage) -> bool {
    stage_action(stage) is None && operation_of(stage) == Operation::Purge
}

/// Whether `stage` ends a lookup.
pub fn ends_lookup_stage(stage: Stage) -> (r: bool)
    ensures
        r == ends_lookup(stage),
{
    match stage {
        Stage::LookupHit(_) => true,
        Stage::LookupMiss => true,
        Stage::Failed(Site::CreateRoot) => true,
        Stage::Failed(Site::MeasureBody) => true,
        _ => false,
    }
}

/// Whether `stage` ends a meta update.
pub fn ends_update_stage(stage: Stage) -> (r: bool)
    ensures
        r == ends_update(stage),
{
    match stage {
        Stage::Updated(_) => true,
        Stage::UpdateRejected => true,
        Stage::Failed(Site::UpdateMeta) => true,
        Stage::Failed(Site::UpdateHdr) => true,
        _ => false,
    }
}

/// Whether `stage` ends a purge.
pub fn ends_purge_stage(stage: Stage) -> (r: bool)
    ensures
        r == ends_purge(stage),
{
    match stage {
        Stage::Purged { .. } => true,
        _ => false,
    }
}

impl DiskCache {
    /// A cache under `root` that starts at `now`, with fresh counters and a
    /// size gauge seeded with `prev_size`, the size that an earlier run left
    /// behind.
    pub fn new(root: String, prev_size: i64, now: Timestamp) -> (cache: DiskCache)
        ensures
            cache.root@ == root@,
            cache.start_time == now,
            cache.uptime == 0,
            cache.metrics == (CacheMetrics {
                lookup_hits: 0,
                served_hits: 0,
                misses: 0,
                inserts: 0,
                purge_attempts: 0,
                evictions: 0,
                evicted_bytes: 0,
                size_bytes: prev_size,
            }),
    {
        DiskCache { root, start_time: now, uptime: 0, metrics: CacheMetrics::new(prev_size) }
    }

    /// The files of the object that `key` names.
    pub fn path_from_key(&self, key: &CacheKey) -> (p: ObjectPaths)
        ensures
            p.is_layout_of(self.root@, key.combined_spec()),
    {
        self.path_from_hash(key.combined())
    }

    /// The files of the object that the compact key `key` names.
    pub fn path_from_compact_key(&self, key: &CompactCacheKey) -> (p: ObjectPaths)
        ensures
            p.is_layout_of(self.root@, key.combined_spec()),
    {
        self.path_from_hash(key.combined())
    }

    /// The files of the object named `hash`. This is the only place where
    /// paths inside the cache root are made.
    pub fn path_from_hash(&self, hash: String) -> (p: ObjectPaths)
        requires
            hash@.len() >= 4,
        ensures
            p.is_layout_of(self.root@, hash@),
    {
        object_paths(self.root.as_str(), hash)
    }

    /// Starts a lookup: the root is made sure of, then `meta`, `hdr` and
    /// `body` are probed together, and the body of a complete object is
    /// measured.
    pub fn lookup(&self, key: &CacheKey) -> (r: (ObjectPaths, DiskOp))
        ensures
            r.0.is_layout_of(self.root@, key.combined_spec()),
            r.1.stage == Stage::LookupEnsureRoot,
            r.1.detail@.len() == 0,
    {
        (self.path_from_key(key), DiskOp::at(Stage::LookupEnsureRoot))
    }

    /// Ends a lookup. An object whose three files are all there is a hit: it
    /// is counted, and a handler over its whole body is handed out, with no
    /// seek pending. Anything less is a miss, counted as such. A root that
    /// cannot be created, or a body that cannot be measured, is an
    /// `InternalError` and counts for nothing.
    pub fn lookup_done(&mut self, paths: &ObjectPaths, op: &DiskOp) -> (r: Result<
        Option<DiskHitHandler>,
        CacheError,
    >)
        requires
            ends_lookup(op.stage),
        ensures
            final(self).root == old(self).root,
            final(self).start_time == old(self).start_time,
            final(self).uptime == old(self).uptime,
            op.stage matches Stage::LookupHit(n) ==> r == Ok::<Option<DiskHitHandler>, CacheError>(
                Some(
                    DiskHitHandler {
                        total_len: n,
                        range_start: 0,
                        range_end: n,
                        pos: 0,
                        pending_seek: false,
                        chunk: DEFAULT_READ_BUFFER_SIZE,
                    },
                ),
            ) && final(self).metrics == (CacheMetrics {
                lookup_hits: counter_sum(old(self).metrics.lookup_hits, 1),
                ..old(self).metrics
            }),
            op.stage == Stage::LookupMiss ==> r == Ok::<Option<DiskHitHandler>, CacheError>(None)
                && final(self).metrics == (CacheMetrics {
                misses: counter_sum(old(self).metrics.misses, 1),
                ..old(self).metrics
            }),
            op.stage matches Stage::Failed(site) ==> final(self).metrics == old(self).metrics && (
            r matches Err(e) && e@ == site_failure(site, old(self).root@, paths.body@, op.detail@)),
    {
        match op.stage {
            Stage::LookupHit(n) => {
                self.metrics.record_lookup_hit();
                Ok(Some(DiskHitHandler::new(n, DEFAULT_READ_BUFFER_SIZE)))
            },
            Stage::Failed(site) => Err(
                failure_at(site, self.root.as_str(), paths.body.as_str(), op.detail.as_str()),
            ),
            _ => {
                self.metrics.record_miss();
                Ok(None)
            },
        }
    }

    /// Starts the fetch of an object that is not cached. The miss is counted
    /// first. The meta arrives serialized, so that publication cannot fail
    /// on it once the body is written; where it could not be serialized,
    /// that failure is returned and nothing is started. Otherwise a handler
    /// with a temporary file of its own is prepared: the object's directory
    /// is made sure of, then the file is created.
    pub fn get_miss_handler(
        &mut self,
        key: &CacheKey,
        serialized: Result<(Vec<u8>, Vec<u8>), CacheError>,
        pid: u32,
        nanos: u128,
    ) -> (r: Result<(DiskMissHandler, DiskOp), CacheError>)
        ensures
            final(self).root == old(self).root,
            final(self).start_time == old(self).start_time,
            final(self).uptime == old(self).uptime,
            final(self).metrics == (CacheMetrics {
                misses: counter_sum(old(self).metrics.misses, 1),
                ..old(self).metrics
            }),
            match serialized {
                Ok((meta_internal, meta_header)) => r matches Ok((h, op)) && {
                    let dir = crate::layout::object_dir(old(self).root@, key.combined_spec());
                    &&& op.stage == Stage::SetupEnsureDir
                    &&& op.detail@.len() == 0
                    &&& h.dir@ == dir
                    &&& h.body_path@ == join(dir, "body"@)
                    &&& h.meta_path@ == join(dir, "meta"@)
                    &&& h.hdr_path@ == join(dir, "hdr"@)
                    &&& h.tmp_path@ == join(dir, tmp_name(key.combined_spec(), pid, nanos))
                    &&& h.tmp_bytes_written == 0
                    &&& h.meta_internal == meta_internal
                    &&& h.meta_header == meta_header
                },
                Err(e) => r == Err::<(DiskMissHandler, DiskOp), CacheError>(e),
            },
    {
        self.metrics.record_miss();
        match serialized {
            Err(e) => Err(e),
            Ok((meta_internal, meta_header)) => {
                let paths = self.path_from_key(key);
                let (tmp_path, _) = DiskMissHandler::create_tmp(
                    paths.dir.as_str(),
                    paths.hash.as_str(),
                    pid,
                    nanos,
                );
                let handler = DiskMissHandler {
                    tmp_path,
                    tmp_bytes_written: 0,
                    dir: paths.dir,
                    body_path: paths.body,
                    meta_path: paths.meta,
                    hdr_path: paths.hdr,
                    meta_internal,
                    meta_header,
                };
                Ok((handler, DiskOp::at(Stage::SetupEnsureDir)))
            },
        }
    }

    /// Starts a purge, which is counted as an attempt: `body` is measured
    /// and removed first, so that the size of the cache is kept exactly;
    /// then `meta`, `hdr` and the directory are removed as far as they can
    /// be. The reason for the purge makes no difference here.
    pub fn purge(&mut self, key: &CompactCacheKey, purge_type: PurgeType) -> (r: (
        ObjectPaths,
        DiskOp,
    ))
        ensures
            final(self).root == old(self).root,
            final(self).start_time == old(self).start_time,
            final(self).uptime == old(self).uptime,
            final(self).metrics == (CacheMetrics {
                purge_attempts: counter_sum(old(self).metrics.purge_attempts, 1),
                ..old(self).metrics
            }),
            r.0.is_layout_of(old(self).root@, key.combined_spec()),
            r.1.stage == Stage::PurgeMeasure,
            r.1.detail@.len() == 0,
    {
        self.metrics.record_purge_attempt();
        (self.path_from_compact_key(key), DiskOp::at(Stage::PurgeMeasure))
    }

    /// Ends a purge and says whether the object existed, that is whether its
    /// body was removed. If so the eviction is counted, and the bytes of
    /// the body are added to the bytes evicted and taken off the size of the
    /// cache. If not, nothing is counted.
    pub fn purge_done(&mut self, op: &DiskOp) -> (r: Result<bool, CacheError>)
        requires
            ends_purge(op.stage),
        ensures
            final(self).root == old(self).root,
            final(self).start_time == old(self).start_time,
            final(self).uptime == old(self).uptime,
            op.stage matches Stage::Purged { existed, bytes } ==> r == Ok::<bool, CacheError>(
                existed,
            ) && final(self).metrics == old(self).metrics.purged(existed, bytes),
    {
        match op.stage {
            Stage::Purged { existed, bytes } => {
                self.metrics.record_purge(existed, bytes);
                Ok(existed)
            },
            _ => Ok(false),
        }
    }

    /// Starts a meta update: where `body` exists, `meta` and then `hdr` are
    /// overwritten in place with the serialized meta. Where the meta could
    /// not be serialized, nothing is written.
    pub fn update_meta(
        &self,
        key: &CacheKey,
        serialized: &Result<(Vec<u8>, Vec<u8>), CacheError>,
    ) -> (r: (ObjectPaths, DiskOp))
        ensures
            r.0.is_layout_of(self.root@, key.combined_spec()),
            r.1.stage == (Stage::UpdateCheckBody { serialized: serialized is Ok }),
            r.1.detail@.len() == 0,
    {
        let writable = serialized.is_ok();
        (self.path_from_key(key), DiskOp::at(Stage::UpdateCheckBody { serialized: writable }))
    }

    /// Ends a meta update and says whether the meta was rewritten: not so
    /// where the object has no body. Where the body exists but the new meta
    /// could not be serialized, the failure of the serialization is
    /// returned; a file that could not be written is an `InternalError`.
    pub fn update_meta_done(
        &self,
        op: &DiskOp,
        serialized: Result<(Vec<u8>, Vec<u8>), CacheError>,
    ) -> (r: Result<bool, CacheError>)
        requires
            ends_update(op.stage),
            op.stage == Stage::UpdateRejected ==> serialized is Err,
        ensures
            op.stage matches Stage::Updated(done) ==> r == Ok::<bool, CacheError>(done),
            op.stage == Stage::UpdateRejected ==> (serialized matches Err(e) && r == Err::<
                bool,
                CacheError,
            >(e)),
            op.stage matches Stage::Failed(site) ==> (r matches Err(e) && e@ == site_failure(
                site,
                Seq::empty(),
                Seq::empty(),
                op.detail@,
            )),
    {
        match op.stage {
            Stage::Updated(done) => Ok(done),
            Stage::Failed(site) => Err(failure_at(site, "", "", op.detail.as_str())),
            _ => match serialized {
                Err(e) => Err(e),
                Ok(_) => Ok(false),
            },
        }
    }
}

} // verus!
