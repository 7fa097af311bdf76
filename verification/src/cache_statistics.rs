use crate::consts::{CACHE_STATE_FILENAME, DEFAULT_CACHE_SIZE_BYTES};
use crate::disk_cache::{DiskCache, Timestamp};
use crate::layout::{join, join_path};
use crate::statics::{env_var_or_num, number_or};
use vstd::prelude::*;

verus! {

/// A span of time.
#[derive(Clone, Copy, Debug, PartialEq, Eq, Structural)]
pub struct Uptime {
    pub secs: u64,
    pub nanos: u32,
}

/// Persisted cache values.
#[derive(Clone, Debug, PartialEq, Eq)]
pub struct CacheStatistics {
    pub root: String,
    pub start_time: Timestamp,
    pub uptime: Uptime,
    pub size_bytes_current: u64,
    pub size_bytes_max: u64,
}

/// The capacity of the cache.
#[derive(Clone, Copy, Debug, PartialEq, Eq, Structural)]
pub struct EvictionManagerCfg {
    pub max_bytes: usize,
}

/// A gauge as the unsigned number that is persisted for it: a negative gauge
/// wraps around.
pub open spec fn persisted_size(gauge: i64) -> u64 {
    if gauge >= 0 {
        gauge as u64
    } else {
        (gauge + 0x1_0000_0000_0000_0000) as u64
    }
}

/// A persisted size as the gauge that it seeds: the inverse of
/// `persisted_size`.
pub open spec fn seeded_size(persisted: u64) -> i64 {
    if persisted <= i64::MAX {
        persisted as i64
    } else {
        (persisted - 0x1_0000_0000_0000_0000) as i64
    }
}

/// The capacity of the cache: the number of bytes configured as
/// `CACHE_SIZE_BYTES`, else 2 GiB.
pub fn eviction_manager_cfg(configured: Option<&str>) -> (cfg: EvictionManagerCfg)
    ensures
        cfg.max_bytes == number_or(
            match configured {
                Some(s) => Some(s@),
                None => None,
            },
            DEFAULT_CACHE_SIZE_BYTES as u64,
            usize::MAX as u64,
        ),
{
    let n = env_var_or_num(configured, DEFAULT_CACHE_SIZE_BYTES as u64, usize::MAX as u64);
    EvictionManagerCfg { max_bytes: n as usize }
}

/// The file that keeps the statistics of the cache under `root`.
pub fn cache_state_path(root: &str) -> (r: String)
    ensures
        r@ == join(root@, CACHE_STATE_FILENAME@),
{
    join_path(root, CACHE_STATE_FILENAME)
}

/// The size with which the gauge of a new cache starts: the current size
/// that the last run persisted, else nothing.
pub fn seed_size(previous: Option<&CacheStatistics>) -> (r: i64)
    ensures
        r == (match previous {
            Some(stats) => seeded_size(stats.size_bytes_current),
            None => 0,
        }),
{
    match previous {
        Some(stats) => {
            let n: u64 = stats.size_bytes_current;
            if n <= 0x7fff_ffff_ffff_ffff {
                n as i64
            } else {
                (n as i128 - 0x1_0000_0000_0000_0000) as i64
            }
        },
        None => 0,
    }
}

/// Whether the capacity is now smaller than what the cache already holds on
/// disk. This is worth a warning; it neither blocks the start nor evicts.
pub fn capacity_shrunk(cfg: &EvictionManagerCfg, previous: Option<&CacheStatistics>) -> (r: bool)
    ensures
        r == (match previous {
            Some(stats) => cfg.max_bytes < stats.size_bytes_current,
            None => false,
        }),
{
    match previous {
        Some(stats) => (cfg.max_bytes as u64) < stats.size_bytes_current,
        None => false,
    }
}

impl CacheStatistics {
    /// What is persisted of `cache` when it shuts down after `uptime`, with a
    /// capacity of `cfg`.
    pub fn snapshot(cache: &DiskCache, uptime: Uptime, cfg: &EvictionManagerCfg) -> (stats:
        CacheStatistics)
        ensures
            stats.root@ == cache.root@,
            stats.start_time == cache.start_time,
            stats.uptime == uptime,
            stats.size_bytes_current == persisted_size(cache.metrics.size_bytes),
            stats.size_bytes_max == cfg.max_bytes,
    {
        let gauge: i64 = cache.metrics.size_bytes;
        let current: u64 = if gauge >= 0 {
            gauge as u64
        } else {
            (gauge as i128 + 0x1_0000_0000_0000_0000) as u64
        };
        CacheStatistics {
            root: cache.root.clone(),
            start_time: cache.start_time,
            uptime,
            size_bytes_current: current,
            size_bytes_max: cfg.max_bytes as u64,
        }
    }
}

/// The size of a cache survives a restart: the gauge seeded from what was
/// persisted is the gauge that was persisted.
pub proof fn law_size_survives_restart(gauge: i64)
    ensures
        seeded_size(persisted_size(gauge)) == gauge,
{
}

} // verus!
