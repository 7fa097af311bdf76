//! The cache storage and serving engine of a caching HTTP proxy, with its
//! decisions stated as contracts and proved.
//!
//! The library does no I/O. Whatever needs the disk is written as a small
//! state machine (`protocol`): it names the next request, takes the answer,
//! and moves on. The caller performs the requests. `model` runs the same
//! machines against a file system without faults and proves what they leave
//! on disk.
//!
//! - `layout`: from the name of an object to its files.
//! - `handle_hit`, `handle_miss`: the streaming reader and writer of a body.
//! - `disk_cache`: lookup, miss handling, purge and meta update.
//! - `tiered`: routing between a primary and a secondary backend.
//! - `proxy`: upstream selection, cache key, cacheability, hit and miss
//!   stamps.
//! - `metrics`, `cache_statistics`: counters, the size gauge, and what is
//!   kept of them from one run to the next.
//! - `inspector`: the listing of the cache directory for the admin surface.

pub mod authority;
pub mod cache_statistics;
pub mod consts;
pub mod disk_cache;
pub mod error;
pub mod handle_hit;
pub mod handle_miss;
pub mod inspector;
pub mod key;
pub mod layout;
pub mod logger;
pub mod metrics;
pub mod model;
pub mod protocol;
pub mod proxy;
pub mod statics;
pub mod text;
pub mod tiered;
pub mod utils;
