use vstd::prelude::*;

verus! {

/// Port of the plaintext proxy listener when none is configured.
pub const DEFAULT_PROXY_PORT_HTTP: u16 = 6188;

/// Port of the TLS proxy listener when none is configured.
pub const DEFAULT_PROXY_PORT_HTTPS: u16 = 6143;

/// Origin port assumed for plaintext upstreams.
pub const DEFAULT_PORT_HTTP: u16 = 80;

/// Origin port assumed for TLS upstreams.
pub const DEFAULT_PORT_HTTPS: u16 = 443;

/// Seconds for which an admitted response stays fresh.
pub const ONE_HOUR_SECS: u64 = 3600;

/// Largest number of bytes a hit handler reads per chunk.
pub const DEFAULT_READ_BUFFER_SIZE: usize = 262144;

/// Capacity of the cache in bytes when none is configured: 2 GiB.
pub const DEFAULT_CACHE_SIZE_BYTES: usize = 2147483648;

/// Name of the file, directly under the cache root, that keeps the size of
/// the cache from one run to the next.
pub const CACHE_STATE_FILENAME: &'static str = "_cache_state.json";

/// Base directory for cache, keys and logs when none is configured.
pub const DEFAULT_RUNTIME_DIR: &'static str = "/tmp/edge-cdn-store";

} // verus!
