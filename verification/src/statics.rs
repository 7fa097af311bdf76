use crate::consts::DEFAULT_RUNTIME_DIR;
use crate::text::{
    chars_of, parse_unsigned, parse_unsigned_range, trim_bounds, trimmed,
};
use vstd::prelude::*;
use vstd::string::StringExecFns;

verus! {

/// The value of a setting: the one configured, else the default.
pub open spec fn setting_or(configured: Option<String>, default: Seq<char>) -> Seq<char> {
    match configured {
        Some(s) => s@,
        None => default,
    }
}

/// The value of a numeric setting: the number that the configured text
/// writes once white space around it is removed, if it writes one no larger
/// than `max`; else the default.
pub open spec fn number_or(configured: Option<Seq<char>>, default: u64, max: u64) -> u64 {
    match configured {
        Some(s) => match parse_unsigned(trimmed(s), max as nat) {
            Some(n) => n as u64,
            None => default,
        },
        None => default,
    }
}

/// Returns the configured value of a setting or falls back to the default.
pub fn env_var_or_str(configured: Option<String>, default: &str) -> (r: String)
    ensures
        r@ == setting_or(configured, default@),
{
    match configured {
        Some(s) => s,
        None => default.to_owned(),
    }
}

/// Reads the configured value of a setting as a number of at most `max`, or
/// falls back to the default.
pub fn env_var_or_num(configured: Option<&str>, default: u64, max: u64) -> (r: u64)
    ensures
        r == number_or(
            match configured {
                Some(s) => Some(s@),
                None => None,
            },
            default,
            max,
        ),
{
    match configured {
        Some(s) => {
            let v = chars_of(s);
            let (a, b) = trim_bounds(&v);
            match parse_unsigned_range(&v, a, b, max) {
                Some(n) => n,
                None => default,
            }
        },
        None => default,
    }
}

/// The base directory for cache, keys and logs: the one configured as
/// `EDGE_RUNTIME_DIR`, else `/tmp/edge-cdn-store`.
pub fn runtime_dir(configured: Option<String>) -> (r: String)
    ensures
        r@ == setting_or(configured, DEFAULT_RUNTIME_DIR@),
{
    env_var_or_str(configured, DEFAULT_RUNTIME_DIR)
}

/// The cache root below the runtime directory.
pub fn cache_dir(runtime_dir: &str) -> (r: String)
    ensures
        r@ == runtime_dir@ + "/cache"@,
{
    let mut s = runtime_dir.to_owned();
    s.append("/cache");
    s
}

/// The directory of the server's certificate and key.
pub fn server_keys_dir(runtime_dir: &str) -> (r: String)
    ensures
        r@ == runtime_dir@ + "/keys"@,
{
    let mut s = runtime_dir.to_owned();
    s.append("/keys");
    s
}

/// The file that the application logs to.
pub fn path_to_app_log(runtime_dir: &str) -> (r: String)
    ensures
        r@ == runtime_dir@ + "/app.log"@,
{
    let mut s = runtime_dir.to_owned();
    s.append("/app.log");
    s
}

/// The file that panics are reported to.
pub fn path_to_panic_log(runtime_dir: &str) -> (r: String)
    ensures
        r@ == runtime_dir@ + "/panic.log"@,
{
    let mut s = runtime_dir.to_owned();
    s.append("/panic.log");
    s
}

} // verus!
