use crate::authority::{
    authority_of, bad_request, is_forbidden, law_host_is_clean, parse_host_authority,
};
use crate::consts::{DEFAULT_PORT_HTTP, DEFAULT_PORT_HTTPS, ONE_HOUR_SECS};
use crate::disk_cache::Timestamp;
use crate::error::{error_text, CacheError, CacheErrorView, ErrorType};
use crate::text::{
    ascii_lower, ascii_lowercase, chars_of, contains, contains_seq, decimal, decimal_string,
    digits_value, eq_ignore_ascii_case, eq_ignoring_ascii_case, is_digit,
    law_decimal_round_trip, string_of, text_views, to_ascii_lowercase,
};
use vstd::prelude::*;
use vstd::string::StringExecFns;

verus! {

/// The policy of the caching proxy: where a request goes, whether it may be
/// served from the cache, under which key, and whether a response may be
/// kept.
#[derive(Clone, Debug, PartialEq, Eq)]
pub struct EdgeCdnProxy {
    /// The addresses under which this process itself listens, written out
    /// as `host:port`.
    pub self_addresses: Vec<String>,
    pub listen_http: u16,
    pub listen_https: u16,
}

/// The origin chosen for a request.
#[derive(Clone, Debug, PartialEq, Eq)]
pub struct UpstreamPeer {
    pub host: String,
    pub port: u16,
    pub use_https: bool,
    /// The server name to present with TLS; empty without TLS.
    pub sni: String,
}

/// What a cache key is made of, before it is hashed.
#[derive(Clone, Debug, PartialEq, Eq)]
pub struct DerivedKey {
    pub namespace: String,
    pub primary: String,
    pub user_tag: String,
}

/// The window in which a cached response may be served.
#[derive(Clone, Copy, Debug, PartialEq, Eq, Structural)]
pub struct Freshness {
    pub created: Timestamp,
    pub fresh_until: Timestamp,
    pub stale_while_revalidate_sec: u32,
    pub stale_if_error_sec: u32,
}

/// Why a response is not kept.
#[derive(Clone, Copy, Debug, PartialEq, Eq, Structural)]
pub enum NoCacheReason {
    /// The origin forbids caching.
    OriginNotCache,
    /// The status is not a success.
    NonSuccess,
}

/// Whether a response may be kept.
#[derive(Clone, Copy, Debug, PartialEq, Eq, Structural)]
pub enum RespCacheable {
    Cacheable(Freshness),
    Uncacheable(NoCacheReason),
}

/// A way to force a cached response out on a hit. The proxy uses none.
#[derive(Clone, Copy, Debug, PartialEq, Eq, Structural)]
pub enum ForcedInvalidationKind {
    ForceExpired,
    ForceMiss,
}

/// The address of a listener of this process on `port`.
pub open spec fn self_address(port: u16) -> Seq<char> {
    "127.0.0.1:"@ + decimal(port as nat)
}

/// Whether `s` names the scheme `https`, in any mix of capitals.
pub open spec fn names_https(s: Seq<char>) -> bool {
    eq_ignoring_ascii_case(s, "https"@)
}

/// The scheme that a request states: its `:scheme` pseudo-header, else its
/// `X-Forwarded-Proto` header.
pub open spec fn stated_scheme(
    pseudo_scheme: Option<Seq<char>>,
    forwarded_proto: Option<Seq<char>>,
) -> Option<Seq<char>> {
    match pseudo_scheme {
        Some(s) => Some(s),
        None => forwarded_proto,
    }
}

/// Whether a request counts as HTTPS for its cache key: by the scheme it
/// states, else by the listener it arrived on.
pub open spec fn keyed_as_https(hdr_scheme: Option<Seq<char>>, listener_https: bool) -> bool {
    match hdr_scheme {
        Some(s) => names_https(s),
        None => listener_https,
    }
}

/// The primary key of a request.
pub open spec fn primary_key(https: bool, host_lc: Seq<char>, path_and_query: Seq<char>) -> Seq<
    char,
> {
    (if https {
        "https"@
    } else {
        "http"@
    }) + "://"@ + host_lc + path_and_query
}

/// Whether a status is a success: 200 to 299.
pub open spec fn is_success(status: u16) -> bool {
    200 <= status < 300
}

/// Whether one `Cache-Control` value names `no-store`, in any mix of
/// capitals.
pub open spec fn names_no_store(value: Seq<char>) -> bool {
    contains_seq(ascii_lowercase(value), "no-store"@)
}

/// Whether the `Cache-Control` values of a response forbid storing: any one
/// of them names `no-store`.
pub open spec fn forbids_store(cache_control: Seq<Seq<char>>) -> bool {
    exists|i: int| 0 <= i < cache_control.len() && names_no_store(#[trigger] cache_control[i])
}

/// Whether a response with this status and these `Cache-Control` values is
/// kept: its status is a success and nothing forbids storing it.
pub open spec fn is_kept(status: u16, cache_control: Seq<Seq<char>>) -> bool {
    is_success(status) && !forbids_store(cache_control)
}

/// An authority written out as `host:port`.
pub open spec fn authority_address(host: Seq<char>, port: u16) -> Seq<char> {
    host + ":"@ + decimal(port as nat)
}

/// The view of an optional text.
pub open spec fn opt_view(s: Option<&str>) -> Option<Seq<char>> {
    match s {
        Some(t) => Some(t@),
        None => None,
    }
}

/// The scheme that a request states: its `:scheme` pseudo-header, else its
/// `X-Forwarded-Proto` header.
pub fn scheme_from_hdr<'a>(pseudo_scheme: Option<&'a str>, forwarded_proto: Option<&'a str>) -> (r:
    Option<&'a str>)
    ensures
        opt_view(r) == stated_scheme(opt_view(pseudo_scheme), opt_view(forwarded_proto)),
{
    match pseudo_scheme {
        Some(s) => Some(s),
        None => forwarded_proto,
    }
}

/// Whether `s` names the scheme `https`.
fn is_https(s: &str) -> (r: bool)
    ensures
        r == names_https(s@),
{
    eq_ignore_ascii_case(&chars_of(s), &chars_of("https"))
}

/// The text of the address of a listener of this process on `port`.
fn self_address_of(port: u16) -> (r: String)
    ensures
        r@ == self_address(port),
{
    let mut s = "127.0.0.1:".to_owned();
    s.append(decimal_string(port as u128).as_str());
    s
}

impl EdgeCdnProxy {
    /// The addresses are those of the two listeners, each listed twice.
    pub open spec fn wf(&self) -> bool {
        &&& self.self_addresses@.len() == 4
        &&& self.self_addresses@[0]@ == self_address(self.listen_http)
        &&& self.self_addresses@[1]@ == self_address(self.listen_http)
        &&& self.self_addresses@[2]@ == self_address(self.listen_https)
        &&& self.self_addresses@[3]@ == self_address(self.listen_https)
    }

    /// Whether the authority of a `Host` value is one of this process's own
    /// listeners: it names a port, and written out as `host:port` it is the
    /// address of the plain or of the TLS listener. White space around the
    /// value, slashes at its end, brackets around the host and zeros ahead
    /// of the port make no difference.
    pub open spec fn is_self(&self, host_hdr: Seq<char>) -> bool {
        match authority_of(host_hdr) {
            Ok((host, Some(port))) => authority_address(host, port) == self_address(
                self.listen_http,
            ) || authority_address(host, port) == self_address(self.listen_https),
            _ => false,
        }
    }

    /// Whether this request arrived on the TLS listener.
    pub open spec fn on_tls_listener(&self, listener_port: Option<u16>) -> bool {
        listener_port == Some(self.listen_https)
    }

    /// The origin for a request, or why there is none.
    pub open spec fn upstream_of(
        &self,
        host_hdr: Option<Seq<char>>,
        pseudo_scheme: Option<Seq<char>>,
        forwarded_proto: Option<Seq<char>>,
        listener_port: Option<u16>,
    ) -> Result<(Seq<char>, u16, bool), CacheErrorView> {
        match host_hdr {
            None => Err(
                CacheErrorView {
                    etype: ErrorType::ConnectError,
                    context: "Host header missing from request"@,
                    retry: false,
                },
            ),
            Some(h) => match authority_of(h) {
                Err(fault) => Err(bad_request(fault)),
                Ok((host, port)) => {
                    let https = keyed_as_https(
                        stated_scheme(pseudo_scheme, forwarded_proto),
                        self.on_tls_listener(listener_port),
                    ) || port == Some(DEFAULT_PORT_HTTPS);
                    Ok(
                        (
                            host,
                            match port {
                                Some(p) => p,
                                None => if https {
                                    DEFAULT_PORT_HTTPS
                                } else {
                                    DEFAULT_PORT_HTTP
                                },
                            },
                            https,
                        ),
                    )
                },
            },
        }
    }

    /// The policy of a process that listens for plain HTTP on `listen_http`
    /// and for TLS on `listen_https`.
    pub fn new(listen_http: u16, listen_https: u16) -> (p: EdgeCdnProxy)
        ensures
            p.wf(),
            p.listen_http == listen_http,
            p.listen_https == listen_https,
    {
        let mut addresses: Vec<String> = Vec::new();
        addresses.push(self_address_of(listen_http));
        addresses.push(self_address_of(listen_http));
        addresses.push(self_address_of(listen_https));
        addresses.push(self_address_of(listen_https));
        EdgeCdnProxy { self_addresses: addresses, listen_http, listen_https }
    }

    /// Chooses the origin of a request from its `Host` header.
    ///
    /// A request without the header cannot be connected; a header that is no
    /// authority is refused with status 400. The scheme is taken from the
    /// `:scheme` pseudo-header, else from `X-Forwarded-Proto`; where neither
    /// is there, TLS is used if the request arrived on the TLS listener.
    /// Whatever the scheme, a header that names port 443 forces TLS. The
    /// port is the one the header names, else 443 or 80 by scheme. With TLS
    /// the server name is the host.
    pub fn upstream_peer(
        &self,
        host_hdr: Option<&str>,
        pseudo_scheme: Option<&str>,
        forwarded_proto: Option<&str>,
        listener_port: Option<u16>,
    ) -> (r: Result<UpstreamPeer, CacheError>)
        ensures
            match self.upstream_of(
                opt_view(host_hdr),
                opt_view(pseudo_scheme),
                opt_view(forwarded_proto),
                listener_port,
            ) {
                Ok((host, port, https)) => r matches Ok(peer) && peer.host@ == host && peer.port
                    == port && peer.use_https == https && peer.sni@ == (if https {
                    host
                } else {
                    Seq::empty()
                }),
                Err(e) => r matches Err(err) && err@ == e,
            },
    {
        let host_hdr = match host_hdr {
            Some(h) => h,
            None => {
                return Err(
                    CacheError::explain(
                        ErrorType::ConnectError,
                        "Host header missing from request".to_owned(),
                    ),
                );
            },
        };
        let (host_only, port_from_host) = match parse_host_authority(host_hdr) {
            Ok(host_and_port) => host_and_port,
            Err(ha_err) => {
                return Err(ha_err);
            },
        };
        let listener_https = match listener_port {
            Some(p) => p == self.listen_https,
            None => false,
        };
        let by_scheme = match scheme_from_hdr(pseudo_scheme, forwarded_proto) {
            Some(s) => is_https(s),
            None => listener_https,
        };
        let named_tls_port = match port_from_host {
            Some(p) => p == DEFAULT_PORT_HTTPS,
            None => false,
        };
        let use_https = by_scheme || named_tls_port;
        let port = match port_from_host {
            Some(p) => p,
            None => if use_https {
                DEFAULT_PORT_HTTPS
            } else {
                DEFAULT_PORT_HTTP
            },
        };
        let sni = if use_https {
            host_only.clone()
        } else {
            String::new()
        };
        Ok(UpstreamPeer { host: host_only, port, use_https, sni })
    }

    /// Whether the cache is enabled for a request: for every request but
    /// those whose `Host` header has the authority of one of this process's
    /// own listeners, so that a proxy that is its own origin does not fetch
    /// from itself for ever. A request without the header, or with one that
    /// is no authority, is cached.
    pub fn request_cache_filter(&self, host: Option<&str>) -> (enabled: bool)
        ensures
            enabled == !self.is_self(
                match host {
                    Some(h) => h@,
                    None => ""@,
                },
            ),
    {
        let host_hdr: &str = match host {
            Some(h) => h,
            None => "",
        };
        match parse_host_authority(host_hdr) {
            Ok((host_only, Some(port))) => {
                proof {
                    law_self_is_loopback_listener(host_only@, port, self.listen_http);
                    law_self_is_loopback_listener(host_only@, port, self.listen_https);
                }
                let loopback = host_only == "127.0.0.1".to_owned();
                !(loopback && (port == self.listen_http || port == self.listen_https))
            },
            _ => true,
        }
    }

    /// Derives the cache key of a request. Its primary key is the scheme,
    /// `://`, the host in small letters and the path with its query, `/`
    /// where there is none; the port is no part of it. Namespace and user
    /// tag are empty. The scheme is the one the request states in its
    /// `:scheme` pseudo-header, else in `X-Forwarded-Proto`, `https` only if
    /// it says so; where it states none, `https` on the TLS listener and
    /// `http` elsewhere.
    ///
    /// A `Host` header that is no authority (a missing one counts as empty)
    /// is an `InternalError` that repeats the text of the refusal.
    pub fn cache_key_callback(
        &self,
        host_hdr: Option<&str>,
        pseudo_scheme: Option<&str>,
        forwarded_proto: Option<&str>,
        listener_port: Option<u16>,
        path_and_query: Option<&str>,
    ) -> (r: Result<DerivedKey, CacheError>)
        ensures
            match authority_of(
                match host_hdr {
                    Some(h) => h@,
                    None => Seq::empty(),
                },
            ) {
                Ok((host, _)) => r matches Ok(key) && key.namespace@.len() == 0
                    && key.user_tag@.len() == 0 && key.primary@ == primary_key(
                    keyed_as_https(
                        stated_scheme(opt_view(pseudo_scheme), opt_view(forwarded_proto)),
                        self.on_tls_listener(listener_port),
                    ),
                    ascii_lowercase(host),
                    match path_and_query {
                        Some(p) => p@,
                        None => "/"@,
                    },
                ),
                Err(fault) => r matches Err(e) && e@ == (CacheErrorView {
                    etype: ErrorType::InternalError,
                    context: error_text(bad_request(fault).etype, bad_request(fault).context),
                    retry: false,
                }),
            },
    {
        proof {
            reveal_strlit("");
        }
        let host_hdr: &str = match host_hdr {
            Some(h) => h,
            None => "",
        };
        assert(""@ =~= Seq::<char>::empty());
        let host_only = match parse_host_authority(host_hdr) {
            Ok((host_only, _)) => host_only,
            Err(parse_err) => {
                return Err(CacheError::internal(parse_err.to_text()));
            },
        };
        let host_lc = string_of(&to_ascii_lowercase(&chars_of(host_only.as_str())));
        let listener_https = match listener_port {
            Some(p) => p == self.listen_https,
            None => false,
        };
        let https = match scheme_from_hdr(pseudo_scheme, forwarded_proto) {
            Some(s) => is_https(s),
            None => listener_https,
        };
        let path_q: &str = match path_and_query {
            Some(p) => p,
            None => "/",
        };
        let mut primary = if https {
            "https".to_owned()
        } else {
            "http".to_owned()
        };
        primary.append("://");
        primary.append(host_lc.as_str());
        primary.append(path_q);
        Ok(DerivedKey { namespace: String::new(), primary, user_tag: String::new() })
    }

    /// No cached response is forced out on a hit.
    pub fn cache_hit_filter(&self) -> (r: Option<ForcedInvalidationKind>)
        ensures
            r is None,
    {
        None
    }

    /// Whether a response with this status and these `Cache-Control` values
    /// is kept.
    pub fn keeps(&self, status: u16, cache_control: &Vec<String>) -> (r: bool)
        ensures
            r == is_kept(status, text_views(cache_control@)),
    {
        if status < 200 || status >= 300 {
            return false;
        }
        let ghost values = text_views(cache_control@);
        let mut i: usize = 0;
        while i < cache_control.len()
            invariant
                i <= cache_control@.len(),
                values == text_views(cache_control@),
                forall|k: int| 0 <= k < i ==> !names_no_store(#[trigger] values[k]),
            decreases cache_control.len() - i,
        {
            let value = chars_of(cache_control[i].as_str());
            if contains(&to_ascii_lowercase(&value), &chars_of("no-store")) {
                assert(names_no_store(values[i as int]));
                return false;
            }
            i += 1;
        }
        true
    }

    /// Decides whether a response may be kept. `cache_control` holds the
    /// values of all `Cache-Control` lines of the response. A status outside
    /// 200..300 is never kept; a response one of whose `Cache-Control`
    /// values holds `no-store` is not kept either. Every other response is
    /// fresh for one hour from `now`, with no grace after that.
    pub fn response_cache_filter(
        &self,
        status: u16,
        cache_control: &Vec<String>,
        now: Timestamp,
    ) -> (r: RespCacheable)
        requires
            is_kept(status, text_views(cache_control@)) ==> now.secs + ONE_HOUR_SECS <= u64::MAX,
        ensures
            !is_success(status) ==> r == RespCacheable::Uncacheable(NoCacheReason::NonSuccess),
            is_success(status) && forbids_store(text_views(cache_control@)) ==> r
                == RespCacheable::Uncacheable(NoCacheReason::OriginNotCache),
            is_kept(status, text_views(cache_control@)) ==> r == RespCacheable::Cacheable(
                Freshness {
                    created: now,
                    fresh_until: Timestamp { secs: (now.secs + ONE_HOUR_SECS) as u64, nanos: now.nanos },
                    stale_while_revalidate_sec: 0,
                    stale_if_error_sec: 0,
                },
            ),
    {
        if status < 200 || status >= 300 {
            return RespCacheable::Uncacheable(NoCacheReason::NonSuccess);
        }
        if !self.keeps(status, cache_control) {
            return RespCacheable::Uncacheable(NoCacheReason::OriginNotCache);
        }
        RespCacheable::Cacheable(
            Freshness {
                created: now,
                fresh_until: Timestamp { secs: now.secs + ONE_HOUR_SECS, nanos: now.nanos },
                stale_while_revalidate_sec: 0,
                stale_if_error_sec: 0,
            },
        )
    }

    /// The stamp on every response that comes from the origin: it was not
    /// served from the cache.
    pub fn upstream_response_filter(&self) -> (r: (&'static str, &'static str))
        ensures
            r.0@ == "x-cdn-cache"@,
            r.1@ == "MISS"@,
    {
        ("x-cdn-cache", "MISS")
    }

    /// The stamp on every response that goes to the client: `HIT` exactly
    /// when the origin was not used, so that the cache produced the whole
    /// body; `MISS` otherwise.
    pub fn response_filter(&self, upstream_used: bool) -> (r: (&'static str, &'static str))
        ensures
            r.0@ == "x-cdn-cache"@,
            r.1@ == (if upstream_used {
                "MISS"@
            } else {
                "HIT"@
            }),
    {
        if upstream_used {
            ("x-cdn-cache", "MISS")
        } else {
            ("x-cdn-cache", "HIT")
        }
    }
}

impl NoCacheReason {
    /// The words under which the reason is reported.
    pub fn describe(&self) -> (r: &'static str)
        ensures
            r@ == (match *self {
                NoCacheReason::OriginNotCache => "OriginNotCache"@,
                NoCacheReason::NonSuccess => "non-2xx response"@,
            }),
    {
        match self {
            NoCacheReason::OriginNotCache => "OriginNotCache",
            NoCacheReason::NonSuccess => "non-2xx response",
        }
    }
}

/// Whether `path` is the target of a request as it stands behind the host:
/// a path that starts with a slash, with or without a query, or the lone
/// asterisk of a request that addresses the server as a whole.
pub open spec fn is_request_path(path: Seq<char>) -> bool {
    path.len() > 0 && (path[0] == '/' || path == seq!['*'])
}

/// Primary keys keep apart what they are made of: for hosts without a
/// slash and request paths, two keys are the same only if scheme, host and
/// path are.
proof fn lemma_keys_keep_apart(
    https1: bool,
    host1: Seq<char>,
    path1: Seq<char>,
    https2: bool,
    host2: Seq<char>,
    path2: Seq<char>,
)
    requires
        forall|i: int| 0 <= i < host1.len() ==> host1[i] != '/',
        forall|i: int| 0 <= i < host2.len() ==> host2[i] != '/',
        is_request_path(path1),
        is_request_path(path2),
        primary_key(https1, host1, path1) == primary_key(https2, host2, path2),
    ensures
        https1 == https2,
        host1 == host2,
        path1 == path2,
{
    reveal_strlit("https");
    reveal_strlit("http");
    reveal_strlit("://");
    let k1 = primary_key(https1, host1, path1);
    let k2 = primary_key(https2, host2, path2);
    if https1 != https2 {
        if https1 {
            assert(k1[4] == 's');
            assert(k2[4] == ':');
        } else {
            assert(k1[4] == ':');
            assert(k2[4] == 's');
        }
        assert(false);
    }
    let lead: int = if https1 {
        8
    } else {
        7
    };
    let n1 = host1.len() as int;
    let n2 = host2.len() as int;
    assert(k1.len() == lead + n1 + path1.len());
    assert(k2.len() == lead + n2 + path2.len());
    assert(k1[lead + n1] == path1[0]);
    assert(k2[lead + n2] == path2[0]);
    // A shorter host would put its slash, or end its key, inside the
    // longer one.
    if n1 < n2 {
        assert(k2[lead + n1] == host2[n1]);
        assert(path1[0] != '/');
        assert(path1.len() == 1);
        assert(false);
    }
    if n2 < n1 {
        assert(k1[lead + n2] == host1[n2]);
        assert(path2[0] != '/');
        assert(path2.len() == 1);
        assert(false);
    }
    assert forall|i: int| 0 <= i < n1 implies host1[i] == host2[i] by {
        assert(k1[lead + i] == host1[i]);
        assert(k2[lead + i] == host2[i]);
    }
    assert(host1 =~= host2);
    assert forall|i: int| 0 <= i < path1.len() implies path1[i] == path2[i] by {
        assert(k1[lead + n1 + i] == path1[i]);
        assert(k2[lead + n1 + i] == path2[i]);
    }
    assert(path1 =~= path2);
}

/// Two requests whose `Host` headers are authorities get the same primary
/// key exactly when they agree in scheme, in host once capitals are turned
/// into small letters, and in path with query. So whatever differs in one
/// of the three gets a key of its own, and the port makes no difference.
pub proof fn law_key_derivation(
    https1: bool,
    host_hdr1: Seq<char>,
    path1: Seq<char>,
    https2: bool,
    host_hdr2: Seq<char>,
    path2: Seq<char>,
)
    requires
        authority_of(host_hdr1) is Ok,
        authority_of(host_hdr2) is Ok,
        is_request_path(path1),
        is_request_path(path2),
    ensures
        ({
            let host1 = ascii_lowercase(authority_of(host_hdr1)->Ok_0.0);
            let host2 = ascii_lowercase(authority_of(host_hdr2)->Ok_0.0);
            primary_key(https1, host1, path1) == primary_key(https2, host2, path2) <==> (https1
                == https2 && host1 == host2 && path1 == path2)
        }),
{
    let raw1 = authority_of(host_hdr1)->Ok_0.0;
    let raw2 = authority_of(host_hdr2)->Ok_0.0;
    let host1 = ascii_lowercase(raw1);
    let host2 = ascii_lowercase(raw2);
    law_host_is_clean(host_hdr1);
    law_host_is_clean(host_hdr2);
    assert forall|i: int| 0 <= i < host1.len() implies host1[i] != '/' by {
        assert(!is_forbidden(raw1[i]));
        assert(host1[i] == ascii_lower(raw1[i]));
    }
    assert forall|i: int| 0 <= i < host2.len() implies host2[i] != '/' by {
        assert(!is_forbidden(raw2[i]));
        assert(host2[i] == ascii_lower(raw2[i]));
    }
    if primary_key(https1, host1, path1) == primary_key(https2, host2, path2) {
        lemma_keys_keep_apart(https1, host1, path1, https2, host2, path2);
    }
}

/// The authority of a `Host` value is one of this process's own listeners
/// exactly when its host is `127.0.0.1` and its port is that of the plain
/// or of the TLS listener.
pub proof fn law_self_is_loopback_listener(host: Seq<char>, port: u16, listener: u16)
    ensures
        authority_address(host, port) == self_address(listener) <==> host == "127.0.0.1"@ && port
            == listener,
{
    reveal_strlit("127.0.0.1:");
    reveal_strlit("127.0.0.1");
    reveal_strlit(":");
    let a = authority_address(host, port);
    let b = self_address(listener);
    let dp = decimal(port as nat);
    let dl = decimal(listener as nat);
    law_decimal_round_trip(port as nat, port as nat);
    law_decimal_round_trip(listener as nat, listener as nat);
    if a == b {
        let n = host.len() as int;
        assert(a.len() == n + 1 + dp.len());
        assert(b.len() == 10 + dl.len());
        assert(a[n] == ':');
        // The address of a listener holds its only colon where the host ends.
        if n > 9 {
            assert(b[n] == dl[n - 10]);
            assert(is_digit(dl[n - 10]));
            assert(false);
        }
        if n < 9 {
            assert(b[n] == "127.0.0.1:"@[n]);
            assert(false);
        }
        assert forall|i: int| 0 <= i < 9 implies host[i] == "127.0.0.1"@[i] by {
            assert(a[i] == host[i]);
            assert(b[i] == "127.0.0.1:"@[i]);
        }
        assert(host =~= "127.0.0.1"@);
        assert(dp.len() == dl.len());
        assert forall|i: int| 0 <= i < dp.len() implies dp[i] == dl[i] by {
            assert(a[10 + i] == dp[i]);
            assert(b[10 + i] == dl[i]);
        }
        assert(dp =~= dl);
        assert(digits_value(dp) == port && digits_value(dl) == listener);
    }
    if host == "127.0.0.1"@ && port == listener {
        assert(a =~= b);
    }
}

/// The guard covers what the choice of upstream would send back to this
/// process: for a `Host` value that names a port, the cache is disabled
/// exactly when the upstream chosen is `127.0.0.1` on the port of one of
/// this process's own listeners.
pub proof fn law_guard_covers_upstream(
    proxy: EdgeCdnProxy,
    host_hdr: Seq<char>,
    pseudo_scheme: Option<Seq<char>>,
    forwarded_proto: Option<Seq<char>>,
    listener_port: Option<u16>,
)
    requires
        authority_of(host_hdr) matches Ok((_, port)) && port is Some,
    ensures
        proxy.upstream_of(Some(host_hdr), pseudo_scheme, forwarded_proto, listener_port) matches Ok(
            (host, port, _),
        ) && (proxy.is_self(host_hdr) <==> host == "127.0.0.1"@ && (port == proxy.listen_http
            || port == proxy.listen_https)),
{
    let host = authority_of(host_hdr)->Ok_0.0;
    let port = authority_of(host_hdr)->Ok_0.1->0;
    law_self_is_loopback_listener(host, port, proxy.listen_http);
    law_self_is_loopback_listener(host, port, proxy.listen_https);
}

} // verus!
