use edge_cdn_store::disk_cache::Timestamp;
use edge_cdn_store::error::ErrorType;
use edge_cdn_store::proxy::{
    scheme_from_hdr, DerivedKey, EdgeCdnProxy, Freshness, NoCacheReason, RespCacheable,
    UpstreamPeer,
};

fn lines(values: &[&str]) -> Vec<String> {
    values.iter().map(|v| v.to_string()).collect()
}

fn proxy() -> EdgeCdnProxy {
    EdgeCdnProxy::new(6188, 6143)
}

fn peer(host: &str, port: u16, use_https: bool) -> UpstreamPeer {
    UpstreamPeer {
        host: host.to_string(),
        port,
        use_https,
        sni: if use_https { host.to_string() } else { String::new() },
    }
}

#[test]
fn proxy_knows_its_own_addresses() {
    let p = proxy();
    assert_eq!(
        p.self_addresses,
        vec!["127.0.0.1:6188", "127.0.0.1:6188", "127.0.0.1:6143", "127.0.0.1:6143"]
    );
    assert_eq!((p.listen_http, p.listen_https), (6188, 6143));
    assert_eq!(EdgeCdnProxy::new(0, 65535).self_addresses[3], "127.0.0.1:65535");
    assert_eq!(EdgeCdnProxy::new(0, 65535).self_addresses[0], "127.0.0.1:0");
}

#[test]
fn self_reference_disables_the_cache() {
    let p = proxy();
    assert!(!p.request_cache_filter(Some("127.0.0.1:6188")));
    assert!(!p.request_cache_filter(Some("127.0.0.1:6143")));
    assert!(p.request_cache_filter(Some("127.0.0.1:80")));
    assert!(p.request_cache_filter(Some("127.0.0.1")));
    assert!(p.request_cache_filter(Some("localhost:6188")));
    assert!(p.request_cache_filter(Some("example.test")));
    assert!(p.request_cache_filter(Some("127.0.0.1:6189")));
    assert!(p.request_cache_filter(Some("127.0.0.2:6188")));
    assert!(p.request_cache_filter(Some("[127.0.0.1:6]:188")));
    assert!(p.request_cache_filter(Some("127.0.0.1:6188:1")));
    assert!(p.request_cache_filter(Some("127.0.0.1 :6188")));
    assert!(p.request_cache_filter(Some("")));
    assert!(p.request_cache_filter(None));
    // The origin is still chosen, and the response is stamped as a miss.
    assert_eq!(p.upstream_peer(Some("127.0.0.1:6188"), None, None, Some(6188)).unwrap(), peer("127.0.0.1", 6188, false));
    assert_eq!(p.response_filter(true), ("x-cdn-cache", "MISS"));
}

#[test]
fn self_reference_goes_by_the_authority_not_by_the_text() {
    let p = proxy();
    // Whatever upstream_peer sends to a listener of this process is not cached.
    for host in [
        "127.0.0.1:6188",
        "127.0.0.1:6188/",
        "127.0.0.1:6188///",
        " 127.0.0.1:6188",
        "127.0.0.1:6143\t",
        "\u{a0}127.0.0.1:6143 ",
        "[127.0.0.1]:6188",
        "127.0.0.1:06188",
        "127.0.0.1:+6143",
    ] {
        assert!(!p.request_cache_filter(Some(host)), "{:?}", host);
        let peer = p.upstream_peer(Some(host), Some("http"), None, None).unwrap();
        assert_eq!(peer.host, "127.0.0.1");
        assert!(peer.port == 6188 || peer.port == 6143);
    }
    let same = EdgeCdnProxy::new(8080, 8080);
    assert!(!same.request_cache_filter(Some("127.0.0.1:8080/")));
    assert!(same.request_cache_filter(Some("127.0.0.1:6188")));
}

#[test]
fn host_without_port_goes_to_the_port_of_its_scheme() {
    let p = proxy();
    assert_eq!(p.upstream_peer(Some("example.com"), None, None, Some(6188)).unwrap(), peer("example.com", 80, false));
    assert_eq!(p.upstream_peer(Some("example.com"), None, None, Some(6143)).unwrap(), peer("example.com", 443, true));
    assert_eq!(p.upstream_peer(Some("example.com"), Some("https"), None, Some(6188)).unwrap(), peer("example.com", 443, true));
    assert_eq!(p.upstream_peer(Some("example.com"), Some("HTTPS"), None, None).unwrap(), peer("example.com", 443, true));
    assert_eq!(p.upstream_peer(Some("example.com"), Some("http"), None, Some(6143)).unwrap(), peer("example.com", 80, false));
    assert_eq!(p.upstream_peer(Some("example.com"), Some("gopher"), None, Some(6143)).unwrap(), peer("example.com", 80, false));
    assert_eq!(p.upstream_peer(Some("example.com"), None, None, None).unwrap(), peer("example.com", 80, false));
}

#[test]
fn port_443_forces_tls() {
    let p = proxy();
    assert_eq!(p.upstream_peer(Some("example.com:443"), Some("http"), None, Some(6188)).unwrap(), peer("example.com", 443, true));
    assert_eq!(p.upstream_peer(Some("example.com:8443"), Some("http"), None, Some(6188)).unwrap(), peer("example.com", 8443, false));
    assert_eq!(p.upstream_peer(Some("example.com:8443"), Some("https"), None, Some(6188)).unwrap(), peer("example.com", 8443, true));
    assert_eq!(p.upstream_peer(Some("[::1]:6143"), None, None, Some(6188)).unwrap(), peer("::1", 6143, false));
}

#[test]
fn upstream_needs_a_usable_host_header() {
    let p = proxy();
    let e = p.upstream_peer(None, Some("https"), None, Some(6143)).unwrap_err();
    assert_eq!(e.etype, ErrorType::ConnectError);
    assert_eq!(e.context, "Host header missing from request");
    let e = p.upstream_peer(Some(""), None, None, None).unwrap_err();
    assert_eq!(e.etype, ErrorType::HTTPStatus(400));
    assert_eq!(e.context, "Host header empty");
    let e = p.upstream_peer(Some("[::1"), None, None, None).unwrap_err();
    assert_eq!(e.etype, ErrorType::HTTPStatus(400));
    let e = p.upstream_peer(Some("a b"), None, None, None).unwrap_err();
    assert_eq!(e.context, "Invalid characters in Host");
}

#[test]
fn stated_scheme_prefers_the_pseudo_header() {
    assert_eq!(scheme_from_hdr(Some("https"), Some("http")), Some("https"));
    assert_eq!(scheme_from_hdr(None, Some("http")), Some("http"));
    assert_eq!(scheme_from_hdr(Some("http"), None), Some("http"));
    assert_eq!(scheme_from_hdr(None, None), None);
}

#[test]
fn key_is_scheme_host_and_path() {
    let p = proxy();
    assert_eq!(p.cache_key_callback(Some("example.test"), None, None, Some(6188), Some("/a")).unwrap().primary, "http://example.test/a");
    assert_eq!(p.cache_key_callback(Some("Example.TEST:8080"), None, None, Some(6143), Some("/A?b=C")).unwrap().primary, "https://example.test/A?b=C");
    assert_eq!(p.cache_key_callback(Some("example.test"), Some("HTTPS"), None, Some(6188), None).unwrap().primary, "https://example.test/");
    assert_eq!(p.cache_key_callback(Some("example.test"), Some("ftp"), None, Some(6143), Some("/")).unwrap().primary, "http://example.test/");
    assert_eq!(p.cache_key_callback(Some("[::1]:6143"), None, None, None, Some("/x")).unwrap().primary, "http://::1/x");
    // Port 443 alone does not change the key's scheme.
    assert_eq!(p.cache_key_callback(Some("example.test:443"), None, None, Some(6188), Some("/a")).unwrap().primary, "http://example.test/a");
}

#[test]
fn equal_triples_give_equal_keys_and_unequal_ones_do_not() {
    let p = proxy();
    let k = |host: &str, scheme: Option<&str>, path: &str| {
        p.cache_key_callback(Some(host), scheme, None, Some(6188), Some(path)).unwrap()
    };
    assert_eq!(k("Example.test:80", Some("http"), "/a"), k("example.TEST:8080", None, "/a"));
    assert_eq!(k("user.example.test", Some("https"), "/a?x"), k("USER.example.test:1", Some("Https"), "/a?x"));
    assert_ne!(k("example.test", Some("http"), "/a"), k("example.test", Some("https"), "/a"));
    assert_ne!(k("example.test", None, "/a"), k("example.tes", None, "/a"));
    assert_ne!(k("example.test", None, "/a"), k("example.test", None, "/A"));
    assert_ne!(k("example.test", None, "/a"), k("example.test", None, "/a?"));
    assert_ne!(k("a", None, "/b/c"), k("a.b", None, "/c"));
    assert_ne!(k("a", None, "*"), k("a*", None, "/"));
    assert_ne!(k("a", None, "*"), k("a", None, "/*"));
    assert_eq!(k("A", None, "*"), k("a:7", Some("HTTP"), "*"));
    assert_ne!(k("[a:b]", None, "/c"), k("a", None, "/c"));
}

#[test]
fn key_has_no_namespace_and_no_user_tag() {
    let k = proxy().cache_key_callback(Some("example.test"), None, None, None, Some("/a")).unwrap();
    assert_eq!(
        k,
        DerivedKey {
            namespace: String::new(),
            primary: "http://example.test/a".to_string(),
            user_tag: String::new()
        }
    );
}

#[test]
fn forwarded_proto_counts_where_no_scheme_is_stated() {
    let p = proxy();
    assert_eq!(p.upstream_peer(Some("example.com"), None, Some("https"), Some(6188)).unwrap(), peer("example.com", 443, true));
    assert_eq!(p.upstream_peer(Some("example.com"), Some("http"), Some("https"), Some(6143)).unwrap(), peer("example.com", 80, false));
    assert_eq!(p.upstream_peer(Some("example.com"), None, Some("http"), Some(6143)).unwrap(), peer("example.com", 80, false));
    assert_eq!(
        p.cache_key_callback(Some("example.test"), None, Some("HTTPS"), Some(6188), Some("/a")).unwrap().primary,
        "https://example.test/a"
    );
    assert_eq!(
        p.cache_key_callback(Some("example.test"), Some("http"), Some("https"), Some(6143), Some("/a")).unwrap().primary,
        "http://example.test/a"
    );
}

#[test]
fn key_needs_a_usable_host_header() {
    let p = proxy();
    let e = p.cache_key_callback(None, None, None, None, Some("/a")).unwrap_err();
    assert_eq!(e.etype, ErrorType::InternalError);
    assert_eq!(e.context, " HTTPStatus context: Host header empty");
    let e = p.cache_key_callback(Some("a/b"), None, None, None, Some("/a")).unwrap_err();
    assert_eq!(e.etype, ErrorType::InternalError);
    assert_eq!(e.context, " HTTPStatus context: Invalid characters in Host");
    let e = p.cache_key_callback(Some("[::1"), None, None, None, Some("/a")).unwrap_err();
    assert_eq!(e.context, " HTTPStatus context: Malformed IPv6 address in Host");
    // A host in brackets may not hold a slash either: it would blur where the path starts.
    let e = p.cache_key_callback(Some("[a/b]"), None, None, None, Some("/c")).unwrap_err();
    assert_eq!(e.context, " HTTPStatus context: Invalid characters in Host");
    assert_eq!(
        p.cache_key_callback(Some("a"), None, None, None, Some("/b/c")).unwrap().primary,
        "http://a/b/c"
    );
    let e = p.cache_key_callback(Some("a\tb"), None, None, None, Some("/c")).unwrap_err();
    assert_eq!(e.context, " HTTPStatus context: Invalid characters in Host");
}

#[test]
fn only_success_is_kept() {
    let p = proxy();
    let now = Timestamp { secs: 10, nanos: 0 };
    for status in [0u16, 100, 101, 199, 300, 301, 304, 400, 404, 500, 503, 999, u16::MAX] {
        assert_eq!(
            p.response_cache_filter(status, &lines(&[]), now),
            RespCacheable::Uncacheable(NoCacheReason::NonSuccess),
            "status {}",
            status
        );
        assert_eq!(
            p.response_cache_filter(status, &lines(&["max-age=60"]), now),
            RespCacheable::Uncacheable(NoCacheReason::NonSuccess)
        );
    }
    for status in [200u16, 201, 204, 206, 299] {
        assert!(matches!(p.response_cache_filter(status, &lines(&[]), now), RespCacheable::Cacheable(_)));
    }
    assert_eq!(NoCacheReason::NonSuccess.describe(), "non-2xx response");
}

#[test]
fn no_store_is_respected_in_any_case() {
    let p = proxy();
    let now = Timestamp { secs: 10, nanos: 0 };
    for cc in ["no-store", "No-Store", "NO-STORE", "max-age=0, no-store", "private,no-store,x", "xno-storex"] {
        assert_eq!(
            p.response_cache_filter(200, &lines(&[cc]), now),
            RespCacheable::Uncacheable(NoCacheReason::OriginNotCache),
            "{:?}",
            cc
        );
    }
    for cc in ["", "no-cache", "no store", "nostore", "max-age=3600", "no-stor", "o-store"] {
        assert!(matches!(p.response_cache_filter(200, &lines(&[cc]), now), RespCacheable::Cacheable(_)), "{:?}", cc);
    }
    // Every Cache-Control line counts, not only the first.
    for values in [
        vec!["public", "no-store"],
        vec!["max-age=60", "private", "No-Store"],
        vec!["no-store", "public"],
        vec!["", "x, NO-STORE"],
    ] {
        assert_eq!(
            p.response_cache_filter(200, &lines(&values), now),
            RespCacheable::Uncacheable(NoCacheReason::OriginNotCache),
            "{:?}",
            values
        );
        assert!(!p.keeps(200, &lines(&values)));
    }
    // What no single line names is not made up from two.
    assert!(matches!(
        p.response_cache_filter(200, &lines(&["no-", "store"]), now),
        RespCacheable::Cacheable(_)
    ));
    assert!(p.keeps(200, &lines(&["public", "max-age=1"])));
    assert!(p.keeps(299, &lines(&[])));
    assert!(!p.keeps(300, &lines(&[])));
    assert!(!p.keeps(199, &lines(&["public"])));
    // The status is looked at first.
    assert_eq!(
        p.response_cache_filter(404, &lines(&["no-store"]), now),
        RespCacheable::Uncacheable(NoCacheReason::NonSuccess)
    );
}

#[test]
fn a_response_that_is_not_kept_needs_no_room_on_the_clock() {
    let p = proxy();
    let late = Timestamp { secs: u64::MAX, nanos: 999_999_999 };
    assert_eq!(
        p.response_cache_filter(404, &lines(&[]), late),
        RespCacheable::Uncacheable(NoCacheReason::NonSuccess)
    );
    assert_eq!(
        p.response_cache_filter(200, &lines(&["no-store"]), late),
        RespCacheable::Uncacheable(NoCacheReason::OriginNotCache)
    );
    let last = Timestamp { secs: u64::MAX - 3600, nanos: 1 };
    assert_eq!(
        p.response_cache_filter(200, &lines(&[]), last),
        RespCacheable::Cacheable(Freshness {
            created: last,
            fresh_until: Timestamp { secs: u64::MAX, nanos: 1 },
            stale_while_revalidate_sec: 0,
            stale_if_error_sec: 0,
        })
    );
}

#[test]
fn kept_response_is_fresh_for_one_hour() {
    let p = proxy();
    let now = Timestamp { secs: 1_700_000_000, nanos: 123 };
    assert_eq!(
        p.response_cache_filter(200, &lines(&["public"]), now),
        RespCacheable::Cacheable(Freshness {
            created: now,
            fresh_until: Timestamp { secs: 1_700_003_600, nanos: 123 },
            stale_while_revalidate_sec: 0,
            stale_if_error_sec: 0,
        })
    );
}

#[test]
fn every_response_is_stamped() {
    let p = proxy();
    assert_eq!(p.upstream_response_filter(), ("x-cdn-cache", "MISS"));
    assert_eq!(p.response_filter(true), ("x-cdn-cache", "MISS"));
    assert_eq!(p.response_filter(false), ("x-cdn-cache", "HIT"));
    assert_eq!(p.cache_hit_filter(), None);
}
