use edge_cdn_store::authority::parse_host_authority;
use edge_cdn_store::error::ErrorType;

fn ok(raw: &str) -> (String, Option<u16>) {
    parse_host_authority(raw).unwrap()
}

fn refused(raw: &str) -> String {
    let e = parse_host_authority(raw).unwrap_err();
    assert_eq!(e.etype, ErrorType::HTTPStatus(400));
    e.context
}

#[test]
fn bracketed_ipv6_with_port() {
    assert_eq!(ok("[::1]:6143"), ("::1".to_string(), Some(6143)));
}

#[test]
fn bracketed_ipv6_without_port() {
    assert_eq!(ok("[::1]"), ("::1".to_string(), None));
    assert_eq!(ok("[2001:db8::7]"), ("2001:db8::7".to_string(), None));
}

#[test]
fn bracketed_ipv6_ignores_what_is_no_port() {
    assert_eq!(ok("[::1]junk"), ("::1".to_string(), None));
    assert_eq!(ok("[::1]:"), ("::1".to_string(), None));
    assert_eq!(ok("[::1]:http"), ("::1".to_string(), None));
}

#[test]
fn plain_host_without_port() {
    assert_eq!(ok("example.com"), ("example.com".to_string(), None));
}

#[test]
fn plain_host_with_port() {
    assert_eq!(ok("example.com:8080"), ("example.com".to_string(), Some(8080)));
    assert_eq!(ok("127.0.0.1:6188"), ("127.0.0.1".to_string(), Some(6188)));
}

#[test]
fn host_keeps_its_capitals() {
    assert_eq!(ok("Example.COM:80"), ("Example.COM".to_string(), Some(80)));
}

#[test]
fn empty_host_is_a_bad_request() {
    assert_eq!(refused(""), "Host header empty");
    assert_eq!(refused("   "), "Host header empty");
    assert_eq!(refused("///"), "Host header empty");
    assert_eq!(refused(" \t/ "), "Host header empty");
}

#[test]
fn surrounding_white_space_and_trailing_slashes_are_dropped() {
    assert_eq!(ok("  example.com  "), ("example.com".to_string(), None));
    assert_eq!(ok("example.com/"), ("example.com".to_string(), None));
    assert_eq!(ok("example.com:443///"), ("example.com".to_string(), Some(443)));
    assert_eq!(ok("\u{a0}example.com\u{3000}"), ("example.com".to_string(), None));
}

#[test]
fn unclosed_bracket_is_a_bad_request() {
    assert_eq!(refused("[::1"), "Malformed IPv6 address in Host");
    assert_eq!(refused("["), "Malformed IPv6 address in Host");
}

#[test]
fn slash_or_space_inside_is_a_bad_request() {
    assert_eq!(refused("example.com/path"), "Invalid characters in Host");
    assert_eq!(refused("exa mple.com"), "Invalid characters in Host");
    assert_eq!(refused("example.com /"), "Invalid characters in Host");
    assert_eq!(refused("a\tb"), "Invalid characters in Host");
    assert_eq!(refused("a\nb:80"), "Invalid characters in Host");
    assert_eq!(refused("exam\u{a0}ple.com"), "Invalid characters in Host");
    assert_eq!(refused("a\u{2003}b"), "Invalid characters in Host");
    assert_eq!(refused("example.com:80/x"), "Invalid characters in Host");
    assert_eq!(ok("example.com/ "), ("example.com".to_string(), None));
}

#[test]
fn slash_or_white_space_in_brackets_is_a_bad_request() {
    assert_eq!(refused("[a/b]"), "Invalid characters in Host");
    assert_eq!(refused("[::1]/x"), "Invalid characters in Host");
    assert_eq!(refused("[:: 1]:80"), "Invalid characters in Host");
    assert_eq!(refused("[::1]:8\t0"), "Invalid characters in Host");
    assert_eq!(refused("[::1] :80"), "Invalid characters in Host");
    // What is forbidden is named before what is left open.
    assert_eq!(refused("[a/b"), "Invalid characters in Host");
    assert_eq!(refused("[a b"), "Invalid characters in Host");
}

#[test]
fn every_host_that_parses_is_free_of_slash_and_white_space() {
    let samples = [
        "a", "a:1", "[::1]", "[::1]:2", " a ", "a/", "a b", "a/b", "[a/b]", "[a]b", "a\tb", "\ta\t",
        "[", "]", "[]", "[]:", ":", "::", "a:b:c", "[a:b]:c", "a\u{3000}b", "é", "[é]:1", "a]b", "//",
    ];
    for raw in samples {
        if let Ok((host, _)) = parse_host_authority(raw) {
            assert!(!host.contains('/'), "{:?}", raw);
            assert!(!host.chars().any(|c| c.is_whitespace()), "{:?}", raw);
        }
    }
}

#[test]
fn unreadable_port_is_no_port() {
    assert_eq!(ok("example.com:"), ("example.com".to_string(), None));
    assert_eq!(ok("example.com:http"), ("example.com".to_string(), None));
    assert_eq!(ok("example.com:65536"), ("example.com".to_string(), None));
    assert_eq!(ok("example.com:-1"), ("example.com".to_string(), None));
    assert_eq!(ok("example.com:80:81"), ("example.com".to_string(), None));
    assert_eq!(refused("example.com:8 0"), "Invalid characters in Host");
}

#[test]
fn port_may_carry_a_plus_and_leading_zeros() {
    assert_eq!(ok("example.com:+80"), ("example.com".to_string(), Some(80)));
    assert_eq!(ok("example.com:00080"), ("example.com".to_string(), Some(80)));
    assert_eq!(ok("example.com:65535"), ("example.com".to_string(), Some(65535)));
    assert_eq!(ok("example.com:0"), ("example.com".to_string(), Some(0)));
    assert_eq!(ok("example.com:+"), ("example.com".to_string(), None));
}

#[test]
fn agrees_with_the_standard_library_on_ports() {
    let samples = [
        "", "0", "1", "80", "+80", "-80", "++80", "65535", "65536", "99999999999999999999",
        "0000000000000000000000065535", "８０", "8o", " 80", "80 ", "+", "-", "0x50",
    ];
    for s in samples {
        if s.contains(' ') {
            continue;
        }
        let raw = format!("h:{}", s);
        assert_eq!(ok(&raw).1, s.parse::<u16>().ok(), "port text {:?}", s);
    }
}

#[test]
fn refusal_reads_as_the_error_crate_prints_it() {
    let e = parse_host_authority("").unwrap_err();
    assert_eq!(e.to_text(), " HTTPStatus context: Host header empty");
    let direct = pingora_error::Error::explain(
        pingora_error::ErrorType::HTTPStatus(400),
        "Host header empty",
    );
    assert_eq!(e.to_text(), direct.to_string());
}
