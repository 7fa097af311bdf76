use edge_cdn_store::error::{CacheError, ErrorType};
use edge_cdn_store::inspector::html_escape;
use edge_cdn_store::text::{
    char_is_white, chars_of, contains, decimal_string, eq_ignore_ascii_case, find_char,
    parse_unsigned_range, string_of, string_of_range, to_ascii_lowercase, trailing_bound,
    trim_bounds,
};

fn cs(s: &str) -> Vec<char> {
    s.chars().collect()
}

#[test]
fn chars_and_back() {
    let v = chars_of("héllo ✓");
    assert_eq!(v, cs("héllo ✓"));
    assert_eq!(string_of(&v), "héllo ✓");
    assert_eq!(string_of_range(&v, 1, 4), "éll");
    assert_eq!(string_of_range(&v, 3, 3), "");
}

#[test]
fn white_space_is_what_the_standard_library_trims() {
    let mut n: u32 = 0;
    while n <= 0x3100 {
        if let Some(c) = char::from_u32(n) {
            assert_eq!(char_is_white(c), c.is_whitespace(), "U+{:04X}", n);
        }
        n += 1;
    }
}

#[test]
fn trim_bounds_match_str_trim() {
    for s in ["", " ", "a", "  a b  ", "\t\n x \r\n", "\u{2003}x\u{205f}", "x   ", "   x"] {
        let v = cs(s);
        let (a, b) = trim_bounds(&v);
        assert_eq!(string_of_range(&v, a, b), s.trim(), "{:?}", s);
    }
}

#[test]
fn trailing_run_is_found() {
    let v = cs("ab///");
    assert_eq!(trailing_bound(&v, '/', 5), 2);
    assert_eq!(trailing_bound(&v, '/', 3), 2);
    assert_eq!(trailing_bound(&v, '/', 2), 2);
    assert_eq!(trailing_bound(&cs("///"), '/', 3), 0);
    assert_eq!(trailing_bound(&cs(""), '/', 0), 0);
}

#[test]
fn decimal_of_numbers() {
    assert_eq!(decimal_string(0), "0");
    assert_eq!(decimal_string(7), "7");
    assert_eq!(decimal_string(10), "10");
    assert_eq!(decimal_string(6188), "6188");
    assert_eq!(decimal_string(1_000_000), "1000000");
    assert_eq!(decimal_string(u64::MAX as u128), "18446744073709551615");
    assert_eq!(decimal_string(u128::MAX), "340282366920938463463374607431768211455");
}

#[test]
fn parsing_bounded_numbers() {
    let v = cs("x+0042y");
    assert_eq!(parse_unsigned_range(&v, 1, 6, 100), Some(42));
    assert_eq!(parse_unsigned_range(&v, 2, 6, 41), None);
    assert_eq!(parse_unsigned_range(&v, 0, 6, 100), None);
    assert_eq!(parse_unsigned_range(&v, 1, 7, 100), None);
    assert_eq!(parse_unsigned_range(&v, 1, 2, 100), None);
    assert_eq!(parse_unsigned_range(&v, 3, 3, 100), None);
    let big = cs("18446744073709551615");
    assert_eq!(parse_unsigned_range(&big, 0, big.len(), u64::MAX), Some(u64::MAX));
    let over = cs("18446744073709551616");
    assert_eq!(parse_unsigned_range(&over, 0, over.len(), u64::MAX), None);
}

#[test]
fn lowercase_touches_ascii_capitals_only() {
    assert_eq!(to_ascii_lowercase(&cs("ExAmple.COM ÄÖ[]@`{")), cs("example.com ÄÖ[]@`{"));
    assert!(eq_ignore_ascii_case(&cs("HTTPS"), &cs("https")));
    assert!(eq_ignore_ascii_case(&cs("HtTpS"), &cs("hTtPs")));
    assert!(!eq_ignore_ascii_case(&cs("http"), &cs("https")));
    assert!(!eq_ignore_ascii_case(&cs("Ä"), &cs("ä")));
    assert!(eq_ignore_ascii_case(&cs(""), &cs("")));
}

#[test]
fn substring_search() {
    assert!(contains(&cs("max-age=0, no-store"), &cs("no-store")));
    assert!(contains(&cs("no-store"), &cs("no-store")));
    assert!(contains(&cs("xno-storex"), &cs("no-store")));
    assert!(!contains(&cs("no-stor"), &cs("no-store")));
    assert!(!contains(&cs(""), &cs("no-store")));
    assert!(contains(&cs("abc"), &cs("")));
    assert!(contains(&cs(""), &cs("")));
    assert!(!contains(&cs("no-sto re"), &cs("no-store")));
}

#[test]
fn first_occurrence_of_a_char() {
    let v = cs("a:b:c");
    assert_eq!(find_char(&v, ':', 0, 5), 1);
    assert_eq!(find_char(&v, ':', 2, 5), 3);
    assert_eq!(find_char(&v, ':', 4, 5), 5);
    assert_eq!(find_char(&v, 'z', 0, 5), 5);
    assert_eq!(find_char(&v, ':', 0, 1), 1);
}

#[test]
fn html_entities() {
    assert_eq!(html_escape("a<b>&c"), "a&lt;b&gt;&amp;c");
    assert_eq!(html_escape("&amp;"), "&amp;amp;");
    assert_eq!(html_escape(""), "");
    assert_eq!(html_escape("plain \"text\" 'here'"), "plain \"text\" 'here'");
    let s = "x<&>y&&<<";
    assert_eq!(html_escape(s), s.replace('&', "&amp;").replace('<', "&lt;").replace('>', "&gt;"));
}

#[test]
fn error_text_is_what_the_error_crate_prints() {
    let cases = [
        (ErrorType::HTTPStatus(400), pingora_error::ErrorType::HTTPStatus(400), "bad"),
        (ErrorType::ConnectError, pingora_error::ErrorType::ConnectError, "no host"),
        (ErrorType::InternalError, pingora_error::ErrorType::InternalError, ""),
    ];
    for (ours, theirs, context) in cases {
        let e = CacheError::explain(ours, context.to_string());
        assert_eq!(e.to_text(), pingora_error::Error::explain(theirs, context).to_string());
    }
    let e = CacheError::internal("seek failed: boom".to_string());
    assert_eq!(e.to_text(), " InternalError context: seek failed: boom");
    assert_eq!(e.etype, ErrorType::InternalError);
}
