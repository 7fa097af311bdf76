use crate::error::{CacheError, CacheErrorView, ErrorType};
use crate::text::{
    char_is_white, chars_of, drop_trailing, find_char, index_of, is_white,
    lemma_drop_trailing_bounds, lemma_index_of_bounds, parse_unsigned, parse_unsigned_range,
    string_of_range, trailing_bound, trim_bounds, trimmed, without_trailing,
};
use vstd::prelude::*;

verus! {

/// Why a `Host` value is no authority.
pub enum AuthorityFault {
    /// Nothing is left once white space and trailing slashes are removed.
    Empty,
    /// It opens a bracket that it never closes.
    UnclosedBracket,
    /// It holds a slash or white space, in brackets or out of them.
    InvalidCharacter,
}

/// The sentence that explains an `AuthorityFault`.
pub open spec fn fault_context(fault: AuthorityFault) -> Seq<char> {
    match fault {
        AuthorityFault::Empty => "Host header empty"@,
        AuthorityFault::UnclosedBracket => "Malformed IPv6 address in Host"@,
        AuthorityFault::InvalidCharacter => "Invalid characters in Host"@,
    }
}

/// The port that `s` writes, if it writes one: an optional `+` and decimal
/// digits with a value of at most 65535.
pub open spec fn port_of(s: Seq<char>) -> Option<u16> {
    match parse_unsigned(s, 65535) {
        Some(n) => Some(n as u16),
        None => None,
    }
}

/// The port announced by what follows a host: a colon and a port, else none.
pub open spec fn port_after(rest: Seq<char>) -> Option<u16> {
    if rest.len() > 0 && rest[0] == ':' {
        port_of(rest.drop_first())
    } else {
        None
    }
}

/// What is parsed: the `Host` value without surrounding white space and
/// without the slashes at its end.
pub open spec fn authority_text(raw: Seq<char>) -> Seq<char> {
    without_trailing(trimmed(raw), '/')
}

/// Whether `c` may not stand in an authority: a slash, or white space of
/// any kind.
pub open spec fn is_forbidden(c: char) -> bool {
    c == '/' || is_white(c)
}

/// Whether `s` holds a character that may not stand in an authority.
pub open spec fn has_forbidden(s: Seq<char>) -> bool {
    exists|i: int| 0 <= i < s.len() && is_forbidden(#[trigger] s[i])
}

/// The host and the port of a `Host` value, or why it has none.
///
/// A value that holds a slash or white space anywhere is refused, in
/// brackets as out of them. A bracketed IPv6 literal gives the text between
/// the brackets; whatever follows the closing bracket counts only where it
/// is a colon and a port. Any other value is split at its first colon. A
/// port that cannot be read is no port, not a fault.
pub open spec fn authority_of(raw: Seq<char>) -> Result<(Seq<char>, Option<u16>), AuthorityFault> {
    let s = authority_text(raw);
    if s.len() == 0 {
        Err(AuthorityFault::Empty)
    } else if has_forbidden(s) {
        Err(AuthorityFault::InvalidCharacter)
    } else if s[0] == '[' {
        let rest = s.drop_first();
        let end = index_of(rest, ']', 0);
        if end == rest.len() {
            Err(AuthorityFault::UnclosedBracket)
        } else {
            Ok((rest.subrange(0, end), port_after(rest.subrange(end + 1, rest.len() as int))))
        }
    } else {
        let colon = index_of(s, ':', 0);
        Ok((s.subrange(0, colon), port_after(s.subrange(colon, s.len() as int))))
    }
}

/// The host of an authority holds neither a slash nor white space.
pub proof fn law_host_is_clean(raw: Seq<char>)
    ensures
        authority_of(raw) matches Ok((host, _)) ==> !has_forbidden(host),
{
    let s = authority_text(raw);
    if authority_of(raw) is Ok {
        let host = authority_of(raw)->Ok_0.0;
        assert forall|i: int| 0 <= i < host.len() implies !is_forbidden(#[trigger] host[i]) by {
            if s[0] == '[' {
                let rest = s.drop_first();
                lemma_index_of_bounds(rest, ']', 0);
                assert(host[i] == s[i + 1]);
            } else {
                lemma_index_of_bounds(s, ':', 0);
                assert(host[i] == s[i]);
            }
        }
    }
}

/// The failure with which a `Host` value is refused: status 400 and the
/// sentence of the fault.
pub open spec fn bad_request(fault: AuthorityFault) -> CacheErrorView {
    CacheErrorView {
        etype: ErrorType::HTTPStatus(400),
        context: fault_context(fault),
        retry: false,
    }
}

/// The port written by `v[from..to]`.
fn parse_port(v: &Vec<char>, from: usize, to: usize) -> (r: Option<u16>)
    requires
        from <= to <= v@.len(),
    ensures
        r == port_of(v@.subrange(from as int, to as int)),
{
    match parse_unsigned_range(v, from, to, 65535) {
        Some(n) => Some(n as u16),
        None => None,
    }
}

/// The port announced by `v[from..to]`.
fn parse_port_after(v: &Vec<char>, from: usize, to: usize) -> (r: Option<u16>)
    requires
        from <= to <= v@.len(),
    ensures
        r == port_after(v@.subrange(from as int, to as int)),
{
    let ghost rest = v@.subrange(from as int, to as int);
    if from < to && v[from] == ':' {
        assert(rest[0] == ':');
        assert(rest.drop_first() =~= v@.subrange(from + 1, to as int));
        parse_port(v, from + 1, to)
    } else {
        proof {
            if from < to {
                assert(rest[0] == v@[from as int]);
            }
        }
        None
    }
}

/// Parses the value of a `Host` header as an authority: `host[:port]` or
/// `[IPv6]:port`.
///
/// A value that is no authority is refused with HTTP status 400.
pub fn parse_host_authority(raw: &str) -> (r: Result<(String, Option<u16>), CacheError>)
    ensures
        match authority_of(raw@) {
            Ok((host, port)) => r matches Ok(got) && got.0@ == host && got.1 == port,
            Err(fault) => r matches Err(e) && e@ == bad_request(fault),
        },
{
    let v = chars_of(raw);
    let (a, b) = trim_bounds(&v);
    let end = trailing_bound(&v, '/', b);
    let ghost t = trimmed(v@);
    let ghost s = authority_text(v@);
    proof {
        assert(t == v@.subrange(a as int, b as int));
        lemma_trailing_in_range(v@, a as int, b as int);
    }
    let end: usize = if end < a { a } else { end };
    assert(s =~= v@.subrange(a as int, end as int));
    if end == a {
        return Err(CacheError::explain(ErrorType::HTTPStatus(400), "Host header empty".to_owned()));
    }
    let mut i: usize = a;
    while i < end
        invariant
            a <= i <= end <= v@.len(),
            s == v@.subrange(a as int, end as int),
            s == authority_text(raw@),
            forall|k: int| 0 <= k < i - a ==> !is_forbidden(#[trigger] s[k]),
        decreases end - i,
    {
        assert(s[i - a] == v@[i as int]);
        if v[i] == '/' || char_is_white(v[i]) {
            assert(is_forbidden(s[i - a]));
            assert(has_forbidden(s));
            return Err(
                CacheError::explain(
                    ErrorType::HTTPStatus(400),
                    "Invalid characters in Host".to_owned(),
                ),
            );
        }
        i += 1;
    }
    assert(!has_forbidden(s));
    assert(s[0] == v@[a as int]);
    if v[a] == '[' {
        let ghost rest = s.drop_first();
        assert(rest =~= v@.subrange(a + 1, end as int));
        let close = find_char(&v, ']', a + 1, end);
        if close == end {
            return Err(
                CacheError::explain(
                    ErrorType::HTTPStatus(400),
                    "Malformed IPv6 address in Host".to_owned(),
                ),
            );
        }
        let host = string_of_range(&v, a + 1, close);
        let port = parse_port_after(&v, close + 1, end);
        proof {
            let e = index_of(rest, ']', 0);
            assert(e == close - (a + 1));
            assert(rest.subrange(0, e) =~= v@.subrange(a + 1, close as int));
            assert(rest.subrange(e + 1, rest.len() as int) =~= v@.subrange(close + 1, end as int));
        }
        return Ok((host, port));
    }
    let colon = find_char(&v, ':', a, end);
    let host = string_of_range(&v, a, colon);
    let port = parse_port_after(&v, colon, end);
    proof {
        let c = index_of(s, ':', 0);
        assert(c == colon - a);
        assert(s.subrange(0, c) =~= v@.subrange(a as int, colon as int));
        assert(s.subrange(c, s.len() as int) =~= v@.subrange(colon as int, end as int));
    }
    Ok((host, port))
}

/// Removing a trailing run from a part of a sequence can be done in the
/// whole sequence, as long as one stops at the start of the part.
proof fn lemma_trailing_in_range(v: Seq<char>, a: int, b: int)
    requires
        0 <= a <= b <= v.len(),
    ensures
        drop_trailing(v.subrange(a, b), '/', b - a) == (if drop_trailing(v, '/', b) < a {
            0
        } else {
            drop_trailing(v, '/', b) - a
        }),
    decreases b - a,
{
    let part = v.subrange(a, b);
    if a < b && v[b - 1] == '/' {
        assert(part[b - a - 1] == '/');
        lemma_trailing_in_range(v, a, b - 1);
        lemma_trailing_prefix(part, b - a - 1);
        assert(part.subrange(0, b - a - 1) =~= v.subrange(a, b - 1));
    } else if a < b {
        assert(part[b - a - 1] == v[b - 1]);
    } else {
        lemma_drop_trailing_bounds(v, '/', b);
    }
}

/// The trailing run of a prefix is found in the whole.
proof fn lemma_trailing_prefix(s: Seq<char>, j: int)
    requires
        0 <= j <= s.len(),
    ensures
        drop_trailing(s.subrange(0, j), '/', j) == drop_trailing(s, '/', j),
    decreases j,
{
    if 0 < j && s[j - 1] == '/' {
        assert(s.subrange(0, j)[j - 1] == '/');
        lemma_trailing_prefix(s, j - 1);
        lemma_trailing_prefix(s.subrange(0, j), j - 1);
        assert(s.subrange(0, j).subrange(0, j - 1) =~= s.subrange(0, j - 1));
    } else if 0 < j {
        assert(s.subrange(0, j)[j - 1] == s[j - 1]);
    }
}

} // verus!
