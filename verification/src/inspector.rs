use crate::layout::{join, join_path};
use crate::text::{chars_of, drop_trailing, push_char, string_of_range, trailing_bound};
use crate::utils::hex_char;
use vstd::prelude::*;
use vstd::string::StringExecFns;
use vstd::utf8::encode_utf8;

verus! {

/// What stands for `c` in HTML text.
pub open spec fn escaped_char(c: char) -> Seq<char> {
    if c == '&' {
        "&amp;"@
    } else if c == '<' {
        "&lt;"@
    } else if c == '>' {
        "&gt;"@
    } else {
        seq![c]
    }
}

/// `s` with every `&`, `<` and `>` replaced by its HTML entity.
pub open spec fn escaped(s: Seq<char>) -> Seq<char>
    decreases s.len(),
{
    if s.len() == 0 {
        Seq::empty()
    } else {
        escaped(s.drop_last()) + escaped_char(s.last())
    }
}

/// Encodes the characters that must not be read as HTML.
pub fn html_escape(s: &str) -> (r: String)
    ensures
        r@ == escaped(s@),
{
    let v = chars_of(s);
    let mut out = String::new();
    let mut i: usize = 0;
    while i < v.len()
        invariant
            i <= v@.len(),
            out@ == escaped(v@.take(i as int)),
        decreases v.len() - i,
    {
        let c = v[i];
        proof {
            assert(v@.take(i + 1).drop_last() =~= v@.take(i as int));
            assert(v@.take(i + 1).last() == c);
        }
        if c == '&' {
            out.append("&amp;");
        } else if c == '<' {
            out.append("&lt;");
        } else if c == '>' {
            out.append("&gt;");
        } else {
            push_char(&mut out, c);
            assert(out@ =~= escaped(v@.take(i as int)) + seq![c]);
        }
        i += 1;
    }
    assert(v@.take(v@.len() as int) =~= v@);
    out
}

/// Whether a byte stands for itself in a URL: an ASCII letter or digit, or
/// one of `-`, `.`, `_`, `~`.
pub open spec fn is_unreserved(b: u8) -> bool {
    ||| 48 <= b <= 57
    ||| 65 <= b <= 90
    ||| 97 <= b <= 122
    ||| b == 45
    ||| b == 46
    ||| b == 95
    ||| b == 126
}

/// What stands for the byte `b` in a URL: the byte itself, or `%` and its
/// two capital hexadecimal digits.
pub open spec fn percent_byte(b: u8) -> Seq<char> {
    if is_unreserved(b) {
        seq![b as char]
    } else {
        seq!['%', hex_char(b as int / 16), hex_char(b as int % 16)]
    }
}

/// `bytes` percent-encoded, byte by byte.
pub open spec fn percent_encoded(bytes: Seq<u8>) -> Seq<char>
    decreases bytes.len(),
{
    if bytes.len() == 0 {
        Seq::empty()
    } else {
        percent_encoded(bytes.drop_last()) + percent_byte(bytes.last())
    }
}

/// `s` in small letters, by the rules of Unicode.
pub uninterp spec fn lowercased(s: Seq<char>) -> Seq<char>;

/// The media type that the extension of `path` suggests, or
/// `application/octet-stream` where it suggests none.
pub uninterp spec fn guessed_mime(path: Seq<char>) -> Seq<char>;

/// Whether `base` is a prefix of `full`, counting whole path components
/// only.
pub uninterp spec fn path_within(full: Seq<char>, base: Seq<char>) -> bool;

/// Percent-encodes a name for use in a URL.
///
/// Trusted: `urlencoding::encode`, which goes through the UTF-8 bytes of
/// its argument and keeps ASCII letters, digits and `-`, `.`, `_`, `~`,
/// while every other byte becomes `%` and two capital hexadecimal digits.
#[verifier::external_body]
fn url_encode(name: &str) -> (r: String)
    ensures
        r@ == percent_encoded(encode_utf8(name@)),
{
    urlencoding::encode(name).into_owned()
}

/// Turns a text into small letters.
///
/// Trusted: `str::to_lowercase` of the standard library. Its result
/// depends on the text alone and is only named here.
#[verifier::external_body]
fn to_lowercase(s: &str) -> (r: String)
    ensures
        r@ == lowercased(s@),
{
    s.to_lowercase()
}

/// Guesses the media type of a file from the extension of its path.
///
/// Trusted: `mime_guess::from_path` followed by `first_or_octet_stream`,
/// which look the extension up in a fixed table and never touch the file.
/// The result depends on the path alone and is only named here.
#[verifier::external_body]
fn guess_mime(path: &str) -> (r: String)
    ensures
        r@ == guessed_mime(path@),
{
    mime_guess::from_path(path).first_or_octet_stream().as_ref().to_string()
}

/// Tells whether one path lies within another.
///
/// Trusted: `Path::starts_with` of the standard library, which compares
/// whole components and reads nothing from disk. The result depends on the
/// two paths alone and is only named here.
#[verifier::external_body]
fn path_starts_with(full: &str, base: &str) -> (r: bool)
    ensures
        r == path_within(full@, base@),
{
    std::path::Path::new(full).starts_with(base)
}

/// Whether `a` comes before `b` in the order of dictionaries, character by
/// character.
pub open spec fn lex_lt(a: Seq<char>, b: Seq<char>) -> bool
    decreases a.len(),
{
    if b.len() == 0 {
        false
    } else if a.len() == 0 {
        true
    } else if a[0] as u32 != b[0] as u32 {
        (a[0] as u32) < (b[0] as u32)
    } else {
        lex_lt(a.drop_first(), b.drop_first())
    }
}

/// Whether the entry `a` is listed strictly before the entry `b`: files
/// come before directories, and within each kind the names run backwards
/// through the alphabet, capitals counting as small letters.
pub open spec fn listed_before(a: (String, bool), b: (String, bool)) -> bool {
    (!a.1 && b.1) || (a.1 == b.1 && lex_lt(lowercased(b.0@), lowercased(a.0@)))
}

/// Whether `items` are in the order of a listing: no entry is listed
/// strictly before one that stands ahead of it.
pub open spec fn in_listing_order(items: Seq<(String, bool)>) -> bool {
    forall|i: int, j: int| 0 <= i < j < items.len() ==> !listed_before(items[j], items[i])
}

/// No text comes both before and after another.
pub proof fn lemma_lex_lt_asymmetric(a: Seq<char>, b: Seq<char>)
    ensures
        !(lex_lt(a, b) && lex_lt(b, a)),
    decreases a.len(),
{
    if a.len() > 0 && b.len() > 0 && a[0] as u32 == b[0] as u32 {
        lemma_lex_lt_asymmetric(a.drop_first(), b.drop_first());
    }
}

/// Not coming before is transitive: the order of dictionaries is total.
pub proof fn lemma_lex_ge_transitive(a: Seq<char>, b: Seq<char>, c: Seq<char>)
    requires
        !lex_lt(a, b),
        !lex_lt(b, c),
    ensures
        !lex_lt(a, c),
    decreases a.len(),
{
    if c.len() > 0 && a.len() > 0 && b.len() > 0 {
        if a[0] as u32 == b[0] as u32 && b[0] as u32 == c[0] as u32 {
            lemma_lex_ge_transitive(a.drop_first(), b.drop_first(), c.drop_first());
        }
    }
}

/// The order of a listing is transitive on what is not listed before.
pub proof fn lemma_listing_order_transitive(a: (String, bool), b: (String, bool), c: (String, bool))
    requires
        !listed_before(b, a),
        !listed_before(c, b),
    ensures
        !listed_before(c, a),
{
    if c.1 == a.1 {
        assert(a.1 == b.1);
        lemma_lex_ge_transitive(lowercased(a.0@), lowercased(b.0@), lowercased(c.0@));
    }
}

/// Whether `a` comes before `b` in the order of dictionaries.
fn lex_less(a: &Vec<char>, b: &Vec<char>) -> (r: bool)
    ensures
        r == lex_lt(a@, b@),
{
    let mut i: usize = 0;
    assert(a@.skip(0) =~= a@ && b@.skip(0) =~= b@);
    while i < a.len() && i < b.len() && a[i] as u32 == b[i] as u32
        invariant
            i <= a@.len(),
            i <= b@.len(),
            lex_lt(a@, b@) == lex_lt(a@.skip(i as int), b@.skip(i as int)),
        decreases a.len() - i,
    {
        proof {
            let x = a@.skip(i as int);
            let y = b@.skip(i as int);
            assert(x[0] == a@[i as int] && y[0] == b@[i as int]);
            assert(x.drop_first() =~= a@.skip(i + 1));
            assert(y.drop_first() =~= b@.skip(i + 1));
        }
        i += 1;
    }
    proof {
        let x = a@.skip(i as int);
        let y = b@.skip(i as int);
        if i < a@.len() && i < b@.len() {
            assert(x[0] == a@[i as int] && y[0] == b@[i as int]);
        }
    }
    if i >= b.len() {
        false
    } else if i >= a.len() {
        true
    } else {
        (a[i] as u32) < (b[i] as u32)
    }
}

/// Whether the entry `a` is listed strictly before the entry `b`.
fn precedes(a: &(String, bool), b: &(String, bool)) -> (r: bool)
    ensures
        r == listed_before(*a, *b),
{
    if a.1 != b.1 {
        !a.1
    } else {
        let la = chars_of(to_lowercase(a.0.as_str()).as_str());
        let lb = chars_of(to_lowercase(b.0.as_str()).as_str());
        lex_less(&lb, &la)
    }
}

/// The first index at or after `i` whose entry is not listed strictly
/// before `x`, or the length of `sorted` where there is none.
pub open spec fn place_of(sorted: Seq<(String, bool)>, x: (String, bool), i: int) -> int
    decreases sorted.len() - i,
{
    if 0 <= i < sorted.len() && listed_before(sorted[i], x) {
        place_of(sorted, x, i + 1)
    } else {
        i
    }
}

/// `sorted` with `x` put in its place: behind everything that is listed
/// strictly before it, and ahead of its equals.
pub open spec fn placed(sorted: Seq<(String, bool)>, x: (String, bool)) -> Seq<(String, bool)> {
    sorted.insert(place_of(sorted, x, 0), x)
}

/// The entries `items` in the order in which they are listed. Entries that
/// the order does not tell apart stay in the order in which they came.
pub open spec fn listed(items: Seq<(String, bool)>) -> Seq<(String, bool)>
    decreases items.len(),
{
    if items.len() == 0 {
        Seq::empty()
    } else {
        placed(listed(items.drop_first()), items.first())
    }
}

/// What `place_of` finds: everything from `i` up to the index it gives is
/// listed strictly before `x`, and what stands at that index is not.
pub proof fn lemma_place_of(sorted: Seq<(String, bool)>, x: (String, bool), i: int)
    requires
        0 <= i <= sorted.len(),
    ensures
        i <= place_of(sorted, x, i) <= sorted.len(),
        forall|k: int| i <= k < place_of(sorted, x, i) ==> listed_before(sorted[k], x),
        place_of(sorted, x, i) < sorted.len() ==> !listed_before(
            sorted[place_of(sorted, x, i)],
            x,
        ),
    decreases sorted.len() - i,
{
    if i < sorted.len() && listed_before(sorted[i], x) {
        lemma_place_of(sorted, x, i + 1);
    }
}

/// Putting an entry in its place keeps the order of a listing, and adds
/// that entry and nothing else.
pub proof fn lemma_placed(sorted: Seq<(String, bool)>, x: (String, bool))
    requires
        in_listing_order(sorted),
    ensures
        in_listing_order(placed(sorted, x)),
        placed(sorted, x).to_multiset() == sorted.to_multiset().insert(x),
        placed(sorted, x).len() == sorted.len() + 1,
{
    lemma_place_of(sorted, x, 0);
    let p = place_of(sorted, x, 0);
    let out = placed(sorted, x);
    assert(out.remove(p) =~= sorted);
    assert(out[p] == x);
    vstd::seq_lib::to_multiset_remove(out, p);
    out.to_multiset_ensures();
    assert(out.contains(x));
    assert(out.to_multiset() =~= sorted.to_multiset().insert(x));
    assert forall|i: int, j: int| 0 <= i < j < out.len() implies !listed_before(out[j], out[i]) by {
        if j == p {
            assert(out[i] == sorted[i]);
            lemma_listed_before_asymmetric(sorted[i], x);
        } else if i == p {
            assert(out[j] == sorted[j - 1]);
            if p < j - 1 {
                assert(!listed_before(sorted[j - 1], sorted[p]));
            } else {
                lemma_listed_before_asymmetric(sorted[p], sorted[p]);
            }
            lemma_listing_order_transitive(x, sorted[p], sorted[j - 1]);
        } else {
            let bi = if i < p {
                i
            } else {
                i - 1
            };
            let bj = if j < p {
                j
            } else {
                j - 1
            };
            assert(out[i] == sorted[bi] && out[j] == sorted[bj]);
        }
    }
}

/// A listing is in order, and holds exactly the entries it was made from,
/// each as often as it came.
pub proof fn law_listing_is_sorted(items: Seq<(String, bool)>)
    ensures
        in_listing_order(listed(items)),
        listed(items).to_multiset() == items.to_multiset(),
        listed(items).len() == items.len(),
    decreases items.len(),
{
    if items.len() == 0 {
        assert(listed(items) =~= items);
    } else {
        let rest = items.drop_first();
        law_listing_is_sorted(rest);
        lemma_placed(listed(rest), items.first());
        assert(items =~= seq![items.first()] + rest);
        vstd::seq_lib::lemma_seq_union_to_multiset_commutative(seq![items.first()], rest);
        vstd::seq_lib::to_multiset_build(rest, items.first());
        assert(rest.push(items.first()) =~= rest + seq![items.first()]);
        assert(items.to_multiset() =~= rest.to_multiset().insert(items.first()));
    }
}

/// Puts the entries of a directory in the order in which they are listed.
pub fn sort_listing(items: Vec<(String, bool)>) -> (sorted: Vec<(String, bool)>)
    ensures
        sorted@ == listed(items@),
{
    let mut out: Vec<(String, bool)> = Vec::new();
    let mut items = items;
    let ghost all = items@;
    assert(all.subrange(all.len() as int, all.len() as int) =~= Seq::<(String, bool)>::empty());
    // Entries are taken from the back and put ahead of their equals, so
    // that equals keep the order in which they came.
    while items.len() > 0
        invariant
            items@ == all.subrange(0, items@.len() as int),
            items@.len() <= all.len(),
            out@ == listed(all.subrange(items@.len() as int, all.len() as int)),
        decreases items.len(),
    {
        let ghost k = items@.len() as int;
        let x = items.pop().unwrap();
        proof {
            assert(x == all[k - 1]);
            assert(items@ =~= all.subrange(0, k - 1));
            let tail = all.subrange(k - 1, all.len() as int);
            assert(tail.first() == x);
            assert(tail.drop_first() =~= all.subrange(k, all.len() as int));
        }
        let mut p: usize = 0;
        while p < out.len() && precedes(&out[p], &x)
            invariant
                p <= out@.len(),
                place_of(out@, x, 0) == place_of(out@, x, p as int),
            decreases out.len() - p,
        {
            p += 1;
        }
        out.insert(p, x);
    }
    assert(all.subrange(0, all.len() as int) =~= all);
    out
}

/// No entry is listed both before and after another.
pub proof fn lemma_listed_before_asymmetric(a: (String, bool), b: (String, bool))
    ensures
        !(listed_before(a, b) && listed_before(b, a)),
{
    lemma_lex_lt_asymmetric(lowercased(a.0@), lowercased(b.0@));
}

/// The first index at or after `i` at which `s` holds something else than
/// `c`, or the length of `s` where there is none.
pub open spec fn skip_leading(s: Seq<char>, c: char, i: int) -> int
    decreases s.len() - i,
{
    if 0 <= i < s.len() && s[i] == c {
        skip_leading(s, c, i + 1)
    } else {
        i
    }
}

/// The largest index below `j` at which `s` holds `c`, or -1 where there
/// is none.
pub open spec fn last_index_of(s: Seq<char>, c: char, j: int) -> int
    decreases j,
{
    if 0 < j <= s.len() {
        if s[j - 1] == c {
            j - 1
        } else {
            last_index_of(s, c, j - 1)
        }
    } else {
        -1
    }
}

/// The path asked for, relative to the cache root: `tail` without the
/// slashes at its start.
pub open spec fn tail_norm(tail: Seq<char>) -> Seq<char> {
    let from = skip_leading(tail, '/', 0);
    if from <= tail.len() {
        tail.subrange(from, tail.len() as int)
    } else {
        Seq::empty()
    }
}

/// The path asked for without slashes at either end.
pub open spec fn tail_trimmed(tail: Seq<char>) -> Seq<char> {
    let t = tail_norm(tail);
    t.subrange(0, drop_trailing(t, '/', t.len() as int))
}

/// The URL of the directory that is listed.
pub open spec fn listing_base(tail: Seq<char>) -> Seq<char> {
    if tail_norm(tail).len() == 0 {
        "/cache"@
    } else {
        "/cache/"@ + tail_trimmed(tail)
    }
}

/// The URL of the directory above the one that is listed.
pub open spec fn parent_href(tail: Seq<char>) -> Seq<char> {
    let t = tail_trimmed(tail);
    let idx = last_index_of(t, '/', t.len() as int);
    if idx > 0 {
        "/cache/"@ + t.subrange(0, idx) + "/"@
    } else {
        "/cache/"@
    }
}

/// The link to the directory above, present unless the root is listed.
pub open spec fn parent_line(tail: Seq<char>) -> Seq<char> {
    if tail_norm(tail).len() == 0 {
        Seq::empty()
    } else {
        "<li>\u{1F4C1} <a class='dir' href='"@ + parent_href(tail) + "'>../</a></li>"@
    }
}

/// The URL of an entry below `base`: its name percent-encoded, and a slash
/// after a directory.
pub open spec fn entry_href(base: Seq<char>, name: Seq<char>, is_dir: bool) -> Seq<char> {
    base + (if base.len() > 0 && base.last() == '/' {
        ""@
    } else {
        "/"@
    }) + percent_encoded(encode_utf8(name)) + (if is_dir {
        "/"@
    } else {
        ""@
    })
}

/// The line of one entry.
pub open spec fn entry_line(base: Seq<char>, name: Seq<char>, is_dir: bool) -> Seq<char> {
    if is_dir {
        "<li>\u{1F4C1} <a class='dir' href='"@ + entry_href(base, name, true) + "'>"@ + escaped(
            name + "/"@,
        ) + "</a></li>"@
    } else {
        "<li>\u{1F4C4} <a  href='"@ + entry_href(base, name, false) + "'>"@ + escaped(name)
            + "</a></li>"@
    }
}

/// The lines of `items`, in their order.
pub open spec fn entry_lines(base: Seq<char>, items: Seq<(String, bool)>) -> Seq<char>
    decreases items.len(),
{
    if items.len() == 0 {
        Seq::empty()
    } else {
        entry_lines(base, items.drop_last()) + entry_line(base, items.last().0@, items.last().1)
    }
}

/// The page that lists `items`, in their order, as the content of the
/// directory `tail` below the cache root.
pub open spec fn listing_page(items: Seq<(String, bool)>, tail: Seq<char>) -> Seq<char> {
    "<!doctype html><meta charset=utf-8>"@
        + "<style>body{font:14px system-ui;margin:2rem} a{text-decoration:none} .dir{font-weight:600}</style>"@
        + "<h1>Index of /"@ + escaped(tail_norm(tail)) + "</h1><ul>"@ + parent_line(tail)
        + entry_lines(listing_base(tail), items) + "</ul>"@
}

/// The line of one entry of a listing below `base`.
fn render_entry(base: &str, name: &str, is_dir: bool) -> (r: String)
    ensures
        r@ == entry_line(base@, name@, is_dir),
{
    let b = chars_of(base);
    let mut href = base.to_owned();
    if b.len() > 0 && b[b.len() - 1] == '/' {
        href.append("");
    } else {
        href.append("/");
    }
    href.append(url_encode(name).as_str());
    if is_dir {
        href.append("/");
    } else {
        href.append("");
    }
    assert(href@ =~= entry_href(base@, name@, is_dir));
    if is_dir {
        let mut display = name.to_owned();
        display.append("/");
        let mut line = "<li>\u{1F4C1} <a class='dir' href='".to_owned();
        line.append(href.as_str());
        line.append("'>");
        line.append(html_escape(display.as_str()).as_str());
        line.append("</a></li>");
        line
    } else {
        let mut line = "<li>\u{1F4C4} <a  href='".to_owned();
        line.append(href.as_str());
        line.append("'>");
        line.append(html_escape(name).as_str());
        line.append("</a></li>");
        line
    }
}

/// Renders the listing of a directory below the cache root as an HTML page.
/// `items` are its entries, each with its name and whether it is a
/// directory; `tail` is the path that was asked for. The entries are listed
/// in their order: files before directories, and within each kind names
/// backwards through the alphabet. Above them stands a link to the parent
/// directory, unless the root itself is listed.
pub fn render_dir_listing(items: Vec<(String, bool)>, tail: &str) -> (html: String)
    ensures
        html@ == listing_page(listed(items@), tail@),
{
    let sorted = sort_listing(items);
    render_listing(&sorted, tail)
}

/// Renders the page that lists `items`, in the order given, as the content
/// of the directory `tail` below the cache root.
pub fn render_listing(items: &Vec<(String, bool)>, tail: &str) -> (html: String)
    ensures
        html@ == listing_page(items@, tail@),
{
    let t = chars_of(tail);
    // Normalise the tail: no slash at its start.
    let mut from: usize = 0;
    while from < t.len() && t[from] == '/'
        invariant
            from <= t@.len(),
            skip_leading(t@, '/', 0) == skip_leading(t@, '/', from as int),
        decreases t.len() - from,
    {
        from += 1;
    }
    let norm = string_of_range(&t, from, t.len());
    assert(norm@ == tail_norm(tail@));
    let n = chars_of(norm.as_str());
    let end = trailing_bound(&n, '/', n.len());
    let trimmed = string_of_range(&n, 0, end);
    assert(trimmed@ == tail_trimmed(tail@));
    let at_root = n.len() == 0;
    let mut base = String::new();
    if at_root {
        base.append("/cache");
    } else {
        base.append("/cache/");
        base.append(trimmed.as_str());
    }
    assert(base@ =~= listing_base(tail@));

    let mut html = String::new();
    html.append("<!doctype html><meta charset=utf-8>");
    html.append(
        "<style>body{font:14px system-ui;margin:2rem} a{text-decoration:none} .dir{font-weight:600}</style>",
    );
    html.append("<h1>Index of /");
    html.append(html_escape(norm.as_str()).as_str());
    html.append("</h1><ul>");

    // Parent link (if not at root)
    if !at_root {
        let tr = chars_of(trimmed.as_str());
        let mut j: usize = tr.len();
        while j > 0 && tr[j - 1] != '/'
            invariant
                j <= tr@.len(),
                last_index_of(tr@, '/', tr@.len() as int) == last_index_of(tr@, '/', j as int),
            decreases j,
        {
            j -= 1;
        }
        let mut parent = String::new();
        parent.append("/cache/");
        if j > 1 {
            parent.append(string_of_range(&tr, 0, j - 1).as_str());
            parent.append("/");
        }
        assert(parent@ =~= parent_href(tail@));
        html.append("<li>\u{1F4C1} <a class='dir' href='");
        html.append(parent.as_str());
        html.append("'>../</a></li>");
    }
    let ghost head = html@;
    assert(head =~= "<!doctype html><meta charset=utf-8>"@
        + "<style>body{font:14px system-ui;margin:2rem} a{text-decoration:none} .dir{font-weight:600}</style>"@
        + "<h1>Index of /"@ + escaped(tail_norm(tail@)) + "</h1><ul>"@ + parent_line(tail@));

    let mut i: usize = 0;
    while i < items.len()
        invariant
            i <= items@.len(),
            html@ == head + entry_lines(base@, items@.take(i as int)),
        decreases items.len() - i,
    {
        let line = render_entry(base.as_str(), items[i].0.as_str(), items[i].1);
        proof {
            assert(items@.take(i + 1).drop_last() =~= items@.take(i as int));
            assert(items@.take(i + 1).last() == items@[i as int]);
        }
        html.append(line.as_str());
        assert(html@ =~= head + entry_lines(base@, items@.take(i + 1)));
        i += 1;
    }
    assert(items@.take(items@.len() as int) =~= items@);
    html.append("</ul>");
    assert(html@ =~= listing_page(items@, tail@));
    html
}

/// Why a path that was asked for is not served.
#[derive(Clone, Debug, PartialEq, Eq)]
pub enum ResolveFault {
    /// A path could not be made canonical; the text is the system's
    /// description.
    Unresolvable(String),
    /// The path leads out of the cache root.
    Escapes,
}

/// What the inspector answers to a request for a path below the cache root.
#[derive(Clone, Debug, PartialEq, Eq)]
pub enum InspectorReply {
    /// Status 404.
    NotFound,
    /// An HTML page.
    Html(String),
    /// The content of a file with its media type.
    File { content_type: String, data: Vec<u8> },
}

/// What was found at a resolved path.
#[derive(Debug, PartialEq, Eq)]
pub enum Found {
    /// A directory and its entries, or why they could not be read.
    Directory(Result<Vec<(String, bool)>, String>),
    /// A file and its content, or why it could not be read.
    File(Result<Vec<u8>, String>),
}

/// The path that stands for `tail` below `root`, before it is made
/// canonical.
pub fn joined_path(root: &str, tail: &str) -> (r: String)
    ensures
        r@ == join(root@, tail@),
{
    join_path(root, tail)
}

/// Decides on a path once it is known whether it lies within the root: it
/// is served if so, and refused as an escape if not.
pub fn confine(full: String, within: bool) -> (r: Result<String, ResolveFault>)
    ensures
        within ==> r == Ok::<String, ResolveFault>(full),
        !within ==> r == Err::<String, ResolveFault>(ResolveFault::Escapes),
{
    if within {
        Ok(full)
    } else {
        Err(ResolveFault::Escapes)
    }
}

/// Resolves a path that was asked for and makes sure that it does not lead
/// out of the cache root.
///
/// `root_canon` is the canonical form of the root. `joined_canon` is the
/// canonical form of `joined_path(root, tail)` where that path exists, and
/// `None` where it does not; a path that does not exist is taken as it is.
/// The resolved path must lie within the canonical root, whole components
/// counting.
pub fn resolve_under_root(
    root: &str,
    tail: &str,
    root_canon: Result<String, String>,
    joined_canon: Option<Result<String, String>>,
) -> (r: Result<String, ResolveFault>)
    ensures
        match root_canon {
            Err(e) => r == Err::<String, ResolveFault>(ResolveFault::Unresolvable(e)),
            Ok(base) => match joined_canon {
                Some(Err(e)) => r == Err::<String, ResolveFault>(ResolveFault::Unresolvable(e)),
                Some(Ok(full)) => if path_within(full@, base@) {
                    r == Ok::<String, ResolveFault>(full)
                } else {
                    r == Err::<String, ResolveFault>(ResolveFault::Escapes)
                },
                None => if path_within(join(root@, tail@), base@) {
                    r matches Ok(full) && full@ == join(root@, tail@)
                } else {
                    r == Err::<String, ResolveFault>(ResolveFault::Escapes)
                },
            },
        },
{
    let base = match root_canon {
        Ok(base) => base,
        Err(e) => {
            return Err(ResolveFault::Unresolvable(e));
        },
    };
    let full = match joined_canon {
        Some(Ok(full)) => full,
        Some(Err(e)) => {
            return Err(ResolveFault::Unresolvable(e));
        },
        None => joined_path(root, tail),
    };
    let within = path_starts_with(full.as_str(), base.as_str());
    confine(full, within)
}

/// Answers a request for the path `tail` below the cache root: a path that
/// could not be resolved, or that cannot be read, is not found; a directory
/// is answered with its listing; a file with its content, under the media
/// type that its extension suggests.
pub fn handle_req(tail: &str, path: Result<String, ResolveFault>, found: Found) -> (r:
    InspectorReply)
    ensures
        match (path, found) {
            (Err(_), _) => r == InspectorReply::NotFound,
            (Ok(_), Found::Directory(Err(_))) => r == InspectorReply::NotFound,
            (Ok(_), Found::File(Err(_))) => r == InspectorReply::NotFound,
            (Ok(_), Found::Directory(Ok(items))) => r matches InspectorReply::Html(html) && html@
                == listing_page(listed(items@), tail@),
            (Ok(p), Found::File(Ok(data))) => r matches InspectorReply::File {
                content_type,
                data: sent,
            } && sent == data && content_type@ == guessed_mime(p@),
        },
{
    let path = match path {
        Ok(p) => p,
        Err(_) => {
            return InspectorReply::NotFound;
        },
    };
    match found {
        Found::Directory(Ok(items)) => InspectorReply::Html(render_dir_listing(items, tail)),
        Found::File(Ok(data)) => InspectorReply::File {
            content_type: guess_mime(path.as_str()),
            data,
        },
        _ => InspectorReply::NotFound,
    }
}

} // verus!
