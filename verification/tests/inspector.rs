use edge_cdn_store::inspector::{
    confine, handle_req, joined_path, render_dir_listing, render_listing, resolve_under_root,
    sort_listing, Found, InspectorReply, ResolveFault,
};

fn entry(name: &str, is_dir: bool) -> (String, bool) {
    (name.to_string(), is_dir)
}

const HEAD: &str = "<!doctype html><meta charset=utf-8><style>body{font:14px system-ui;margin:2rem} a{text-decoration:none} .dir{font-weight:600}</style>";

#[test]
fn listing_puts_files_first_and_names_backwards() {
    let items = vec![entry("b", true), entry("a.txt", false), entry("C", true), entry("z.txt", false), entry("a", true)];
    let sorted = sort_listing(items.clone());
    assert_eq!(
        sorted,
        vec![entry("z.txt", false), entry("a.txt", false), entry("C", true), entry("b", true), entry("a", true)]
    );
    let mut want = items;
    want.sort_by(|a, b| (b.1, a.0.to_lowercase()).cmp(&(a.1, b.0.to_lowercase())).reverse());
    assert_eq!(sorted, want);
}

#[test]
fn listing_order_agrees_with_the_stable_sort() {
    let names = ["", "a", "A", "aa", "Ab", "b", "B", "ä", "Ä", "Z", "z1", "10", "9", "a", "é", "E", "ß", "SS", "İ", "i"];
    let mut x: u32 = 7;
    for round in 0..40 {
        let mut items = Vec::new();
        for _ in 0..(round % 9) + 1 {
            x = x.wrapping_mul(1664525).wrapping_add(1013904223);
            let name = names[(x >> 16) as usize % names.len()];
            items.push(entry(name, (x >> 9) & 1 == 1));
        }
        let mut want = items.clone();
        want.sort_by(|a, b| (b.1, a.0.to_lowercase()).cmp(&(a.1, b.0.to_lowercase())).reverse());
        assert_eq!(sort_listing(items), want);
    }
}

#[test]
fn sorting_keeps_every_entry() {
    let items = vec![entry("x", false), entry("x", false), entry("X", false), entry("x", true)];
    let sorted = sort_listing(items.clone());
    assert_eq!(sorted.len(), 4);
    assert_eq!(sorted, vec![entry("x", false), entry("x", false), entry("X", false), entry("x", true)]);
    assert!(sort_listing(Vec::new()).is_empty());
}

#[test]
fn root_listing_has_no_parent_link() {
    let html = render_listing(&vec![entry("9A", true), entry("_cache_state.json", false)], "");
    assert_eq!(
        html,
        format!(
            "{}<h1>Index of /</h1><ul><li>\u{1F4C1} <a class='dir' href='/cache/9A/'>9A/</a></li><li>\u{1F4C4} <a  href='/cache/_cache_state.json'>_cache_state.json</a></li></ul>",
            HEAD
        )
    );
    assert_eq!(render_listing(&Vec::new(), "///"), format!("{}<h1>Index of /</h1><ul></ul>", HEAD));
}

#[test]
fn nested_listing_links_to_its_parent() {
    let html = render_listing(&vec![entry("body", false)], "/9A/00/");
    assert_eq!(
        html,
        format!(
            "{}<h1>Index of /9A/00/</h1><ul><li>\u{1F4C1} <a class='dir' href='/cache/9A/'>../</a></li><li>\u{1F4C4} <a  href='/cache/9A/00/body'>body</a></li></ul>",
            HEAD
        )
    );
    let html = render_listing(&Vec::new(), "9A");
    assert_eq!(
        html,
        format!("{}<h1>Index of /9A</h1><ul><li>\u{1F4C1} <a class='dir' href='/cache/'>../</a></li></ul>", HEAD)
    );
    let html = render_listing(&Vec::new(), "a/b/c");
    assert!(html.contains("href='/cache/a/b/'>../</a>"), "{}", html);
}

#[test]
fn names_are_encoded_in_links_and_escaped_in_text() {
    let html = render_listing(&vec![entry("a b&<c>.txt", false), entry("é~_-.", true)], "x<y");
    assert_eq!(
        html,
        format!(
            "{}<h1>Index of /x&lt;y</h1><ul><li>\u{1F4C1} <a class='dir' href='/cache/'>../</a></li><li>\u{1F4C4} <a  href='/cache/x<y/a%20b%26%3Cc%3E.txt'>a b&amp;&lt;c&gt;.txt</a></li><li>\u{1F4C1} <a class='dir' href='/cache/x<y/%C3%A9~_-./'>é~_-./</a></li></ul>",
            HEAD
        )
    );
}

#[test]
fn rendered_directory_is_sorted_first() {
    let items = vec![entry("sub", true), entry("file", false)];
    let html = render_dir_listing(items.clone(), "");
    assert_eq!(html, render_listing(&sort_listing(items), ""));
    assert!(html.find("file").unwrap() < html.find("sub").unwrap());
}

#[test]
fn paths_are_joined_below_the_root() {
    assert_eq!(joined_path("/cache", "9A/00"), "/cache/9A/00");
    assert_eq!(joined_path("/cache", ""), "/cache/");
    assert_eq!(joined_path("/cache", "/etc/passwd"), "/etc/passwd");
}

#[test]
fn escaping_paths_are_refused() {
    let ok = |s: &str| -> Result<String, String> { Ok(s.to_string()) };
    assert_eq!(
        resolve_under_root("/cache", "9A", ok("/cache"), Some(ok("/cache/9A"))),
        Ok("/cache/9A".to_string())
    );
    assert_eq!(
        resolve_under_root("/cache", "../etc", ok("/cache"), Some(ok("/etc"))),
        Err(ResolveFault::Escapes)
    );
    assert_eq!(
        resolve_under_root("/cache", "x", ok("/cache"), Some(ok("/cachex"))),
        Err(ResolveFault::Escapes)
    );
    assert_eq!(
        resolve_under_root("/cache", "", ok("/cache"), Some(ok("/cache"))),
        Ok("/cache".to_string())
    );
    // A path that does not exist is taken as it is written.
    assert_eq!(resolve_under_root("/cache", "nope", ok("/cache"), None), Ok("/cache/nope".to_string()));
    assert_eq!(resolve_under_root("/cache", "/etc/passwd", ok("/cache"), None), Err(ResolveFault::Escapes));
    assert_eq!(resolve_under_root("/link", "nope", ok("/cache"), None), Err(ResolveFault::Escapes));
    assert_eq!(
        resolve_under_root("/cache", "x", Err("gone".to_string()), None),
        Err(ResolveFault::Unresolvable("gone".to_string()))
    );
    assert_eq!(
        resolve_under_root("/cache", "x", ok("/cache"), Some(Err("loop".to_string()))),
        Err(ResolveFault::Unresolvable("loop".to_string()))
    );
    assert_eq!(confine("/p".to_string(), true), Ok("/p".to_string()));
    assert_eq!(confine("/p".to_string(), false), Err(ResolveFault::Escapes));
}

#[test]
fn files_are_served_with_a_guessed_type() {
    let reply = handle_req("a/page.html", Ok("/cache/a/page.html".to_string()), Found::File(Ok(b"<p>".to_vec())));
    assert_eq!(reply, InspectorReply::File { content_type: "text/html".to_string(), data: b"<p>".to_vec() });
    let reply = handle_req("x", Ok("/cache/9A/00/H/body".to_string()), Found::File(Ok(vec![1, 2])));
    assert_eq!(
        reply,
        InspectorReply::File { content_type: "application/octet-stream".to_string(), data: vec![1, 2] }
    );
    let reply = handle_req("s", Ok("/cache/_cache_state.json".to_string()), Found::File(Ok(vec![])));
    assert_eq!(reply, InspectorReply::File { content_type: "application/json".to_string(), data: vec![] });
}

#[test]
fn what_cannot_be_read_is_not_found() {
    assert_eq!(handle_req("x", Err(ResolveFault::Escapes), Found::File(Ok(vec![1]))), InspectorReply::NotFound);
    assert_eq!(
        handle_req("x", Ok("/cache/x".to_string()), Found::File(Err("denied".to_string()))),
        InspectorReply::NotFound
    );
    assert_eq!(
        handle_req("x", Ok("/cache/x".to_string()), Found::Directory(Err("denied".to_string()))),
        InspectorReply::NotFound
    );
}

#[test]
fn directories_are_answered_with_their_listing() {
    let items = vec![entry("meta", false), entry("body", false), entry("hdr", false)];
    let reply = handle_req("9A/00/H", Ok("/cache/9A/00/H".to_string()), Found::Directory(Ok(items.clone())));
    assert_eq!(reply, InspectorReply::Html(render_dir_listing(items, "9A/00/H")));
    match reply {
        InspectorReply::Html(html) => {
            let m = html.find(">meta<").unwrap();
            let h = html.find(">hdr<").unwrap();
            let b = html.find(">body<").unwrap();
            assert!(m < h && h < b);
        },
        other => panic!("{:?}", other),
    }
}
