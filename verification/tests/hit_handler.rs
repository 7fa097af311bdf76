use edge_cdn_store::error::ErrorType;
use edge_cdn_store::handle_hit::{DiskHitHandler, ReadAction};
use edge_cdn_store::metrics::CacheMetrics;

/// Serves the handler's requests from `content`, as a file would, and
/// returns the chunks handed out until the end of the stream.
fn drain(h: &mut DiskHitHandler, content: &[u8]) -> Vec<Vec<u8>> {
    let mut cursor: usize = 0;
    let mut chunks = Vec::new();
    loop {
        match h.read_body() {
            ReadAction::Seek(offset) => {
                cursor = offset as usize;
                h.seek_done(Ok(())).unwrap();
            },
            ReadAction::Read(len) => {
                let end = std::cmp::min(cursor + len, content.len());
                let data = content[cursor.min(end)..end].to_vec();
                cursor = end;
                match h.read_done(Ok(data)).unwrap() {
                    Some(chunk) => chunks.push(chunk),
                    None => return chunks,
                }
            },
            ReadAction::EndOfStream => return chunks,
        }
    }
}

#[test]
fn whole_body_in_one_chunk() {
    let mut h = DiskHitHandler::new(5, 262144);
    assert_eq!(h.read_body(), ReadAction::Read(5));
    assert_eq!(drain(&mut h, b"hello"), vec![b"hello".to_vec()]);
    assert_eq!(h.read_body(), ReadAction::EndOfStream);
    assert_eq!(h.pos, 5);
}

#[test]
fn whole_body_in_small_chunks() {
    let mut h = DiskHitHandler::new(5, 2);
    assert_eq!(drain(&mut h, b"hello"), vec![b"he".to_vec(), b"ll".to_vec(), b"o".to_vec()]);
}

#[test]
fn range_read_yields_the_range_once() {
    let mut h = DiskHitHandler::new(5, 262144);
    h.seek(1, Some(4)).unwrap();
    assert!(h.pending_seek);
    assert_eq!(h.read_body(), ReadAction::Seek(1));
    assert_eq!(drain(&mut h, b"hello"), vec![b"ell".to_vec()]);
    assert_eq!(h.read_body(), ReadAction::EndOfStream);
}

#[test]
fn seek_to_the_end_reads_nothing() {
    let mut h = DiskHitHandler::new(5, 262144);
    h.seek(5, None).unwrap();
    assert_eq!(h.read_body(), ReadAction::Seek(5));
    h.seek_done(Ok(())).unwrap();
    assert_eq!(h.read_body(), ReadAction::EndOfStream);
    let mut h = DiskHitHandler::new(5, 262144);
    h.seek(5, Some(5)).unwrap();
    assert!(drain(&mut h, b"hello").is_empty());
}

#[test]
fn seek_start_beyond_end_is_refused() {
    let mut h = DiskHitHandler::new(5, 262144);
    let before = h;
    let e = h.seek(4, Some(3)).unwrap_err();
    assert_eq!(e.etype, ErrorType::InternalError);
    assert_eq!(e.context, "seek start > end: 4 > 3");
    assert_eq!(h, before);
    let e = h.seek(6, None).unwrap_err();
    assert_eq!(e.context, "seek start > end: 6 > 5");
}

#[test]
fn seek_end_beyond_length_is_refused() {
    let mut h = DiskHitHandler::new(5, 262144);
    let before = h;
    let e = h.seek(0, Some(6)).unwrap_err();
    assert_eq!(e.etype, ErrorType::InternalError);
    assert_eq!(e.context, "seek end > length: 6 > 5");
    assert_eq!(h, before);
    let e = h.seek(9, Some(7)).unwrap_err();
    assert_eq!(e.context, "seek end > length: 7 > 5");
}

#[test]
fn seek_accepts_the_bounds() {
    let mut h = DiskHitHandler::new(5, 8);
    h.seek(0, Some(5)).unwrap();
    assert_eq!((h.range_start, h.range_end, h.pending_seek), (0, 5, true));
    h.seek(0, Some(0)).unwrap();
    assert_eq!((h.range_start, h.range_end), (0, 0));
    h.seek(3, None).unwrap();
    assert_eq!((h.range_start, h.range_end), (3, 5));
    assert!(h.can_seek());
}

#[test]
fn a_second_seek_is_needed_to_read_a_range_again() {
    let mut h = DiskHitHandler::new(5, 262144);
    h.seek(1, Some(4)).unwrap();
    assert_eq!(drain(&mut h, b"hello"), vec![b"ell".to_vec()]);
    assert!(!h.pending_seek);
    assert!(drain(&mut h, b"hello").is_empty());
    h.seek(1, Some(4)).unwrap();
    assert_eq!(drain(&mut h, b"hello"), vec![b"ell".to_vec()]);
}

#[test]
fn failed_seek_stays_pending() {
    let mut h = DiskHitHandler::new(5, 4);
    h.seek(2, None).unwrap();
    let before = h;
    let e = h.seek_done(Err("bad descriptor".to_string())).unwrap_err();
    assert_eq!(e.etype, ErrorType::InternalError);
    assert_eq!(e.context, "seek failed: bad descriptor");
    assert_eq!(h, before);
    assert_eq!(h.read_body(), ReadAction::Seek(2));
}

#[test]
fn failed_read_is_an_internal_error() {
    let mut h = DiskHitHandler::new(5, 4);
    let before = h;
    let e = h.read_done(Err("io".to_string())).unwrap_err();
    assert_eq!(e.etype, ErrorType::InternalError);
    assert_eq!(e.context, "read of cache file failed: io");
    assert_eq!(h, before);
}

#[test]
fn short_file_ends_the_stream() {
    let mut h = DiskHitHandler::new(10, 4);
    assert_eq!(drain(&mut h, b"hello"), vec![b"hell".to_vec(), b"o".to_vec()]);
    assert_eq!(h.pos, 10);
    assert_eq!(h.read_body(), ReadAction::EndOfStream);
}

#[test]
fn weight_is_the_length_of_the_body() {
    assert_eq!(DiskHitHandler::new(5, 1).get_eviction_weight(), 5);
    assert_eq!(DiskHitHandler::new(0, 1).get_eviction_weight(), 0);
}

#[test]
fn finishing_counts_a_served_hit() {
    let mut m = CacheMetrics::new(7);
    DiskHitHandler::new(5, 1).finish(&mut m);
    DiskHitHandler::new(5, 1).finish(&mut m);
    assert_eq!(m.served_hits, 2);
    assert_eq!(m.lookup_hits, 0);
    assert_eq!(m.size_bytes, 7);
}
