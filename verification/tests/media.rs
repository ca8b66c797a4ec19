use hanaikada::media::{
    bad_media_id, content_type, eviction_order, fetch_failed, media_id_segment, not_found,
    parse_media_id, records_use, serve_bytes, total_size, CacheAccount, CacheKind, EvictEntry,
    Eviction, DEFAULT_LIMIT,
};

#[test]
fn sniffs_content_types() {
    assert_eq!(content_type(&[0x89, b'P', b'N', b'G', 1]), "image/png");
    assert_eq!(content_type(&[0xFF, 0xD8, 0xFF]), "image/jpeg");
    assert_eq!(content_type(b"GIF89a"), "image/gif");
    assert_eq!(content_type(b"RIFF\0\0\0\0WEBPVP8 "), "image/webp");
    assert_eq!(content_type(b"RIFF\0\0\0\0WEBP"), "application/octet-stream");
    assert_eq!(content_type(&[]), "application/octet-stream");
}

#[test]
fn reads_media_ids_from_paths() {
    assert_eq!(media_id_segment("/localhost/123/"), "123");
    assert_eq!(parse_media_id("/localhost/123"), Some(123));
    assert_eq!(parse_media_id("//42//"), Some(42));
    assert_eq!(parse_media_id("/x/abc"), None);
    assert_eq!(parse_media_id(""), None);
}

#[test]
fn responses() {
    let r = serve_bytes(b"GIF8...".to_vec());
    assert_eq!((r.status, r.content_type), (200, "image/gif"));
    assert_eq!(bad_media_id().status, 400);
    assert_eq!(bad_media_id().body, b"bad media id".to_vec());
    assert_eq!(not_found().status, 404);
    assert_eq!(fetch_failed().status, 502);
    assert!(records_use(CacheKind::Full));
    assert!(!records_use(CacheKind::Thumb));
}

#[test]
fn accounting_triggers_eviction_once() {
    let mut acc = CacheAccount::new();
    assert_eq!(acc.limit(), DEFAULT_LIMIT);
    assert!(!acc.record_cached(DEFAULT_LIMIT));
    assert!(acc.record_cached(1));
    assert!(acc.begin_eviction());
    assert!(!acc.record_cached(1), "no second eviction while one runs");
    assert!(!acc.begin_eviction());
    acc.end_eviction(10);
    assert_eq!(acc.usage_bytes(), 10);
    assert!(!acc.record_cached(1));
    assert_eq!(acc.usage_bytes(), 11);
    acc.set_usage(5);
    assert_eq!(acc.usage_bytes(), 5);
}

fn e(size: u64, mtime: u64, is_full: bool, id: i64) -> EvictEntry {
    EvictEntry { size, mtime, is_full, media_id: id }
}

#[test]
fn evicts_oldest_first_down_to_ninety_percent() {
    let entries = vec![e(40, 30, false, 1), e(30, 10, true, 2), e(20, 20, true, 3), e(10, 10, false, 4)];
    assert_eq!(eviction_order(&entries), vec![1, 3, 2, 0]);
    let total = total_size(&entries);
    assert_eq!(total, 100);
    assert!(Eviction::start(&entries, total, 100).is_none());
    let mut ev = Eviction::start(&entries, total, 80).unwrap();
    // target: 80 / 100 * 90 = 0, the limit is divided first
    let mut removed = Vec::new();
    while let Some(i) = ev.next_victim(&entries) {
        let ok = i != 2; // the file of entry 2 cannot be removed
        if ok {
            removed.push(i);
        }
        ev.record(&entries, ok);
    }
    assert_eq!(removed, vec![1, 3, 0]);
    assert_eq!(ev.remaining(), 20);
    // entry 1 is a full-size file (media 2): its record is cleared
    assert_eq!(ev.into_cleared(), vec![2]);
}

#[test]
fn eviction_stops_at_target() {
    let entries = vec![e(500, 1, true, 7), e(500, 2, true, 8), e(500, 3, false, 9)];
    let mut ev = Eviction::start(&entries, 1500, 1000).unwrap();
    let mut order = Vec::new();
    while let Some(i) = ev.next_victim(&entries) {
        order.push(i);
        ev.record(&entries, true);
    }
    assert_eq!(order, vec![0, 1]);
    assert_eq!(ev.remaining(), 500);
    assert_eq!(ev.into_cleared(), vec![7, 8]);
}
