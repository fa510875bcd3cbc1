use ncd::playlist::{
    is_master_playlist, parse_master_playlist, parse_media_playlist, select_variant, KeyMethod,
    Variant,
};

fn variant(bandwidth: u64, uri: &str) -> Variant {
    Variant { uri: uri.to_string(), bandwidth, resolution: None }
}

#[test]
fn selection_takes_the_maximal_bandwidth() {
    let vs = vec![variant(100, "a"), variant(300, "b"), variant(200, "c")];
    assert_eq!(select_variant(&vs), Some(1));
}

#[test]
fn selection_breaks_ties_toward_the_first_maximum() {
    let vs = vec![variant(100, "a"), variant(300, "b"), variant(300, "c"), variant(300, "d")];
    assert_eq!(select_variant(&vs), Some(1));
    let all_equal = vec![variant(5, "a"), variant(5, "b")];
    assert_eq!(select_variant(&all_equal), Some(0));
}

#[test]
fn selection_of_an_empty_ladder_is_none() {
    assert_eq!(select_variant(&Vec::new()), None);
}

#[test]
fn master_playlists_are_recognised_and_parsed() {
    let body = b"#EXTM3U\n\
#EXT-X-STREAM-INF:BANDWIDTH=1280000,RESOLUTION=640x480\nlow.m3u8\n\
#EXT-X-STREAM-INF:BANDWIDTH=2560000\nhigh.m3u8\n"
        .to_vec();
    assert!(is_master_playlist(&body));
    let variants = parse_master_playlist(&body).expect("master playlist must parse");
    assert_eq!(variants.len(), 2);
    assert_eq!(variants[0].bandwidth, 1280000);
    assert_eq!(variants[0].resolution, Some((640, 480)));
    assert_eq!(variants[0].uri, "low.m3u8");
    assert_eq!(variants[1].bandwidth, 2560000);
    assert_eq!(variants[1].resolution, None);
    assert_eq!(variants[1].uri, "high.m3u8");
}

#[test]
fn media_playlists_carry_segments_and_effective_key_tags() {
    let body = b"#EXTM3U\n#EXT-X-VERSION:3\n#EXT-X-TARGETDURATION:10\n\
#EXT-X-KEY:METHOD=AES-128,URI=\"https://keys/k1\",IV=0x000102030405060708090a0b0c0d0e0f\n\
#EXTINF:10.0,\nseg0.ts\n\
#EXTINF:10.0,\nseg1.ts\n\
#EXT-X-ENDLIST\n"
        .to_vec();
    assert!(!is_master_playlist(&body));
    let segments = parse_media_playlist(&body).expect("media playlist must parse");
    assert_eq!(segments.len(), 2);
    assert_eq!(segments[0].uri, "seg0.ts");
    let k0 = segments[0].key.as_ref().expect("first segment carries the key tag");
    assert_eq!(k0.method, KeyMethod::Aes128);
    assert_eq!(k0.uri.as_deref(), Some("https://keys/k1"));
    assert_eq!(k0.iv.as_deref(), Some("0x000102030405060708090a0b0c0d0e0f"));
    assert!(segments[1].key.is_none(), "a key tag attaches to the segment that follows it");
}

#[test]
fn unsupported_key_methods_read_as_other() {
    let body = b"#EXTM3U\n#EXT-X-TARGETDURATION:10\n\
#EXT-X-KEY:METHOD=SAMPLE-AES,URI=\"https://keys/k\",IV=0x000102030405060708090a0b0c0d0e0f\n\
#EXTINF:10.0,\nseg0.ts\n#EXT-X-ENDLIST\n"
        .to_vec();
    let segments = parse_media_playlist(&body).expect("media playlist must parse");
    assert_eq!(segments[0].key.as_ref().unwrap().method, KeyMethod::Other);
}

#[test]
fn garbage_does_not_parse() {
    let body = b"this is not a playlist at all".to_vec();
    assert!(parse_media_playlist(&body).is_none());
    assert!(parse_master_playlist(&body).is_none());
}
