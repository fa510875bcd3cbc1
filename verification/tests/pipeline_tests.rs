use aes::Aes128;
use cbc::Encryptor;
use cipher::block_padding::Pkcs7;
use cipher::{BlockEncryptMut, KeyIvInit};
use ncd::bridge::StreamBridge;
use ncd::errors::PipelineError;
use ncd::pipeline::{Action, Event, HLSDownloader, PipelineState};

fn encrypt(key: &[u8; 16], iv: &[u8; 16], plaintext: &[u8]) -> Vec<u8> {
    Encryptor::<Aes128>::new(key.into(), iv.into()).encrypt_padded_vec_mut::<Pkcs7>(plaintext)
}

/// What one scripted run of the machine did: every chunk the sink received,
/// in order, and which URIs were fetched.
struct RunLog {
    sink: Vec<Vec<u8>>,
    playlist_fetches: Vec<String>,
    key_fetches: Vec<String>,
    segment_fetches: Vec<String>,
    outcome: Result<(), PipelineError>,
}

/// Drives a machine against canned responses: playlist bodies served in
/// order per fetch, one key body per key fetch, one segment body per segment
/// fetch.  The conduit is drained into an in-memory sink after every push.
fn run(
    url: &str,
    playlists: Vec<Vec<u8>>,
    keys: Vec<Vec<u8>>,
    segments: Vec<Vec<u8>>,
) -> RunLog {
    let mut dl = HLSDownloader::new(url.to_string());
    let mut bridge = StreamBridge::new();
    let mut log = RunLog {
        sink: Vec::new(),
        playlist_fetches: Vec::new(),
        key_fetches: Vec::new(),
        segment_fetches: Vec::new(),
        outcome: Ok(()),
    };
    let mut playlists = playlists.into_iter();
    let mut keys = keys.into_iter();
    let mut segments = segments.into_iter();
    let mut ev = match dl.initial_action() {
        Action::FetchPlaylist { .. } => Event::PlaylistBody {
            bytes: playlists.next().expect("a playlist body must be scripted"),
        },
        other => panic!("a fresh machine must fetch its playlist, not {:?}", other),
    };
    for _ in 0..10_000 {
        let action = dl.step(ev);
        ev = match action {
            Action::FetchPlaylist { url } => {
                log.playlist_fetches.push(url);
                Event::PlaylistBody {
                    bytes: playlists.next().expect("a playlist body must be scripted"),
                }
            },
            Action::FetchKey { uri } => {
                log.key_fetches.push(uri);
                Event::KeyBody { bytes: keys.next().expect("a key body must be scripted") }
            },
            Action::FetchSegment { uri } => {
                log.segment_fetches.push(uri);
                Event::SegmentBody {
                    bytes: segments.next().expect("a segment body must be scripted"),
                }
            },
            Action::PushChunk { data } => {
                bridge.push(data);
                while let Some(chunk) = bridge.pop() {
                    log.sink.push(chunk);
                }
                Event::ChunkPushed
            },
            Action::CloseConduit => {
                bridge.close();
                while let Some(chunk) = bridge.pop() {
                    log.sink.push(chunk);
                }
                assert!(bridge.is_drained());
                Event::ConduitDrained
            },
            Action::AwaitSink => Event::SinkFinished { success: true },
            Action::Finished => {
                assert!(matches!(dl.state, PipelineState::Done));
                return log;
            },
            Action::Abort { error } => {
                assert!(matches!(dl.state, PipelineState::Failed { .. }));
                log.outcome = Err(error);
                return log;
            },
        };
    }
    panic!("the machine did not terminate");
}

fn media_playlist_plain() -> Vec<u8> {
    b"#EXTM3U\n#EXT-X-VERSION:3\n#EXT-X-TARGETDURATION:10\n\
#EXTINF:10.0,\nseg0.ts\n#EXTINF:10.0,\nseg1.ts\n#EXTINF:10.0,\nseg2.ts\n#EXT-X-ENDLIST\n"
        .to_vec()
}

fn media_playlist_encrypted(iv_attr: &str) -> Vec<u8> {
    format!(
        "#EXTM3U\n#EXT-X-VERSION:3\n#EXT-X-TARGETDURATION:10\n\
#EXT-X-KEY:METHOD=AES-128,URI=\"k\"{}\n\
#EXTINF:10.0,\nseg0.ts\n#EXTINF:10.0,\nseg1.ts\n#EXT-X-ENDLIST\n",
        iv_attr
    )
    .into_bytes()
}

#[test]
fn three_plain_segments_reach_the_sink_in_order() {
    let bodies = vec![vec![1u8; 10], vec![2u8; 20], vec![3u8; 30]];
    let log = run("http://example/pl.m3u8", vec![media_playlist_plain()], vec![], bodies.clone());
    assert_eq!(log.outcome, Ok(()));
    assert_eq!(log.key_fetches.len(), 0);
    assert_eq!(log.segment_fetches, vec!["seg0.ts", "seg1.ts", "seg2.ts"]);
    assert_eq!(log.sink.len(), 3, "exactly three ordered writes");
    assert_eq!(log.sink, bodies);
    let total: usize = log.sink.iter().map(|c| c.len()).sum();
    assert_eq!(total, 60, "exactly 60 bytes reach the sink");
}

#[test]
fn playlist_key_is_fetched_once_and_decrypts_both_segments() {
    let key = [0x11u8; 16];
    let iv = [0u8; 16];
    let plain0 = b"first segment plaintext".to_vec();
    let plain1 = b"second segment plaintext".to_vec();
    let playlist = media_playlist_encrypted(",IV=0x00000000000000000000000000000000");
    let log = run(
        "http://example/pl.m3u8",
        vec![playlist],
        vec![key.to_vec()],
        vec![encrypt(&key, &iv, &plain0), encrypt(&key, &iv, &plain1)],
    );
    assert_eq!(log.outcome, Ok(()));
    assert_eq!(log.key_fetches, vec!["k"], "the key is fetched exactly once");
    assert_eq!(log.sink, vec![plain0, plain1]);
}

#[test]
fn missing_iv_means_sixteen_zero_bytes() {
    let key = [0x22u8; 16];
    let zero_iv = [0u8; 16];
    let plain0 = b"encrypted under the zero iv".to_vec();
    let plain1 = b"and so is this one".to_vec();
    let playlist = media_playlist_encrypted("");
    let log = run(
        "http://example/pl.m3u8",
        vec![playlist],
        vec![key.to_vec()],
        vec![encrypt(&key, &zero_iv, &plain0), encrypt(&key, &zero_iv, &plain1)],
    );
    assert_eq!(log.outcome, Ok(()));
    assert_eq!(log.sink, vec![plain0, plain1]);
}

#[test]
fn short_playlist_key_aborts_before_any_segment_transfer() {
    let playlist = media_playlist_encrypted(",IV=0x00000000000000000000000000000000");
    let log = run("http://example/pl.m3u8", vec![playlist], vec![vec![0u8; 8]], vec![]);
    assert_eq!(log.outcome, Err(PipelineError::KeyTooShort));
    assert_eq!(log.segment_fetches.len(), 0, "no segment is transferred");
    assert_eq!(log.sink.len(), 0);
}

#[test]
fn oversized_key_body_uses_its_first_sixteen_bytes() {
    let key = [0x33u8; 16];
    let iv = [0u8; 16];
    let plain = b"keyed by the first 16 bytes".to_vec();
    let mut served_key = key.to_vec();
    served_key.extend_from_slice(&[0xff; 7]);
    let playlist = b"#EXTM3U\n#EXT-X-TARGETDURATION:10\n\
#EXT-X-KEY:METHOD=AES-128,URI=\"k\",IV=0x00000000000000000000000000000000\n\
#EXTINF:10.0,\nseg0.ts\n#EXT-X-ENDLIST\n"
        .to_vec();
    let log = run(
        "http://example/pl.m3u8",
        vec![playlist],
        vec![served_key],
        vec![encrypt(&key, &iv, &plain)],
    );
    assert_eq!(log.outcome, Ok(()));
    assert_eq!(log.sink, vec![plain]);
}

#[test]
fn master_playlist_resolves_to_the_highest_bandwidth_variant() {
    let master = b"#EXTM3U\n\
#EXT-X-STREAM-INF:BANDWIDTH=1280000,RESOLUTION=640x480\nlow.m3u8\n\
#EXT-X-STREAM-INF:BANDWIDTH=2560000,RESOLUTION=1280x720\nhigh.m3u8\n\
#EXT-X-STREAM-INF:BANDWIDTH=2560000\ntied.m3u8\n"
        .to_vec();
    let body = vec![7u8; 12];
    let log = run(
        "http://example/master.m3u8",
        vec![master, media_playlist_plain()],
        vec![],
        vec![body.clone(), vec![8u8; 1], vec![9u8; 2]],
    );
    assert_eq!(log.outcome, Ok(()));
    assert_eq!(
        log.playlist_fetches,
        vec!["high.m3u8"],
        "the first variant of maximal bandwidth is followed"
    );
    assert_eq!(log.sink.len(), 3);
    assert_eq!(log.sink[0], body);
}

#[test]
fn unsupported_key_method_passes_segments_through() {
    let playlist = b"#EXTM3U\n#EXT-X-TARGETDURATION:10\n\
#EXT-X-KEY:METHOD=SAMPLE-AES,URI=\"k\",IV=0x00000000000000000000000000000000\n\
#EXTINF:10.0,\nseg0.ts\n#EXT-X-ENDLIST\n"
        .to_vec();
    let body = vec![5u8; 9];
    let log = run("http://example/pl.m3u8", vec![playlist], vec![], vec![body.clone()]);
    assert_eq!(log.outcome, Ok(()));
    assert_eq!(log.key_fetches.len(), 0, "no key is fetched for an unsupported method");
    assert_eq!(log.sink, vec![body]);
}

#[test]
fn endless_master_redirections_are_malformed() {
    let master = b"#EXTM3U\n#EXT-X-STREAM-INF:BANDWIDTH=1000\nself.m3u8\n".to_vec();
    let log = run(
        "http://example/master.m3u8",
        vec![master; 12],
        vec![],
        vec![],
    );
    assert_eq!(log.outcome, Err(PipelineError::MalformedPlaylist));
}

#[test]
fn garbage_playlist_is_a_parse_error() {
    let log = run("http://example/pl.m3u8", vec![b"no playlist here".to_vec()], vec![], vec![]);
    assert_eq!(log.outcome, Err(PipelineError::Parse));
}

#[test]
fn malformed_iv_is_a_parse_error() {
    let playlist = media_playlist_encrypted(",IV=0xnot-hex-at-all");
    let log = run("http://example/pl.m3u8", vec![playlist], vec![vec![0x44u8; 16]], vec![]);
    assert_eq!(log.outcome, Err(PipelineError::Parse));
}

#[test]
fn corrupted_segment_is_a_decryption_error() {
    let key = [0x55u8; 16];
    let playlist = media_playlist_encrypted(",IV=0x00000000000000000000000000000000");
    let log = run(
        "http://example/pl.m3u8",
        vec![playlist],
        vec![key.to_vec()],
        vec![vec![1u8; 17]],
    );
    assert_eq!(log.outcome, Err(PipelineError::Decryption));
    assert_eq!(log.sink.len(), 0);
}

#[test]
fn fetch_failure_is_a_transport_error() {
    let mut dl = HLSDownloader::new("http://example/pl.m3u8".to_string());
    let action = dl.step(Event::FetchFailed);
    assert!(matches!(action, Action::Abort { error: PipelineError::Transport }));
    assert!(matches!(dl.state, PipelineState::Failed { error: PipelineError::Transport }));
}

#[test]
fn failing_sink_is_a_sink_error() {
    let mut dl = HLSDownloader::new("http://example/pl.m3u8".to_string());
    let playlist = b"#EXTM3U\n#EXT-X-TARGETDURATION:10\n#EXT-X-ENDLIST\n".to_vec();
    let a1 = dl.step(Event::PlaylistBody { bytes: playlist });
    assert!(matches!(a1, Action::CloseConduit), "an empty playlist closes at once");
    let a2 = dl.step(Event::ConduitDrained);
    assert!(matches!(a2, Action::AwaitSink));
    let a3 = dl.step(Event::SinkFinished { success: false });
    assert!(matches!(a3, Action::Abort { error: PipelineError::Sink }));
}

#[test]
fn closed_conduit_aborts_the_pipeline() {
    let mut dl = HLSDownloader::new("http://example/pl.m3u8".to_string());
    let a1 = dl.step(Event::PlaylistBody { bytes: media_playlist_plain() });
    assert!(matches!(a1, Action::FetchSegment { .. }));
    let a2 = dl.step(Event::SegmentBody { bytes: vec![1u8; 4] });
    assert!(matches!(a2, Action::PushChunk { .. }));
    let a3 = dl.step(Event::ConduitClosed);
    assert!(matches!(a3, Action::Abort { error: PipelineError::ConduitClosed }));
}

#[test]
fn error_descriptions_name_the_stage() {
    assert_eq!(PipelineError::Transport.describe(), "transport error");
    assert_eq!(PipelineError::Parse.describe(), "parse error");
    assert_eq!(PipelineError::MalformedPlaylist.describe(), "malformed playlist");
    assert_eq!(PipelineError::KeyTooShort.describe(), "key too short");
    assert_eq!(PipelineError::Decryption.describe(), "decryption error");
    assert_eq!(PipelineError::Sink.describe(), "sink error");
    assert_eq!(PipelineError::ConduitClosed.describe(), "conduit closed");
}
