//! The pipeline orchestrator: one verified state machine per download.
//!
//! The machine owns every protocol decision — variant selection, key
//! establishment and rotation, segment decryption, the shutdown protocol —
//! while the surrounding process performs the outside work the machine asks
//! for.  Each call of [`HLSDownloader::step`] consumes the outcome of the
//! previous [`Action`] as an [`Event`] and answers with the next action;
//! [`step_spec`] is the machine's complete transition function, and `step`
//! is proved to implement it exactly.

use vstd::prelude::*;
use vstd::pervasive::unreached;
use vstd::slice::{slice_subrange, slice_to_vec};
use crate::crypto::{decrypt_model, decrypt_segment, view_of_key, KeyIv, KeyIvV};
use crate::errors::PipelineError;
use crate::hexiv::{make_zero_iv, parse_iv, parse_iv_spec, zero_iv};
use crate::playlist::{
    first_max_index, is_master_of, is_master_playlist, lemma_first_max_index_is_first_max,
    lemma_first_max_unique, master_playlist_of, media_playlist_of, parse_master_playlist,
    parse_media_playlist, select_variant, KeyMethod, KeyTagV, Segment, SegmentV,
};

verus! {

/// How many variant-playlist redirections resolution follows before it
/// declares the playlist malformed.
pub const MAX_RESOLUTION_DEPTH: u64 = 10;

/// The key store: AES-128 keys already fetched this download, one entry per
/// key URI, in fetch order.  Nothing outlives the download.
pub struct KeyStore {
    pub entries: Vec<(String, Vec<u8>)>,
}

impl View for KeyStore {
    type V = Seq<(Seq<char>, Seq<u8>)>;

    open spec fn view(&self) -> Seq<(Seq<char>, Seq<u8>)> {
        Seq::new(self.entries@.len(), |i: int| (self.entries@[i].0@, self.entries@[i].1@))
    }
}

/// The key stored under `uri`: the first entry with that URI, when any.
pub open spec fn store_lookup(s: Seq<(Seq<char>, Seq<u8>)>, uri: Seq<char>) -> Option<Seq<u8>>
    decreases s.len(),
{
    if s.len() == 0 {
        None
    } else if s[0].0 == uri {
        Some(s[0].1)
    } else {
        store_lookup(s.skip(1), uri)
    }
}

/// A successful lookup in a store of 16-byte keys yields a 16-byte key.
pub proof fn lemma_store_lookup_len(s: Seq<(Seq<char>, Seq<u8>)>, uri: Seq<char>)
    requires
        forall|i: int| 0 <= i < s.len() ==> (#[trigger] s[i]).1.len() == 16,
        store_lookup(s, uri) is Some,
    ensures
        store_lookup(s, uri)->0.len() == 16,
    decreases s.len(),
{
    if s.len() > 0 && s[0].0 != uri {
        assert(forall|i: int|
            0 <= i < s.skip(1).len() ==> (#[trigger] s.skip(1)[i]) == s[i + 1]);
        lemma_store_lookup_len(s.skip(1), uri);
    }
}

impl KeyStore {
    /// An empty store.
    pub fn new() -> (s: KeyStore)
        ensures
            s@ == Seq::<(Seq<char>, Seq<u8>)>::empty(),
    {
        let s = KeyStore { entries: Vec::new() };
        proof {
            assert(s@ =~= Seq::<(Seq<char>, Seq<u8>)>::empty());
        }
        s
    }

    /// The key cached for `uri`, copied out, or `None` when that URI was
    /// never fetched.
    pub fn lookup(&self, uri: &String) -> (r: Option<Vec<u8>>)
        ensures
            match r {
                Some(k) => store_lookup(self@, uri@) == Some(k@),
                None => store_lookup(self@, uri@) is None,
            },
    {
        let n = self.entries.len();
        proof {
            assert(self@.skip(0) =~= self@);
        }
        let mut i: usize = 0;
        while i < n
            invariant
                n == self.entries@.len(),
                self@.len() == n,
                i <= n,
                store_lookup(self@.skip(i as int), uri@) == store_lookup(self@, uri@),
            decreases n - i,
        {
            proof {
                assert(self@.skip(i as int)[0] == self@[i as int]);
                assert(self@.skip(i as int).skip(1) =~= self@.skip(i as int + 1));
            }
            if self.entries[i].0.eq(uri) {
                let key = slice_to_vec(self.entries[i].1.as_slice());
                proof {
                    assert(self@[i as int].1 == self.entries@[i as int].1@);
                }
                return Some(key);
            }
            i = i + 1;
        }
        proof {
            assert(self@.skip(n as int) =~= Seq::<(Seq<char>, Seq<u8>)>::empty());
        }
        None
    }

    /// Records the key fetched for `uri`.
    pub fn insert(&mut self, uri: String, key: Vec<u8>)
        ensures
            final(self)@ == old(self)@.push((uri@, key@)),
    {
        let ghost u = uri@;
        let ghost k = key@;
        self.entries.push((uri, key));
        proof {
            assert(self@ =~= old(self)@.push((u, k)));
        }
    }
}

/// What the machine asks the surrounding process to do next.
#[derive(Debug)]
pub enum Action {
    /// Fetch a playlist body over HTTP GET.
    FetchPlaylist { url: String },
    /// Fetch a key body over HTTP GET.
    FetchKey { uri: String },
    /// Transfer one segment (resumable, retried) and hand back its bytes.
    FetchSegment { uri: String },
    /// Push one decoded chunk into the conduit.
    PushChunk { data: Vec<u8> },
    /// Close the producer's end of the conduit and drain it.
    CloseConduit,
    /// Wait for the sink's completion status.
    AwaitSink,
    /// Fatal: terminate the sink, remove partial artifacts, report `error`.
    Abort { error: PipelineError },
    /// The download finished; nothing is left to do.
    Finished,
}

/// Mathematical value of an [`Action`].
pub enum ActionV {
    FetchPlaylist { url: Seq<char> },
    FetchKey { uri: Seq<char> },
    FetchSegment { uri: Seq<char> },
    PushChunk { data: Seq<u8> },
    CloseConduit,
    AwaitSink,
    Abort { error: PipelineError },
    Finished,
}

impl View for Action {
    type V = ActionV;

    open spec fn view(&self) -> ActionV {
        match self {
            Action::FetchPlaylist { url } => ActionV::FetchPlaylist { url: url@ },
            Action::FetchKey { uri } => ActionV::FetchKey { uri: uri@ },
            Action::FetchSegment { uri } => ActionV::FetchSegment { uri: uri@ },
            Action::PushChunk { data } => ActionV::PushChunk { data: data@ },
            Action::CloseConduit => ActionV::CloseConduit,
            Action::AwaitSink => ActionV::AwaitSink,
            Action::Abort { error } => ActionV::Abort { error: *error },
            Action::Finished => ActionV::Finished,
        }
    }
}

/// The outcome of the last action, handed back to the machine.
#[derive(Debug)]
pub enum Event {
    /// The requested playlist body arrived.
    PlaylistBody { bytes: Vec<u8> },
    /// The requested key body arrived.
    KeyBody { bytes: Vec<u8> },
    /// The requested segment's bytes arrived, transferred completely.
    SegmentBody { bytes: Vec<u8> },
    /// A fetch failed even after the transport's own retries.
    FetchFailed,
    /// The conduit accepted the pushed chunk.
    ChunkPushed,
    /// The conduit's consumer was gone when the chunk was pushed.
    ConduitClosed,
    /// The closed conduit is drained and the consumer has finished.
    ConduitDrained,
    /// The sink reported completion, successfully or not.
    SinkFinished { success: bool },
}

/// Mathematical value of an [`Event`].
pub enum EventV {
    PlaylistBody { bytes: Seq<u8> },
    KeyBody { bytes: Seq<u8> },
    SegmentBody { bytes: Seq<u8> },
    FetchFailed,
    ChunkPushed,
    ConduitClosed,
    ConduitDrained,
    SinkFinished { success: bool },
}

impl View for Event {
    type V = EventV;

    open spec fn view(&self) -> EventV {
        match self {
            Event::PlaylistBody { bytes } => EventV::PlaylistBody { bytes: bytes@ },
            Event::KeyBody { bytes } => EventV::KeyBody { bytes: bytes@ },
            Event::SegmentBody { bytes } => EventV::SegmentBody { bytes: bytes@ },
            Event::FetchFailed => EventV::FetchFailed,
            Event::ChunkPushed => EventV::ChunkPushed,
            Event::ConduitClosed => EventV::ConduitClosed,
            Event::ConduitDrained => EventV::ConduitDrained,
            Event::SinkFinished { success } => EventV::SinkFinished { success: *success },
        }
    }
}

/// Where the machine stands within the current segment.
pub enum SegmentPhase {
    /// Waiting for the segment's own key body.
    AwaitingKey,
    /// Waiting for the segment's bytes; `key` is the resolved key/IV pair
    /// the bytes will be decrypted with (`None`: pass-through).
    AwaitingBody { key: Option<KeyIv> },
    /// Waiting for the conduit to accept the segment's decoded chunk.
    AwaitingPush,
}

/// Mathematical value of a [`SegmentPhase`].
pub enum SegmentPhaseV {
    AwaitingKey,
    AwaitingBody { key: Option<KeyIvV> },
    AwaitingPush,
}

impl View for SegmentPhase {
    type V = SegmentPhaseV;

    open spec fn view(&self) -> SegmentPhaseV {
        match self {
            SegmentPhase::AwaitingKey => SegmentPhaseV::AwaitingKey,
            SegmentPhase::AwaitingBody { key } => SegmentPhaseV::AwaitingBody {
                key: key.deep_view(),
            },
            SegmentPhase::AwaitingPush => SegmentPhaseV::AwaitingPush,
        }
    }
}

/// The orchestrator's state, as the protocol names it.
pub enum PipelineState {
    /// Fetching `url` and resolving variant playlists, `depth` deep so far.
    ResolvingPlaylist { url: String, depth: u64 },
    /// A media playlist whose first segment declares AES-128 with `key_uri`;
    /// waiting for the playlist-level key body.
    EstablishingKey { segments: Vec<Segment>, key_uri: String, iv: Option<String> },
    /// Streaming segment `next` of `segments` (key resolution, transfer,
    /// decrypt, push), with `playlist_key` as the established fallback.
    StreamingSegments {
        segments: Vec<Segment>,
        playlist_key: Option<KeyIv>,
        next: usize,
        phase: SegmentPhase,
    },
    /// All segments pushed; the conduit is closed and draining.
    Draining,
    /// The conduit is drained; waiting for the sink's completion status.
    AwaitingSink,
    /// The download completed.
    Done,
    /// A fatal error ended the download.
    Failed { error: PipelineError },
}

/// Mathematical value of a [`PipelineState`].
pub enum PipelineStateV {
    ResolvingPlaylist { url: Seq<char>, depth: u64 },
    EstablishingKey { segments: Seq<SegmentV>, key_uri: Seq<char>, iv: Option<Seq<char>> },
    StreamingSegments {
        segments: Seq<SegmentV>,
        playlist_key: Option<KeyIvV>,
        next: int,
        phase: SegmentPhaseV,
    },
    Draining,
    AwaitingSink,
    Done,
    Failed { error: PipelineError },
}

impl View for PipelineState {
    type V = PipelineStateV;

    open spec fn view(&self) -> PipelineStateV {
        match self {
            PipelineState::ResolvingPlaylist { url, depth } => PipelineStateV::ResolvingPlaylist {
                url: url@,
                depth: *depth,
            },
            PipelineState::EstablishingKey { segments, key_uri, iv } => {
                PipelineStateV::EstablishingKey {
                    segments: segments.deep_view(),
                    key_uri: key_uri@,
                    iv: iv.deep_view(),
                }
            },
            PipelineState::StreamingSegments { segments, playlist_key, next, phase } => {
                PipelineStateV::StreamingSegments {
                    segments: segments.deep_view(),
                    playlist_key: playlist_key.deep_view(),
                    next: *next as int,
                    phase: phase@,
                }
            },
            PipelineState::Draining => PipelineStateV::Draining,
            PipelineState::AwaitingSink => PipelineStateV::AwaitingSink,
            PipelineState::Done => PipelineStateV::Done,
            PipelineState::Failed { error } => PipelineStateV::Failed { error: *error },
        }
    }
}

/// The whole machine: protocol state plus the key store.
pub struct HLSDownloader {
    pub state: PipelineState,
    pub store: KeyStore,
}

/// Mathematical value of an [`HLSDownloader`].
pub struct MachineV {
    pub state: PipelineStateV,
    pub store: Seq<(Seq<char>, Seq<u8>)>,
}

impl View for HLSDownloader {
    type V = MachineV;

    open spec fn view(&self) -> MachineV {
        MachineV { state: self.state@, store: self.store@ }
    }
}

/// The IV a key tag resolves to: its IV string parsed when present, sixteen
/// zero bytes when absent, `None` when the string is malformed.
pub open spec fn resolved_iv_spec(iv: Option<Seq<char>>) -> Option<Seq<u8>> {
    match iv {
        None => Some(zero_iv()),
        Some(s) => parse_iv_spec(s),
    }
}

/// The key tag a segment contributes to key resolution: its own tag, when
/// that tag declares AES-128 and carries a key URI.  Any other method, and a
/// tag without a URI, contribute nothing.
pub open spec fn aes_tag(seg: SegmentV) -> Option<KeyTagV> {
    match seg.key {
        Some(t) => if t.method == KeyMethod::Aes128 && t.uri is Some {
            Some(t)
        } else {
            None
        },
        None => None,
    }
}

/// The playlist-level key tag: the first segment's AES-128 tag, when it has
/// one.  Establishment inspects only the first segment.
pub open spec fn playlist_key_tag(segments: Seq<SegmentV>) -> Option<KeyTagV> {
    if segments.len() > 0 {
        aes_tag(segments[0])
    } else {
        None
    }
}

/// A failed machine: the terminal state and the abort action, both naming
/// the same fatal error.
pub open spec fn fail_spec(store: Seq<(Seq<char>, Seq<u8>)>, e: PipelineError) -> (
    MachineV,
    ActionV,
) {
    (MachineV { state: PipelineStateV::Failed { error: e }, store }, ActionV::Abort { error: e })
}

/// Enters segment `next`, or the drain when none is left: resolves the
/// segment's key per precedence — its own AES-128 tag when the key is
/// already cached, a key fetch when not, the playlist-level pair otherwise —
/// and asks for the segment's bytes or its key.
pub open spec fn begin_segment_spec(
    store: Seq<(Seq<char>, Seq<u8>)>,
    segments: Seq<SegmentV>,
    playlist_key: Option<KeyIvV>,
    next: int,
) -> (MachineV, ActionV) {
    if next >= segments.len() {
        (MachineV { state: PipelineStateV::Draining, store }, ActionV::CloseConduit)
    } else {
        match aes_tag(segments[next]) {
            Some(tag) => match store_lookup(store, tag.uri->0) {
                Some(key) => match resolved_iv_spec(tag.iv) {
                    Some(iv) => (
                        MachineV {
                            state: PipelineStateV::StreamingSegments {
                                segments,
                                playlist_key,
                                next,
                                phase: SegmentPhaseV::AwaitingBody {
                                    key: Some(KeyIvV { key, iv }),
                                },
                            },
                            store,
                        },
                        ActionV::FetchSegment { uri: segments[next].uri },
                    ),
                    None => fail_spec(store, PipelineError::Parse),
                },
                None => (
                    MachineV {
                        state: PipelineStateV::StreamingSegments {
                            segments,
                            playlist_key,
                            next,
                            phase: SegmentPhaseV::AwaitingKey,
                        },
                        store,
                    },
                    ActionV::FetchKey { uri: tag.uri->0 },
                ),
            },
            None => (
                MachineV {
                    state: PipelineStateV::StreamingSegments {
                        segments,
                        playlist_key,
                        next,
                        phase: SegmentPhaseV::AwaitingBody { key: playlist_key },
                    },
                    store,
                },
                ActionV::FetchSegment { uri: segments[next].uri },
            ),
        }
    }
}

/// The step a playlist body causes: a media playlist enters key
/// establishment or streaming; a master playlist redirects resolution to its
/// first variant of maximal bandwidth, within the depth bound; a body that
/// does not parse is fatal.
pub open spec fn resolve_step_spec(
    store: Seq<(Seq<char>, Seq<u8>)>,
    depth: u64,
    bytes: Seq<u8>,
) -> (MachineV, ActionV) {
    if is_master_of(bytes) {
        match master_playlist_of(bytes) {
            Some(variants) => {
                if variants.len() == 0 {
                    fail_spec(store, PipelineError::Parse)
                } else if depth >= MAX_RESOLUTION_DEPTH {
                    fail_spec(store, PipelineError::MalformedPlaylist)
                } else {
                    let url = variants[first_max_index(variants)].uri;
                    (
                        MachineV {
                            state: PipelineStateV::ResolvingPlaylist {
                                url,
                                depth: (depth + 1) as u64,
                            },
                            store,
                        },
                        ActionV::FetchPlaylist { url },
                    )
                }
            },
            None => fail_spec(store, PipelineError::Parse),
        }
    } else {
        match media_playlist_of(bytes) {
            Some(segments) => match playlist_key_tag(segments) {
                Some(tag) => (
                    MachineV {
                        state: PipelineStateV::EstablishingKey {
                            segments,
                            key_uri: tag.uri->0,
                            iv: tag.iv,
                        },
                        store,
                    },
                    ActionV::FetchKey { uri: tag.uri->0 },
                ),
                None => begin_segment_spec(store, segments, None, 0),
            },
            None => fail_spec(store, PipelineError::Parse),
        }
    }
}

/// The step the playlist-level key body causes: fewer than 16 bytes is the
/// fatal `KeyTooShort` — before any segment is asked for; a malformed IV is
/// fatal; otherwise the first 16 bytes and the resolved IV become the
/// playlist-level pair, the key is cached under its URI, and streaming
/// begins at the first segment.
pub open spec fn establish_step_spec(
    store: Seq<(Seq<char>, Seq<u8>)>,
    segments: Seq<SegmentV>,
    key_uri: Seq<char>,
    iv: Option<Seq<char>>,
    bytes: Seq<u8>,
) -> (MachineV, ActionV) {
    if bytes.len() < 16 {
        fail_spec(store, PipelineError::KeyTooShort)
    } else {
        match resolved_iv_spec(iv) {
            Some(ivb) => {
                let key16 = bytes.take(16);
                begin_segment_spec(
                    store.push((key_uri, key16)),
                    segments,
                    Some(KeyIvV { key: key16, iv: ivb }),
                    0,
                )
            },
            None => fail_spec(store, PipelineError::Parse),
        }
    }
}

/// The step a segment's own key body causes: at least 16 bytes resolve the
/// segment's own pair (first 16 bytes, own IV) and cache the key; fewer fall
/// back to the playlist-level pair.  Either way the segment's bytes are
/// asked for next.
pub open spec fn segment_key_step_spec(
    store: Seq<(Seq<char>, Seq<u8>)>,
    segments: Seq<SegmentV>,
    playlist_key: Option<KeyIvV>,
    next: int,
    bytes: Seq<u8>,
) -> (MachineV, ActionV) {
    let tag = aes_tag(segments[next])->0;
    if bytes.len() >= 16 {
        match resolved_iv_spec(tag.iv) {
            Some(ivb) => {
                let key16 = bytes.take(16);
                (
                    MachineV {
                        state: PipelineStateV::StreamingSegments {
                            segments,
                            playlist_key,
                            next,
                            phase: SegmentPhaseV::AwaitingBody {
                                key: Some(KeyIvV { key: key16, iv: ivb }),
                            },
                        },
                        store: store.push((tag.uri->0, key16)),
                    },
                    ActionV::FetchSegment { uri: segments[next].uri },
                )
            },
            None => fail_spec(store, PipelineError::Parse),
        }
    } else {
        (
            MachineV {
                state: PipelineStateV::StreamingSegments {
                    segments,
                    playlist_key,
                    next,
                    phase: SegmentPhaseV::AwaitingBody { key: playlist_key },
                },
                store,
            },
            ActionV::FetchSegment { uri: segments[next].uri },
        )
    }
}

/// The complete transition function of the orchestrator: from a machine and
/// the event that answers its pending action, to the next machine and its
/// next action.  [`HLSDownloader::step`] implements this function exactly.
pub open spec fn step_spec(m: MachineV, ev: EventV) -> (MachineV, ActionV) {
    match (m.state, ev) {
        (PipelineStateV::ResolvingPlaylist { depth, .. }, EventV::PlaylistBody { bytes }) => {
            resolve_step_spec(m.store, depth, bytes)
        },
        (PipelineStateV::ResolvingPlaylist { .. }, EventV::FetchFailed) => {
            fail_spec(m.store, PipelineError::Transport)
        },
        (
            PipelineStateV::EstablishingKey { segments, key_uri, iv },
            EventV::KeyBody { bytes },
        ) => establish_step_spec(m.store, segments, key_uri, iv, bytes),
        (PipelineStateV::EstablishingKey { .. }, EventV::FetchFailed) => {
            fail_spec(m.store, PipelineError::Transport)
        },
        (
            PipelineStateV::StreamingSegments {
                segments,
                playlist_key,
                next,
                phase: SegmentPhaseV::AwaitingKey,
            },
            EventV::KeyBody { bytes },
        ) => segment_key_step_spec(m.store, segments, playlist_key, next, bytes),
        (
            PipelineStateV::StreamingSegments { phase: SegmentPhaseV::AwaitingKey, .. },
            EventV::FetchFailed,
        ) => fail_spec(m.store, PipelineError::Transport),
        (
            PipelineStateV::StreamingSegments {
                segments,
                playlist_key,
                next,
                phase: SegmentPhaseV::AwaitingBody { key },
            },
            EventV::SegmentBody { bytes },
        ) => {
            match decrypt_model(key, bytes) {
                Some(chunk) => (
                    MachineV {
                        state: PipelineStateV::StreamingSegments {
                            segments,
                            playlist_key,
                            next,
                            phase: SegmentPhaseV::AwaitingPush,
                        },
                        store: m.store,
                    },
                    ActionV::PushChunk { data: chunk },
                ),
                None => fail_spec(m.store, PipelineError::Decryption),
            }
        },
        (
            PipelineStateV::StreamingSegments { phase: SegmentPhaseV::AwaitingBody { .. }, .. },
            EventV::FetchFailed,
        ) => fail_spec(m.store, PipelineError::Transport),
        (
            PipelineStateV::StreamingSegments {
                segments,
                playlist_key,
                next,
                phase: SegmentPhaseV::AwaitingPush,
            },
            EventV::ChunkPushed,
        ) => begin_segment_spec(m.store, segments, playlist_key, next + 1),
        (
            PipelineStateV::StreamingSegments { phase: SegmentPhaseV::AwaitingPush, .. },
            EventV::ConduitClosed,
        ) => fail_spec(m.store, PipelineError::ConduitClosed),
        (PipelineStateV::Draining, EventV::ConduitDrained) => (
            MachineV { state: PipelineStateV::AwaitingSink, store: m.store },
            ActionV::AwaitSink,
        ),
        (PipelineStateV::AwaitingSink, EventV::SinkFinished { success }) => {
            if success {
                (MachineV { state: PipelineStateV::Done, store: m.store }, ActionV::Finished)
            } else {
                fail_spec(m.store, PipelineError::Sink)
            }
        },
        // Pairs that answer no pending action; `accepts` rules them out, so
        // `step` is never called on them.
        _ => fail_spec(m.store, PipelineError::Transport),
    }
}

/// Which events answer the machine's pending action: only these may be
/// handed to [`HLSDownloader::step`].
pub open spec fn accepts(s: PipelineStateV, ev: EventV) -> bool {
    match (s, ev) {
        (PipelineStateV::ResolvingPlaylist { .. }, EventV::PlaylistBody { .. }) => true,
        (PipelineStateV::ResolvingPlaylist { .. }, EventV::FetchFailed) => true,
        (PipelineStateV::EstablishingKey { .. }, EventV::KeyBody { .. }) => true,
        (PipelineStateV::EstablishingKey { .. }, EventV::FetchFailed) => true,
        (
            PipelineStateV::StreamingSegments { phase: SegmentPhaseV::AwaitingKey, .. },
            EventV::KeyBody { .. },
        ) => true,
        (
            PipelineStateV::StreamingSegments { phase: SegmentPhaseV::AwaitingKey, .. },
            EventV::FetchFailed,
        ) => true,
        (
            PipelineStateV::StreamingSegments { phase: SegmentPhaseV::AwaitingBody { .. }, .. },
            EventV::SegmentBody { .. },
        ) => true,
        (
            PipelineStateV::StreamingSegments { phase: SegmentPhaseV::AwaitingBody { .. }, .. },
            EventV::FetchFailed,
        ) => true,
        (
            PipelineStateV::StreamingSegments { phase: SegmentPhaseV::AwaitingPush, .. },
            EventV::ChunkPushed,
        ) => true,
        (
            PipelineStateV::StreamingSegments { phase: SegmentPhaseV::AwaitingPush, .. },
            EventV::ConduitClosed,
        ) => true,
        (PipelineStateV::Draining, EventV::ConduitDrained) => true,
        (PipelineStateV::AwaitingSink, EventV::SinkFinished { .. }) => true,
        _ => false,
    }
}

/// The machine's internal invariant: cached keys are 16 bytes; within
/// streaming, the segment index stays in range (strictly, while a segment is
/// still being worked), a waited-for key belongs to a segment that declares
/// one, and every resolved pair is well formed.
pub open spec fn machine_inv(m: MachineV) -> bool {
    &&& (forall|i: int| 0 <= i < m.store.len() ==> (#[trigger] m.store[i]).1.len() == 16)
    &&& match m.state {
        PipelineStateV::StreamingSegments { segments, playlist_key, next, phase } => {
            &&& 0 <= next <= segments.len()
            &&& (playlist_key matches Some(k) ==> k.wf())
            &&& match phase {
                SegmentPhaseV::AwaitingKey => next < segments.len() && aes_tag(segments[next])
                    is Some,
                SegmentPhaseV::AwaitingBody { key } => next < segments.len() && (key matches Some(
                    k,
                ) ==> k.wf()),
                SegmentPhaseV::AwaitingPush => next < segments.len(),
            }
        },
        _ => true,
    }
}

/// The ordering guarantee on the machine's side: in a media playlist whose
/// segments carry no AES-128 key tag, entering segment `i` asks for exactly
/// segment `i`'s bytes, those bytes are pushed unchanged as the next chunk,
/// and the acknowledged push enters segment `i + 1`.  Chunks are therefore
/// pushed one per segment, in playlist order; the conduit's own law
/// ([`crate::bridge::StreamBridge::lemma_drained_delivers_everything`])
/// carries that order to the sink, regardless of fill level.
pub proof fn lemma_plain_streaming_in_order(
    store: Seq<(Seq<char>, Seq<u8>)>,
    segments: Seq<SegmentV>,
    body: Seq<u8>,
    i: int,
)
    requires
        forall|j: int| 0 <= j < segments.len() ==> aes_tag(#[trigger] segments[j]) is None,
        0 <= i < segments.len(),
    ensures
        ({
            let (m1, a1) = begin_segment_spec(store, segments, None, i);
            let (m2, a2) = step_spec(m1, EventV::SegmentBody { bytes: body });
            let (m3, a3) = step_spec(m2, EventV::ChunkPushed);
            &&& a1 == (ActionV::FetchSegment { uri: segments[i].uri })
            &&& a2 == (ActionV::PushChunk { data: body })
            &&& (m3, a3) == begin_segment_spec(store, segments, None, i + 1)
        }),
{
}

/// The ways a segment's key can resolve before its bytes are fetched.
enum SegmentPlan {
    /// No usable tag of its own: the playlist-level pair applies.
    UsePlaylist,
    /// The segment's own pair, resolved from the cached key and its own IV.
    UseOwn(KeyIv),
    /// The segment's own key must be fetched from this URI first.
    NeedKey(String),
    /// The segment's own IV string is malformed.
    BadIv,
}

/// Copies an optional string, keeping its value.
fn clone_opt_string(s: &Option<String>) -> (r: Option<String>)
    ensures
        r.deep_view() == s.deep_view(),
{
    match s {
        Some(x) => Some(x.clone()),
        None => None,
    }
}

/// Copies an optional key/IV pair, keeping its value.
fn clone_opt_keyiv(k: &Option<KeyIv>) -> (r: Option<KeyIv>)
    ensures
        r.deep_view() == k.deep_view(),
{
    match k {
        Some(x) => Some(x.clone()),
        None => None,
    }
}

/// Resolves a key tag's optional IV string: absent means sixteen zero
/// bytes; present must parse as exactly 16 bytes of hex.
fn resolve_iv(iv: &Option<String>) -> (r: Option<Vec<u8>>)
    ensures
        match r {
            Some(v) => resolved_iv_spec(iv.deep_view()) == Some(v@) && v@.len() == 16,
            None => resolved_iv_spec(iv.deep_view()) is None,
        },
{
    match iv {
        None => Some(make_zero_iv()),
        Some(s) => parse_iv(s.as_str()),
    }
}

/// A failed machine's state and abort action.
fn fail_state(e: PipelineError) -> (r: (PipelineState, Action))
    ensures
        r.0@ == (PipelineStateV::Failed { error: e }),
        r.1@ == (ActionV::Abort { error: e }),
{
    (PipelineState::Failed { error: e }, Action::Abort { error: e })
}

/// Enters segment `next`, or the drain when none is left; implements
/// [`begin_segment_spec`].
fn begin_segment(
    store: &KeyStore,
    segments: Vec<Segment>,
    playlist_key: Option<KeyIv>,
    next: usize,
) -> (r: (PipelineState, Action))
    requires
        next <= segments@.len(),
        playlist_key matches Some(k) ==> k.wf(),
        forall|i: int| 0 <= i < store@.len() ==> (#[trigger] store@[i]).1.len() == 16,
    ensures
        ({
            let (mv, av) = begin_segment_spec(
                store@,
                segments.deep_view(),
                playlist_key.deep_view(),
                next as int,
            );
            &&& r.0@ == mv.state
            &&& r.1@ == av
            &&& mv.store == store@
            &&& machine_inv(mv)
        }),
{
    let ghost segs = segments.deep_view();
    if next == segments.len() {
        return (PipelineState::Draining, Action::CloseConduit);
    }
    proof {
        assert(segs[next as int] == segments@[next as int]@);
    }
    let seg = &segments[next];
    let seg_uri = seg.uri.clone();
    let plan: SegmentPlan = match &seg.key {
        Some(tag) => match tag.method {
            KeyMethod::Aes128 => match &tag.uri {
                Some(u) => match store.lookup(u) {
                    Some(key) => match resolve_iv(&tag.iv) {
                        Some(iv) => {
                            proof {
                                assert(store_lookup(store@, u@) == Some(key@));
                                lemma_store_lookup_len(store@, u@);
                            }
                            SegmentPlan::UseOwn(KeyIv::new(key, iv))
                        },
                        None => SegmentPlan::BadIv,
                    },
                    None => SegmentPlan::NeedKey(u.clone()),
                },
                None => SegmentPlan::UsePlaylist,
            },
            KeyMethod::Other => SegmentPlan::UsePlaylist,
        },
        None => SegmentPlan::UsePlaylist,
    };
    match plan {
        SegmentPlan::UsePlaylist => {
            let state = PipelineState::StreamingSegments {
                segments,
                playlist_key: clone_opt_keyiv(&playlist_key),
                next,
                phase: SegmentPhase::AwaitingBody { key: playlist_key },
            };
            (state, Action::FetchSegment { uri: seg_uri })
        },
        SegmentPlan::UseOwn(pair) => {
            let state = PipelineState::StreamingSegments {
                segments,
                playlist_key,
                next,
                phase: SegmentPhase::AwaitingBody { key: Some(pair) },
            };
            (state, Action::FetchSegment { uri: seg_uri })
        },
        SegmentPlan::NeedKey(uri) => {
            let state = PipelineState::StreamingSegments {
                segments,
                playlist_key,
                next,
                phase: SegmentPhase::AwaitingKey,
            };
            (state, Action::FetchKey { uri })
        },
        SegmentPlan::BadIv => fail_state(PipelineError::Parse),
    }
}

impl HLSDownloader {
    /// A fresh machine about to resolve `url`.
    pub fn new(url: String) -> (d: HLSDownloader)
        ensures
            d@.state == (PipelineStateV::ResolvingPlaylist { url: url@, depth: 0 }),
            d@.store == Seq::<(Seq<char>, Seq<u8>)>::empty(),
            machine_inv(d@),
    {
        HLSDownloader {
            state: PipelineState::ResolvingPlaylist { url, depth: 0 },
            store: KeyStore::new(),
        }
    }

    /// The action a fresh machine starts with: fetch the playlist it was
    /// created for.
    pub fn initial_action(&self) -> (a: Action)
        requires
            self@.state matches PipelineStateV::ResolvingPlaylist { .. },
        ensures
            self@.state matches PipelineStateV::ResolvingPlaylist { url, .. } && a@
                == (ActionV::FetchPlaylist { url }),
    {
        match &self.state {
            PipelineState::ResolvingPlaylist { url, .. } => Action::FetchPlaylist {
                url: url.clone(),
            },
            _ => unreached(),
        }
    }

    /// Feeds the machine the outcome of its pending action and receives the
    /// next action: the machine moves exactly as [`step_spec`] says.
    pub fn step(&mut self, ev: Event) -> (a: Action)
        requires
            accepts(old(self)@.state, ev@),
            machine_inv(old(self)@),
        ensures
            machine_inv(final(self)@),
            ({
                let (mv, av) = step_spec(old(self)@, ev@);
                final(self)@ == mv && a@ == av
            }),
    {
        let mut st = PipelineState::Draining;
        core::mem::swap(&mut st, &mut self.state);
        match (st, ev) {
            (PipelineState::ResolvingPlaylist { url, depth }, Event::PlaylistBody { bytes }) => {
                let (state, action) = handle_playlist_body(&self.store, depth, &bytes);
                self.state = state;
                action
            },
            (PipelineState::ResolvingPlaylist { .. }, Event::FetchFailed) => {
                let (state, action) = fail_state(PipelineError::Transport);
                self.state = state;
                action
            },
            (
                PipelineState::EstablishingKey { segments, key_uri, iv },
                Event::KeyBody { bytes },
            ) => {
                let (state, action) = handle_establish_key(
                    &mut self.store,
                    segments,
                    key_uri,
                    iv,
                    bytes,
                );
                self.state = state;
                action
            },
            (PipelineState::EstablishingKey { .. }, Event::FetchFailed) => {
                let (state, action) = fail_state(PipelineError::Transport);
                self.state = state;
                action
            },
            (
                PipelineState::StreamingSegments {
                    segments,
                    playlist_key,
                    next,
                    phase: SegmentPhase::AwaitingKey,
                },
                Event::KeyBody { bytes },
            ) => {
                let (state, action) = handle_segment_key(
                    &mut self.store,
                    segments,
                    playlist_key,
                    next,
                    bytes,
                );
                self.state = state;
                action
            },
            (
                PipelineState::StreamingSegments { phase: SegmentPhase::AwaitingKey, .. },
                Event::FetchFailed,
            ) => {
                let (state, action) = fail_state(PipelineError::Transport);
                self.state = state;
                action
            },
            (
                PipelineState::StreamingSegments {
                    segments,
                    playlist_key,
                    next,
                    phase: SegmentPhase::AwaitingBody { key },
                },
                Event::SegmentBody { bytes },
            ) => {
                let ghost key_v = key.deep_view();
                let key_ref = key.as_ref();
                match decrypt_segment(bytes, key_ref) {
                    Ok(chunk) => {
                        proof {
                            assert(view_of_key(key_ref) == key_v);
                        }
                        self.state = PipelineState::StreamingSegments {
                            segments,
                            playlist_key,
                            next,
                            phase: SegmentPhase::AwaitingPush,
                        };
                        Action::PushChunk { data: chunk }
                    },
                    Err(e) => {
                        let (state, action) = fail_state(PipelineError::Decryption);
                        self.state = state;
                        action
                    },
                }
            },
            (
                PipelineState::StreamingSegments { phase: SegmentPhase::AwaitingBody { .. }, .. },
                Event::FetchFailed,
            ) => {
                let (state, action) = fail_state(PipelineError::Transport);
                self.state = state;
                action
            },
            (
                PipelineState::StreamingSegments {
                    segments,
                    playlist_key,
                    next,
                    phase: SegmentPhase::AwaitingPush,
                },
                Event::ChunkPushed,
            ) => {
                let count = segments.len();
                proof {
                    assert(segments.deep_view().len() == segments@.len());
                    assert(next < count);
                }
                let (state, action) = begin_segment(&self.store, segments, playlist_key, next + 1);
                self.state = state;
                action
            },
            (
                PipelineState::StreamingSegments { phase: SegmentPhase::AwaitingPush, .. },
                Event::ConduitClosed,
            ) => {
                let (state, action) = fail_state(PipelineError::ConduitClosed);
                self.state = state;
                action
            },
            (PipelineState::Draining, Event::ConduitDrained) => {
                self.state = PipelineState::AwaitingSink;
                Action::AwaitSink
            },
            (PipelineState::AwaitingSink, Event::SinkFinished { success }) => {
                if success {
                    self.state = PipelineState::Done;
                    Action::Finished
                } else {
                    let (state, action) = fail_state(PipelineError::Sink);
                    self.state = state;
                    action
                }
            },
            _ => unreached(),
        }
    }
}

/// Reacts to a playlist body while resolving; implements
/// [`resolve_step_spec`].
fn handle_playlist_body(store: &KeyStore, depth: u64, bytes: &Vec<u8>) -> (r: (
    PipelineState,
    Action,
))
    requires
        forall|i: int| 0 <= i < store@.len() ==> (#[trigger] store@[i]).1.len() == 16,
    ensures
        ({
            let (mv, av) = resolve_step_spec(store@, depth, bytes@);
            &&& r.0@ == mv.state
            &&& r.1@ == av
            &&& mv.store == store@
            &&& machine_inv(mv)
        }),
{
    if is_master_playlist(bytes) {
        match parse_master_playlist(bytes) {
            Some(variants) => match select_variant(&variants) {
                Some(i) => {
                    if depth >= MAX_RESOLUTION_DEPTH {
                        fail_state(PipelineError::MalformedPlaylist)
                    } else {
                        proof {
                            let vs = variants.deep_view();
                            lemma_first_max_index_is_first_max(vs);
                            lemma_first_max_unique(vs, i as int, first_max_index(vs));
                            assert(vs[i as int] == variants@[i as int]@);
                        }
                        let url = variants[i].uri.clone();
                        let state = PipelineState::ResolvingPlaylist {
                            url: url.clone(),
                            depth: depth + 1,
                        };
                        (state, Action::FetchPlaylist { url })
                    }
                },
                None => fail_state(PipelineError::Parse),
            },
            None => fail_state(PipelineError::Parse),
        }
    } else {
        match parse_media_playlist(bytes) {
            Some(segments) => {
                let ghost segs = segments.deep_view();
                let establishment: Option<(String, Option<String>)> = if segments.len() > 0 {
                    proof {
                        assert(segs[0] == segments@[0]@);
                    }
                    let seg = &segments[0];
                    match &seg.key {
                        Some(tag) => match tag.method {
                            KeyMethod::Aes128 => match &tag.uri {
                                Some(u) => Some((u.clone(), clone_opt_string(&tag.iv))),
                                None => None,
                            },
                            KeyMethod::Other => None,
                        },
                        None => None,
                    }
                } else {
                    None
                };
                match establishment {
                    Some((key_uri, iv)) => {
                        let state = PipelineState::EstablishingKey {
                            segments,
                            key_uri: key_uri.clone(),
                            iv,
                        };
                        (state, Action::FetchKey { uri: key_uri })
                    },
                    None => begin_segment(store, segments, None, 0),
                }
            },
            None => fail_state(PipelineError::Parse),
        }
    }
}

/// Reacts to the playlist-level key body; implements
/// [`establish_step_spec`].
fn handle_establish_key(
    store: &mut KeyStore,
    segments: Vec<Segment>,
    key_uri: String,
    iv: Option<String>,
    bytes: Vec<u8>,
) -> (r: (PipelineState, Action))
    requires
        forall|i: int| 0 <= i < old(store)@.len() ==> (#[trigger] old(store)@[i]).1.len() == 16,
    ensures
        ({
            let (mv, av) = establish_step_spec(
                old(store)@,
                segments.deep_view(),
                key_uri@,
                iv.deep_view(),
                bytes@,
            );
            &&& r.0@ == mv.state
            &&& r.1@ == av
            &&& final(store)@ == mv.store
            &&& machine_inv(mv)
        }),
{
    if bytes.len() < 16 {
        fail_state(PipelineError::KeyTooShort)
    } else {
        match resolve_iv(&iv) {
            Some(ivb) => {
                let key16 = slice_to_vec(slice_subrange(bytes.as_slice(), 0, 16));
                let pair_key = slice_to_vec(key16.as_slice());
                proof {
                    assert(key16@ =~= bytes@.take(16));
                }
                store.insert(key_uri, key16);
                begin_segment(store, segments, Some(KeyIv::new(pair_key, ivb)), 0)
            },
            None => fail_state(PipelineError::Parse),
        }
    }
}

/// Reacts to a segment's own key body; implements
/// [`segment_key_step_spec`].
fn handle_segment_key(
    store: &mut KeyStore,
    segments: Vec<Segment>,
    playlist_key: Option<KeyIv>,
    next: usize,
    bytes: Vec<u8>,
) -> (r: (PipelineState, Action))
    requires
        forall|i: int| 0 <= i < old(store)@.len() ==> (#[trigger] old(store)@[i]).1.len() == 16,
        next < segments@.len(),
        aes_tag(segments.deep_view()[next as int]) is Some,
        playlist_key matches Some(k) ==> k.wf(),
    ensures
        ({
            let (mv, av) = segment_key_step_spec(
                old(store)@,
                segments.deep_view(),
                playlist_key.deep_view(),
                next as int,
                bytes@,
            );
            &&& r.0@ == mv.state
            &&& r.1@ == av
            &&& final(store)@ == mv.store
            &&& machine_inv(mv)
        }),
{
    let ghost segs = segments.deep_view();
    proof {
        assert(segs[next as int] == segments@[next as int]@);
    }
    let seg = &segments[next];
    let seg_uri = seg.uri.clone();
    let (key_uri, iv): (String, Option<String>) = match &seg.key {
        Some(tag) => match tag.method {
            KeyMethod::Aes128 => match &tag.uri {
                Some(u) => (u.clone(), clone_opt_string(&tag.iv)),
                None => unreached(),
            },
            KeyMethod::Other => unreached(),
        },
        None => unreached(),
    };
    if bytes.len() >= 16 {
        match resolve_iv(&iv) {
            Some(ivb) => {
                let key16 = slice_to_vec(slice_subrange(bytes.as_slice(), 0, 16));
                let pair_key = slice_to_vec(key16.as_slice());
                proof {
                    assert(key16@ =~= bytes@.take(16));
                }
                store.insert(key_uri, key16);
                let state = PipelineState::StreamingSegments {
                    segments,
                    playlist_key,
                    next,
                    phase: SegmentPhase::AwaitingBody { key: Some(KeyIv::new(pair_key, ivb)) },
                };
                (state, Action::FetchSegment { uri: seg_uri })
            },
            None => fail_state(PipelineError::Parse),
        }
    } else {
        let state = PipelineState::StreamingSegments {
            segments,
            playlist_key: clone_opt_keyiv(&playlist_key),
            next,
            phase: SegmentPhase::AwaitingBody { key: playlist_key },
        };
        (state, Action::FetchSegment { uri: seg_uri })
    }
}

} // verus!
