//! The playlist data model and its parser.
//!
//! A playlist is either a variant (master) playlist — a bitrate ladder of
//! alternative encodings — or a media playlist, the ordered segments of one
//! encoding.  The grammar itself is handled by the `m3u8_rs` crate behind
//! trusted wrappers; everything downstream of the parse works on the plain
//! model types of this module and is verified.

use vstd::prelude::*;

verus! {

/// The declared encryption method of a key tag.  Only AES-128 is supported;
/// every other method (including an explicit `NONE`) means pass-through.
#[derive(Clone, Copy, Debug, PartialEq, Eq, Structural)]
pub enum KeyMethod {
    Aes128,
    Other,
}

/// A key tag: method, optional key URI, optional IV string.
pub struct KeyTag {
    pub method: KeyMethod,
    pub uri: Option<String>,
    pub iv: Option<String>,
}

/// One media segment: its fetch URI and the key tag in force for it.
pub struct Segment {
    pub uri: String,
    pub key: Option<KeyTag>,
}

/// One entry of a variant playlist: the nested playlist's URI, the declared
/// bandwidth, and the declared resolution when present.
pub struct Variant {
    pub uri: String,
    pub bandwidth: u64,
    pub resolution: Option<(u64, u64)>,
}

/// Mathematical value of a [`KeyTag`].
pub struct KeyTagV {
    pub method: KeyMethod,
    pub uri: Option<Seq<char>>,
    pub iv: Option<Seq<char>>,
}

/// Mathematical value of a [`Segment`].
pub struct SegmentV {
    pub uri: Seq<char>,
    pub key: Option<KeyTagV>,
}

/// Mathematical value of a [`Variant`].
pub struct VariantV {
    pub uri: Seq<char>,
    pub bandwidth: u64,
    pub resolution: Option<(u64, u64)>,
}

impl View for KeyTag {
    type V = KeyTagV;

    open spec fn view(&self) -> KeyTagV {
        KeyTagV { method: self.method, uri: self.uri.deep_view(), iv: self.iv.deep_view() }
    }
}

impl DeepView for KeyTag {
    type V = KeyTagV;

    open spec fn deep_view(&self) -> KeyTagV {
        self.view()
    }
}

impl View for Segment {
    type V = SegmentV;

    open spec fn view(&self) -> SegmentV {
        SegmentV { uri: self.uri@, key: self.key.deep_view() }
    }
}

impl DeepView for Segment {
    type V = SegmentV;

    open spec fn deep_view(&self) -> SegmentV {
        self.view()
    }
}

impl View for Variant {
    type V = VariantV;

    open spec fn view(&self) -> VariantV {
        VariantV { uri: self.uri@, bandwidth: self.bandwidth, resolution: self.resolution }
    }
}

impl DeepView for Variant {
    type V = VariantV;

    open spec fn deep_view(&self) -> VariantV {
        self.view()
    }
}

/// Whether a playlist body carries a variant (master) playlist tag rather
/// than media playlist tags; a function of the bytes alone.
pub uninterp spec fn is_master_of(bytes: Seq<u8>) -> bool;

/// The variants a master playlist body declares, in declaration order, or
/// `None` when the body does not parse as a master playlist.
pub uninterp spec fn master_playlist_of(bytes: Seq<u8>) -> Option<Seq<VariantV>>;

/// The segments a media playlist body declares, in declaration order — each
/// carrying the key tag in force for it — or `None` when the body does not
/// parse as a media playlist.
pub uninterp spec fn media_playlist_of(bytes: Seq<u8>) -> Option<Seq<SegmentV>>;

/// Relies on `m3u8_rs::is_master_playlist`: scans the body for a master or a
/// media tag; the answer depends on the bytes alone.
#[verifier::external_body]
pub fn is_master_playlist(bytes: &Vec<u8>) -> (r: bool)
    ensures
        r == is_master_of(bytes@),
{
    m3u8_rs::is_master_playlist(bytes.as_slice())
}

/// Relies on `m3u8_rs::parse_master_playlist_res`: parses the body as a
/// master playlist; the result depends on the bytes alone.
#[verifier::external_body]
pub fn parse_master_playlist(bytes: &Vec<u8>) -> (r: Option<Vec<Variant>>)
    ensures
        r.deep_view() == master_playlist_of(bytes@),
{
    match m3u8_rs::parse_master_playlist_res(bytes.as_slice()) {
        Ok(mp) => Some(mp.variants.into_iter().map(|v| Variant {
            uri: v.uri,
            bandwidth: v.bandwidth,
            resolution: v.resolution.map(|r| (r.width, r.height)),
        }).collect()),
        Err(_) => None,
    }
}

/// Relies on `m3u8_rs::parse_media_playlist_res`: parses the body as a media
/// playlist; the result depends on the bytes alone.  `m3u8_rs` attaches a key
/// tag to the segment that follows it, so a segment without a tag of its own
/// falls back to the playlist-level key established from the first segment.
#[verifier::external_body]
pub fn parse_media_playlist(bytes: &Vec<u8>) -> (r: Option<Vec<Segment>>)
    ensures
        r.deep_view() == media_playlist_of(bytes@),
{
    match m3u8_rs::parse_media_playlist_res(bytes.as_slice()) {
        Ok(mp) => Some(mp.segments.into_iter().map(|s| Segment {
            uri: s.uri,
            key: s.key.map(|k| KeyTag {
                method: match k.method {
                    m3u8_rs::KeyMethod::AES128 => KeyMethod::Aes128,
                    _ => KeyMethod::Other,
                },
                uri: k.uri,
                iv: k.iv,
            }),
        }).collect()),
        Err(_) => None,
    }
}

/// `i` indexes the first variant of maximal bandwidth: nothing is larger,
/// and everything before it is strictly smaller.
pub open spec fn is_first_max(vs: Seq<VariantV>, i: int) -> bool {
    &&& 0 <= i < vs.len()
    &&& forall|j: int| 0 <= j < vs.len() ==> (#[trigger] vs[j].bandwidth) <= vs[i].bandwidth
    &&& forall|j: int| 0 <= j < i ==> (#[trigger] vs[j].bandwidth) < vs[i].bandwidth
}

/// Selects the variant with the maximal declared bandwidth; ties resolve to
/// the first-seen maximum.  `None` only for an empty ladder.
pub fn select_variant(variants: &Vec<Variant>) -> (r: Option<usize>)
    ensures
        match r {
            Some(i) => is_first_max(variants.deep_view(), i as int),
            None => variants@.len() == 0,
        },
{
    if variants.len() == 0 {
        return None;
    }
    let ghost vs = variants.deep_view();
    proof {
        assert(vs.len() == variants@.len());
        assert(forall|j: int|
            0 <= j < variants@.len() ==> (#[trigger] vs[j]).bandwidth
                == variants@[j].bandwidth);
    }
    let mut best: usize = 0;
    let mut i: usize = 1;
    while i < variants.len()
        invariant
            vs == variants.deep_view(),
            vs.len() == variants@.len(),
            forall|j: int|
                0 <= j < variants@.len() ==> (#[trigger] vs[j]).bandwidth
                    == variants@[j].bandwidth,
            0 < i <= variants@.len(),
            best < i,
            forall|j: int| 0 <= j < i ==> (#[trigger] vs[j].bandwidth) <= vs[best as int].bandwidth,
            forall|j: int| 0 <= j < best ==> (#[trigger] vs[j].bandwidth) < vs[best as int].bandwidth,
        decreases variants@.len() - i,
    {
        if variants[i].bandwidth > variants[best].bandwidth {
            best = i;
        }
        i = i + 1;
    }
    Some(best)
}

/// The index [`select_variant`] computes, as a function on sequences: the
/// position of the first variant of maximal bandwidth.
pub open spec fn first_max_index(vs: Seq<VariantV>) -> int
    recommends
        vs.len() > 0,
    decreases vs.len(),
{
    if vs.len() <= 1 {
        0
    } else {
        let j = first_max_index(vs.drop_last());
        if vs.last().bandwidth > vs[j].bandwidth {
            vs.len() - 1
        } else {
            j
        }
    }
}

/// [`first_max_index`] indeed names the first maximum.
pub proof fn lemma_first_max_index_is_first_max(vs: Seq<VariantV>)
    requires
        vs.len() > 0,
    ensures
        is_first_max(vs, first_max_index(vs)),
    decreases vs.len(),
{
    if vs.len() > 1 {
        let prefix = vs.drop_last();
        lemma_first_max_index_is_first_max(prefix);
        let j = first_max_index(prefix);
        assert(forall|k: int| 0 <= k < prefix.len() ==> prefix[k] == vs[k]);
        assert(vs.last() == vs[vs.len() - 1]);
    }
}

/// The first maximum is unique: two indices that both satisfy
/// [`is_first_max`] coincide.
pub proof fn lemma_first_max_unique(vs: Seq<VariantV>, i: int, j: int)
    requires
        is_first_max(vs, i),
        is_first_max(vs, j),
    ensures
        i == j,
{
    if i < j {
        assert(vs[i].bandwidth < vs[j].bandwidth);
        assert(vs[j].bandwidth <= vs[i].bandwidth);
    }
    if j < i {
        assert(vs[j].bandwidth < vs[i].bandwidth);
        assert(vs[i].bandwidth <= vs[j].bandwidth);
    }
}

} // verus!
