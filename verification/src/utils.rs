//! Filename handling: replacing characters a filesystem refuses and
//! truncating names to a byte budget without splitting a UTF-8 character.

use vstd::prelude::*;
use vstd::string::{StrSliceExecFns, StringExecFns, StringSliceAdditionalSpecFns};
use vstd::utf8::{
    decode_utf8, decode_utf8_split, encode_utf8, encode_utf8_decode_utf8, encode_utf8_valid_utf8,
    is_char_boundary_iff_not_is_continuation_byte, is_continuation_byte, utf8_byte_ranges_bitwise,
    valid_utf8,
};

verus! {

/// What each character of a filename becomes: characters that filesystems
/// refuse turn into their full-width lookalikes, whitespace control
/// characters into a space, and everything else stays.
pub open spec fn replacement_char(c: char) -> char {
    if c == '"' {
        '\u{FF02}'
    } else if c == '*' {
        '\u{FF0A}'
    } else if c == '/' {
        '\u{FF0F}'
    } else if c == ':' {
        '\u{FF1A}'
    } else if c == '<' {
        '\u{FF1C}'
    } else if c == '>' {
        '\u{FF1E}'
    } else if c == '?' {
        '\u{FF1F}'
    } else if c == '\\' {
        '\u{FF3C}'
    } else if c == '|' {
        '\u{FFE8}'
    } else if c == '\t' || c == '\n' || c == '\r' || c == '\u{0b}' || c == '\u{0c}' {
        ' '
    } else {
        c
    }
}

/// Relies on `String::push`: appends the character to the end of the string.
#[verifier::external_body]
fn push_char(s: &mut String, c: char)
    ensures
        final(s)@ == old(s)@.push(c),
{
    s.push(c);
}

/// The replacement of one character; see [`replacement_char`].
fn replace_one(c: char) -> (r: char)
    ensures
        r == replacement_char(c),
{
    match c {
        '"' => '\u{FF02}',
        '*' => '\u{FF0A}',
        '/' => '\u{FF0F}',
        ':' => '\u{FF1A}',
        '<' => '\u{FF1C}',
        '>' => '\u{FF1E}',
        '?' => '\u{FF1F}',
        '\\' => '\u{FF3C}',
        '|' => '\u{FFE8}',
        '\t' | '\n' | '\r' | '\u{0b}' | '\u{0c}' => ' ',
        _ => c,
    }
}

/// The index the truncation loop cuts at: `end`, backed up over UTF-8
/// continuation bytes to the start of the character that spans position
/// `end` (or to 0).
pub open spec fn backtrack_boundary(bytes: Seq<u8>, end: int) -> int
    recommends
        0 <= end < bytes.len(),
    decreases end,
{
    if end <= 0 {
        0
    } else if is_continuation_byte(bytes[end]) {
        backtrack_boundary(bytes, end - 1)
    } else {
        end
    }
}

/// What byte-budget truncation yields: the string itself when its UTF-8
/// bytes fit the budget, else the characters of the longest prefix of whole
/// characters within it.
pub open spec fn truncate_bytes_spec(chars: Seq<char>, max_len: int) -> Seq<char> {
    let bytes = encode_utf8(chars);
    if bytes.len() <= max_len {
        chars
    } else {
        decode_utf8(bytes.subrange(0, backtrack_boundary(bytes, max_len)))
    }
}

proof fn lemma_backtrack_fixpoint(bytes: Seq<u8>, hi: int, end: int)
    requires
        0 <= end <= hi < bytes.len(),
        forall|j: int| end < j <= hi ==> is_continuation_byte(#[trigger] bytes[j]),
        end == 0 || !is_continuation_byte(bytes[end]),
    ensures
        backtrack_boundary(bytes, hi) == end,
    decreases hi - end,
{
    if hi > end {
        lemma_backtrack_fixpoint(bytes, hi - 1, end);
    }
}

/// The index of the dot that separates a filename's extension: the last dot,
/// except a dot in the first position (a leading-dot name has no extension);
/// `-1` when there is none.
pub open spec fn last_dot_from(s: Seq<char>, i: int) -> int
    decreases i,
{
    if i <= 0 {
        -1
    } else if s[i] == '.' {
        i
    } else {
        last_dot_from(s, i - 1)
    }
}

/// See [`last_dot_from`]: the position of the extension dot, or `-1`.
pub open spec fn extension_split(s: Seq<char>) -> int {
    last_dot_from(s, s.len() - 1)
}

/// The byte budget left for a filename's stem once the extension and the
/// suffix are paid for; never negative.
pub open spec fn stem_budget(max_file_length: int, ext_bytes: int, suffix_bytes: int) -> int {
    if max_file_length >= ext_bytes + suffix_bytes {
        max_file_length - ext_bytes - suffix_bytes
    } else {
        0
    }
}

/// What [`FileNameUtils::truncate_filename`] yields: the stem truncated to
/// the budget that the suffix and the extension leave, then the suffix, then
/// the extension (with its dot).
pub open spec fn truncate_filename_spec(
    filename: Seq<char>,
    max_file_length: int,
    suffix: Seq<char>,
) -> Seq<char> {
    let di = extension_split(filename);
    let stem = if di >= 0 {
        filename.take(di)
    } else {
        filename
    };
    let ext = if di >= 0 {
        filename.skip(di)
    } else {
        Seq::<char>::empty()
    };
    let budget = stem_budget(max_file_length, encode_utf8(ext).len() as int, encode_utf8(
        suffix,
    ).len() as int);
    truncate_bytes_spec(stem, budget) + suffix + ext
}

/// Filename helpers.
pub struct FileNameUtils;

impl FileNameUtils {
    /// Replaces each character a filesystem refuses by its full-width
    /// lookalike and each whitespace control character by a space.
    pub fn replace_illegal_filename_characters(input: &str) -> (r: String)
        ensures
            r@ == input@.map_values(|c: char| replacement_char(c)),
    {
        let n = input.unicode_len();
        let mut out = String::new();
        let mut i: usize = 0;
        while i < n
            invariant
                n == input@.len(),
                i <= n,
                out@ == input@.take(i as int).map_values(|c: char| replacement_char(c)),
            decreases n - i,
        {
            let c = input.get_char(i);
            let rc = replace_one(c);
            push_char(&mut out, rc);
            proof {
                assert(input@.take(i as int + 1).map_values(|c: char| replacement_char(c))
                    =~= input@.take(i as int).map_values(|c: char| replacement_char(c)).push(
                    replacement_char(input@[i as int]),
                ));
            }
            i = i + 1;
        }
        proof {
            assert(input@.take(n as int) =~= input@);
        }
        out
    }

    /// Truncates a string to at most `max_len` UTF-8 bytes without breaking
    /// a character: the result is a prefix of the input whose encoding fits
    /// the budget (the whole input when it already fits).
    pub fn truncate_str_by_byte_len(s: &str, max_len: usize) -> (r: String)
        ensures
            r@ == truncate_bytes_spec(s@, max_len as int),
            r@ == s@.take(r@.len() as int),
            encode_utf8(r@).len() <= max_len || encode_utf8(s@).len() <= max_len,
    {
        proof {
            encode_utf8_valid_utf8(s@);
            encode_utf8_decode_utf8(s@);
        }
        let bytes = s.as_bytes();
        if bytes.len() <= max_len {
            proof {
                assert(s@.take(s@.len() as int) =~= s@);
            }
            return s.to_owned();
        }
        let ghost bv = s.spec_bytes();
        let mut end: usize = max_len;
        while end > 0 && (*vstd::slice::slice_index_get(bytes, end) & 0xC0) == 0x80
            invariant
                bytes@ == bv,
                valid_utf8(bv),
                end <= max_len < bv.len(),
                forall|j: int| end < j <= max_len ==> is_continuation_byte(#[trigger] bv[j]),
            decreases end,
        {
            proof {
                utf8_byte_ranges_bitwise(bv[end as int]);
            }
            end = end - 1;
        }
        proof {
            utf8_byte_ranges_bitwise(bv[end as int]);
            assert(end == 0 || !is_continuation_byte(bv[end as int]));
            lemma_backtrack_fixpoint(bv, max_len as int, end as int);
            if end > 0 {
                is_char_boundary_iff_not_is_continuation_byte(bv, end as int);
            }
        }
        let (prefix, _) = s.split_at(end);
        let r = prefix.to_owned();
        proof {
            let pre = bv.subrange(0, end as int);
            let suf = bv.subrange(end as int, bv.len() as int);
            encode_utf8_decode_utf8(r@);
            assert(encode_utf8(r@) == pre);
            vstd::utf8::valid_utf8_split(bv, end as int);
            assert(decode_utf8(pre) == r@) by {
                vstd::utf8::decode_utf8_encode_utf8(pre);
                encode_utf8_decode_utf8(r@);
            }
            decode_utf8_split(bv, end as int);
            assert(s@ =~= r@ + decode_utf8(suf));
            assert(r@ =~= s@.take(r@.len() as int));
        }
        r
    }

    /// Truncates a filename to the byte budget while keeping its extension
    /// and appending `suffix` between stem and extension.
    pub fn truncate_filename(filename: &str, max_file_length: usize, suffix: &str) -> (r: String)
        ensures
            r@ == truncate_filename_spec(filename@, max_file_length as int, suffix@),
    {
        let n = filename.unicode_len();
        let dot = find_extension_dot(filename);
        let (stem, ext): (&str, &str) = match dot {
            Some(di) => (filename.substring_char(0, di), filename.substring_char(di, n)),
            None => (filename, ""),
        };
        proof {
            let di = extension_split(filename@);
            if dot is Some {
                assert(stem@ =~= filename@.take(di));
                assert(ext@ =~= filename@.skip(di));
            } else {
                reveal_strlit("");
                assert(ext@ =~= Seq::<char>::empty());
            }
            vstd::utf8::encode_utf8_valid_utf8(ext@);
        }
        let ext_len = ext.as_bytes().len();
        let suffix_len = suffix.as_bytes().len();
        let budget: usize = if max_file_length >= ext_len && (max_file_length - ext_len)
            >= suffix_len {
            max_file_length - ext_len - suffix_len
        } else {
            0
        };
        proof {
            assert(budget as int == stem_budget(
                max_file_length as int,
                encode_utf8(ext@).len() as int,
                encode_utf8(suffix@).len() as int,
            ));
        }
        let truncated = Self::truncate_str_by_byte_len(stem, budget);
        let r = truncated.concat(suffix).concat(ext);
        r
    }
}

/// The position of the extension dot in a filename, scanned from the end;
/// see [`extension_split`].
fn find_extension_dot(s: &str) -> (r: Option<usize>)
    ensures
        match r {
            Some(i) => extension_split(s@) == i as int && 0 < i < s@.len(),
            None => extension_split(s@) == -1,
        },
{
    let n = s.unicode_len();
    if n == 0 {
        return None;
    }
    let mut i: usize = n - 1;
    while i > 0
        invariant
            n == s@.len(),
            0 <= i < n,
            last_dot_from(s@, n - 1) == last_dot_from(s@, i as int),
        decreases i,
    {
        if s.get_char(i) == '.' {
            return Some(i);
        }
        i = i - 1;
    }
    None
}

} // verus!
