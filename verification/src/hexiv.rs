//! Hexadecimal decoding and AES initialization vectors.
//!
//! An IV is 16 bytes, written in a playlist as a hex string with an optional
//! `0x` prefix; a segment or playlist key tag that omits the IV gets sixteen
//! zero bytes instead.

use vstd::prelude::*;

verus! {

/// True for the characters `0-9`, `a-f` and `A-F`.
pub open spec fn is_hex_digit(c: char) -> bool {
    ('0' <= c && c <= '9') || ('a' <= c && c <= 'f') || ('A' <= c && c <= 'F')
}

/// Numeric value of one hex digit.
pub open spec fn hex_val(c: char) -> u8
    recommends
        is_hex_digit(c),
{
    if '0' <= c && c <= '9' {
        (c as u32 - '0' as u32) as u8
    } else if 'a' <= c && c <= 'f' {
        (c as u32 - 'a' as u32 + 10) as u8
    } else {
        (c as u32 - 'A' as u32 + 10) as u8
    }
}

/// True when `s` is a well-formed hex string: even length, hex digits only.
pub open spec fn is_hex_string(s: Seq<char>) -> bool {
    s.len() % 2 == 0 && (forall|i: int| 0 <= i < s.len() ==> is_hex_digit(#[trigger] s[i]))
}

/// The byte written as the two hex digits `hi` `lo`.
pub open spec fn hex_byte(hi: char, lo: char) -> u8
    recommends
        is_hex_digit(hi),
        is_hex_digit(lo),
{
    (hex_val(hi) * 16 + hex_val(lo)) as u8
}

/// The bytes a hex string denotes, or `None` when it is not well formed.
pub open spec fn hex_decode_spec(s: Seq<char>) -> Option<Seq<u8>> {
    if is_hex_string(s) {
        Some(Seq::new((s.len() / 2) as nat, |i: int| hex_byte(s[2 * i], s[2 * i + 1])))
    } else {
        None
    }
}

/// `s` with one leading `0x` removed, when present.
pub open spec fn strip_hex_prefix(s: Seq<char>) -> Seq<char> {
    if s.len() >= 2 && s[0] == '0' && s[1] == 'x' {
        s.skip(2)
    } else {
        s
    }
}

/// The 16-byte IV an IV attribute string denotes: its hex digits after an
/// optional `0x` prefix, provided they spell exactly 16 bytes.
pub open spec fn parse_iv_spec(s: Seq<char>) -> Option<Seq<u8>> {
    match hex_decode_spec(strip_hex_prefix(s)) {
        Some(b) => if b.len() == 16 {
            Some(b)
        } else {
            None
        },
        None => None,
    }
}

/// The all-zero IV used when a key tag carries none.
pub open spec fn zero_iv() -> Seq<u8> {
    Seq::new(16, |i: int| 0u8)
}

/// Numeric value of one hex digit, or `None` for any other character.
fn hex_digit_value(c: char) -> (r: Option<u8>)
    ensures
        match r {
            Some(v) => is_hex_digit(c) && v == hex_val(c),
            None => !is_hex_digit(c),
        },
{
    let u = c as u32;
    if '0' as u32 <= u && u <= '9' as u32 {
        Some((u - '0' as u32) as u8)
    } else if 'a' as u32 <= u && u <= 'f' as u32 {
        Some((u - 'a' as u32 + 10) as u8)
    } else if 'A' as u32 <= u && u <= 'F' as u32 {
        Some((u - 'A' as u32 + 10) as u8)
    } else {
        None
    }
}

/// Decodes a hex string to its bytes; `None` when the length is odd or a
/// character is not a hex digit.
pub fn hex_decode(s: &str) -> (r: Option<Vec<u8>>)
    ensures
        match r {
            Some(v) => hex_decode_spec(s@) == Some(v@),
            None => hex_decode_spec(s@) is None,
        },
{
    let n = s.unicode_len();
    if n % 2 != 0 {
        return None;
    }
    let mut out: Vec<u8> = Vec::new();
    let mut i: usize = 0;
    while i < n
        invariant
            n == s@.len(),
            n % 2 == 0,
            i % 2 == 0,
            i <= n,
            out@.len() == i / 2,
            forall|j: int| 0 <= j < i ==> is_hex_digit(#[trigger] s@[j]),
            forall|j: int| 0 <= j < i / 2 ==> out@[j] == hex_byte(s@[2 * j], s@[2 * j + 1]),
        decreases n - i,
    {
        let hi = s.get_char(i);
        let lo = s.get_char(i + 1);
        match (hex_digit_value(hi), hex_digit_value(lo)) {
            (Some(h), Some(l)) => {
                out.push(h * 16 + l);
            },
            _ => {
                return None;
            },
        }
        i = i + 2;
    }
    proof {
        assert(is_hex_string(s@));
        assert(out@ =~= hex_decode_spec(s@)->Some_0);
    }
    Some(out)
}

/// Parses an IV attribute string (optional `0x` prefix, then 32 hex digits)
/// into its 16 bytes; `None` when the string is not of that shape.
pub fn parse_iv(hex_iv: &str) -> (r: Option<Vec<u8>>)
    ensures
        match r {
            Some(v) => parse_iv_spec(hex_iv@) == Some(v@) && v@.len() == 16,
            None => parse_iv_spec(hex_iv@) is None,
        },
{
    let n = hex_iv.unicode_len();
    let digits: &str = if n >= 2 && hex_iv.get_char(0) == '0' && hex_iv.get_char(1) == 'x' {
        hex_iv.substring_char(2, n)
    } else {
        hex_iv
    };
    proof {
        assert(digits@ =~= strip_hex_prefix(hex_iv@));
    }
    match hex_decode(digits) {
        Some(v) => {
            if v.len() == 16 {
                Some(v)
            } else {
                None
            }
        },
        None => None,
    }
}

/// Builds the sixteen zero bytes of the default IV.
pub fn make_zero_iv() -> (r: Vec<u8>)
    ensures
        r@ == zero_iv(),
{
    let mut out: Vec<u8> = Vec::new();
    let mut i: usize = 0;
    while i < 16
        invariant
            i <= 16,
            out@.len() == i,
            forall|j: int| 0 <= j < i ==> out@[j] == 0u8,
        decreases 16 - i,
    {
        out.push(0u8);
        i = i + 1;
    }
    proof {
        assert(out@ =~= zero_iv());
    }
    out
}

/// A `0x` prefix is immaterial: a string of hex digits and the same string
/// behind `0x` parse to the identical IV.
pub proof fn lemma_iv_prefix_immaterial(s: Seq<char>)
    requires
        forall|i: int| 0 <= i < s.len() ==> is_hex_digit(#[trigger] s[i]),
    ensures
        parse_iv_spec(seq!['0', 'x'] + s) == parse_iv_spec(s),
{
    let p = seq!['0', 'x'] + s;
    assert(!is_hex_digit('x'));
    assert(p[0] == '0' && p[1] == 'x');
    assert(p.skip(2) =~= s);
    if s.len() >= 2 {
        assert(is_hex_digit(s[1]));
        assert(s[1] != 'x');
    }
    assert(strip_hex_prefix(p) == s);
    assert(strip_hex_prefix(s) == s);
}

} // verus!
