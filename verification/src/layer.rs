//! Decoding of a map's tile layer and colors: the layer data arrives as
//! base64-wrapped zlib-compressed little-endian 32-bit tile ids, of which
//! only the low byte matters; the background color as a `#RRGGBB` text.

use vstd::prelude::*;

verus! {

/// What `base64::decode` returns for a text: a function of the text alone.
pub uninterp spec fn base64_decoding(s: Seq<char>) -> Option<Seq<u8>>;

/// What `inflate::inflate_bytes_zlib` returns for a byte string: a function
/// of the bytes alone.
pub uninterp spec fn zlib_inflating(data: Seq<u8>) -> Option<Seq<u8>>;

/// Relies on `base64::decode`: standard-alphabet base64 decoding, `Err` on
/// malformed input; the result depends on the text alone.
#[verifier::external_body]
fn base64_decode(s: &str) -> (r: Option<Vec<u8>>)
    ensures
        match r {
            Some(v) => base64_decoding(s@) == Some(v@),
            None => base64_decoding(s@) is None,
        },
{
    base64::decode(s).ok()
}

/// Relies on `inflate::inflate_bytes_zlib`: zlib decompression including
/// the checksum, `Err` on corrupt streams; the result depends on the bytes
/// alone.
#[verifier::external_body]
fn inflate_zlib(data: &Vec<u8>) -> (r: Option<Vec<u8>>)
    ensures
        match r {
            Some(v) => zlib_inflating(data@) == Some(v@),
            None => zlib_inflating(data@) is None,
        },
{
    inflate::inflate_bytes_zlib(data).ok()
}

/// Keeps every fourth byte, starting with the first: the low byte of each
/// little-endian 32-bit tile id.
pub fn extract_tile_bytes(deflated: &Vec<u8>) -> (r: Vec<u8>)
    ensures
        r@.len() == (deflated@.len() + 3) / 4,
        forall|j: int| 0 <= j < r@.len() ==> r@[j] == deflated@[4 * j],
{
    let mut tiles: Vec<u8> = Vec::new();
    let len = deflated.len();
    let mut i: usize = 0;
    while i < len
        invariant
            i <= len == deflated@.len(),
            tiles@.len() == (i + 3) / 4,
            i % 4 == 0 || i >= len,
            forall|j: int| 0 <= j < tiles@.len() ==> tiles@[j] == deflated@[4 * j],
        decreases len - i,
    {
        proof {
            assert(4 * ((i + 3) / 4) == i) by (nonlinear_arith)
                requires
                    i % 4 == 0,
            ;
        }
        tiles.push(deflated[i]);
        proof {
            assert((i + 4 + 3) / 4 == (i + 3) / 4 + 1) by (nonlinear_arith)
                requires
                    i % 4 == 0,
            ;
            assert((i + 4) % 4 == 0) by (nonlinear_arith)
                requires
                    i % 4 == 0,
            ;
        }
        if len - i <= 4 {
            proof {
                assert((len + 3) / 4 == (i + 3) / 4 + 1) by (nonlinear_arith)
                    requires
                        i % 4 == 0,
                        i < len,
                        len - i <= 4,
                ;
            }
            i = len;
        } else {
            i = i + 4;
        }
    }
    tiles
}

/// Decodes a map layer's character data: base64, then zlib, then the low
/// byte of each 32-bit tile id.  `None` exactly when the text is not valid
/// base64 or the decoded bytes are not a valid zlib stream.
pub fn decode_layer_data(text: &str) -> (r: Option<Vec<u8>>)
    ensures
        match r {
            Some(v) => {
                &&& base64_decoding(text@) matches Some(b) && zlib_inflating(b) matches Some(f)
                    && v@.len() == (f.len() + 3) / 4 && (forall|j: int|
                    0 <= j < v@.len() ==> v@[j] == f[4 * j])
            },
            None => {
                ||| base64_decoding(text@) is None
                ||| zlib_inflating(base64_decoding(text@).unwrap()) is None
            },
        },
{
    let inflated = match base64_decode(text) {
        Some(v) => v,
        None => {
            return None;
        },
    };
    let deflated = match inflate_zlib(&inflated) {
        Some(v) => v,
        None => {
            return None;
        },
    };
    Some(extract_tile_bytes(&deflated))
}

/// An ASCII hexadecimal digit, either case.
pub open spec fn is_hex_digit(c: char) -> bool {
    ||| '0' <= c <= '9'
    ||| 'a' <= c <= 'f'
    ||| 'A' <= c <= 'F'
}

/// The value of one hexadecimal digit.
pub open spec fn hex_val(c: char) -> int {
    if '0' <= c <= '9' {
        c as u32 - 48
    } else if 'a' <= c <= 'f' {
        c as u32 - 87
    } else {
        c as u32 - 55
    }
}

/// The byte written by two hexadecimal digits.
pub open spec fn hex_byte(hi: char, lo: char) -> int {
    16 * hex_val(hi) + hex_val(lo)
}

/// A background color text: `#` then six hexadecimal digits.
pub open spec fn valid_color_text(s: Seq<char>) -> bool {
    &&& s.len() == 7
    &&& s[0] == '#'
    &&& forall|i: int| 1 <= i < 7 ==> is_hex_digit(#[trigger] s[i])
}

/// The value of one hexadecimal digit character, or `None` for any other
/// character.
fn hex_digit_value(c: char) -> (r: Option<u8>)
    ensures
        r is Some <==> is_hex_digit(c),
        r is Some ==> r.unwrap() == hex_val(c),
{
    let v = c as u32;
    if v >= 48 && v <= 57 {
        Some((v - 48) as u8)
    } else if v >= 97 && v <= 102 {
        Some((v - 87) as u8)
    } else if v >= 65 && v <= 70 {
        Some((v - 55) as u8)
    } else {
        None
    }
}

/// Parses a `#RRGGBB` background color into its red, green and blue bytes;
/// `None` exactly on any other shape of text.
pub fn parse_color(s: &str) -> (r: Option<(u8, u8, u8)>)
    ensures
        r is Some <==> valid_color_text(s@),
        r is Some ==> ({
            &&& r.unwrap().0 == hex_byte(s@[1], s@[2])
            &&& r.unwrap().1 == hex_byte(s@[3], s@[4])
            &&& r.unwrap().2 == hex_byte(s@[5], s@[6])
        }),
{
    if s.unicode_len() != 7 {
        return None;
    }
    if s.get_char(0) != '#' {
        return None;
    }
    let d1 = hex_digit_value(s.get_char(1));
    let d2 = hex_digit_value(s.get_char(2));
    let d3 = hex_digit_value(s.get_char(3));
    let d4 = hex_digit_value(s.get_char(4));
    let d5 = hex_digit_value(s.get_char(5));
    let d6 = hex_digit_value(s.get_char(6));
    match (d1, d2, d3, d4, d5, d6) {
        (Some(h1), Some(l1), Some(h2), Some(l2), Some(h3), Some(l3)) => Some(
            (16 * h1 + l1, 16 * h2 + l2, 16 * h3 + l3),
        ),
        _ => None,
    }
}

} // verus!
