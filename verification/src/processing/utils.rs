//! Small parsers shared by the option groups.

use crate::text::chars_of;
use vstd::prelude::*;

verus! {

/// Why a colour was refused.
#[derive(Debug, Clone, Copy, PartialEq, Eq, Structural)]
pub enum ColorParseError {
    /// Not six hexadecimal digits.
    InvalidLength,
    /// A pair that is not a hexadecimal byte.
    InvalidHex,
}

pub open spec fn is_hex(c: char) -> bool {
    ('0' <= c && c <= '9') || ('a' <= c && c <= 'f') || ('A' <= c && c <= 'F')
}

pub open spec fn hex_val(c: char) -> nat {
    if '0' <= c && c <= '9' {
        ((c as u32) - ('0' as u32)) as nat
    } else if 'a' <= c && c <= 'f' {
        ((c as u32) - ('a' as u32) + 10) as nat
    } else {
        ((c as u32) - ('A' as u32) + 10) as nat
    }
}

/// What `u8::from_str_radix(pair, 16)` gives for a two-character pair: two hex
/// digits, or a `+` sign and one.
pub open spec fn hex_pair(a: char, b: char) -> Option<nat> {
    if is_hex(a) && is_hex(b) {
        Some(hex_val(a) * 16 + hex_val(b))
    } else if a == '+' && is_hex(b) {
        Some(hex_val(b))
    } else {
        None
    }
}

/// The colour `#rrggbb` (any number of leading `#`) names, fully opaque.
pub open spec fn hex_color(s: Seq<char>) -> Result<Seq<u8>, ColorParseError> {
    let h = crate::text::trim_char_start(s, '#');
    if h.len() != 6 || !crate::text::is_ascii_seq(h) {
        Err(
            if crate::text::is_ascii_seq(h) {
                ColorParseError::InvalidLength
            } else {
                ColorParseError::InvalidHex
            },
        )
    } else {
        match (hex_pair(h[0], h[1]), hex_pair(h[2], h[3]), hex_pair(h[4], h[5])) {
            (Some(r), Some(g), Some(b)) => Ok(seq![r as u8, g as u8, b as u8, 255u8]),
            _ => Err(ColorParseError::InvalidHex),
        }
    }
}

fn hex_digit(c: char) -> (r: Option<u8>)
    ensures
        match r {
            Some(v) => is_hex(c) && v == hex_val(c) && v < 16,
            None => !is_hex(c),
        },
{
    if '0' <= c && c <= '9' {
        Some(((c as u32) - ('0' as u32)) as u8)
    } else if 'a' <= c && c <= 'f' {
        Some(((c as u32) - ('a' as u32) + 10) as u8)
    } else if 'A' <= c && c <= 'F' {
        Some(((c as u32) - ('A' as u32) + 10) as u8)
    } else {
        None
    }
}

fn parse_pair(a: char, b: char) -> (r: Option<u8>)
    ensures
        match hex_pair(a, b) {
            Some(v) => r == Some(v as u8) && v < 256,
            None => r is None,
        },
{
    match (hex_digit(a), hex_digit(b)) {
        (Some(x), Some(y)) => Some(x * 16 + y),
        (None, Some(y)) => if a == '+' {
            Some(y)
        } else {
            None
        },
        _ => None,
    }
}

/// Parses a hexadecimal colour into RGBA.
pub fn parse_hex_color(hex: &str) -> (r: Result<[u8; 4], ColorParseError>)
    ensures
        match hex_color(hex@) {
            Ok(c) => r matches Ok(a) && a@ == c,
            Err(e) => r == Err::<[u8; 4], _>(e),
        },
{
    let v = chars_of(hex);
    let mut i: usize = 0;
    assert(v@.skip(0) =~= v@);
    while i < v.len() && v[i] == '#'
        invariant
            i <= v@.len(),
            crate::text::trim_char_start(v@, '#') == crate::text::trim_char_start(
                v@.skip(i as int),
                '#',
            ),
        decreases v@.len() - i,
    {
        assert(v@.skip(i as int).drop_first() =~= v@.skip(i + 1));
        i = i + 1;
    }
    let h = crate::text::slice_chars(v.as_slice(), i, v.len());
    assert(h@ =~= v@.skip(i as int));
    assert(crate::text::trim_char_start(h@, '#') == h@);
    let mut ascii = true;
    let mut j: usize = 0;
    while j < h.len()
        invariant
            j <= h@.len(),
            ascii == (forall|k: int| 0 <= k < j ==> (h@[k] as u32) < 128),
        decreases h@.len() - j,
    {
        if (h[j] as u32) >= 128 {
            ascii = false;
        }
        j = j + 1;
    }
    if h.len() != 6 || !ascii {
        return Err(
            if ascii {
                ColorParseError::InvalidLength
            } else {
                ColorParseError::InvalidHex
            },
        );
    }
    match (parse_pair(h[0], h[1]), parse_pair(h[2], h[3]), parse_pair(h[4], h[5])) {
        (Some(r), Some(g), Some(b)) => {
            let a = [r, g, b, 255u8];
            assert(a@ =~= seq![r, g, b, 255u8]);
            Ok(a)
        },
        _ => Err(ColorParseError::InvalidHex),
    }
}

/// Whether an option argument says "yes": exactly `1` or `true`.
pub open spec fn is_true(s: Seq<char>) -> bool {
    s == "1"@ || s == "true"@
}

/// Parses a boolean option argument.
pub fn parse_boolean(s: &str) -> (r: bool)
    ensures
        r == is_true(s@),
{
    let v = chars_of(s);
    is_true_chars(v.as_slice())
}

/// Whether the characters say "yes".
pub fn is_true_chars(v: &[char]) -> (r: bool)
    ensures
        r == is_true(v@),
{
    crate::text::is(v, "1") || crate::text::is(v, "true")
}

/// Whether the dimensions are taller than wide.
pub fn is_portrait(width: u32, height: u32) -> (r: bool)
    ensures
        r == (height > width),
{
    height > width
}

} // verus!
