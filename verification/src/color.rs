//! RGBA colors and their construction from `#rrggbbaa` hex strings.
//!
//! A color holds its four channels as the exact 8-bit values written in the
//! hex literal. The sRGB-to-linear conversion the GPU wants is a per-channel
//! floating-point gamma curve, so it is left to the host at the buffer
//! boundary; keeping the bytes here keeps hover tinting exactly reversible.

use vstd::prelude::*;

verus! {

/// An RGBA color, one byte per channel, in sRGB as written in a hex literal.
#[derive(Clone, Copy, Debug, PartialEq, Eq, Structural)]
pub struct Color {
    pub r: u8,
    pub g: u8,
    pub b: u8,
    pub a: u8,
}

/// True for the characters `0`-`9`, `a`-`f` and `A`-`F`.
pub open spec fn is_hex_digit(c: char) -> bool {
    ||| 48 <= c as int <= 57  // '0' ..= '9'
    ||| 97 <= c as int <= 102  // 'a' ..= 'f'
    ||| 65 <= c as int <= 70  // 'A' ..= 'F'
}

/// Value of one hex digit character.
pub open spec fn hex_digit_value(c: char) -> int {
    if 48 <= c as int <= 57 {
        c as int - 48
    } else if 97 <= c as int <= 102 {
        c as int - 87
    } else if 65 <= c as int <= 70 {
        c as int - 55
    } else {
        0
    }
}

/// A well-formed color literal: a `#` followed by exactly eight hex digits,
/// two per channel, in the order red, green, blue, alpha.
pub open spec fn valid_hex_color(s: Seq<char>) -> bool {
    &&& s.len() == 9
    &&& s[0] == '#'
    &&& is_hex_digit(s[1])
    &&& is_hex_digit(s[2])
    &&& is_hex_digit(s[3])
    &&& is_hex_digit(s[4])
    &&& is_hex_digit(s[5])
    &&& is_hex_digit(s[6])
    &&& is_hex_digit(s[7])
    &&& is_hex_digit(s[8])
}

/// Value of the channel whose two digits start at index `i`.
pub open spec fn hex_pair_value(s: Seq<char>, i: int) -> int {
    16 * hex_digit_value(s[i]) + hex_digit_value(s[i + 1])
}

/// The color a well-formed hex literal denotes.
pub open spec fn spec_from_hex(s: Seq<char>) -> Color {
    Color {
        r: hex_pair_value(s, 1) as u8,
        g: hex_pair_value(s, 3) as u8,
        b: hex_pair_value(s, 5) as u8,
        a: hex_pair_value(s, 7) as u8,
    }
}

/// True exactly when `s` is a well-formed `#rrggbbaa` color literal. A
/// malformed literal is a programmer error, so callers outside the crate are
/// expected to test with this before constructing a color.
pub fn is_valid_hex_color(s: &str) -> (b: bool)
    ensures
        b == valid_hex_color(s@),
{
    let n = s.unicode_len();
    if n != 9 {
        return false;
    }
    if s.get_char(0) != '#' {
        return false;
    }
    is_hex_digit_char(s.get_char(1)) && is_hex_digit_char(s.get_char(2)) && is_hex_digit_char(
        s.get_char(3),
    ) && is_hex_digit_char(s.get_char(4)) && is_hex_digit_char(s.get_char(5)) && is_hex_digit_char(
        s.get_char(6),
    ) && is_hex_digit_char(s.get_char(7)) && is_hex_digit_char(s.get_char(8))
}

/// Recognizes one hex digit character.
fn is_hex_digit_char(c: char) -> (b: bool)
    ensures
        b == is_hex_digit(c),
{
    let u = c as u32;
    (48 <= u && u <= 57) || (97 <= u && u <= 102) || (65 <= u && u <= 70)
}

/// Value of one hex digit character.
fn hex_digit(c: char) -> (v: u8)
    requires
        is_hex_digit(c),
    ensures
        v as int == hex_digit_value(c),
        v < 16,
{
    let u = c as u32;
    if u >= 97 {
        (u - 87) as u8
    } else if u >= 65 {
        (u - 55) as u8
    } else {
        (u - 48) as u8
    }
}

impl Color {
    pub fn new(r: u8, g: u8, b: u8, a: u8) -> (c: Color)
        ensures
            c == (Color { r, g, b, a }),
    {
        Color { r, g, b, a }
    }

    /// Parses a `#rrggbbaa` literal into its four channels. A string that is
    /// not a well-formed color literal is a configuration error and is
    /// excluded up front rather than silently defaulted.
    pub fn from_hex(hex_color: &str) -> (c: Color)
        requires
            valid_hex_color(hex_color@),
        ensures
            c == spec_from_hex(hex_color@),
    {
        let r = 16 * hex_digit(hex_color.get_char(1)) + hex_digit(hex_color.get_char(2));
        let g = 16 * hex_digit(hex_color.get_char(3)) + hex_digit(hex_color.get_char(4));
        let b = 16 * hex_digit(hex_color.get_char(5)) + hex_digit(hex_color.get_char(6));
        let a = 16 * hex_digit(hex_color.get_char(7)) + hex_digit(hex_color.get_char(8));
        Color { r, g, b, a }
    }
}

} // verus!
