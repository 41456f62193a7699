//! WCAG color handling: an sRGB color value type with construction,
//! hex-string parsing, and channel accessors.

use vstd::prelude::*;

verus! {

/// The error returned when a hex color string cannot be parsed.
#[derive(Debug, Clone, Copy, PartialEq, Eq, Structural)]
pub enum ColorError {
    /// The input is too short to hold `#RRGGBB`, or one of its three
    /// two-character channel fields is not hexadecimal.
    InvalidColorFormat,
}

/// True when `c` is an ASCII hexadecimal digit, in either case.
pub open spec fn is_hex_digit(c: char) -> bool {
    ('0' as u32 <= c as u32 && c as u32 <= '9' as u32) || ('a' as u32 <= c as u32 && c as u32
        <= 'f' as u32) || ('A' as u32 <= c as u32 && c as u32 <= 'F' as u32)
}

/// The numeric value of the hexadecimal digit `c`, in `[0, 16)` when
/// `is_hex_digit(c)` holds.
pub open spec fn hex_digit_value(c: char) -> int {
    if '0' as u32 <= c as u32 && c as u32 <= '9' as u32 {
        c as u32 - '0' as u32
    } else if 'a' as u32 <= c as u32 && c as u32 <= 'f' as u32 {
        c as u32 - 'a' as u32 + 10
    } else {
        c as u32 - 'A' as u32 + 10
    }
}

/// The byte written as the two hexadecimal digits `hi` then `lo`.
pub open spec fn hex_pair_value(hi: char, lo: char) -> int {
    16 * hex_digit_value(hi) + hex_digit_value(lo)
}

/// True when `s` is long enough to hold `#RRGGBB` and its six channel
/// characters are hexadecimal digits. The leading character and anything
/// past the seventh are not inspected.
pub open spec fn hex_color_ok(s: Seq<char>) -> bool {
    s.len() >= 7 && is_hex_digit(s[1]) && is_hex_digit(s[2]) && is_hex_digit(s[3]) && is_hex_digit(
        s[4],
    ) && is_hex_digit(s[5]) && is_hex_digit(s[6])
}

/// The color written in `s` as `#RRGGBB`, meaningful when
/// `hex_color_ok(s)` holds.
pub open spec fn spec_from_hex(s: Seq<char>) -> Color {
    Color {
        r: hex_pair_value(s[1], s[2]) as u8,
        g: hex_pair_value(s[3], s[4]) as u8,
        b: hex_pair_value(s[5], s[6]) as u8,
    }
}

/// Parses one ASCII hexadecimal digit, in either case.
fn hex_digit(c: char) -> (r: Option<u8>)
    ensures
        r is Some <==> is_hex_digit(c),
        r is Some ==> r->0 == hex_digit_value(c),
{
    let v = c as u32;
    if '0' as u32 <= v && v <= '9' as u32 {
        Some((v - '0' as u32) as u8)
    } else if 'a' as u32 <= v && v <= 'f' as u32 {
        Some((v - 'a' as u32 + 10) as u8)
    } else if 'A' as u32 <= v && v <= 'F' as u32 {
        Some((v - 'A' as u32 + 10) as u8)
    } else {
        None
    }
}

/// Parses the byte written as the two hexadecimal digits `hi` then `lo`.
fn hex_pair(hi: char, lo: char) -> (r: Option<u8>)
    ensures
        r is Some <==> is_hex_digit(hi) && is_hex_digit(lo),
        r is Some ==> r->0 == hex_pair_value(hi, lo),
{
    match (hex_digit(hi), hex_digit(lo)) {
        (Some(h), Some(l)) => Some(16 * h + l),
        _ => None,
    }
}

/// A color with red, green and blue channels, each an 8-bit sRGB intensity.
#[derive(Debug, Clone, Copy, PartialEq, Eq, Structural, PartialOrd)]
pub struct Color {
    pub r: u8,
    pub g: u8,
    pub b: u8,
}

impl Color {
    /// The channel triple `(r, g, b)` of a color, as specifications see it.
    pub open spec fn spec_rgb(&self) -> (u8, u8, u8) {
        (self.r, self.g, self.b)
    }

    /// Creates a new [`Color`] from its three channels.
    pub fn new(r: u8, g: u8, b: u8) -> (c: Self)
        ensures
            c == (Color { r, g, b }),
    {
        Color { r, g, b }
    }

    /// Returns the `(red, green, blue)` channel triple of the color.
    pub fn rgb(&self) -> (t: (u8, u8, u8))
        ensures
            t == self.spec_rgb(),
    {
        (self.r, self.g, self.b)
    }

    /// The color built from a channel triple, as specifications see it.
    pub open spec fn spec_from_rgb_tuple(t: (u8, u8, u8)) -> Color {
        Color { r: t.0, g: t.1, b: t.2 }
    }

    /// Parses a color written as `#RRGGBB`, with hexadecimal digits of
    /// either case. The characters at positions 1 to 6 are read as the
    /// red, green and blue channel pairs; the leading character and any
    /// trailing characters are not inspected. Inputs shorter than seven
    /// characters, and inputs whose channel fields are not hexadecimal,
    /// are rejected.
    pub fn from_hex(s: &str) -> (res: Result<Self, ColorError>)
        ensures
            hex_color_ok(s@) ==> res == Ok::<Color, ColorError>(spec_from_hex(s@)),
            !hex_color_ok(s@) ==> res == Err::<Color, ColorError>(ColorError::InvalidColorFormat),
    {
        if s.unicode_len() < 7 {
            return Err(ColorError::InvalidColorFormat);
        }
        let r = hex_pair(s.get_char(1), s.get_char(2));
        let g = hex_pair(s.get_char(3), s.get_char(4));
        let b = hex_pair(s.get_char(5), s.get_char(6));
        match (r, g, b) {
            (Some(r), Some(g), Some(b)) => Ok(Color { r, g, b }),
            _ => Err(ColorError::InvalidColorFormat),
        }
    }

    /// Creates a [`Color`] from a `(red, green, blue)` channel triple.
    pub fn from_rgb_tuple(t: (u8, u8, u8)) -> (c: Self)
        ensures
            c == Self::spec_from_rgb_tuple(t),
    {
        Color { r: t.0, g: t.1, b: t.2 }
    }
}

/// Building a color from its own channel triple gives the color back:
/// `Color::from_rgb_tuple(c.rgb()) == c` for every color `c`.
pub proof fn lemma_rgb_round_trip(c: Color)
    ensures
        Color::spec_from_rgb_tuple(c.spec_rgb()) == c,
{
}

impl core::str::FromStr for Color {
    type Err = ColorError;

    fn from_str(s: &str) -> Result<Self, Self::Err> {
        Color::from_hex(s)
    }
}

impl From<(u8, u8, u8)> for Color {
    fn from(t: (u8, u8, u8)) -> (c: Color)
        ensures
            c == Color::spec_from_rgb_tuple(t),
    {
        Color::from_rgb_tuple(t)
    }
}

impl vstd::std_specs::convert::FromSpecImpl<(u8, u8, u8)> for Color {
    open spec fn obeys_from_spec() -> bool {
        true
    }

    open spec fn from_spec(t: (u8, u8, u8)) -> Color {
        Color::spec_from_rgb_tuple(t)
    }
}

} // verus!
