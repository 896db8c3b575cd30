//! Hexadecimal colours.
//!
//! A colour is written as six or eight hexadecimal digits, `RRGGBB` or
//! `RRGGBBAA`, after an optional leading `#`. The six-digit form is opaque.

use vstd::prelude::*;
use vstd::string::StringSliceAdditionalSpecFns;

verus! {

/// A colour with eight bits for each of red, green, blue and opacity.
#[derive(Clone, Copy, Debug, PartialEq, Eq, Structural)]
pub struct Rgba8 {
    pub r: u8,
    pub g: u8,
    pub b: u8,
    pub a: u8,
}

/// Why a string is no colour.
#[derive(Clone, Copy, Debug, PartialEq, Eq, Structural)]
pub enum ColorParseError {
    /// It has neither six nor eight characters after the optional `#`.
    Length,
    /// The first pair of characters is not two hexadecimal digits.
    Red,
    /// The second pair is not.
    Green,
    /// The third pair is not.
    Blue,
    /// The fourth pair, of an eight-character string, is not.
    Alpha,
}

/// The value of a hexadecimal digit given as an ASCII byte.
pub open spec fn digit_value(c: u8) -> Option<u8> {
    if 0x30 <= c <= 0x39 {
        Some((c - 0x30) as u8)
    } else if 0x41 <= c <= 0x46 {
        Some((c - 0x41 + 10) as u8)
    } else if 0x61 <= c <= 0x66 {
        Some((c - 0x61 + 10) as u8)
    } else {
        None
    }
}

/// The value of two hexadecimal digits, the high one first.
pub open spec fn pair_value(hi: u8, lo: u8) -> Option<u8> {
    match (digit_value(hi), digit_value(lo)) {
        (Some(h), Some(l)) => Some((16 * h + l) as u8),
        _ => None,
    }
}

/// The text without one leading `#`, if it has one.
pub open spec fn without_hash(text: Seq<u8>) -> Seq<u8> {
    if text.len() > 0 && text[0] == 0x23 {
        text.skip(1)
    } else {
        text
    }
}

/// The colour that a text, given as its bytes, denotes.
pub open spec fn parsed(text: Seq<u8>) -> Result<Rgba8, ColorParseError> {
    let digits = without_hash(text);
    if digits.len() != 6 && digits.len() != 8 {
        Err(ColorParseError::Length)
    } else if pair_value(digits[0], digits[1]) is None {
        Err(ColorParseError::Red)
    } else if pair_value(digits[2], digits[3]) is None {
        Err(ColorParseError::Green)
    } else if pair_value(digits[4], digits[5]) is None {
        Err(ColorParseError::Blue)
    } else if digits.len() == 8 && pair_value(digits[6], digits[7]) is None {
        Err(ColorParseError::Alpha)
    } else {
        Ok(
            Rgba8 {
                r: pair_value(digits[0], digits[1])->0,
                g: pair_value(digits[2], digits[3])->0,
                b: pair_value(digits[4], digits[5])->0,
                a: if digits.len() == 8 {
                    pair_value(digits[6], digits[7])->0
                } else {
                    255
                },
            },
        )
    }
}

/// The colour that a text denotes.
pub open spec fn color_of(text: Seq<char>) -> Result<Rgba8, ColorParseError> {
    parsed(vstd::utf8::encode_utf8(text))
}

impl ColorParseError {
    /// The error in words.
    pub fn message(&self) -> (text: String)
        ensures
            text@ == match *self {
                ColorParseError::Length => "Hex string must be 6 (RGB) or 8 (RGBA) characters long"@,
                ColorParseError::Red => "Invalid red component"@,
                ColorParseError::Green => "Invalid green component"@,
                ColorParseError::Blue => "Invalid blue component"@,
                ColorParseError::Alpha => "Invalid alpha component"@,
            },
    {
        match self {
            ColorParseError::Length => "Hex string must be 6 (RGB) or 8 (RGBA) characters long".to_owned(),
            ColorParseError::Red => "Invalid red component".to_owned(),
            ColorParseError::Green => "Invalid green component".to_owned(),
            ColorParseError::Blue => "Invalid blue component".to_owned(),
            ColorParseError::Alpha => "Invalid alpha component".to_owned(),
        }
    }
}

/// Reads one hexadecimal digit.
fn hex_digit(c: u8) -> (r: Option<u8>)
    ensures
        r == digit_value(c),
{
    if 0x30 <= c && c <= 0x39 {
        Some(c - 0x30)
    } else if 0x41 <= c && c <= 0x46 {
        Some(c - 0x41 + 10)
    } else if 0x61 <= c && c <= 0x66 {
        Some(c - 0x61 + 10)
    } else {
        None
    }
}

/// Reads two hexadecimal digits as one byte.
fn hex_pair(hi: u8, lo: u8) -> (r: Option<u8>)
    ensures
        r == pair_value(hi, lo),
{
    match (hex_digit(hi), hex_digit(lo)) {
        (Some(h), Some(l)) => Some(16 * h + l),
        _ => None,
    }
}

/// Parses a colour from the bytes of its text.
pub fn parse_hex_bytes(text: &[u8]) -> (r: Result<Rgba8, ColorParseError>)
    ensures
        r == parsed(text@),
{
    let start: usize = if text.len() > 0 && text[0] == 0x23 {
        1
    } else {
        0
    };
    let n = text.len() - start;
    if n != 6 && n != 8 {
        return Err(ColorParseError::Length);
    }
    let r = match hex_pair(text[start], text[start + 1]) {
        Some(v) => v,
        None => {
            return Err(ColorParseError::Red);
        },
    };
    let g = match hex_pair(text[start + 2], text[start + 3]) {
        Some(v) => v,
        None => {
            return Err(ColorParseError::Green);
        },
    };
    let b = match hex_pair(text[start + 4], text[start + 5]) {
        Some(v) => v,
        None => {
            return Err(ColorParseError::Blue);
        },
    };
    let a = if n == 8 {
        match hex_pair(text[start + 6], text[start + 7]) {
            Some(v) => v,
            None => {
                return Err(ColorParseError::Alpha);
            },
        }
    } else {
        255
    };
    Ok(Rgba8 { r, g, b, a })
}

/// Parses a colour such as `#1a2b3c` or `FFFFFF80`.
///
/// The channels come back as written, eight bits each; turning them into
/// the linear floating-point colour of a render pass is left to the caller.
pub fn hex_to_wgpu_color(hex: &str) -> (r: Result<Rgba8, ColorParseError>)
    ensures
        r == parsed(hex.spec_bytes()),
        r == color_of(hex@),
{
    parse_hex_bytes(hex.as_bytes())
}

} // verus!
