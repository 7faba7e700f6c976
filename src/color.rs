//! RGB colors and their `RRGGBB` text form.
use vstd::prelude::*;

verus! {

/// RGB color.
#[derive(PartialEq, Eq, Structural, Copy, Clone, Debug)]
pub struct Rgb {
    pub r: u8,
    pub g: u8,
    pub b: u8,
}

/// Why a color string was rejected.
#[derive(PartialEq, Eq, Structural, Copy, Clone, Debug)]
pub enum ColorError {
    /// Not exactly six digits after the optional `#`.
    WrongLength,
    /// A character outside `0-9`, `a-f` and `A-F`.
    NotHex,
}

impl ColorError {
    /// Human-readable description of the error.
    pub fn message(&self) -> (r: &'static str) {
        match self {
            ColorError::WrongLength => "must contain exactly 6 hex digits",
            ColorError::NotHex => "must only contain the characters 0-9 and a-f",
        }
    }
}

pub open spec fn is_hex_digit(c: char) -> bool {
    ('0' <= c && c <= '9') || ('a' <= c && c <= 'f') || ('A' <= c && c <= 'F')
}

pub open spec fn hex_value(c: char) -> nat {
    if '0' <= c && c <= '9' {
        (c as nat - '0' as nat) as nat
    } else if 'a' <= c && c <= 'f' {
        (c as nat - 'a' as nat + 10) as nat
    } else {
        (c as nat - 'A' as nat + 10) as nat
    }
}

/// The digits of a color string: the text after one leading `#`, if any.
pub open spec fn color_digits(s: Seq<char>) -> Seq<char> {
    if s.len() > 0 && s[0] == '#' {
        s.drop_first()
    } else {
        s
    }
}

pub open spec fn all_hex(d: Seq<char>) -> bool {
    forall|i: int| 0 <= i < d.len() ==> is_hex_digit(#[trigger] d[i])
}

/// The byte written by the two hex digits at `i` and `i + 1`.
pub open spec fn hex_byte(d: Seq<char>, i: int) -> u8 {
    (hex_value(d[i]) * 16 + hex_value(d[i + 1])) as u8
}

/// The outcome of parsing `s` as an `RRGGBB` color with an optional `#`.
pub open spec fn parse_color(s: Seq<char>) -> Result<Rgb, ColorError> {
    let d = color_digits(s);
    if d.len() != 6 {
        Err(ColorError::WrongLength)
    } else if !all_hex(d) {
        Err(ColorError::NotHex)
    } else {
        Ok(Rgb { r: hex_byte(d, 0), g: hex_byte(d, 2), b: hex_byte(d, 4) })
    }
}

fn hex_digit(c: char) -> (r: Option<u8>)
    ensures
        r is Some <==> is_hex_digit(c),
        r matches Some(v) ==> v as nat == hex_value(c) && v < 16,
{
    if '0' <= c && c <= '9' {
        Some((c as u32 - '0' as u32) as u8)
    } else if 'a' <= c && c <= 'f' {
        Some((c as u32 - 'a' as u32 + 10) as u8)
    } else if 'A' <= c && c <= 'F' {
        Some((c as u32 - 'A' as u32 + 10) as u8)
    } else {
        None
    }
}

impl Rgb {
    /// Parse a color written as six hex digits, with an optional `#` prefix.
    pub fn from_hex(s: &str) -> (r: Result<Rgb, ColorError>)
        ensures
            r == parse_color(s@),
    {
        let len = s.unicode_len();
        let start: usize = if len > 0 && s.get_char(0) == '#' {
            1
        } else {
            0
        };
        let ghost d = color_digits(s@);
        assert(d =~= s@.subrange(start as int, len as int));
        if len - start != 6 {
            return Err(ColorError::WrongLength);
        }
        let mut values: Vec<u8> = Vec::new();
        let mut i: usize = 0;
        while i < 6
            invariant
                i <= 6,
                len - start == 6,
                d == color_digits(s@),
                d =~= s@.subrange(start as int, len as int),
                len == s@.len(),
                values@.len() == i,
                forall|j: int| 0 <= j < i ==> is_hex_digit(#[trigger] d[j]),
                forall|j: int|
                    0 <= j < i ==> #[trigger] values@[j] as nat == hex_value(d[j]) && values@[j]
                        < 16,
            decreases 6 - i,
        {
            assert(d[i as int] == s@[start + i]);
            match hex_digit(s.get_char(start + i)) {
                Some(v) => values.push(v),
                None => {
                    assert(!is_hex_digit(d[i as int]));
                    assert(!all_hex(d));
                    return Err(ColorError::NotHex);
                },
            }
            i = i + 1;
        }
        let r = values[0] * 16 + values[1];
        let g = values[2] * 16 + values[3];
        let b = values[4] * 16 + values[5];
        Ok(Rgb { r, g, b })
    }

    /// One channel widened to the full `u32` range of a single-pixel buffer:
    /// `0` stays `0` and `255` becomes `u32::MAX`.
    pub fn channel_to_u32(c: u8) -> (r: u32)
        ensures
            r == c as nat * (u32::MAX as nat / 255),
    {
        c as u32 * (u32::MAX / 255)
    }
}

impl core::str::FromStr for Rgb {
    type Err = ColorError;

    fn from_str(s: &str) -> Result<Rgb, ColorError> {
        Rgb::from_hex(s)
    }
}

} // verus!
