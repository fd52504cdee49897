use vstd::prelude::*;
use crate::error::SignError;
use crate::text::same_text;

verus! {

/// A color with one byte per channel.
#[derive(Clone, Copy, Debug, PartialEq, Eq, Structural)]
pub struct Rgb {
    pub r: u8,
    pub g: u8,
    pub b: u8,
}

pub open spec fn rgb(r: u8, g: u8, b: u8) -> Rgb {
    Rgb { r, g, b }
}

pub open spec fn black() -> Rgb {
    rgb(0, 0, 0)
}

pub open spec fn white() -> Rgb {
    rgb(255, 255, 255)
}

pub open spec fn yellow() -> Rgb {
    rgb(255, 255, 0)
}

/// The value of one hexadecimal digit, either case.
pub open spec fn hex_digit(c: char) -> Option<u8> {
    if '0' <= c && c <= '9' {
        Some((c as u32 - '0' as u32) as u8)
    } else if 'a' <= c && c <= 'f' {
        Some((c as u32 - 'a' as u32 + 10) as u8)
    } else if 'A' <= c && c <= 'F' {
        Some((c as u32 - 'A' as u32 + 10) as u8)
    } else {
        None
    }
}

/// The byte written by the two hex digits at `i` and `i + 1`.
pub open spec fn hex_byte(s: Seq<char>, i: int) -> Option<u8> {
    match (hex_digit(s[i]), hex_digit(s[i + 1])) {
        (Some(h), Some(l)) => Some((h * 16 + l) as u8),
        _ => None,
    }
}

/// A `RRGGBB` literal, without a leading `#`.
pub open spec fn hex_color(s: Seq<char>) -> Option<Rgb> {
    if s.len() != 6 {
        None
    } else {
        match (hex_byte(s, 0), hex_byte(s, 2), hex_byte(s, 4)) {
            (Some(r), Some(g), Some(b)) => Some(rgb(r, g, b)),
            _ => None,
        }
    }
}

/// The fixed table of symbolic color names.
pub open spec fn named_color(s: Seq<char>) -> Option<Rgb> {
    if s == seq!['w', 'h', 'i', 't', 'e'] {
        Some(white())
    } else if s == seq!['g', 'r', 'e', 'e', 'n'] {
        Some(rgb(0, 255, 0))
    } else if s == seq!['r', 'e', 'd'] {
        Some(rgb(255, 0, 0))
    } else if s == seq!['p', 'u', 'r', 'p', 'l', 'e'] {
        Some(rgb(191, 64, 191))
    } else if s == seq!['b', 'l', 'u', 'e'] {
        Some(rgb(0, 0, 255))
    } else {
        None
    }
}

/// What a `fill` attribute denotes: black when absent, a table entry when the
/// name is known, otherwise a hex literal, which must be well formed.
pub open spec fn resolve_fill(fill: Option<Seq<char>>) -> Result<Rgb, SignError> {
    match fill {
        None => Ok(black()),
        Some(s) => match named_color(s) {
            Some(c) => Ok(c),
            None => match hex_color(s) {
                Some(c) => Ok(c),
                None => Err(SignError::InvalidColorLiteral),
            },
        },
    }
}

fn hex_digit_of(c: char) -> (r: Option<u8>)
    ensures
        r == hex_digit(c),
{
    if '0' <= c && c <= '9' {
        Some((c as u32 - '0' as u32) as u8)
    } else if 'a' <= c && c <= 'f' {
        Some((c as u32 - 'a' as u32 + 10) as u8)
    } else if 'A' <= c && c <= 'F' {
        Some((c as u32 - 'A' as u32 + 10) as u8)
    } else {
        None
    }
}

fn hex_byte_at(s: &str, i: usize) -> (r: Option<u8>)
    requires
        s@.len() == 6,
        i <= 4,
    ensures
        r == hex_byte(s@, i as int),
{
    match (hex_digit_of(s.get_char(i)), hex_digit_of(s.get_char(i + 1))) {
        (Some(h), Some(l)) => Some(h * 16 + l),
        _ => None,
    }
}

/// Reads a `RRGGBB` literal.
pub fn parse_hex_color(s: &str) -> (r: Option<Rgb>)
    ensures
        r == hex_color(s@),
{
    if s.unicode_len() != 6 {
        return None;
    }
    match (hex_byte_at(s, 0), hex_byte_at(s, 2), hex_byte_at(s, 4)) {
        (Some(r), Some(g), Some(b)) => Some(Rgb { r, g, b }),
        _ => None,
    }
}

/// Looks a name up in the color table.
pub fn lookup_named_color(s: &str) -> (r: Option<Rgb>)
    ensures
        r == named_color(s@),
{
    proof {
        reveal_strlit("white");
        reveal_strlit("green");
        reveal_strlit("red");
        reveal_strlit("purple");
        reveal_strlit("blue");
        assert("white"@ =~= seq!['w', 'h', 'i', 't', 'e']);
        assert("green"@ =~= seq!['g', 'r', 'e', 'e', 'n']);
        assert("red"@ =~= seq!['r', 'e', 'd']);
        assert("purple"@ =~= seq!['p', 'u', 'r', 'p', 'l', 'e']);
        assert("blue"@ =~= seq!['b', 'l', 'u', 'e']);
    }
    if same_text(s, "white") {
        Some(Rgb { r: 255, g: 255, b: 255 })
    } else if same_text(s, "green") {
        Some(Rgb { r: 0, g: 255, b: 0 })
    } else if same_text(s, "red") {
        Some(Rgb { r: 255, g: 0, b: 0 })
    } else if same_text(s, "purple") {
        Some(Rgb { r: 191, g: 64, b: 191 })
    } else if same_text(s, "blue") {
        Some(Rgb { r: 0, g: 0, b: 255 })
    } else {
        None
    }
}

/// Resolves an optional `fill` attribute to a color.
pub fn resolve(fill: Option<&str>) -> (r: Result<Rgb, SignError>)
    ensures
        r == resolve_fill(
            match fill {
                Some(s) => Some(s@),
                None => None,
            },
        ),
{
    match fill {
        None => Ok(Rgb { r: 0, g: 0, b: 0 }),
        Some(s) => match lookup_named_color(s) {
            Some(c) => Ok(c),
            None => match parse_hex_color(s) {
                Some(c) => Ok(c),
                None => Err(SignError::InvalidColorLiteral),
            },
        },
    }
}

} // verus!
