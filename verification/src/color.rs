//! Reading a color from content text: a color name in any case, or
//! `#rrggbb` in hexadecimal. What a name or a hex triple looks like on
//! screen, and the `rgba(..)` form, are floating point and left to the
//! caller.

use vstd::prelude::*;
use vstd::utf8::{encode_utf8, is_char_boundary};
use crate::text::{chars_of, string_from_chars, str_eq, trim, trim_chars, lowercase, to_lowercase};

verus! {

/// The named colors content may use.
#[derive(Clone, Copy, Debug, PartialEq, Eq, Structural)]
pub enum ColorName {
    LightGray,
    White,
    Orange,
    SkyBlue,
    Gold,
    Blue,
    Purple,
    Yellow,
    Pink,
    Green,
    Red,
    Brown,
}

/// What a color text names.
#[derive(Clone, Copy, Debug, PartialEq, Eq, Structural)]
pub enum ColorSpec {
    Named(ColorName),
    /// Red, green and blue, each 0 to 255.
    Hex(u8, u8, u8),
    /// Neither a name nor `#rrggbb`.
    Other,
}

/// The color a lowercased name stands for.
pub open spec fn color_name(l: Seq<char>) -> Option<ColorName> {
    if l == "lightgray"@ {
        Some(ColorName::LightGray)
    } else if l == "white"@ {
        Some(ColorName::White)
    } else if l == "orange"@ {
        Some(ColorName::Orange)
    } else if l == "skyblue"@ {
        Some(ColorName::SkyBlue)
    } else if l == "gold"@ {
        Some(ColorName::Gold)
    } else if l == "blue"@ {
        Some(ColorName::Blue)
    } else if l == "purple"@ {
        Some(ColorName::Purple)
    } else if l == "yellow"@ {
        Some(ColorName::Yellow)
    } else if l == "pink"@ {
        Some(ColorName::Pink)
    } else if l == "green"@ {
        Some(ColorName::Green)
    } else if l == "red"@ {
        Some(ColorName::Red)
    } else if l == "brown"@ {
        Some(ColorName::Brown)
    } else {
        None
    }
}

/// The value of a hexadecimal digit byte, in either case.
pub open spec fn hex_digit(b: u8) -> Option<u8> {
    if 0x30 <= b <= 0x39 {
        Some((b - 0x30) as u8)
    } else if 0x61 <= b <= 0x66 {
        Some((b - 0x57) as u8)
    } else if 0x41 <= b <= 0x46 {
        Some((b - 0x37) as u8)
    } else {
        None
    }
}

/// A two-byte field read as a base-16 `u8` (`u8::from_str_radix`): two
/// digits, or a plus sign and one digit.
pub open spec fn hex_pair(b0: u8, b1: u8) -> Option<u8> {
    if b0 == 0x2b {
        hex_digit(b1)
    } else {
        match (hex_digit(b0), hex_digit(b1)) {
            (Some(h), Some(l)) => Some((16 * h + l) as u8),
            _ => None,
        }
    }
}

/// What the trimmed text `t` names after its `#`, when the rest is six
/// bytes long: the three two-byte fields read as base-16 numbers.
pub open spec fn hex_spec(t: Seq<char>) -> ColorSpec {
    let b = encode_utf8(t.drop_first());
    match (hex_pair(b[0], b[1]), hex_pair(b[2], b[3]), hex_pair(b[4], b[5])) {
        (Some(r), Some(g), Some(bl)) => ColorSpec::Hex(r, g, bl),
        _ => ColorSpec::Other,
    }
}

/// Whether the trimmed text is `#` followed by six bytes.
pub open spec fn six_hex_bytes(t: Seq<char>) -> bool {
    t.len() > 0 && t[0] == '#' && encode_utf8(t.drop_first()).len() == 6
}

/// Whether cutting the six bytes after `#` into fields splits a character
/// (which the standard library refuses with a panic).
pub open spec fn hex_fields_split(t: Seq<char>) -> bool {
    six_hex_bytes(t) && !(is_char_boundary(encode_utf8(t.drop_first()), 2)
        && is_char_boundary(encode_utf8(t.drop_first()), 4))
}

/// What a color text names: the trimmed text, lowercased, as a color name;
/// else `#` and three two-digit hexadecimal fields; else nothing known.
pub open spec fn color_spec(s: Seq<char>) -> ColorSpec {
    let t = trim(s);
    match color_name(lowercase(t)) {
        Some(n) => ColorSpec::Named(n),
        None => if six_hex_bytes(t) {
            hex_spec(t)
        } else {
            ColorSpec::Other
        },
    }
}

fn read_hex_digit(b: u8) -> (r: Option<u8>)
    ensures
        r == hex_digit(b),
{
    if 0x30 <= b && b <= 0x39 {
        Some(b - 0x30)
    } else if 0x61 <= b && b <= 0x66 {
        Some(b - 0x57)
    } else if 0x41 <= b && b <= 0x46 {
        Some(b - 0x37)
    } else {
        None
    }
}

fn read_hex_pair(b0: u8, b1: u8) -> (r: Option<u8>)
    ensures
        r == hex_pair(b0, b1),
{
    if b0 == 0x2b {
        read_hex_digit(b1)
    } else {
        match (read_hex_digit(b0), read_hex_digit(b1)) {
            (Some(h), Some(l)) => Some(16 * h + l),
            _ => None,
        }
    }
}

fn read_color_name(low: &str) -> (r: Option<ColorName>)
    ensures
        r == color_name(low@),
{
    if str_eq(low, "lightgray") {
        Some(ColorName::LightGray)
    } else if str_eq(low, "white") {
        Some(ColorName::White)
    } else if str_eq(low, "orange") {
        Some(ColorName::Orange)
    } else if str_eq(low, "skyblue") {
        Some(ColorName::SkyBlue)
    } else if str_eq(low, "gold") {
        Some(ColorName::Gold)
    } else if str_eq(low, "blue") {
        Some(ColorName::Blue)
    } else if str_eq(low, "purple") {
        Some(ColorName::Purple)
    } else if str_eq(low, "yellow") {
        Some(ColorName::Yellow)
    } else if str_eq(low, "pink") {
        Some(ColorName::Pink)
    } else if str_eq(low, "green") {
        Some(ColorName::Green)
    } else if str_eq(low, "red") {
        Some(ColorName::Red)
    } else if str_eq(low, "brown") {
        Some(ColorName::Brown)
    } else {
        None
    }
}

/// The text after the first character of `t` (which has one).
fn after_first(t: &Vec<char>) -> (h: String)
    requires
        t@.len() > 0,
    ensures
        h@ == t@.drop_first(),
{
    let mut v: Vec<char> = Vec::new();
    let mut i: usize = 1;
    while i < t.len()
        invariant
            1 <= i <= t@.len(),
            v@ == t@.subrange(1, i as int),
        decreases t@.len() - i,
    {
        v.push(t[i]);
        i = i + 1;
    }
    assert(v@ =~= t@.drop_first());
    string_from_chars(v.as_slice())
}

/// Whether `read_color` can read `s`: the six bytes after a `#` must not be
/// cut through a character.
pub fn color_is_readable(s: &str) -> (r: bool)
    ensures
        r == !hex_fields_split(trim(s@)),
{
    let v = chars_of(s);
    let t = trim_chars(v.as_slice());
    if t.len() == 0 || t[0] != '#' {
        return true;
    }
    let h = after_first(&t);
    let hs = h.as_str();
    if hs.as_bytes().len() != 6 {
        return true;
    }
    hs.is_char_boundary(2) && hs.is_char_boundary(4)
}

/// Reads a color text as the content files write it.
pub fn read_color(s: &str) -> (c: ColorSpec)
    requires
        !hex_fields_split(trim(s@)),
    ensures
        c == color_spec(s@),
{
    let v = chars_of(s);
    let t = trim_chars(v.as_slice());
    let ts = string_from_chars(t.as_slice());
    let low = to_lowercase(ts.as_str());
    if let Some(n) = read_color_name(low.as_str()) {
        return ColorSpec::Named(n);
    }
    if t.len() == 0 || t[0] != '#' {
        return ColorSpec::Other;
    }
    let h = after_first(&t);
    let b = h.as_str().as_bytes();
    if b.len() != 6 {
        return ColorSpec::Other;
    }
    match (read_hex_pair(b[0], b[1]), read_hex_pair(b[2], b[3]), read_hex_pair(b[4], b[5])) {
        (Some(r), Some(g), Some(bl)) => ColorSpec::Hex(r, g, bl),
        _ => ColorSpec::Other,
    }
}

} // verus!
