use vstd::prelude::*;
use vstd::string::*;

verus! {

/// An opaque RGB colour.
#[derive(Clone, Copy, Debug, PartialEq, Eq, Structural)]
pub struct Color {
    pub r: u8,
    pub g: u8,
    pub b: u8,
}

/// The value of a hexadecimal digit, or `None` for any other character.
pub open spec fn hex_digit_value(c: char) -> Option<int> {
    if '0' <= c && c <= '9' {
        Some(c as int - '0' as int)
    } else if 'a' <= c && c <= 'f' {
        Some(c as int - 'a' as int + 10)
    } else if 'A' <= c && c <= 'F' {
        Some(c as int - 'A' as int + 10)
    } else {
        None
    }
}

/// The text with every leading `#` removed.
pub open spec fn strip_leading_hashes(s: Seq<char>) -> Seq<char>
    decreases s.len(),
{
    if s.len() > 0 && s[0] == '#' {
        strip_leading_hashes(s.drop_first())
    } else {
        s
    }
}

/// Channel `k` (0 red, 1 green, 2 blue) of a colour written as hex digit pairs:
/// the pair at positions `2k` and `2k + 1` when both are hex digits, else 0.
pub open spec fn hex_channel(digits: Seq<char>, k: int) -> u8 {
    if 2 * k + 1 < digits.len() && hex_digit_value(digits[2 * k]) is Some
        && hex_digit_value(digits[2 * k + 1]) is Some {
        (16 * hex_digit_value(digits[2 * k])->0 + hex_digit_value(digits[2 * k + 1])->0) as u8
    } else {
        0
    }
}

/// The colour that a text such as `#1F2933` names.
pub open spec fn color_of_hex(s: Seq<char>) -> Color {
    let digits = strip_leading_hashes(s);
    Color { r: hex_channel(digits, 0), g: hex_channel(digits, 1), b: hex_channel(digits, 2) }
}

/// The upper-case hex digit for a value below 16.
pub open spec fn upper_hex_digit(d: int) -> char {
    if d < 10 {
        (d + '0' as int) as char
    } else {
        (d - 10 + 'A' as int) as char
    }
}

/// A byte as two upper-case hex digits.
pub open spec fn byte_hex(v: u8) -> Seq<char> {
    seq![upper_hex_digit(v as int / 16), upper_hex_digit(v as int % 16)]
}

/// A colour as `#RRGGBB` in upper case.
pub open spec fn hex_of_color(c: Color) -> Seq<char> {
    seq!['#'] + byte_hex(c.r) + byte_hex(c.g) + byte_hex(c.b)
}

/// A colour as the Windows `COLORREF` value `0x00BBGGRR`.
pub open spec fn colorref_of(c: Color) -> u32 {
    (c.r as int + 256 * c.g as int + 65536 * c.b as int) as u32
}

/// Clamps a shade step: the channel moved by `delta`, held in 0..=255.
pub open spec fn shaded_channel(v: u8, delta: i16) -> u8 {
    let x = v as int + delta as int;
    if x < 0 {
        0
    } else if x > 255 {
        255
    } else {
        x as u8
    }
}

/// The colour with each channel moved by `delta` and held in 0..=255.
pub open spec fn shaded(c: Color, delta: i16) -> Color {
    Color {
        r: shaded_channel(c.r, delta),
        g: shaded_channel(c.g, delta),
        b: shaded_channel(c.b, delta),
    }
}

/// The text of one upper-case hex digit.
fn hex_digit_text(d: u8) -> (r: &'static str)
    requires
        d < 16,
    ensures
        r@ == seq![upper_hex_digit(d as int)],
{
    match d {
        0 => { proof { reveal_strlit("0"); } "0" },
        1 => { proof { reveal_strlit("1"); } "1" },
        2 => { proof { reveal_strlit("2"); } "2" },
        3 => { proof { reveal_strlit("3"); } "3" },
        4 => { proof { reveal_strlit("4"); } "4" },
        5 => { proof { reveal_strlit("5"); } "5" },
        6 => { proof { reveal_strlit("6"); } "6" },
        7 => { proof { reveal_strlit("7"); } "7" },
        8 => { proof { reveal_strlit("8"); } "8" },
        9 => { proof { reveal_strlit("9"); } "9" },
        10 => { proof { reveal_strlit("A"); } "A" },
        11 => { proof { reveal_strlit("B"); } "B" },
        12 => { proof { reveal_strlit("C"); } "C" },
        13 => { proof { reveal_strlit("D"); } "D" },
        14 => { proof { reveal_strlit("E"); } "E" },
        _ => { proof { reveal_strlit("F"); } "F" },
    }
}

/// Appends a byte as two upper-case hex digits.
fn push_byte_hex(out: &mut String, v: u8)
    ensures
        final(out)@ == old(out)@ + byte_hex(v),
{
    out.append(hex_digit_text(v / 16));
    out.append(hex_digit_text(v % 16));
}

/// The value of a character as a hex digit.
fn hex_digit(c: char) -> (r: Option<u8>)
    ensures
        r matches Some(v) ==> hex_digit_value(c) == Some(v as int),
        r is None ==> hex_digit_value(c) is None,
{
    if '0' <= c && c <= '9' {
        Some(((c as u32) - ('0' as u32)) as u8)
    } else if 'a' <= c && c <= 'f' {
        Some(((c as u32) - ('a' as u32) + 10) as u8)
    } else if 'A' <= c && c <= 'F' {
        Some(((c as u32) - ('A' as u32) + 10) as u8)
    } else {
        None
    }
}

proof fn lemma_strip_skip(s: Seq<char>, i: int)
    requires
        0 <= i < s.len(),
        s[i] == '#',
    ensures
        strip_leading_hashes(s.skip(i)) == strip_leading_hashes(s.skip(i + 1)),
{
    assert(s.skip(i).drop_first() =~= s.skip(i + 1));
}

impl Color {
    /// A colour from its three channels.
    pub fn new(r: u8, g: u8, b: u8) -> (c: Color)
        ensures
            c == (Color { r, g, b }),
    {
        Color { r, g, b }
    }

    /// Reads a colour written as hex digit pairs, with or without leading `#`;
    /// a pair that is missing or not made of hex digits reads as 0.
    pub fn from_hex(hex: &str) -> (c: Color)
        ensures
            c == color_of_hex(hex@),
    {
        let n = hex.unicode_len();
        let mut start: usize = 0;
        assert(hex@.skip(0) =~= hex@);
        while start < n && hex.get_char(start) == '#'
            invariant
                n == hex@.len(),
                start <= n,
                strip_leading_hashes(hex@) == strip_leading_hashes(hex@.skip(start as int)),
            decreases n - start,
        {
            proof { lemma_strip_skip(hex@, start as int); }
            start = start + 1;
        }
        let ghost digits = hex@.skip(start as int);
        assert(strip_leading_hashes(hex@) == digits) by {
            if digits.len() > 0 {
                assert(digits[0] == hex@[start as int]);
            }
        }
        let r = Self::channel_at(hex, start, n, 0);
        let g = Self::channel_at(hex, start, n, 1);
        let b = Self::channel_at(hex, start, n, 2);
        Color { r, g, b }
    }

    /// Channel `k` of the digits that start at `start`.
    fn channel_at(hex: &str, start: usize, n: usize, k: usize) -> (v: u8)
        requires
            n == hex@.len(),
            start <= n,
            k < 3,
        ensures
            v == hex_channel(hex@.skip(start as int), k as int),
    {
        let ghost digits = hex@.skip(start as int);
        if n - start >= 2 * k + 2 {
            let hi = hex_digit(hex.get_char(start + 2 * k));
            let lo = hex_digit(hex.get_char(start + 2 * k + 1));
            assert(digits[2 * k as int] == hex@[start + 2 * k]);
            assert(digits[2 * k + 1] == hex@[start + 2 * k + 1]);
            match (hi, lo) {
                (Some(h), Some(l)) => 16 * h + l,
                _ => 0,
            }
        } else {
            0
        }
    }

    /// The colour as the Windows `COLORREF` value `0x00BBGGRR`.
    pub fn to_colorref(&self) -> (v: u32)
        ensures
            v == colorref_of(*self),
    {
        let r = self.r as u32;
        let g = self.g as u32;
        let b = self.b as u32;
        assert((r | (g << 8u32) | (b << 16u32)) == r + 256 * g + 65536 * b) by (bit_vector)
            requires
                r < 256,
                g < 256,
                b < 256,
        ;
        r | (g << 8u32) | (b << 16u32)
    }
}

/// A colour as `#RRGGBB` in upper-case hex.
pub fn color_to_hex(color: Color) -> (s: String)
    ensures
        s@ == hex_of_color(color),
{
    let mut s = String::from_str("#");
    proof { reveal_strlit("#"); }
    push_byte_hex(&mut s, color.r);
    push_byte_hex(&mut s, color.g);
    push_byte_hex(&mut s, color.b);
    s
}

fn shade_channel(v: u8, delta: i16) -> (r: u8)
    requires
        v as int + delta as int <= i16::MAX,
    ensures
        r == shaded_channel(v, delta),
{
    let x: i16 = v as i16 + delta;
    if x < 0 {
        0
    } else if x > 255 {
        255
    } else {
        x as u8
    }
}

/// The colour with each channel moved by `delta`, held in 0..=255.
pub fn shade_color(color: Color, delta: i16) -> (c: Color)
    requires
        color.r as int + delta as int <= i16::MAX,
        color.g as int + delta as int <= i16::MAX,
        color.b as int + delta as int <= i16::MAX,
    ensures
        c == shaded(color, delta),
{
    Color::new(shade_channel(color.r, delta), shade_channel(color.g, delta), shade_channel(color.b, delta))
}

/// Reading back the text a colour is written as gives the same colour.
pub proof fn lemma_hex_round_trip(c: Color)
    ensures
        color_of_hex(hex_of_color(c)) == c,
{
    let s = hex_of_color(c);
    let digits = byte_hex(c.r) + byte_hex(c.g) + byte_hex(c.b);
    assert(s.drop_first() =~= digits);
    assert(strip_leading_hashes(digits) == digits);
    assert(strip_leading_hashes(s) == digits);
    assert(digits[0] == upper_hex_digit(c.r as int / 16));
    assert(digits[1] == upper_hex_digit(c.r as int % 16));
    assert(digits[2] == upper_hex_digit(c.g as int / 16));
    assert(digits[3] == upper_hex_digit(c.g as int % 16));
    assert(digits[4] == upper_hex_digit(c.b as int / 16));
    assert(digits[5] == upper_hex_digit(c.b as int % 16));
}

} // verus!
