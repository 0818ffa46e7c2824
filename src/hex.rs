use vstd::prelude::*;
use vstd::string::StringExecFns;

use crate::color::Color;
use crate::digits::{digit_char, digit_str};

verus! {

/// Why a hexadecimal code was refused.
#[derive(Debug, Clone, Copy, PartialEq, Eq, Structural)]
pub enum HexError {
    /// After one optional leading `#` is removed, the code is not six characters long.
    MalformedLength,
    /// Some two-character group is not a base-16 number.
    MalformedDigits,
}

/// What is left of `s` once one optional leading `#` is removed.
pub open spec fn strip_hash(s: Seq<char>) -> Seq<char> {
    if s.len() > 0 && s[0] == '#' {
        s.drop_first()
    } else {
        s
    }
}

/// A base-16 digit, in either case.
pub open spec fn is_hex_digit(c: char) -> bool {
    ('0' <= c && c <= '9') || ('a' <= c && c <= 'f') || ('A' <= c && c <= 'F')
}

/// The number that a base-16 digit stands for.
pub open spec fn hex_value(c: char) -> int {
    if '0' <= c && c <= '9' {
        c as int - '0' as int
    } else if 'a' <= c && c <= 'f' {
        c as int - 'a' as int + 10
    } else {
        c as int - 'A' as int + 10
    }
}

/// The byte written by two base-16 digits, the high one first.
pub open spec fn hex_pair_value(hi: char, lo: char) -> u8 {
    (16 * hex_value(hi) + hex_value(lo)) as u8
}

/// What `Color::from_hex` makes of the characters `s`.
pub open spec fn parse_hex(s: Seq<char>) -> Result<Color, HexError> {
    let p = strip_hash(s);
    if p.len() != 6 {
        Err(HexError::MalformedLength)
    } else if exists|i: int| 0 <= i < 6 && !is_hex_digit(#[trigger] p[i]) {
        Err(HexError::MalformedDigits)
    } else {
        Ok(
            Color {
                r: hex_pair_value(p[0], p[1]),
                g: hex_pair_value(p[2], p[3]),
                b: hex_pair_value(p[4], p[5]),
            },
        )
    }
}

/// A byte as two upper-case base-16 digits.
pub open spec fn hex_byte(b: u8) -> Seq<char> {
    seq![digit_char(b as int / 16), digit_char(b as int % 16)]
}

/// The code `#RRGGBB` of a color.
pub open spec fn hex_code(c: Color) -> Seq<char> {
    seq!['#'] + hex_byte(c.r) + hex_byte(c.g) + hex_byte(c.b)
}

fn chars_of(s: &str) -> (v: Vec<char>)
    ensures
        v@ == s@,
{
    let mut v: Vec<char> = Vec::new();
    for c in it: s.chars()
        invariant
            v@ == it.seq().take(it.index() as int),
    {
        v.push(c);
    }
    v
}

fn hex_digit(c: char) -> (r: Option<u8>)
    ensures
        is_hex_digit(c) ==> r == Some(hex_value(c) as u8),
        !is_hex_digit(c) ==> r is None,
{
    if '0' <= c && c <= '9' {
        Some((c as u32 - '0' as u32) as u8)
    } else if 'a' <= c && c <= 'f' {
        Some((c as u32 - 'a' as u32 + 10) as u8)
    } else if 'A' <= c && c <= 'F' {
        Some((c as u32 - 'A' as u32 + 10) as u8)
    } else {
        None
    }
}

fn hex_pair(hi: char, lo: char) -> (r: Option<u8>)
    ensures
        is_hex_digit(hi) && is_hex_digit(lo) ==> r == Some(hex_pair_value(hi, lo)),
        !(is_hex_digit(hi) && is_hex_digit(lo)) ==> r is None,
{
    match (hex_digit(hi), hex_digit(lo)) {
        (Some(h), Some(l)) => Some(16 * h + l),
        _ => None,
    }
}

impl Color {
    /// Parses `#RRGGBB` or `RRGGBB` (one optional leading `#`):
    /// three base-16 pairs, red, green and blue, digits in either case.
    pub fn from_hex(hex: &str) -> (r: Result<Color, HexError>)
        ensures
            r == parse_hex(hex@),
    {
        let v = chars_of(hex);
        let i: usize = if v.len() > 0 && v[0] == '#' {
            1
        } else {
            0
        };
        let ghost p = v@.subrange(i as int, v@.len() as int);
        assert(strip_hash(v@) =~= p);
        if v.len() - i != 6 {
            return Err(HexError::MalformedLength);
        }
        assert(forall|k: int| 0 <= k < 6 ==> p[k] == v@[i + k]);
        let r = hex_pair(v[i], v[i + 1]);
        let g = hex_pair(v[i + 2], v[i + 3]);
        let b = hex_pair(v[i + 4], v[i + 5]);
        match (r, g, b) {
            (Some(r), Some(g), Some(b)) => Ok(Color { r, g, b }),
            _ => {
                assert(!is_hex_digit(p[0]) || !is_hex_digit(p[1]) || !is_hex_digit(p[2])
                    || !is_hex_digit(p[3]) || !is_hex_digit(p[4]) || !is_hex_digit(p[5]));
                Err(HexError::MalformedDigits)
            },
        }
    }
}

fn push_hex_byte(s: &mut String, b: u8)
    ensures
        final(s)@ == old(s)@ + hex_byte(b),
{
    s.append(digit_str(b / 16));
    s.append(digit_str(b % 16));
}

impl Color {
    /// The code `#RRGGBB`, each channel as two upper-case base-16 digits.
    pub fn to_hex(&self) -> (s: String)
        ensures
            s@ == hex_code(*self),
    {
        let mut s = String::new();
        proof {
            reveal_strlit("#");
        }
        s.append("#");
        push_hex_byte(&mut s, self.r);
        push_hex_byte(&mut s, self.g);
        push_hex_byte(&mut s, self.b);
        s
    }

}

/// Every digit that `digit_char` writes reads back as the number it was written for.
pub proof fn lemma_digit_char_value(d: int)
    requires
        0 <= d < 16,
    ensures
        is_hex_digit(digit_char(d)),
        hex_value(digit_char(d)) == d,
{
    assert(d == 0 || d == 1 || d == 2 || d == 3 || d == 4 || d == 5 || d == 6 || d == 7 || d
        == 8 || d == 9 || d == 10 || d == 11 || d == 12 || d == 13 || d == 14 || d == 15);
}

proof fn lemma_hex_byte_value(b: u8)
    ensures
        is_hex_digit(hex_byte(b)[0]),
        is_hex_digit(hex_byte(b)[1]),
        hex_pair_value(hex_byte(b)[0], hex_byte(b)[1]) == b,
{
    lemma_digit_char_value(b as int / 16);
    lemma_digit_char_value(b as int % 16);
}

/// Reading back the code that `to_hex` writes gives the same color:
/// `from_hex(to_hex(c)) == Ok(c)` for every color.
pub proof fn lemma_hex_round_trip(c: Color)
    ensures
        parse_hex(hex_code(c)) == Ok::<Color, HexError>(c),
{
    let s = hex_code(c);
    let t = hex_byte(c.r) + hex_byte(c.g) + hex_byte(c.b);
    assert(s.drop_first() =~= t);
    lemma_hex_byte_value(c.r);
    lemma_hex_byte_value(c.g);
    lemma_hex_byte_value(c.b);
    assert(strip_hash(s) == t);
    assert(t[0] == hex_byte(c.r)[0] && t[1] == hex_byte(c.r)[1]);
    assert(t[2] == hex_byte(c.g)[0] && t[3] == hex_byte(c.g)[1]);
    assert(t[4] == hex_byte(c.b)[0] && t[5] == hex_byte(c.b)[1]);
}

} // verus!
