//! The hex color value: a `#rrggbb` string decoded into three 8-bit
//! channels (alpha implicitly opaque), and encoded back to the same text.

use vstd::prelude::*;

use crate::error::{DecodeError, ErrView};

verus! {

use vstd::string::StringExecFns;
use vstd::string::StrSliceExecFns;

/// A decoded color. Channels are exact 8-bit values; the alpha channel is
/// implicitly opaque and therefore not stored.
#[derive(Clone, Copy, PartialEq, Eq, Debug)]
pub struct LdtkColor {
    pub r: u8,
    pub g: u8,
    pub b: u8,
}

impl View for LdtkColor {
    type V = LdtkColor;

    open spec fn view(&self) -> LdtkColor {
        *self
    }
}

/// The numeric value of one hex digit, either case, or `None`.
pub open spec fn spec_hex_val(c: char) -> Option<u8> {
    let u = c as u32;
    if 48 <= u <= 57 {
        Some((u - 48) as u8)
    } else if 97 <= u <= 102 {
        Some((u - 87) as u8)
    } else if 65 <= u <= 70 {
        Some((u - 55) as u8)
    } else {
        None
    }
}

/// The lower-case hex digit for a value below 16.
pub open spec fn spec_hex_char(n: u8) -> char
    recommends
        n < 16,
{
    if n == 0 {
        '0'
    } else if n == 1 {
        '1'
    } else if n == 2 {
        '2'
    } else if n == 3 {
        '3'
    } else if n == 4 {
        '4'
    } else if n == 5 {
        '5'
    } else if n == 6 {
        '6'
    } else if n == 7 {
        '7'
    } else if n == 8 {
        '8'
    } else if n == 9 {
        '9'
    } else if n == 10 {
        'a'
    } else if n == 11 {
        'b'
    } else if n == 12 {
        'c'
    } else if n == 13 {
        'd'
    } else if n == 14 {
        'e'
    } else {
        'f'
    }
}

/// What parsing a color string yields: the three channels if the text is
/// exactly `#` followed by six hex digits, else nothing.
pub open spec fn spec_parse_color(s: Seq<char>) -> Option<LdtkColor> {
    if s.len() == 7 && s[0] == '#' && spec_hex_val(s[1]) is Some && spec_hex_val(s[2]) is Some
        && spec_hex_val(s[3]) is Some && spec_hex_val(s[4]) is Some && spec_hex_val(s[5]) is Some
        && spec_hex_val(s[6]) is Some {
        Some(
            LdtkColor {
                r: (spec_hex_val(s[1])->Some_0 * 16 + spec_hex_val(s[2])->Some_0) as u8,
                g: (spec_hex_val(s[3])->Some_0 * 16 + spec_hex_val(s[4])->Some_0) as u8,
                b: (spec_hex_val(s[5])->Some_0 * 16 + spec_hex_val(s[6])->Some_0) as u8,
            },
        )
    } else {
        None
    }
}

/// The `#rrggbb` text of a color, lower-case hex.
pub open spec fn spec_encode_color(c: LdtkColor) -> Seq<char> {
    seq![
        '#',
        spec_hex_char(c.r / 16),
        spec_hex_char(c.r % 16),
        spec_hex_char(c.g / 16),
        spec_hex_char(c.g % 16),
        spec_hex_char(c.b / 16),
        spec_hex_char(c.b % 16),
    ]
}

/// The numeric value of one hex digit, either case.
fn hex_val(c: char) -> (r: Option<u8>)
    ensures
        r == spec_hex_val(c),
{
    let u = c as u32;
    if 48 <= u && u <= 57 {
        Some((u - 48) as u8)
    } else if 97 <= u && u <= 102 {
        Some((u - 87) as u8)
    } else if 65 <= u && u <= 70 {
        Some((u - 55) as u8)
    } else {
        None
    }
}

/// The lower-case hex digit of a value below 16, as a one-character string.
fn hex_char_str(n: u8) -> (r: &'static str)
    requires
        n < 16,
    ensures
        r@ == seq![spec_hex_char(n)],
{
    let s: &'static str = if n == 0 {
        "0"
    } else if n == 1 {
        "1"
    } else if n == 2 {
        "2"
    } else if n == 3 {
        "3"
    } else if n == 4 {
        "4"
    } else if n == 5 {
        "5"
    } else if n == 6 {
        "6"
    } else if n == 7 {
        "7"
    } else if n == 8 {
        "8"
    } else if n == 9 {
        "9"
    } else if n == 10 {
        "a"
    } else if n == 11 {
        "b"
    } else if n == 12 {
        "c"
    } else if n == 13 {
        "d"
    } else if n == 14 {
        "e"
    } else {
        "f"
    };
    proof {
        reveal_strlit("0");
        reveal_strlit("1");
        reveal_strlit("2");
        reveal_strlit("3");
        reveal_strlit("4");
        reveal_strlit("5");
        reveal_strlit("6");
        reveal_strlit("7");
        reveal_strlit("8");
        reveal_strlit("9");
        reveal_strlit("a");
        reveal_strlit("b");
        reveal_strlit("c");
        reveal_strlit("d");
        reveal_strlit("e");
        reveal_strlit("f");
        assert(s@ =~= seq![spec_hex_char(n)]);
    }
    s
}

impl LdtkColor {
    /// Parse a `#rrggbb` string; a malformed string (wrong length, missing
    /// `#`, a non-hex digit) fails with `MalformedColor` carrying the text.
    pub fn parse(s: &str) -> (r: Result<LdtkColor, DecodeError>)
        ensures
            r is Ok ==> spec_parse_color(s@) == Some(r->Ok_0),
            r is Err ==> spec_parse_color(s@) is None && r->Err_0@ == ErrView::MalformedColor(s@),
    {
        let len = s.unicode_len();
        if len != 7 {
            return Err(DecodeError::MalformedColor(s.to_owned()));
        }
        if s.get_char(0) != '#' {
            return Err(DecodeError::MalformedColor(s.to_owned()));
        }
        let d1 = hex_val(s.get_char(1));
        let d2 = hex_val(s.get_char(2));
        let d3 = hex_val(s.get_char(3));
        let d4 = hex_val(s.get_char(4));
        let d5 = hex_val(s.get_char(5));
        let d6 = hex_val(s.get_char(6));
        match (d1, d2, d3, d4, d5, d6) {
            (Some(h1), Some(l1), Some(h2), Some(l2), Some(h3), Some(l3)) => Ok(
                LdtkColor { r: h1 * 16 + l1, g: h2 * 16 + l2, b: h3 * 16 + l3 },
            ),
            _ => Err(DecodeError::MalformedColor(s.to_owned())),
        }
    }

    /// Encode back to `#rrggbb`, lower-case hex.
    pub fn encode(&self) -> (r: String)
        ensures
            r@ == spec_encode_color(*self),
    {
        let mut out = String::from_str("#");
        out.append(hex_char_str(self.r / 16));
        out.append(hex_char_str(self.r % 16));
        out.append(hex_char_str(self.g / 16));
        out.append(hex_char_str(self.g % 16));
        out.append(hex_char_str(self.b / 16));
        out.append(hex_char_str(self.b % 16));
        proof {
            reveal_strlit("#");
            assert(out@ =~= spec_encode_color(*self));
        }
        out
    }
}

/// Parsing inverts encoding: every color's `#rrggbb` text parses back to the
/// same channels.
pub proof fn lemma_color_round_trip(c: LdtkColor)
    ensures
        spec_parse_color(spec_encode_color(c)) == Some(c),
{
    let s = spec_encode_color(c);
    assert(spec_hex_val(spec_hex_char(c.r / 16)) == Some((c.r / 16) as u8));
    assert(spec_hex_val(spec_hex_char(c.r % 16)) == Some((c.r % 16) as u8));
    assert(spec_hex_val(spec_hex_char(c.g / 16)) == Some((c.g / 16) as u8));
    assert(spec_hex_val(spec_hex_char(c.g % 16)) == Some((c.g % 16) as u8));
    assert(spec_hex_val(spec_hex_char(c.b / 16)) == Some((c.b / 16) as u8));
    assert(spec_hex_val(spec_hex_char(c.b % 16)) == Some((c.b % 16) as u8));
}

} // verus!
