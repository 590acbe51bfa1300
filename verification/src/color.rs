//! Badge colors: nine named colors and custom hex colors.

use vstd::prelude::*;
use vstd::string::StrSliceExecFns;
use vstd::string::StringExecFns;
use vstd::string::StringSliceAdditionalSpecFns;

verus! {

pub const GREEN_COLOR_HEX: &'static str = "3C1";

pub const BLUE_COLOR_HEX: &'static str = "08C";

pub const RED_COLOR_HEX: &'static str = "E43";

pub const YELLOW_COLOR_HEX: &'static str = "DB1";

pub const ORANGE_COLOR_HEX: &'static str = "F73";

pub const PURPLE_COLOR_HEX: &'static str = "94E";

pub const PINK_COLOR_HEX: &'static str = "E5B";

pub const GREY_COLOR_HEX: &'static str = "999";

pub const CYAN_COLOR_HEX: &'static str = "1BC";

pub const BLACK_COLOR_HEX: &'static str = "2A2A2A";

/// Possible colors for use in a badge.
#[derive(Debug, Clone, Copy, PartialEq)]
pub enum Color<'a> {
    /// `green`
    Green,
    /// `blue`
    Blue,
    /// `red`
    Red,
    /// `yellow`
    Yellow,
    /// `orange`
    Orange,
    /// `purple`
    Purple,
    /// `pink`
    Pink,
    /// `grey`
    Grey,
    /// `cyan`
    Cyan,
    /// `black`
    Black,
    /// A custom hex color in the form `RGB` or `RRGGBB`.
    Custom(&'a str),
}

/// Whether `c` is an ASCII hexadecimal digit.
pub open spec fn is_hex_digit(c: char) -> bool {
    ('0' <= c && c <= '9') || ('a' <= c && c <= 'f') || ('A' <= c && c <= 'F')
}

/// Whether `s` is a hex color: three or six hexadecimal digits.
pub open spec fn is_hex_color(s: Seq<char>) -> bool {
    (s.len() == 3 || s.len() == 6) && forall|i: int| 0 <= i < s.len() ==> is_hex_digit(#[trigger] s[i])
}

/// `c`, in lower case where it is an ASCII capital letter.
pub open spec fn lower_char(c: char) -> char {
    if 'A' <= c && c <= 'Z' {
        ((c as u8) + 32) as u8 as char
    } else {
        c
    }
}

/// `s` with each ASCII capital letter in lower case.
pub open spec fn ascii_lower(s: Seq<char>) -> Seq<char> {
    Seq::new(s.len(), |i: int| lower_char(s[i]))
}

/// The color that the lower-case word `name` names.
pub open spec fn named_color(name: Seq<char>) -> Option<Color<'static>> {
    if name == "green"@ {
        Some(Color::Green)
    } else if name == "blue"@ {
        Some(Color::Blue)
    } else if name == "red"@ {
        Some(Color::Red)
    } else if name == "yellow"@ {
        Some(Color::Yellow)
    } else if name == "orange"@ {
        Some(Color::Orange)
    } else if name == "purple"@ {
        Some(Color::Purple)
    } else if name == "pink"@ {
        Some(Color::Pink)
    } else if name == "grey"@ || name == "gray"@ {
        Some(Color::Grey)
    } else if name == "cyan"@ {
        Some(Color::Cyan)
    } else if name == "black"@ {
        Some(Color::Black)
    } else {
        None
    }
}

/// An ASCII string has one byte for each of its characters.
pub(crate) proof fn lemma_ascii_len(s: &str)
    requires
        s.is_ascii(),
    ensures
        s.spec_bytes().len() == s@.len(),
{
    vstd::string::is_ascii_spec_bytes(s);
}

/// Whether `hex` is three or six hexadecimal digits.
pub fn is_valid_hex_color(hex: &str) -> (valid: bool)
    ensures
        valid == is_hex_color(hex@),
{
    if !hex.is_ascii() {
        assert(!is_hex_color(hex@)) by {
            if is_hex_color(hex@) {
                assert forall|i: int| 0 <= i < hex@.len() implies '\0' <= #[trigger] hex@[i]
                    <= '\u{7f}' by {
                    assert(is_hex_digit(hex@[i]));
                }
            }
        }
        return false;
    }
    proof {
        lemma_ascii_len(hex);
    }
    let len: usize = hex.as_bytes().len();
    if len != 3 && len != 6 {
        return false;
    }
    let mut i: usize = 0;
    while i < len
        invariant
            hex.is_ascii(),
            len == hex@.len(),
            i <= len,
            forall|j: int| 0 <= j < i ==> is_hex_digit(#[trigger] hex@[j]),
        decreases len - i,
    {
        let b: u8 = hex.get_ascii(i);
        let digit = (48 <= b && b <= 57) || (97 <= b && b <= 102) || (65 <= b && b <= 70);
        assert(hex@[i as int] <= '\u{7f}');
        if !digit {
            assert(!is_hex_digit(hex@[i as int]));
            return false;
        }
        i = i + 1;
    }
    true
}

/// Whether `s`, read without regard to the case of its ASCII letters, is the
/// word `name`.
fn is_name(s: &str, name: &str) -> (eq: bool)
    requires
        s.is_ascii(),
        name.is_ascii(),
    ensures
        eq == (ascii_lower(s@) == name@),
{
    proof {
        lemma_ascii_len(s);
        lemma_ascii_len(name);
    }
    let len: usize = s.as_bytes().len();
    if len != name.as_bytes().len() {
        return false;
    }
    let mut i: usize = 0;
    while i < len
        invariant
            s.is_ascii(),
            name.is_ascii(),
            len == s@.len(),
            len == name@.len(),
            i <= len,
            forall|j: int| 0 <= j < i ==> lower_char(s@[j]) == #[trigger] name@[j],
        decreases len - i,
    {
        let b: u8 = s.get_ascii(i);
        let n: u8 = name.get_ascii(i);
        let low: u8 = if 65 <= b && b <= 90 { b + 32 } else { b };
        assert(s@[i as int] <= '\u{7f}');
        assert(name@[i as int] <= '\u{7f}');
        assert(lower_char(s@[i as int]) as u8 == low);
        if low != n {
            assert(ascii_lower(s@)[i as int] != name@[i as int]);
            return false;
        }
        i = i + 1;
    }
    assert(ascii_lower(s@) =~= name@);
    true
}

impl<'a> Color<'a> {
    /// The color that `s` denotes: the color it names, whatever the case of
    /// its letters, or else the custom color whose hex digits it is.
    pub open spec fn parse_spec(s: &'a str) -> Option<Color<'a>> {
        match named_color(ascii_lower(s@)) {
            Some(c) => Some(c),
            None => if is_hex_color(s@) {
                Some(Color::Custom(s))
            } else {
                None
            },
        }
    }

    /// The hex digits of the color.
    pub open spec fn hex(&self) -> Seq<char> {
        match self {
            Color::Green => GREEN_COLOR_HEX@,
            Color::Blue => BLUE_COLOR_HEX@,
            Color::Red => RED_COLOR_HEX@,
            Color::Yellow => YELLOW_COLOR_HEX@,
            Color::Orange => ORANGE_COLOR_HEX@,
            Color::Purple => PURPLE_COLOR_HEX@,
            Color::Pink => PINK_COLOR_HEX@,
            Color::Grey => GREY_COLOR_HEX@,
            Color::Cyan => CYAN_COLOR_HEX@,
            Color::Black => BLACK_COLOR_HEX@,
            Color::Custom(s) => s@,
        }
    }

    /// Parses a color value.
    ///
    /// This can be either a RGB hex value, or a named color.
    pub fn parse(s: &'a str) -> (color: Option<Self>)
        ensures
            color == Self::parse_spec(s),
    {
        proof {
            reveal_names();
        }
        if !s.is_ascii() {
            proof {
                let i = choose|i: int| 0 <= i < s@.len() && !('\0' <= #[trigger] s@[i] <= '\u{7f}');
                assert(ascii_lower(s@)[i] == s@[i]);
                assert(!is_hex_digit(s@[i]));
                if named_color(ascii_lower(s@)) is Some {
                    lemma_named_is_ascii(ascii_lower(s@));
                }
            }
            return None;
        }
        if is_name(s, "green") {
            Some(Color::Green)
        } else if is_name(s, "blue") {
            Some(Color::Blue)
        } else if is_name(s, "red") {
            Some(Color::Red)
        } else if is_name(s, "yellow") {
            Some(Color::Yellow)
        } else if is_name(s, "orange") {
            Some(Color::Orange)
        } else if is_name(s, "purple") {
            Some(Color::Purple)
        } else if is_name(s, "pink") {
            Some(Color::Pink)
        } else if is_name(s, "grey") || is_name(s, "gray") {
            Some(Color::Grey)
        } else if is_name(s, "cyan") {
            Some(Color::Cyan)
        } else if is_name(s, "black") {
            Some(Color::Black)
        } else if is_valid_hex_color(s) {
            Some(Color::Custom(s))
        } else {
            None
        }
    }

    /// Returns a RGB hex string for the color.
    pub fn as_str(&'a self) -> (hex: &'a str)
        ensures
            hex@ == self.hex(),
    {
        match self {
            Color::Green => GREEN_COLOR_HEX,
            Color::Blue => BLUE_COLOR_HEX,
            Color::Red => RED_COLOR_HEX,
            Color::Yellow => YELLOW_COLOR_HEX,
            Color::Orange => ORANGE_COLOR_HEX,
            Color::Purple => PURPLE_COLOR_HEX,
            Color::Pink => PINK_COLOR_HEX,
            Color::Grey => GREY_COLOR_HEX,
            Color::Cyan => CYAN_COLOR_HEX,
            Color::Black => BLACK_COLOR_HEX,
            Color::Custom(s) => s,
        }
    }

    /// Writes the color to `w`: a `#`, then its hex digits.
    pub fn fmt(&self, w: &mut String)
        ensures
            final(w)@ == old(w)@ + seq!['#'] + self.hex(),
    {
        w.push('#');
        w.append(self.as_str());
        assert(w@ =~= old(w)@ + seq!['#'] + self.hex());
    }
}

/// The characters of the ten color names.
pub proof fn reveal_names()
    ensures
        "green"@ == seq!['g', 'r', 'e', 'e', 'n'],
        "blue"@ == seq!['b', 'l', 'u', 'e'],
        "red"@ == seq!['r', 'e', 'd'],
        "yellow"@ == seq!['y', 'e', 'l', 'l', 'o', 'w'],
        "orange"@ == seq!['o', 'r', 'a', 'n', 'g', 'e'],
        "purple"@ == seq!['p', 'u', 'r', 'p', 'l', 'e'],
        "pink"@ == seq!['p', 'i', 'n', 'k'],
        "grey"@ == seq!['g', 'r', 'e', 'y'],
        "gray"@ == seq!['g', 'r', 'a', 'y'],
        "cyan"@ == seq!['c', 'y', 'a', 'n'],
        "black"@ == seq!['b', 'l', 'a', 'c', 'k'],
{
    reveal_strlit("green");
    reveal_strlit("blue");
    reveal_strlit("red");
    reveal_strlit("yellow");
    reveal_strlit("orange");
    reveal_strlit("purple");
    reveal_strlit("pink");
    reveal_strlit("grey");
    reveal_strlit("gray");
    reveal_strlit("cyan");
    reveal_strlit("black");
    assert("green"@ =~= seq!['g', 'r', 'e', 'e', 'n']);
    assert("blue"@ =~= seq!['b', 'l', 'u', 'e']);
    assert("red"@ =~= seq!['r', 'e', 'd']);
    assert("yellow"@ =~= seq!['y', 'e', 'l', 'l', 'o', 'w']);
    assert("orange"@ =~= seq!['o', 'r', 'a', 'n', 'g', 'e']);
    assert("purple"@ =~= seq!['p', 'u', 'r', 'p', 'l', 'e']);
    assert("pink"@ =~= seq!['p', 'i', 'n', 'k']);
    assert("grey"@ =~= seq!['g', 'r', 'e', 'y']);
    assert("gray"@ =~= seq!['g', 'r', 'a', 'y']);
    assert("cyan"@ =~= seq!['c', 'y', 'a', 'n']);
    assert("black"@ =~= seq!['b', 'l', 'a', 'c', 'k']);
}

/// The name of a color is made of ASCII characters.
pub proof fn lemma_named_is_ascii(name: Seq<char>)
    requires
        named_color(name) is Some,
    ensures
        vstd::utf8::is_ascii_chars(name),
{
    reveal_names();
}

/// A hex color parses as the custom color of its own digits, which it gives
/// back unchanged.
pub proof fn lemma_hex_color_round_trip(s: &str)
    requires
        is_hex_color(s@),
    ensures
        Color::parse_spec(s) == Some(Color::Custom(s)),
        Color::Custom(s).hex() == s@,
{
    reveal_names();
    let low = ascii_lower(s@);
    assert(low.len() == s@.len());
    if s@.len() == 3 {
        assert(is_hex_digit(s@[0]));
        assert(low[0] == lower_char(s@[0]));
        assert(low[0] != 'r');
    } else {
        assert(is_hex_digit(s@[0]));
        assert(low[0] == lower_char(s@[0]));
        assert(low[0] != 'y' && low[0] != 'o' && low[0] != 'p');
    }
}

/// Nothing parses as a color but a color's name and a hex color.
pub proof fn lemma_parse_rejects(s: &str)
    requires
        !is_hex_color(s@),
        named_color(ascii_lower(s@)) is None,
    ensures
        Color::parse_spec(s) is None,
{
}

} // verus!
