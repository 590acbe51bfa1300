//! Badge styles: opacities, gradients and the two preset styles.

use vstd::prelude::*;
use vstd::string::StrSliceExecFns;
use vstd::string::StringExecFns;
use crate::color::{lemma_ascii_len, Color};

verus! {

/// Whether `c` is an ASCII decimal digit.
pub open spec fn is_digit(c: char) -> bool {
    '0' <= c && c <= '9'
}

/// Whether `f` is a point followed by one or two decimal digits.
pub open spec fn is_fraction(f: Seq<char>) -> bool {
    &&& f.len() == 2 || f.len() == 3
    &&& f[0] == '.'
    &&& is_digit(f[1])
    &&& f.len() == 3 ==> is_digit(f[2])
}

/// The shortest text of the fraction `f`: `0` where it is zero, and else the
/// point and its digits without a zero at the end.
pub open spec fn shortest_fraction(f: Seq<char>) -> Seq<char>
    recommends
        is_fraction(f),
{
    let tenths = f[1];
    let hundredths = if f.len() == 3 { f[2] } else { '0' };
    if tenths == '0' && hundredths == '0' {
        seq!['0']
    } else if hundredths == '0' {
        seq!['.', tenths]
    } else {
        seq!['.', tenths, hundredths]
    }
}

/// The canonical text of the opacity that `s` denotes, where it denotes one:
/// `0`, `1`, or a fraction of one or two digits, with or without a zero before
/// the point, or `1.0` or `1.00`.
pub open spec fn canonical_opacity(s: Seq<char>) -> Option<Seq<char>> {
    if s == seq!['0'] || s == seq!['1'] {
        Some(s)
    } else if s == seq!['1', '.', '0'] || s == seq!['1', '.', '0', '0'] {
        Some(seq!['1'])
    } else if is_fraction(s) {
        Some(shortest_fraction(s))
    } else if s.len() > 0 && s[0] == '0' && is_fraction(s.skip(1)) {
        Some(shortest_fraction(s.skip(1)))
    } else {
        None
    }
}

/// Wrapper around a string opacity value.
#[derive(Debug, Clone, Copy, PartialEq)]
pub struct Opacity<'a>(&'a str);

impl<'a> Opacity<'a> {
    /// The text of the opacity.
    pub closed spec fn text(&self) -> Seq<char> {
        self.0@
    }

    /// A raw unchecked opacity value.
    pub fn raw(s: &'a str) -> (opacity: Self)
        ensures
            opacity.text() == s@,
    {
        Self(s)
    }

    /// Parse an opacity value.
    pub fn parse(s: &'a str) -> (opacity: Option<Self>)
        ensures
            match opacity {
                Some(o) => canonical_opacity(s@) == Some(o.text()),
                None => canonical_opacity(s@) is None,
            },
    {
        proof {
            reveal_strlit("0");
            reveal_strlit("1");
        }
        if !s.is_ascii() {
            proof {
                let i = choose|i: int| 0 <= i < s@.len() && !('\0' <= #[trigger] s@[i] <= '\u{7f}');
                if i > 0 {
                    assert(s@.skip(1)[i - 1] == s@[i]);
                }
            }
            return None;
        }
        proof {
            lemma_ascii_len(s);
        }
        let len: usize = s.as_bytes().len();
        if len == 0 || len > 4 {
            return None;
        }
        let first: u8 = s.get_ascii(0);
        if len == 1 {
            if first == 48 || first == 49 {
                assert(s@ =~= seq![s@[0]]);
                return Some(Self(s));
            }
            return None;
        }
        let second: u8 = s.get_ascii(1);
        if first == 49 {
            if second != 46 || len == 2 || s.get_ascii(2) != 48 {
                return None;
            }
            if len == 4 && s.get_ascii(3) != 48 {
                return None;
            }
            assert(s@ =~= seq!['1', '.', '0'] || s@ =~= seq!['1', '.', '0', '0']);
            return Some(Self("1"));
        }
        let start: usize = if first == 48 { 1 } else { 0 };
        let ghost f = if first == 48 { s@.skip(1) } else { s@ };
        assert(f.len() == len - start);
        assert(forall|i: int| 0 <= i < f.len() ==> f[i] == s@[i + start]);
        if len - start != 2 && len - start != 3 {
            return None;
        }
        let point: u8 = s.get_ascii(start);
        let tenths: u8 = s.get_ascii(start + 1);
        let hundredths: u8 = if len - start == 3 { s.get_ascii(start + 2) } else { 48 };
        let fraction = point == 46 && 48 <= tenths && tenths <= 57 && 48 <= hundredths
            && hundredths <= 57;
        assert(fraction == is_fraction(f));
        if !fraction {
            assert(first != 48 ==> !(s@[0] == '0'));
            return None;
        }
        assert(first == 48 ==> !is_fraction(s@));
        if tenths == 48 && hundredths == 48 {
            Some(Self("0"))
        } else if hundredths == 48 {
            let short = s.substring_ascii(start, start + 2);
            assert(short@ =~= seq!['.', f[1]]);
            Some(Self(short))
        } else {
            let whole = s.substring_ascii(start, len);
            assert(whole@ =~= seq!['.', f[1], f[2]]);
            Some(Self(whole))
        }
    }

    /// Returns `true` if the value is completely opaque.
    pub fn is_opaque(&self) -> (opaque: bool)
        ensures
            opaque == (self.text() == seq!['1']),
    {
        self.is_char(49)
    }

    /// Returns `true` if the value is completely transparent.
    pub fn is_transparent(&self) -> (transparent: bool)
        ensures
            transparent == (self.text() == seq!['0']),
    {
        self.is_char(48)
    }

    /// Whether the text is the one ASCII character `b`.
    fn is_char(&self, b: u8) -> (is: bool)
        requires
            b < 128,
        ensures
            is == (self.text() == seq![b as char]),
    {
        if !self.0.is_ascii() {
            return false;
        }
        proof {
            lemma_ascii_len(self.0);
        }
        if self.0.as_bytes().len() != 1 {
            return false;
        }
        let only: u8 = self.0.get_ascii(0);
        assert(self.0@ =~= seq![self.0@[0]]);
        assert(self.0@[0] <= '\u{7f}');
        only == b
    }

    /// Returns the opacity value.
    pub fn as_str(&'a self) -> (text: &'a str)
        ensures
            text@ == self.text(),
    {
        self.0
    }

    /// Writes the opacity to `w`.
    pub fn fmt(&self, w: &mut String)
        ensures
            final(w)@ == old(w)@ + self.text(),
    {
        w.append(self.0);
    }
}

/// Parsing the canonical text of an opacity gives that text again.
pub proof fn lemma_canonical_opacity_idempotent(s: Seq<char>)
    requires
        canonical_opacity(s) is Some,
    ensures
        canonical_opacity(canonical_opacity(s)->0) == canonical_opacity(s),
{
    let c = canonical_opacity(s)->0;
    if c.len() == 2 {
        assert(c =~= seq!['.', c[1]]);
        assert(is_fraction(c));
        assert(shortest_fraction(c) =~= c);
    } else if c.len() == 3 {
        assert(c =~= seq!['.', c[1], c[2]]);
        assert(is_fraction(c));
        assert(shortest_fraction(c) =~= c);
    }
}

/// A two color gradient value.
#[derive(Debug, Clone)]
pub struct Gradient<'a> {
    /// The start color.
    pub start: Color<'a>,
    /// The end color.
    pub end: Option<Color<'a>>,
    /// The opacity of the gradient.
    pub opacity: Opacity<'a>,
}

/// A badge style.
#[derive(Debug, Clone)]
#[non_exhaustive]
pub struct Style<'a> {
    /// The height of the badge.
    pub height: u16,
    /// The border radius of the badge.
    pub border_radius: u16,
    /// The background color of the badge.
    ///
    /// This is specific to the status.
    pub background: Color<'a>,
    /// The text color of the badge.
    pub text_color: Color<'a>,
    /// The text shadow color of the badge.
    pub text_shadow_color: Color<'a>,
    /// The text shadow opacity of the badge.
    pub text_shadow_opacity: Opacity<'a>,
    /// The text shadow offset of the badge.
    pub text_shadow_offset: u16,
    /// The label background color of the badge.
    pub label_background: Option<Color<'a>>,
    /// The label text color of the badge.
    ///
    /// If `None`, defaults to `text_color`.
    pub label_text_color: Option<Color<'a>>,
    /// The background gradient of the badge.
    pub gradient: Option<Gradient<'a>>,
}

impl<'a> Style<'a> {
    /// Whether the style is the classic one but for its border radius, its
    /// text shadow opacity and its gradient.
    pub open spec fn has_classic_colors(&self) -> bool {
        &&& self.height == 20
        &&& self.background == Color::Blue
        &&& self.text_color == Color::Custom("fff")
        &&& self.text_shadow_color == Color::Custom("000")
        &&& self.text_shadow_offset == 1
        &&& self.label_background == Some(Color::Custom("555"))
        &&& self.label_text_color is None
    }

    /// Whether the style is the classic one: rounded corners, a highlight
    /// that fades from top to bottom, and a text shadow of opacity `.25`.
    pub open spec fn is_classic(&self) -> bool {
        &&& self.has_classic_colors()
        &&& self.border_radius == 3
        &&& self.text_shadow_opacity.text() == ".25"@
        &&& self.gradient matches Some(g) && g.start == Color::Custom("eee") && g.end is None
            && g.opacity.text() == ".1"@
    }

    /// Whether the style is the flat one: square corners, no gradient, and a
    /// text shadow of opacity `.1`.
    pub open spec fn is_flat(&self) -> bool {
        &&& self.has_classic_colors()
        &&& self.border_radius == 0
        &&& self.text_shadow_opacity.text() == ".1"@
        &&& self.gradient is None
    }

    /// A classic badge style.
    pub fn classic() -> (style: Self)
        ensures
            style.is_classic(),
    {
        Self {
            height: 20,
            border_radius: 3,
            background: Color::Blue,
            text_color: Color::Custom("fff"),
            text_shadow_color: Color::Custom("000"),
            text_shadow_opacity: Opacity::raw(".25"),
            text_shadow_offset: 1,
            label_background: Some(Color::Custom("555")),
            label_text_color: None,
            gradient: Some(
                Gradient { start: Color::Custom("eee"), end: None, opacity: Opacity::raw(".1") },
            ),
        }
    }

    /// A flat badge style.
    pub fn flat() -> (style: Self)
        ensures
            style.is_flat(),
    {
        Self {
            gradient: None,
            border_radius: 0,
            text_shadow_opacity: Opacity::raw(".1"),
            ..Self::classic()
        }
    }

    /// The preset style that `name` names: `classic` or `flat`.
    pub fn parse(name: &str) -> (style: Option<Self>)
        ensures
            name@ == "classic"@ ==> style is Some && style->0.is_classic(),
            name@ == "flat"@ ==> style is Some && style->0.is_flat(),
            name@ != "classic"@ && name@ != "flat"@ ==> style is None,
    {
        proof {
            reveal_strlit("classic");
            reveal_strlit("flat");
            assert("classic"@.len() == 7 && "flat"@.len() == 4);
        }
        if is_word(name, "classic") {
            Some(Self::classic())
        } else if is_word(name, "flat") {
            Some(Self::flat())
        } else {
            None
        }
    }
}

/// Whether `s` is the ASCII word `word`.
fn is_word(s: &str, word: &str) -> (eq: bool)
    requires
        word.is_ascii(),
    ensures
        eq == (s@ == word@),
{
    if !s.is_ascii() {
        return false;
    }
    proof {
        lemma_ascii_len(s);
        lemma_ascii_len(word);
    }
    let len: usize = s.as_bytes().len();
    if len != word.as_bytes().len() {
        return false;
    }
    let mut i: usize = 0;
    while i < len
        invariant
            s.is_ascii(),
            word.is_ascii(),
            len == s@.len(),
            len == word@.len(),
            i <= len,
            forall|j: int| 0 <= j < i ==> s@[j] == #[trigger] word@[j],
        decreases len - i,
    {
        let a: u8 = s.get_ascii(i);
        let b: u8 = word.get_ascii(i);
        assert(s@[i as int] <= '\u{7f}');
        assert(word@[i as int] <= '\u{7f}');
        if a != b {
            return false;
        }
        i = i + 1;
    }
    assert(s@ =~= word@);
    true
}

} // verus!
