//! Escaping of text for markup.

use vstd::prelude::*;
use vstd::string::StringExecFns;

verus! {

/// Escapes bad characters for displaying within XML/HTML.
#[derive(Debug)]
pub struct Escape<'a>(pub &'a str);

/// What stands for `c` in escaped text, where `c` is not written as it is.
pub open spec fn escape_of(c: char) -> Option<Seq<char>> {
    if c == '&' {
        Some("&amp;"@)
    } else if c == '<' {
        Some("&lt"@)
    } else if c == '>' {
        Some("&gt"@)
    } else if c == '"' {
        Some("&quot"@)
    } else if c == '\'' {
        Some("&#39"@)
    } else {
        None
    }
}

/// `s` with each bad character replaced by what stands for it.
pub open spec fn escaped(s: Seq<char>) -> Seq<char>
    decreases s.len(),
{
    if s.len() == 0 {
        Seq::<char>::empty()
    } else {
        escaped(s.drop_last()) + match escape_of(s.last()) {
            Some(e) => e,
            None => seq![s.last()],
        }
    }
}

/// What to write in place of `c`, where `c` is a bad character.
pub fn escape_char(c: char) -> (e: Option<&'static str>)
    ensures
        match e {
            Some(e) => escape_of(c) == Some(e@),
            None => escape_of(c) is None,
        },
{
    match c {
        '&' => Some("&amp;"),
        '<' => Some("&lt"),
        '>' => Some("&gt"),
        '"' => Some("&quot"),
        '\'' => Some("&#39"),
        _ => None,
    }
}

impl<'a> Escape<'a> {
    /// Writes the escaped text to `w`.
    pub fn fmt(&self, w: &mut String)
        ensures
            final(w)@ == old(w)@ + escaped(self.0@),
    {
        broadcast use vstd::string::axiom_spec_iter;

        let s = self.0;
        for c in it: s.chars()
            invariant
                it.seq() == s@,
                w@ == old(w)@ + escaped(s@.take(it.index())),
        {
            let ghost i = it.index();
            assert(s@.take(i + 1).drop_last() =~= s@.take(i));
            assert(s@.take(i + 1).last() == c);
            match escape_char(c) {
                Some(e) => {
                    w.append(e);
                },
                None => {
                    w.push(c);
                },
            }
            assert(w@ =~= old(w)@ + escaped(s@.take(i + 1)));
        }
        assert(s@.take(s@.len() as int) =~= s@);
    }
}

} // verus!
