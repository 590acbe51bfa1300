//! A minimal streaming writer of markup: tags, attributes and escaped text.

use vstd::prelude::*;
use vstd::string::StringExecFns;
use crate::num::{int_digits, write_int};
use crate::util::{escaped, Escape};

verus! {

/// The `>` that is still owed while a tag is open.
pub open spec fn pending(open: bool) -> Seq<char> {
    if open {
        seq!['>']
    } else {
        Seq::<char>::empty()
    }
}

/// The text that begins an attribute: a space, its name, `="`.
pub open spec fn attr_head(name: Seq<char>) -> Seq<char> {
    seq![' '] + name + "=\""@
}

/// The text of an attribute: a space, its name, and its value in quotes.
pub open spec fn attr_text(name: Seq<char>, value: Seq<char>) -> Seq<char> {
    attr_head(name) + value + seq!['"']
}

/// A writer of markup that appends to a string.
pub struct SvgWrite {
    w: String,
    open: bool,
}

impl SvgWrite {
    /// The text written so far.
    pub closed spec fn text(&self) -> Seq<char> {
        self.w@
    }

    /// Whether the last tag opened still lacks its `>`.
    pub closed spec fn is_open(&self) -> bool {
        self.open
    }

    /// Starts a document after the text of `w`: opens the `svg` tag.
    pub fn start(w: String) -> (svg: Self)
        ensures
            svg.text() == w@ + "<svg"@,
            svg.is_open(),
    {
        let mut this = Self { w, open: false };
        this.open("svg");
        assert(this.w@ =~= w@ + "<svg"@) by {
            reveal_strlit("<svg");
            reveal_strlit("svg");
        }
        this
    }

    /// Opens the tag `name`, after closing the head of the tag before it.
    pub fn open(&mut self, name: &str)
        ensures
            final(self).text() == old(self).text() + pending(old(self).is_open()) + seq!['<']
                + name@,
            final(self).is_open(),
    {
        self.end_if_open();
        self.w.push('<');
        self.w.append(name);
        self.open = true;
        assert(self.w@ =~= old(self).w@ + pending(old(self).open) + seq!['<'] + name@);
    }

    /// Writes the end tag of `name`, after closing the head of the tag before
    /// it.
    pub fn close(&mut self, name: &str)
        ensures
            final(self).text() == old(self).text() + pending(old(self).is_open()) + "</"@ + name@
                + seq!['>'],
            !final(self).is_open(),
    {
        self.end_if_open();
        self.w.append("</");
        self.w.append(name);
        self.w.push('>');
        assert(self.w@ =~= old(self).w@ + pending(old(self).open) + "</"@ + name@ + seq!['>']);
    }

    /// Ends the open tag as an empty element.
    pub fn close_inline(&mut self)
        requires
            old(self).is_open(),
        ensures
            final(self).text() == old(self).text() + "/>"@,
            !final(self).is_open(),
    {
        self.open = false;
        self.w.append("/>");
    }

    /// Writes the attribute `name`, whose value is what `value_fn` appends.
    pub fn attr_fn<F: FnOnce(String) -> String>(&mut self, name: &str, value_fn: F)
        requires
            forall|w: String| call_requires(value_fn, (w,)),
        ensures
            final(self).is_open() == old(self).is_open(),
            exists|head: String, value: String|
                {
                    &&& head@ == old(self).text() + attr_head(name@)
                    &&& #[trigger] call_ensures(value_fn, (head,), value)
                    &&& final(self).text() == value@ + seq!['"']
                },
    {
        let mut w = String::new();
        core::mem::swap(&mut w, &mut self.w);
        w.push(' ');
        w.append(name);
        w.append("=\"");
        let ghost head = w;
        assert(head@ =~= old(self).w@ + attr_head(name@));
        let mut w = value_fn(w);
        let ghost value = w;
        w.push('"');
        self.w = w;
        assert(call_ensures(value_fn, (head,), value) && self.w@ == value@ + seq!['"']);
    }

    /// Writes the attribute `name` with the value `value`.
    pub fn attr_str(&mut self, name: &str, value: &str)
        ensures
            final(self).text() == old(self).text() + attr_text(name@, value@),
            final(self).is_open() == old(self).is_open(),
    {
        let value_fn = |w: String| -> (r: String)
            ensures r@ == w@ + value@,
        {
            let mut w = w;
            w.append(value);
            w
        };
        self.attr_fn(name, value_fn);
        assert(self.text() =~= old(self).text() + attr_text(name@, value@));
    }

    /// Writes the attribute `name` with the decimal text of `value`.
    pub fn attr_int(&mut self, name: &str, value: i128)
        ensures
            final(self).text() == old(self).text() + attr_text(name@, int_digits(value as int)),
            final(self).is_open() == old(self).is_open(),
    {
        let value_fn = |w: String| -> (r: String)
            ensures r@ == w@ + int_digits(value as int),
        {
            let mut w = w;
            write_int(&mut w, value);
            w
        };
        self.attr_fn(name, value_fn);
        assert(self.text() =~= old(self).text() + attr_text(name@, int_digits(value as int)));
    }

    /// Writes `value` escaped, then closes the head of the open tag.
    pub fn write_value(&mut self, value: &str)
        ensures
            final(self).text() == old(self).text() + escaped(value@) + pending(old(self).is_open()),
            !final(self).is_open(),
    {
        Escape(value).fmt(&mut self.w);
        self.end_if_open();
    }

    /// Ends the document: writes the end tag of `svg` and returns the text.
    pub fn finish(self) -> (w: String)
        ensures
            w@ == self.text() + pending(self.is_open()) + "</svg>"@,
    {
        let mut this = self;
        this.close("svg");
        assert(this.w@ =~= self.w@ + pending(self.open) + "</svg>"@) by {
            reveal_strlit("</svg>");
            reveal_strlit("</");
            reveal_strlit("svg");
        }
        this.w
    }

    /// Closes the head of the open tag, if one is open.
    fn end_if_open(&mut self)
        ensures
            final(self).w@ == old(self).w@ + pending(old(self).open),
            !final(self).open,
    {
        if self.open {
            self.w.push('>');
            self.open = false;
        }
        assert(self.w@ =~= old(self).w@ + pending(old(self).open));
    }
}

} // verus!
