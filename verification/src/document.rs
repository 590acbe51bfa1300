//! The text of a badge document, and the functions that write its parts.

use vstd::prelude::*;
use vstd::string::StringExecFns;
use crate::color::Color;
use crate::num::{int_digits, write_int};
use crate::style::Opacity;
use crate::svg::{attr_head, attr_text, pending, SvgWrite};
use crate::Point;

verus! {

/// The text of an element with the attributes `attrs` and the contents
/// `body`.
pub open spec fn element(name: Seq<char>, attrs: Seq<char>, body: Seq<char>) -> Seq<char> {
    seq!['<'] + name + attrs + seq!['>'] + body + "</"@ + name + seq!['>']
}

/// The text of an element with the attributes `attrs` and no contents.
pub open spec fn empty_element(name: Seq<char>, attrs: Seq<char>) -> Seq<char> {
    seq!['<'] + name + attrs + "/>"@
}

/// The reference to the element with the id `id`.
pub open spec fn id_text(id: Seq<char>) -> Seq<char> {
    seq!['#'] + id
}

/// The reference, as a paint or a mask, to the element with the id `id`.
pub open spec fn id_url_text(id: Seq<char>) -> Seq<char> {
    "url(#"@ + id + seq![')']
}

/// The text of a color: a `#`, then its hex digits.
pub open spec fn color_text(color: Color<'_>) -> Seq<char> {
    seq!['#'] + color.hex()
}

/// The text of the translation by `offset` in both directions.
pub open spec fn translate_text(offset: int) -> Seq<char> {
    "translate("@ + int_digits(offset) + seq![','] + int_digits(offset) + seq![')']
}

/// The path data of the rectangle of the size `size` whose upper left corner
/// is `origin`.
pub open spec fn rect_data(origin: Point<u32>, size: Point<u32>) -> Seq<char> {
    seq!['M'] + int_digits(origin.x as int) + seq![' '] + int_digits(origin.y as int) + seq!['h']
        + int_digits(size.x as int) + seq!['v'] + int_digits(size.y as int) + seq!['H']
        + int_digits(origin.x as int) + seq!['z']
}

/// What a rectangle is filled with.
#[derive(Debug, Clone, Copy)]
pub enum Fill<'a> {
    /// Nothing is said of the fill.
    Unset,
    /// The paint defined under an id.
    Id(&'a str),
    /// A color.
    Color(Color<'a>),
}

/// The attribute that says what `fill` fills with, if it says anything.
pub open spec fn fill_attr(fill: Fill<'_>) -> Seq<char> {
    match fill {
        Fill::Unset => Seq::<char>::empty(),
        Fill::Id(id) => attr_text("fill"@, id_url_text(id@)),
        Fill::Color(c) => attr_text("fill"@, color_text(c)),
    }
}

/// The element that draws the rectangle of the size `size` at `origin`,
/// filled with `fill`.
pub open spec fn rect_path(origin: Point<u32>, size: Point<u32>, fill: Fill<'_>) -> Seq<char> {
    empty_element("path"@, attr_text("d"@, rect_data(origin, size)) + fill_attr(fill))
}

/// The element that draws the shadow of the text whose path is defined
/// under `path_id`, moved by `shadow_offset` pixels.
pub open spec fn shadow_ref(
    path_id: Seq<char>,
    shadow_color: Color<'_>,
    shadow_opacity: Opacity<'_>,
    shadow_offset: u16,
) -> Seq<char> {
    empty_element(
        "use"@,
        attr_text("href"@, id_text(path_id)) + attr_text("fill"@, color_text(shadow_color))
            + attr_text("opacity"@, shadow_opacity.text()) + attr_text(
            "transform"@,
            translate_text(shadow_offset * 100),
        ),
    )
}

/// The element that draws the text whose path is defined under `path_id`.
pub open spec fn fill_ref(path_id: Seq<char>, text_color: Color<'_>) -> Seq<char> {
    empty_element(
        "use"@,
        attr_text("href"@, id_text(path_id)) + attr_text("fill"@, color_text(text_color)),
    )
}

/// The elements that draw the text whose path is defined under `path_id`:
/// its shadow, moved by `shadow_offset` pixels, and the text itself over it.
pub open spec fn text_path_ref(
    text_color: Color<'_>,
    path_id: Seq<char>,
    shadow_color: Color<'_>,
    shadow_opacity: Opacity<'_>,
    shadow_offset: u16,
) -> Seq<char> {
    shadow_ref(path_id, shadow_color, shadow_opacity, shadow_offset) + fill_ref(
        path_id,
        text_color,
    )
}

/// Texts appended one after the other are appended as one.
pub(crate) proof fn lemma_join(h: Seq<char>, a: Seq<char>, b: Seq<char>)
    ensures
        (h + a) + b == h + (a + b),
        h + Seq::<char>::empty() == h,
{
    assert((h + a) + b =~= h + (a + b));
    assert(h + Seq::<char>::empty() =~= h);
}

/// What is written for an element without contents is the element: its
/// head after `lead`, its attributes, and `/>`.
pub(crate) proof fn lemma_empty_element_written(
    t: Seq<char>,
    lead: Seq<char>,
    name: Seq<char>,
    attrs: Seq<char>,
)
    ensures
        ((t + lead + seq!['<'] + name) + attrs) + "/>"@ == t + lead + empty_element(name, attrs),
        (t + lead + seq!['<'] + name) + "/>"@ == t + lead + empty_element(
            name,
            Seq::<char>::empty(),
        ),
{
    assert(((t + lead + seq!['<'] + name) + attrs) + "/>"@ =~= t + lead + empty_element(
        name,
        attrs,
    ));
    assert((t + lead + seq!['<'] + name) + "/>"@ =~= t + lead + empty_element(
        name,
        Seq::<char>::empty(),
    ));
}

/// What is written for an element with contents is the element: its head
/// after `lead`, its `>` before the contents, and its end tag after them.
pub(crate) proof fn lemma_element_written(
    t: Seq<char>,
    lead: Seq<char>,
    name: Seq<char>,
    attrs: Seq<char>,
    body: Seq<char>,
)
    ensures
        (((t + lead + seq!['<'] + name) + attrs) + pending(true) + body) + pending(false) + "</"@
            + name + seq!['>'] == t + lead + element(name, attrs, body),
        ((t + lead + seq!['<'] + name) + pending(true) + body) + pending(false) + "</"@ + name
            + seq!['>'] == t + lead + element(name, Seq::<char>::empty(), body),
{
    assert((((t + lead + seq!['<'] + name) + attrs) + pending(true) + body) + pending(false) + "</"@
        + name + seq!['>'] =~= t + lead + element(name, attrs, body));
    assert(((t + lead + seq!['<'] + name) + pending(true) + body) + pending(false) + "</"@ + name
        + seq!['>'] =~= t + lead + element(name, Seq::<char>::empty(), body));
}

/// Two parts written one after the other are their concatenation.
pub(crate) proof fn lemma_two_written(t: Seq<char>, lead: Seq<char>, a: Seq<char>, b: Seq<char>)
    ensures
        (t + lead + a) + pending(false) + b == t + lead + (a + b),
        (t + lead + a) == t + lead + (a + Seq::<char>::empty()),
        (t + lead + b) == t + lead + (Seq::<char>::empty() + b),
{
    assert((t + lead + a) + pending(false) + b =~= t + lead + (a + b));
    assert((t + lead + a) =~= t + lead + (a + Seq::<char>::empty()));
    assert((t + lead + b) =~= t + lead + (Seq::<char>::empty() + b));
}

/// Writes the reference to the element with the id `id`.
pub fn write_id(w: &mut String, id: &str)
    ensures
        final(w)@ == old(w)@ + id_text(id@),
{
    w.push('#');
    w.append(id);
    assert(w@ =~= old(w)@ + id_text(id@));
}

/// Writes `color`.
pub fn write_color(w: &mut String, color: Color<'_>)
    ensures
        final(w)@ == old(w)@ + color_text(color),
{
    color.fmt(w);
    assert(w@ =~= old(w)@ + color_text(color));
}

/// Writes `opacity`.
pub fn write_opacity(w: &mut String, opacity: Opacity<'_>)
    ensures
        final(w)@ == old(w)@ + opacity.text(),
{
    opacity.fmt(w);
}

/// Writes the reference, as a paint or a mask, to the element with the id
/// `id`.
pub fn write_id_url(w: &mut String, id: &str)
    ensures
        final(w)@ == old(w)@ + id_url_text(id@),
{
    w.append("url(#");
    w.append(id);
    w.push(')');
    assert(w@ =~= old(w)@ + id_url_text(id@));
}

/// Writes the attribute `name` with the color `color`.
pub fn attr_color(svg: &mut SvgWrite, name: &str, color: Color<'_>)
    ensures
        final(svg).text() == old(svg).text() + attr_text(name@, color_text(color)),
        final(svg).is_open() == old(svg).is_open(),
{
    let value_fn = |w: String| -> (r: String)
        ensures r@ == w@ + color_text(color),
    {
        let mut w = w;
        write_color(&mut w, color);
        w
    };
    svg.attr_fn(name, value_fn);
    assert(svg.text() =~= old(svg).text() + attr_text(name@, color_text(color)));
}

/// Writes the attribute `name` with the opacity `opacity`.
pub fn attr_opacity(svg: &mut SvgWrite, name: &str, opacity: Opacity<'_>)
    ensures
        final(svg).text() == old(svg).text() + attr_text(name@, opacity.text()),
        final(svg).is_open() == old(svg).is_open(),
{
    let value_fn = |w: String| -> (r: String)
        ensures r@ == w@ + opacity.text(),
    {
        let mut w = w;
        write_opacity(&mut w, opacity);
        w
    };
    svg.attr_fn(name, value_fn);
    assert(svg.text() =~= old(svg).text() + attr_text(name@, opacity.text()));
}

/// Writes the attribute `name` with the reference to the element `id`.
pub fn attr_id(svg: &mut SvgWrite, name: &str, id: &str)
    ensures
        final(svg).text() == old(svg).text() + attr_text(name@, id_text(id@)),
        final(svg).is_open() == old(svg).is_open(),
{
    let value_fn = |w: String| -> (r: String)
        ensures r@ == w@ + id_text(id@),
    {
        let mut w = w;
        write_id(&mut w, id);
        w
    };
    svg.attr_fn(name, value_fn);
    assert(svg.text() =~= old(svg).text() + attr_text(name@, id_text(id@)));
}

/// Writes the attribute `name` with the reference, as a paint or a mask, to
/// the element `id`.
pub fn attr_id_url(svg: &mut SvgWrite, name: &str, id: &str)
    ensures
        final(svg).text() == old(svg).text() + attr_text(name@, id_url_text(id@)),
        final(svg).is_open() == old(svg).is_open(),
{
    let value_fn = |w: String| -> (r: String)
        ensures r@ == w@ + id_url_text(id@),
    {
        let mut w = w;
        write_id_url(&mut w, id);
        w
    };
    svg.attr_fn(name, value_fn);
    assert(svg.text() =~= old(svg).text() + attr_text(name@, id_url_text(id@)));
}

/// Writes the translation by `offset` in both directions.
fn write_translate(w: &mut String, offset: u32)
    ensures
        final(w)@ == old(w)@ + translate_text(offset as int),
{
    w.append("translate(");
    write_int(w, offset as i128);
    w.push(',');
    write_int(w, offset as i128);
    w.push(')');
    assert(w@ =~= old(w)@ + translate_text(offset as int));
}

/// Writes the path data of the rectangle of the size `size` at `origin`.
fn write_rect_data(w: &mut String, origin: Point<u32>, size: Point<u32>)
    ensures
        final(w)@ == old(w)@ + rect_data(origin, size),
{
    w.push('M');
    write_int(w, origin.x as i128);
    w.push(' ');
    write_int(w, origin.y as i128);
    w.push('h');
    write_int(w, size.x as i128);
    w.push('v');
    write_int(w, size.y as i128);
    w.push('H');
    write_int(w, origin.x as i128);
    w.push('z');
    assert(w@ =~= old(w)@ + rect_data(origin, size));
}

/// Writes the attribute `name` with the translation by `offset` in both
/// directions.
fn attr_translate(svg: &mut SvgWrite, name: &str, offset: u32)
    ensures
        final(svg).text() == old(svg).text() + attr_text(name@, translate_text(offset as int)),
        final(svg).is_open() == old(svg).is_open(),
{
    let value_fn = |w: String| -> (r: String)
        ensures r@ == w@ + translate_text(offset as int),
    {
        let mut w = w;
        write_translate(&mut w, offset);
        w
    };
    svg.attr_fn(name, value_fn);
    assert(svg.text() =~= old(svg).text() + attr_text(name@, translate_text(offset as int)));
}

/// Writes the attribute `name` with the path data of the rectangle of the
/// size `size` at `origin`.
fn attr_rect_data(svg: &mut SvgWrite, name: &str, origin: Point<u32>, size: Point<u32>)
    ensures
        final(svg).text() == old(svg).text() + attr_text(name@, rect_data(origin, size)),
        final(svg).is_open() == old(svg).is_open(),
{
    let value_fn = |w: String| -> (r: String)
        ensures r@ == w@ + rect_data(origin, size),
    {
        let mut w = w;
        write_rect_data(&mut w, origin, size);
        w
    };
    svg.attr_fn(name, value_fn);
    assert(svg.text() =~= old(svg).text() + attr_text(name@, rect_data(origin, size)));
}

/// Writes the element that draws the shadow of a text.
fn write_shadow_ref(
    svg: &mut SvgWrite,
    text_path_id: &str,
    text_shadow_color: Color<'_>,
    text_shadow_opacity: Opacity<'_>,
    text_shadow_offset: u16,
)
    ensures
        final(svg).text() == old(svg).text() + pending(old(svg).is_open()) + shadow_ref(
            text_path_id@,
            text_shadow_color,
            text_shadow_opacity,
            text_shadow_offset,
        ),
        !final(svg).is_open(),
{
    svg.open("use");
    let ghost head = svg.text();
    attr_id(svg, "href", text_path_id);
    attr_color(svg, "fill", text_shadow_color);
    attr_opacity(svg, "opacity", text_shadow_opacity);
    attr_translate(svg, "transform", text_shadow_offset as u32 * 100);
    svg.close_inline();
    proof {
        let a = attr_text("href"@, id_text(text_path_id@));
        let b = attr_text("fill"@, color_text(text_shadow_color));
        let c = attr_text("opacity"@, text_shadow_opacity.text());
        let d = attr_text("transform"@, translate_text(text_shadow_offset * 100));
        lemma_join(head, a, b);
        lemma_join(head, a + b, c);
        lemma_join(head, a + b + c, d);
        lemma_empty_element_written(
            old(svg).text(),
            pending(old(svg).is_open()),
            "use"@,
            a + b + c + d,
        );
    }
}

/// Writes the element that draws a text.
fn write_fill_ref(svg: &mut SvgWrite, text_path_id: &str, text_color: Color<'_>)
    ensures
        final(svg).text() == old(svg).text() + pending(old(svg).is_open()) + fill_ref(
            text_path_id@,
            text_color,
        ),
        !final(svg).is_open(),
{
    svg.open("use");
    let ghost head = svg.text();
    attr_id(svg, "href", text_path_id);
    attr_color(svg, "fill", text_color);
    svg.close_inline();
    proof {
        let a = attr_text("href"@, id_text(text_path_id@));
        let b = attr_text("fill"@, color_text(text_color));
        lemma_join(head, a, b);
        lemma_empty_element_written(old(svg).text(), pending(old(svg).is_open()), "use"@, a + b);
    }
}

/// Writes the elements that draw the text whose path is defined under
/// `text_path_id`: first its shadow, then the text itself.
pub fn write_text_path_ref(
    svg: &mut SvgWrite,
    text_color: Color<'_>,
    text_path_id: &str,
    text_shadow_color: Color<'_>,
    text_shadow_opacity: Opacity<'_>,
    text_shadow_offset: u16,
)
    ensures
        final(svg).text() == old(svg).text() + pending(old(svg).is_open()) + text_path_ref(
            text_color,
            text_path_id@,
            text_shadow_color,
            text_shadow_opacity,
            text_shadow_offset,
        ),
        !final(svg).is_open(),
{
    write_shadow_ref(
        svg,
        text_path_id,
        text_shadow_color,
        text_shadow_opacity,
        text_shadow_offset,
    );
    write_fill_ref(svg, text_path_id, text_color);
    proof {
        lemma_two_written(
            old(svg).text(),
            pending(old(svg).is_open()),
            shadow_ref(
                text_path_id@,
                text_shadow_color,
                text_shadow_opacity,
                text_shadow_offset,
            ),
            fill_ref(text_path_id@, text_color),
        );
    }
}

/// Writes the element that draws the rectangle of the size `size` at
/// `origin`, filled with `fill`.
pub fn write_rect_path(svg: &mut SvgWrite, origin: Point<u32>, size: Point<u32>, fill: Fill<'_>)
    ensures
        final(svg).text() == old(svg).text() + pending(old(svg).is_open()) + rect_path(
            origin,
            size,
            fill,
        ),
        !final(svg).is_open(),
{
    svg.open("path");
    let ghost head = svg.text();
    attr_rect_data(svg, "d", origin, size);
    match fill {
        Fill::Unset => {},
        Fill::Color(c) => {
            attr_color(svg, "fill", c);
        },
        Fill::Id(id) => {
            attr_id_url(svg, "fill", id);
        },
    }
    svg.close_inline();
    proof {
        let a = attr_text("d"@, rect_data(origin, size));
        lemma_join(head, a, fill_attr(fill));
        lemma_empty_element_written(
            old(svg).text(),
            pending(old(svg).is_open()),
            "path"@,
            a + fill_attr(fill),
        );
    }
}

} // verus!
