//! The composition of a badge: its geometry, and its document.

use vstd::prelude::*;
use vstd::string::StrSliceExecFns;
use vstd::string::StringExecFns;
use crate::color::Color;
use crate::document::{
    attr_color, attr_id_url, attr_opacity, color_text, element, empty_element, id_url_text,
    lemma_element_written, lemma_empty_element_written, lemma_join, lemma_two_written, rect_path,
    text_path_ref, write_rect_path, write_text_path_ref, Fill,
};
use crate::font::{
    render_text_path, run_of, scaled_width, Font, FontFace, MissingGlyph, Run, ADVANCE_LIMIT,
};
use crate::num::{int_digits, write_int};
use crate::style::{Gradient, Opacity, Style};
use crate::svg::{attr_text, pending, SvgWrite};
use crate::Point;

verus! {

/// The id of the mask that rounds the corners.
pub const MASK_ID: &'static str = "m";

/// The id of the gradient that lies over the backgrounds.
pub const GRADIENT_ID: &'static str = "g";

/// The id of the path of the label.
pub const LABEL_PATH_ID: &'static str = "l";

/// The id of the path of the status.
pub const STATUS_PATH_ID: &'static str = "s";

/// The number of units of the viewbox in one pixel of a badge of the usual
/// height.
pub const VIEWBOX_SCALE: u32 = 100;

/// The height of the viewbox.
pub const VIEWBOX_HEIGHT: u32 = 2000;

/// The margin left and right of the texts.
pub const SIDE_MARGIN: u32 = 500;

/// The margin between the label and the status.
pub const MIDDLE_MARGIN: u32 = 1100;

/// The height of a line of text.
pub const LINE_HEIGHT: u32 = 1100;

/// Why a badge cannot be made.
#[derive(Debug, Clone, Copy, PartialEq, Eq)]
pub enum BadgeError {
    /// The label or the status holds a character that markup cannot hold.
    InvalidCharacter,
    /// The font is higher than the viewbox.
    FontTooTall,
    /// The texts are wider than the coordinates reach.
    TextTooWide,
}

/// Whether `text` holds no character that would break markup: no `&` and no
/// `<`.
pub open spec fn markup_safe(text: Seq<char>) -> bool {
    forall|i: int| 0 <= i < text.len() ==> #[trigger] text[i] != '&' && text[i] != '<'
}

/// Whether `text` holds no character that would break markup.
pub fn is_markup_safe(text: &str) -> (safe: bool)
    ensures
        safe == markup_safe(text@),
{
    broadcast use vstd::string::axiom_spec_iter;

    let mut safe = true;
    for c in it: text.chars()
        invariant
            it.seq() == text@,
            safe == markup_safe(text@.take(it.index())),
    {
        let ghost i = it.index();
        assert(text@.take(i + 1)[i] == c);
        assert(forall|j: int| 0 <= j < i ==> text@.take(i)[j] == text@.take(i + 1)[j]);
        if c == '&' || c == '<' {
            safe = false;
        }
    }
    assert(text@.take(text@.len() as int) =~= text@);
    safe
}

/// The sizes of a badge.
#[derive(Debug, Clone, Copy)]
pub struct Layout {
    /// The width of the background of the label; zero without a label.
    pub label_rect_width: u32,
    /// The width of the background of the status.
    pub status_rect_width: u32,
    /// The size of the viewbox.
    pub viewbox_size: Point<u32>,
    /// The size of the image in pixels.
    pub image_size: Point<u64>,
}

/// The margin that a background adds to the width of its text: with a label,
/// one side margin and half of the middle margin; without, both side margins.
pub open spec fn rect_margin(has_label: bool) -> int {
    if has_label {
        SIDE_MARGIN + MIDDLE_MARGIN / 2
    } else {
        SIDE_MARGIN * 2
    }
}

/// The width of the viewbox of a badge whose texts have the given widths.
pub open spec fn viewbox_width(label_width: Option<u32>, status_width: u32) -> int {
    match label_width {
        Some(w) => w + rect_margin(true) + status_width + rect_margin(true),
        None => status_width + rect_margin(false),
    }
}

/// The sizes of a badge of the height `height` whose texts have the given
/// widths: each background is as wide as its text and its margin, the viewbox
/// spans both, and the image is the viewbox at `height` pixels for the height
/// of the viewbox, in whole pixels.
pub open spec fn layout_of(height: u16, label_width: Option<u32>, status_width: u32) -> Layout {
    let label_rect_width = match label_width {
        Some(w) => w + rect_margin(true),
        None => 0,
    };
    let status_rect_width = status_width + rect_margin(label_width is Some);
    Layout {
        label_rect_width: label_rect_width as u32,
        status_rect_width: status_rect_width as u32,
        viewbox_size: Point {
            x: (label_rect_width + status_rect_width) as u32,
            y: VIEWBOX_HEIGHT,
        },
        image_size: Point {
            x: (((label_rect_width + status_rect_width) * height) / (VIEWBOX_HEIGHT as int)) as u64,
            y: height as u64,
        },
    }
}

/// The sizes of a badge, unless it is wider than the coordinates reach.
pub fn layout(height: u16, label_width: Option<u32>, status_width: u32) -> (sizes: Option<Layout>)
    ensures
        sizes is Some <==> viewbox_width(label_width, status_width) <= u32::MAX,
        sizes is Some ==> sizes->0 == layout_of(height, label_width, status_width),
{
    let (label_rect_width, status_rect_width): (u64, u64) = match label_width {
        Some(w) => {
            let rect_margin: u64 = SIDE_MARGIN as u64 + (MIDDLE_MARGIN as u64 / 2);
            (w as u64 + rect_margin, status_width as u64 + rect_margin)
        },
        None => {
            let rect_margin: u64 = SIDE_MARGIN as u64 * 2;
            (0, status_width as u64 + rect_margin)
        },
    };
    let width: u64 = label_rect_width + status_rect_width;
    if width > u32::MAX as u64 {
        return None;
    }
    assert(width * height <= 0xffff_ffff * 0xffff) by (nonlinear_arith)
        requires
            0 <= width <= 0xffff_ffff,
            0 <= height <= 0xffff,
    ;
    let image_width: u64 = (width * height as u64) / VIEWBOX_HEIGHT as u64;
    Some(
        Layout {
            label_rect_width: label_rect_width as u32,
            status_rect_width: status_rect_width as u32,
            viewbox_size: Point { x: width as u32, y: VIEWBOX_HEIGHT },
            image_size: Point { x: image_width, y: height as u64 },
        },
    )
}

/// The text of the viewbox of the size `size`.
pub open spec fn viewbox_text(size: Point<u32>) -> Seq<char> {
    "0 0 "@ + int_digits(size.x as int) + seq![' '] + int_digits(size.y as int)
}

/// The attributes of the root of the document.
pub open spec fn root_attrs(sizes: Layout) -> Seq<char> {
    attr_text("width"@, int_digits(sizes.image_size.x as int)) + attr_text(
        "height"@,
        int_digits(sizes.image_size.y as int),
    ) + attr_text("viewBox"@, viewbox_text(sizes.viewbox_size)) + attr_text(
        "xmlns"@,
        "http://www.w3.org/2000/svg"@,
    )
}

/// The definition of the path `data` under the id `id`.
pub open spec fn path_def(id: Seq<char>, data: Seq<char>) -> Seq<char> {
    empty_element("path"@, attr_text("id"@, id) + attr_text("d"@, data))
}

/// The definitions of the paths of the texts: the status, then the label.
pub open spec fn defs(label_path: Option<Seq<char>>, status_path: Seq<char>) -> Seq<char> {
    element(
        "defs"@,
        Seq::<char>::empty(),
        path_def(STATUS_PATH_ID@, status_path) + match label_path {
            Some(p) => path_def(LABEL_PATH_ID@, p),
            None => Seq::<char>::empty(),
        },
    )
}

/// One stop of a gradient.
pub open spec fn gradient_stop(offset: Seq<char>, opacity: Opacity<'_>, color: Option<Color<'_>>) -> Seq<
    char,
> {
    empty_element(
        "stop"@,
        attr_text("offset"@, offset) + attr_text("stop-opacity"@, opacity.text()) + match color {
            Some(c) => attr_text("stop-color"@, color_text(c)),
            None => Seq::<char>::empty(),
        },
    )
}

/// The definition of the gradient, which runs from top to bottom.
pub open spec fn gradient_def(gradient: Gradient<'_>) -> Seq<char> {
    element(
        "linearGradient"@,
        attr_text("id"@, GRADIENT_ID@) + attr_text("x2"@, "0"@) + attr_text("y2"@, "100%"@),
        gradient_stop("0"@, gradient.opacity, Some(gradient.start)) + gradient_stop(
            "1"@,
            gradient.opacity,
            gradient.end,
        ),
    )
}

/// The white rectangle over the viewbox, with corners rounded by `radius`
/// pixels.
pub open spec fn mask_rect(size: Point<u32>, radius: u16) -> Seq<char> {
    empty_element(
        "rect"@,
        attr_text("width"@, int_digits(size.x as int)) + attr_text(
            "height"@,
            int_digits(size.y as int),
        ) + attr_text("fill"@, "#fff"@) + if radius > 0 {
            attr_text("rx"@, int_digits(radius * VIEWBOX_SCALE))
        } else {
            Seq::<char>::empty()
        },
    )
}

/// The definition of the mask: a white rectangle over the viewbox, with
/// corners rounded by `radius` pixels.
pub open spec fn mask_def(size: Point<u32>, radius: u16) -> Seq<char> {
    element("mask"@, attr_text("id"@, MASK_ID@), mask_rect(size, radius))
}

/// Whether the backgrounds of `style` lie in a masked group: they do where
/// the style has a gradient or rounded corners.
pub open spec fn needs_mask(style: Style<'_>) -> bool {
    style.gradient is Some || style.border_radius > 0
}

/// The backgrounds: that of the label, if there is one, that of the status,
/// and the gradient over both, if the style has one.
pub open spec fn backgrounds(style: Style<'_>, sizes: Layout, has_label: bool) -> Seq<char> {
    (if has_label {
        rect_path(
            Point { x: 0, y: 0 },
            Point { x: sizes.label_rect_width, y: VIEWBOX_HEIGHT },
            match style.label_background {
                Some(c) => Fill::Color(c),
                None => Fill::Unset,
            },
        )
    } else {
        Seq::<char>::empty()
    }) + rect_path(
        Point { x: sizes.label_rect_width, y: 0 },
        Point { x: sizes.status_rect_width, y: VIEWBOX_HEIGHT },
        Fill::Color(style.background),
    ) + (if style.gradient is Some {
        rect_path(Point { x: 0, y: 0 }, sizes.viewbox_size, Fill::Id(GRADIENT_ID))
    } else {
        Seq::<char>::empty()
    })
}

/// The backgrounds, in a masked group where the style needs one.
pub open spec fn masked_backgrounds(style: Style<'_>, sizes: Layout, has_label: bool) -> Seq<char> {
    if needs_mask(style) {
        mask_def(sizes.viewbox_size, style.border_radius) + element(
            "g"@,
            attr_text("mask"@, id_url_text(MASK_ID@)),
            backgrounds(style, sizes, has_label),
        )
    } else {
        backgrounds(style, sizes, has_label)
    }
}

/// The texts: the label, if there is one, then the status, each with its
/// shadow.
pub open spec fn texts(style: Style<'_>, has_label: bool) -> Seq<char> {
    (if has_label {
        text_path_ref(
            match style.label_text_color {
                Some(c) => c,
                None => style.text_color,
            },
            LABEL_PATH_ID@,
            style.text_shadow_color,
            style.text_shadow_opacity,
            style.text_shadow_offset,
        )
    } else {
        Seq::<char>::empty()
    }) + text_path_ref(
        style.text_color,
        STATUS_PATH_ID@,
        style.text_shadow_color,
        style.text_shadow_opacity,
        style.text_shadow_offset,
    )
}

/// The definition of the gradient of `style`, if it has one.
pub open spec fn gradient_part(style: Style<'_>) -> Seq<char> {
    match style.gradient {
        Some(g) => gradient_def(g),
        None => Seq::<char>::empty(),
    }
}

/// The document of a badge in the style `style`, of the sizes `sizes`, whose
/// texts have the paths `label_path` and `status_path`.
pub open spec fn badge_document(
    style: Style<'_>,
    sizes: Layout,
    label_path: Option<Seq<char>>,
    status_path: Seq<char>,
) -> Seq<char> {
    element(
        "svg"@,
        root_attrs(sizes),
        defs(label_path, status_path) + gradient_part(style) + masked_backgrounds(
            style,
            sizes,
            label_path is Some,
        ) + texts(style, label_path is Some),
    )
}

/// Writes the definition of the path `data` under the id `id`.
fn write_path_def(svg: &mut SvgWrite, id: &str, data: &str)
    ensures
        final(svg).text() == old(svg).text() + pending(old(svg).is_open()) + path_def(id@, data@),
        !final(svg).is_open(),
{
    svg.open("path");
    let ghost head = svg.text();
    svg.attr_str("id", id);
    svg.attr_str("d", data);
    svg.close_inline();
    proof {
        let a = attr_text("id"@, id@);
        let b = attr_text("d"@, data@);
        lemma_join(head, a, b);
        lemma_empty_element_written(old(svg).text(), pending(old(svg).is_open()), "path"@, a + b);
    }
}

/// Writes the definitions of the paths of the texts.
fn write_defs(svg: &mut SvgWrite, label_path: Option<&str>, status_path: &str)
    ensures
        final(svg).text() == old(svg).text() + pending(old(svg).is_open()) + defs(
            match label_path {
                Some(p) => Some(p@),
                None => None,
            },
            status_path@,
        ),
        !final(svg).is_open(),
{
    svg.open("defs");
    let ghost head = svg.text();
    write_path_def(svg, STATUS_PATH_ID, status_path);
    if let Some(label_text_path) = label_path {
        write_path_def(svg, LABEL_PATH_ID, label_text_path);
    }
    svg.close("defs");
    proof {
        let status = path_def(STATUS_PATH_ID@, status_path@);
        let label = match label_path {
            Some(p) => path_def(LABEL_PATH_ID@, p@),
            None => Seq::<char>::empty(),
        };
        lemma_two_written(head, pending(true), status, label);
        lemma_element_written(
            old(svg).text(),
            pending(old(svg).is_open()),
            "defs"@,
            Seq::<char>::empty(),
            status + label,
        );
    }
}

/// Writes one stop of a gradient.
fn write_gradient_stop(svg: &mut SvgWrite, offset: &str, opacity: Opacity<'_>, color: Option<Color<'_>>)
    ensures
        final(svg).text() == old(svg).text() + pending(old(svg).is_open()) + gradient_stop(
            offset@,
            opacity,
            color,
        ),
        !final(svg).is_open(),
{
    svg.open("stop");
    let ghost head = svg.text();
    svg.attr_str("offset", offset);
    attr_opacity(svg, "stop-opacity", opacity);
    if let Some(c) = color {
        attr_color(svg, "stop-color", c);
    }
    svg.close_inline();
    proof {
        let a = attr_text("offset"@, offset@);
        let b = attr_text("stop-opacity"@, opacity.text());
        let c = match color {
            Some(c) => attr_text("stop-color"@, color_text(c)),
            None => Seq::<char>::empty(),
        };
        lemma_join(head, a, b);
        lemma_join(head, a + b, c);
        lemma_empty_element_written(
            old(svg).text(),
            pending(old(svg).is_open()),
            "stop"@,
            a + b + c,
        );
    }
}

/// Writes the definition of the gradient.
fn write_gradient(svg: &mut SvgWrite, gradient: &Gradient<'_>)
    ensures
        final(svg).text() == old(svg).text() + pending(old(svg).is_open()) + gradient_def(
            *gradient,
        ),
        !final(svg).is_open(),
{
    svg.open("linearGradient");
    let ghost head = svg.text();
    svg.attr_str("id", GRADIENT_ID);
    svg.attr_str("x2", "0");
    svg.attr_str("y2", "100%");
    write_gradient_stop(svg, "0", gradient.opacity, Some(gradient.start));
    write_gradient_stop(svg, "1", gradient.opacity, gradient.end);
    svg.close("linearGradient");
    proof {
        let a = attr_text("id"@, GRADIENT_ID@);
        let b = attr_text("x2"@, "0"@);
        let c = attr_text("y2"@, "100%"@);
        let first = gradient_stop("0"@, gradient.opacity, Some(gradient.start));
        let second = gradient_stop("1"@, gradient.opacity, gradient.end);
        lemma_join(head, a, b);
        lemma_join(head, a + b, c);
        lemma_two_written(head + (a + b + c), pending(true), first, second);
        lemma_element_written(
            old(svg).text(),
            pending(old(svg).is_open()),
            "linearGradient"@,
            a + b + c,
            first + second,
        );
    }
}

/// Writes the white rectangle of the mask.
fn write_mask_rect(svg: &mut SvgWrite, size: Point<u32>, radius: u16)
    ensures
        final(svg).text() == old(svg).text() + pending(old(svg).is_open()) + mask_rect(
            size,
            radius,
        ),
        !final(svg).is_open(),
{
    svg.open("rect");
    let ghost head = svg.text();
    svg.attr_int("width", size.x as i128);
    svg.attr_int("height", size.y as i128);
    svg.attr_str("fill", "#fff");
    if radius > 0 {
        svg.attr_int("rx", (radius as u32 * VIEWBOX_SCALE) as i128);
    }
    svg.close_inline();
    proof {
        let a = attr_text("width"@, int_digits(size.x as int));
        let b = attr_text("height"@, int_digits(size.y as int));
        let c = attr_text("fill"@, "#fff"@);
        let d = if radius > 0 {
            attr_text("rx"@, int_digits(radius * VIEWBOX_SCALE))
        } else {
            Seq::<char>::empty()
        };
        lemma_join(head, a, b);
        lemma_join(head, a + b, c);
        lemma_join(head, a + b + c, d);
        lemma_empty_element_written(
            old(svg).text(),
            pending(old(svg).is_open()),
            "rect"@,
            a + b + c + d,
        );
    }
}

/// Writes the definition of the mask.
fn write_mask(svg: &mut SvgWrite, size: Point<u32>, radius: u16)
    ensures
        final(svg).text() == old(svg).text() + pending(old(svg).is_open()) + mask_def(
            size,
            radius,
        ),
        !final(svg).is_open(),
{
    svg.open("mask");
    svg.attr_str("id", MASK_ID);
    write_mask_rect(svg, size, radius);
    svg.close("mask");
    proof {
        lemma_element_written(
            old(svg).text(),
            pending(old(svg).is_open()),
            "mask"@,
            attr_text("id"@, MASK_ID@),
            mask_rect(size, radius),
        );
    }
}

/// Writes the backgrounds.
fn write_backgrounds(svg: &mut SvgWrite, style: &Style<'_>, sizes: &Layout, has_label: bool)
    ensures
        final(svg).text() == old(svg).text() + pending(old(svg).is_open()) + backgrounds(
            *style,
            *sizes,
            has_label,
        ),
        !final(svg).is_open(),
{
    let ghost label = if has_label {
        rect_path(
            Point { x: 0, y: 0 },
            Point { x: sizes.label_rect_width, y: VIEWBOX_HEIGHT },
            match style.label_background {
                Some(c) => Fill::Color(c),
                None => Fill::Unset,
            },
        )
    } else {
        Seq::<char>::empty()
    };
    let ghost status = rect_path(
        Point { x: sizes.label_rect_width, y: 0 },
        Point { x: sizes.status_rect_width, y: VIEWBOX_HEIGHT },
        Fill::Color(style.background),
    );
    let ghost gradient = if style.gradient is Some {
        rect_path(Point { x: 0, y: 0 }, sizes.viewbox_size, Fill::Id(GRADIENT_ID))
    } else {
        Seq::<char>::empty()
    };
    if has_label {
        let fill = match style.label_background {
            Some(c) => Fill::Color(c),
            None => Fill::Unset,
        };
        write_rect_path(
            svg,
            Point { x: 0, y: 0 },
            Point { x: sizes.label_rect_width, y: VIEWBOX_HEIGHT },
            fill,
        );
    }
    write_rect_path(
        svg,
        Point { x: sizes.label_rect_width, y: 0 },
        Point { x: sizes.status_rect_width, y: VIEWBOX_HEIGHT },
        Fill::Color(style.background),
    );
    proof {
        lemma_two_written(old(svg).text(), pending(old(svg).is_open()), label, status);
    }
    if style.gradient.is_some() {
        write_rect_path(svg, Point { x: 0, y: 0 }, sizes.viewbox_size, Fill::Id(GRADIENT_ID));
    }
    proof {
        lemma_two_written(old(svg).text(), pending(old(svg).is_open()), label + status, gradient);
    }
}

/// Writes the backgrounds in a group that the mask is applied to.
fn write_group(svg: &mut SvgWrite, style: &Style<'_>, sizes: &Layout, has_label: bool)
    ensures
        final(svg).text() == old(svg).text() + pending(old(svg).is_open()) + element(
            "g"@,
            attr_text("mask"@, id_url_text(MASK_ID@)),
            backgrounds(*style, *sizes, has_label),
        ),
        !final(svg).is_open(),
{
    svg.open("g");
    attr_id_url(svg, "mask", MASK_ID);
    write_backgrounds(svg, style, sizes, has_label);
    svg.close("g");
    proof {
        lemma_element_written(
            old(svg).text(),
            pending(old(svg).is_open()),
            "g"@,
            attr_text("mask"@, id_url_text(MASK_ID@)),
            backgrounds(*style, *sizes, has_label),
        );
    }
}

/// Writes the backgrounds, in a masked group where the style needs one.
fn write_masked_backgrounds(svg: &mut SvgWrite, style: &Style<'_>, sizes: &Layout, has_label: bool)
    ensures
        final(svg).text() == old(svg).text() + pending(old(svg).is_open()) + masked_backgrounds(
            *style,
            *sizes,
            has_label,
        ),
        !final(svg).is_open(),
{
    let requires_mask = style.gradient.is_some() || style.border_radius > 0;
    if requires_mask {
        write_mask(svg, sizes.viewbox_size, style.border_radius);
        write_group(svg, style, sizes, has_label);
        proof {
            lemma_two_written(
                old(svg).text(),
                pending(old(svg).is_open()),
                mask_def(sizes.viewbox_size, style.border_radius),
                element(
                    "g"@,
                    attr_text("mask"@, id_url_text(MASK_ID@)),
                    backgrounds(*style, *sizes, has_label),
                ),
            );
        }
    } else {
        write_backgrounds(svg, style, sizes, has_label);
    }
}

/// Writes the texts.
fn write_texts(svg: &mut SvgWrite, style: &Style<'_>, has_label: bool)
    ensures
        final(svg).text() == old(svg).text() + pending(old(svg).is_open()) + texts(
            *style,
            has_label,
        ),
        !final(svg).is_open(),
{
    let ghost label = if has_label {
        text_path_ref(
            match style.label_text_color {
                Some(c) => c,
                None => style.text_color,
            },
            LABEL_PATH_ID@,
            style.text_shadow_color,
            style.text_shadow_opacity,
            style.text_shadow_offset,
        )
    } else {
        Seq::<char>::empty()
    };
    let ghost status = text_path_ref(
        style.text_color,
        STATUS_PATH_ID@,
        style.text_shadow_color,
        style.text_shadow_opacity,
        style.text_shadow_offset,
    );
    if has_label {
        let text_color = match style.label_text_color {
            Some(c) => c,
            None => style.text_color,
        };
        write_text_path_ref(
            svg,
            text_color,
            LABEL_PATH_ID,
            style.text_shadow_color,
            style.text_shadow_opacity,
            style.text_shadow_offset,
        );
    }
    write_text_path_ref(
        svg,
        style.text_color,
        STATUS_PATH_ID,
        style.text_shadow_color,
        style.text_shadow_opacity,
        style.text_shadow_offset,
    );
    proof {
        lemma_two_written(old(svg).text(), pending(old(svg).is_open()), label, status);
    }
}

/// Writes the text of the viewbox of the size `size`.
fn write_viewbox(w: &mut String, size: Point<u32>)
    ensures
        final(w)@ == old(w)@ + viewbox_text(size),
{
    w.append("0 0 ");
    write_int(w, size.x as i128);
    w.push(' ');
    write_int(w, size.y as i128);
    assert(w@ =~= old(w)@ + viewbox_text(size));
}

/// Writes the attribute `name` with the text of the viewbox of the size
/// `size`.
fn attr_viewbox(svg: &mut SvgWrite, name: &str, size: Point<u32>)
    ensures
        final(svg).text() == old(svg).text() + attr_text(name@, viewbox_text(size)),
        final(svg).is_open() == old(svg).is_open(),
{
    let value_fn = |w: String| -> (r: String)
        ensures r@ == w@ + viewbox_text(size),
    {
        let mut w = w;
        write_viewbox(&mut w, size);
        w
    };
    svg.attr_fn(name, value_fn);
    assert(svg.text() =~= old(svg).text() + attr_text(name@, viewbox_text(size)));
}

/// Writes the attributes of the root of the document.
fn write_root_attrs(svg: &mut SvgWrite, sizes: &Layout)
    ensures
        final(svg).text() == old(svg).text() + root_attrs(*sizes),
        final(svg).is_open() == old(svg).is_open(),
{
    svg.attr_int("width", sizes.image_size.x as i128);
    svg.attr_int("height", sizes.image_size.y as i128);
    attr_viewbox(svg, "viewBox", sizes.viewbox_size);
    svg.attr_str("xmlns", "http://www.w3.org/2000/svg");
    proof {
        let a = attr_text("width"@, int_digits(sizes.image_size.x as int));
        let b = attr_text("height"@, int_digits(sizes.image_size.y as int));
        let c = attr_text("viewBox"@, viewbox_text(sizes.viewbox_size));
        let d = attr_text("xmlns"@, "http://www.w3.org/2000/svg"@);
        lemma_join(old(svg).text(), a, b);
        lemma_join(old(svg).text(), a + b, c);
        lemma_join(old(svg).text(), a + b + c, d);
    }
}

/// Writes the definition of the gradient of `style`, if it has one.
fn write_gradient_part(svg: &mut SvgWrite, style: &Style<'_>)
    requires
        !old(svg).is_open(),
    ensures
        final(svg).text() == old(svg).text() + pending(false) + gradient_part(*style),
        !final(svg).is_open(),
{
    if let Some(gradient) = &style.gradient {
        write_gradient(svg, gradient);
    } else {
        proof {
            lemma_join(old(svg).text(), pending(false), gradient_part(*style));
            lemma_join(old(svg).text(), Seq::<char>::empty(), Seq::<char>::empty());
        }
    }
}

/// What is written for a document is the root element around its four
/// parts.
proof fn lemma_document_written(
    t: Seq<char>,
    attrs: Seq<char>,
    d: Seq<char>,
    g: Seq<char>,
    m: Seq<char>,
    x: Seq<char>,
)
    ensures
        ((((((t + "<svg"@) + attrs) + pending(true) + d) + pending(false) + g) + pending(false) + m)
            + pending(false) + x) + pending(false) + "</svg>"@ == t + element(
            "svg"@,
            attrs,
            d + g + m + x,
        ),
{
    reveal_strlit("<svg");
    reveal_strlit("svg");
    reveal_strlit("</svg>");
    reveal_strlit("</");
    assert(((((((t + "<svg"@) + attrs) + pending(true) + d) + pending(false) + g) + pending(false)
        + m) + pending(false) + x) + pending(false) + "</svg>"@ =~= t + element(
        "svg"@,
        attrs,
        d + g + m + x,
    ));
}

/// Writes the document of a badge after the text of `w`.
pub fn write_document(
    w: &mut String,
    style: &Style<'_>,
    sizes: &Layout,
    label_path: Option<&str>,
    status_path: &str,
)
    ensures
        final(w)@ == old(w)@ + badge_document(
            *style,
            *sizes,
            match label_path {
                Some(p) => Some(p@),
                None => None,
            },
            status_path@,
        ),
{
    let ghost label = match label_path {
        Some(p) => Some(p@),
        None => None,
    };
    let mut buf = String::new();
    core::mem::swap(&mut buf, w);
    let mut svg = SvgWrite::start(buf);
    write_root_attrs(&mut svg, sizes);
    write_defs(&mut svg, label_path, status_path);
    write_gradient_part(&mut svg, style);
    write_masked_backgrounds(&mut svg, style, sizes, label_path.is_some());
    write_texts(&mut svg, style, label_path.is_some());
    let mut out = svg.finish();
    proof {
        lemma_document_written(
            old(w)@,
            root_attrs(*sizes),
            defs(label, status_path@),
            gradient_part(*style),
            masked_backgrounds(*style, *sizes, label is Some),
            texts(*style, label is Some),
        );
    }
    core::mem::swap(&mut out, w);
}

/// The height of the baseline of the texts in the viewbox: the font stands
/// in the middle of the height of the viewbox.
pub open spec fn baseline(font_height: u32) -> int {
    VIEWBOX_HEIGHT - (VIEWBOX_HEIGHT - font_height) / 2
}

/// The run of the label, which begins after the side margin.
pub open spec fn label_run(face: FontFace, label: Seq<char>) -> Run {
    run_of(
        face,
        Point { x: SIDE_MARGIN, y: baseline(face.height) as u32 },
        0,
        MissingGlyph::Skip,
        label,
    )
}

/// The width of the label, if there is one.
pub open spec fn label_width(face: FontFace, label: Option<Seq<char>>) -> Option<int> {
    match label {
        Some(l) => Some(scaled_width(face, label_run(face, l).advance)),
        None => None,
    }
}

/// The run of the status, which begins after the side margin or, where
/// there is a label, after the label and the middle margin.
pub open spec fn status_run(face: FontFace, label: Option<Seq<char>>, status: Seq<char>) -> Run {
    run_of(
        face,
        Point {
            x: match label_width(face, label) {
                Some(w) => (SIDE_MARGIN + w + MIDDLE_MARGIN) as u32,
                None => SIDE_MARGIN,
            },
            y: baseline(face.height) as u32,
        },
        0,
        MissingGlyph::Skip,
        status,
    )
}

/// The width of the viewbox of the badge with the given texts.
pub open spec fn badge_width(face: FontFace, label: Option<Seq<char>>, status: Seq<char>) -> int {
    scaled_width(face, status_run(face, label, status).advance) + match label_width(face, label) {
        Some(w) => w + 2 * rect_margin(true),
        None => rect_margin(false),
    }
}

/// Whether the badge with the given texts stays within the limits of the
/// coordinates.
pub open spec fn badge_fits(face: FontFace, label: Option<Seq<char>>, status: Seq<char>) -> bool {
    &&& label matches Some(l) ==> label_run(face, l).advance <= ADVANCE_LIMIT
    &&& status_run(face, label, status).advance <= ADVANCE_LIMIT
    &&& badge_width(face, label, status) <= u32::MAX
}

/// The badge of `status` and `label` in the style `style`, set in the font
/// `face`: its document, or why there is none.
pub open spec fn badge_of(
    face: FontFace,
    style: Style<'_>,
    status: Seq<char>,
    label: Option<Seq<char>>,
) -> Result<Seq<char>, BadgeError> {
    if !markup_safe(status) || (label matches Some(l) && !markup_safe(l)) {
        Err(BadgeError::InvalidCharacter)
    } else if face.height > VIEWBOX_HEIGHT {
        Err(BadgeError::FontTooTall)
    } else if !badge_fits(face, label, status) {
        Err(BadgeError::TextTooWide)
    } else {
        let run = status_run(face, label, status);
        Ok(
            badge_document(
                style,
                layout_of(
                    style.height,
                    match label_width(face, label) {
                        Some(w) => Some(w as u32),
                        None => None,
                    },
                    scaled_width(face, run.advance) as u32,
                ),
                match label {
                    Some(l) => Some(label_run(face, l).path),
                    None => None,
                },
                run.path,
            ),
        )
    }
}

/// The width of an advance is not negative.
proof fn lemma_scaled_width_positive(face: FontFace, advance: nat)
    requires
        face.scale.numer_spec() >= 0,
        face.scale.denom_spec() > 0,
    ensures
        scaled_width(face, advance) >= 0,
{
    let n = face.scale.numer_spec();
    let d = face.scale.denom_spec();
    assert((advance * n) / d >= 0) by (nonlinear_arith)
        requires
            advance >= 0,
            n >= 0,
            d > 0,
    ;
}

/// The parts of a text that was written in two parts.
proof fn lemma_parts(a: Seq<char>, b: Seq<char>)
    ensures
        (Seq::<char>::empty() + a) + b == a + b,
        Seq::<char>::empty() + b == b,
        (a + b).subrange(0, a.len() as int) == a,
        (a + b).subrange(a.len() as int, (a + b).len() as int) == b,
        (a + b).len() == a.len() + b.len(),
{
    assert((Seq::<char>::empty() + a) + b =~= a + b);
    assert(Seq::<char>::empty() + b =~= b);
    assert((a + b).subrange(0, a.len() as int) =~= a);
    assert((a + b).subrange(a.len() as int, (a + b).len() as int) =~= b);
}

/// Renders the path of the label into `scratch`, if there is a label, and
/// returns its width and where the status begins.
fn render_label<F: Font>(font: &mut F, label: Option<&str>, y: u32, scratch: &mut String) -> (laid:
    Option<(Option<u32>, u32)>)
    requires
        old(font).inv(),
        y == baseline(old(font).face().height),
        old(scratch)@.len() == 0,
    ensures
        final(font).inv(),
        final(font).face() == old(font).face(),
        ({
            let face = old(font).face();
            match label {
                Some(l) => {
                    let run = label_run(face, l@);
                    let width = scaled_width(face, run.advance);
                    match laid {
                        Some((w, x)) => {
                            &&& run.advance <= ADVANCE_LIMIT
                            &&& w == Some(width as u32)
                            &&& width == width as u32
                            &&& x == SIDE_MARGIN + width + MIDDLE_MARGIN
                            &&& final(scratch)@ == run.path
                        },
                        None => run.advance > ADVANCE_LIMIT || SIDE_MARGIN + width + MIDDLE_MARGIN
                            > u32::MAX,
                    }
                },
                None => laid == Some((None::<u32>, SIDE_MARGIN)) && final(scratch)@.len() == 0,
            }
        }),
{
    match label {
        Some(l) => {
            let ghost run = label_run(font.face(), l@);
            match render_text_path(
                font,
                Point { x: SIDE_MARGIN, y },
                l,
                0,
                MissingGlyph::Skip,
                scratch,
            ) {
                Some(width) => {
                    if width > u32::MAX - SIDE_MARGIN - MIDDLE_MARGIN {
                        return None;
                    }
                    proof {
                        lemma_parts(Seq::<char>::empty(), run.path);
                        assert(old(scratch)@ =~= Seq::<char>::empty());
                    }
                    Some((Some(width), SIDE_MARGIN + width + MIDDLE_MARGIN))
                },
                None => None,
            }
        },
        None => Some((None, SIDE_MARGIN)),
    }
}

/// Renders the paths of the texts into `scratch`, the label before the
/// status, and returns the sizes of the badge and the length of the path of
/// the label.
fn render_texts<F: Font>(
    font: &mut F,
    height: u16,
    status: &str,
    label: Option<&str>,
    scratch: &mut String,
) -> (laid: Option<(Layout, usize)>)
    requires
        old(font).inv(),
        old(font).face().height <= VIEWBOX_HEIGHT,
        old(scratch)@.len() == 0,
    ensures
        final(font).inv(),
        final(font).face() == old(font).face(),
        ({
            let face = old(font).face();
            let label_text = match label {
                Some(l) => Some(l@),
                None => None,
            };
            let label_path = match label {
                Some(l) => label_run(face, l@).path,
                None => Seq::<char>::empty(),
            };
            let run = status_run(face, label_text, status@);
            &&& laid is Some <==> badge_fits(face, label_text, status@)
            &&& laid matches Some((sizes, split)) ==> {
                &&& sizes == layout_of(
                    height,
                    match label_width(face, label_text) {
                        Some(w) => Some(w as u32),
                        None => None,
                    },
                    scaled_width(face, run.advance) as u32,
                )
                &&& split == label_path.len()
                &&& final(scratch)@ == label_path + run.path
            }
        }),
{
    let ghost face = font.face();
    let ghost label_text = match label {
        Some(l) => Some(l@),
        None => None,
    };
    let ghost run = status_run(face, label_text, status@);
    let scale = font.scale();
    let _numer: u32 = scale.numer();
    let _denom: u32 = scale.denom();
    proof {
        lemma_scaled_width_positive(face, run.advance);
    }
    let font_height = font.height();
    let line_margin = (VIEWBOX_HEIGHT - font_height) / 2;
    let y = VIEWBOX_HEIGHT - line_margin;
    // If a label is specified, render and calculate the width.
    let (label_size, status_x) = match render_label(font, label, y, scratch) {
        Some(laid) => laid,
        None => {
            return None;
        },
    };
    let split = scratch.as_str().unicode_len();
    let ghost label_path = scratch@;
    // Render the status text path into the scratch buffer.
    let status_size = match render_text_path(
        font,
        Point { x: status_x, y },
        status,
        0,
        MissingGlyph::Skip,
        scratch,
    ) {
        Some(width) => width,
        None => {
            return None;
        },
    };
    match layout(height, label_size, status_size) {
        Some(sizes) => Some((sizes, split)),
        None => None,
    }
}

/// Writes an SVG badge to `w` given a style, status, optional label, font
/// and scratch space.
///
/// The scratch space is used for minimal to zero allocations with repeated
/// use: the paths of the texts are rendered into it.
pub fn write_badge_with_font<F: Font>(
    w: &mut String,
    style: &Style<'_>,
    status: &str,
    label: Option<&str>,
    font: &mut F,
    scratch: &mut String,
) -> (result: Result<(), BadgeError>)
    requires
        old(font).inv(),
    ensures
        final(font).inv(),
        final(font).face() == old(font).face(),
        match badge_of(
            old(font).face(),
            *style,
            status@,
            match label {
                Some(l) => Some(l@),
                None => None,
            },
        ) {
            Ok(document) => result is Ok && final(w)@ == old(w)@ + document,
            Err(e) => result == Err::<(), BadgeError>(e) && final(w)@ == old(w)@,
        },
        result is Ok ==> final(scratch)@ == (match label {
            Some(l) => label_run(old(font).face(), l@).path,
            None => Seq::<char>::empty(),
        }) + status_run(
            old(font).face(),
            match label {
                Some(l) => Some(l@),
                None => None,
            },
            status@,
        ).path,
{
    if !is_markup_safe(status) {
        return Err(BadgeError::InvalidCharacter);
    }
    if let Some(l) = label {
        if !is_markup_safe(l) {
            return Err(BadgeError::InvalidCharacter);
        }
    }
    // Clear the scratch buffer from any previous run.
    scratch.clear();
    if font.height() > VIEWBOX_HEIGHT {
        return Err(BadgeError::FontTooTall);
    }
    let (sizes, split) = match render_texts(font, style.height, status, label, scratch) {
        Some(laid) => laid,
        None => {
            return Err(BadgeError::TextTooWide);
        },
    };
    let ghost label_path = match label {
        Some(l) => label_run(old(font).face(), l@).path,
        None => Seq::<char>::empty(),
    };
    let ghost status_path = scratch@.subrange(split as int, scratch@.len() as int);
    proof {
        lemma_parts(label_path, status_path);
        lemma_parts(
            label_path,
            status_run(
                old(font).face(),
                match label {
                    Some(l) => Some(l@),
                    None => None,
                },
                status@,
            ).path,
        );
    }
    let paths = scratch.as_str();
    let total = paths.unicode_len();
    let status_text_path = paths.substring_char(split, total);
    let label_text_path = if label.is_some() {
        Some(paths.substring_char(0, split))
    } else {
        None
    };
    write_document(w, style, &sizes, label_text_path, status_text_path);
    Ok(())
}

} // verus!
