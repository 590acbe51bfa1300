//! SVG badge generator with font path rendering.
//!
//! ```text
//! +-------+--------+
//! | LABEL | STATUS |
//! +-------+--------+
//! ```
//!
//! A badge is laid out from the glyph outlines of a [`Font`]: every glyph
//! becomes a compact path fragment, the fragments of a run of text become one
//! path, and the two runs are composed with their background rectangles into
//! one document. All coordinates are exact integers or exact fractions, so
//! each function says precisely which text it produces.

pub mod badge;
pub mod cache;
pub mod color;
pub mod document;
pub mod font;
pub mod num;
pub mod path;
pub mod strings;
pub mod style;
pub mod svg;
pub mod truetype;
pub mod util;

pub use crate::badge::{write_badge_with_font, BadgeError, Layout};
pub use crate::cache::CachedFont;
pub use crate::color::Color;
pub use crate::font::{font_licenses, render_text_path, Font, FontGlyph, MissingGlyph};
pub use crate::path::{PathSink, Scale, Segment};
pub use crate::style::{Gradient, Opacity, Style};
pub use crate::svg::SvgWrite;
pub use crate::truetype::{GlyphRequest, TrueTypeFont};
pub use crate::util::Escape;

use vstd::prelude::*;

verus! {

/// An `x` and `y` coordinate.
#[derive(Debug, Clone, Copy)]
pub struct Point<T = u32> {
    /// The `x` component.
    pub x: T,
    /// The `y` component.
    pub y: T,
}

} // verus!
