//! The metrics and the glyph paths of a TrueType font.

use vstd::prelude::*;
use ttf_parser::Face;
use crate::font::{FontGlyph, Glyph};
use crate::path::{outline_text, PathSink, Scale, Segment};
use crate::Point;

verus! {

/// `ttf_parser::Face`, a parsed font face; nothing of it is visible here.
#[verifier::external_type_specification]
#[verifier::external_body]
pub struct ExFace<'a>(Face<'a>);

/// The number of outline units in one font unit: outlines are given in
/// sixty-fourths of a font unit.
pub const OUTLINE_UNITS: u32 = 64;

/// The units per em of the font.
///
/// Calls `Face::units_per_em`, which returns the value of the font's header
/// table; a face is only made from a header whose value is between 16 and
/// 16384.
#[verifier::external_body]
fn face_units_per_em(face: &Face<'_>) -> (units_per_em: u16)
    ensures
        16 <= units_per_em <= 16384,
{
    face.units_per_em()
}

/// The descender of the font, in font units.
///
/// Calls `Face::descender`; nothing is stated of the value.
#[verifier::external_body]
fn face_descender(face: &Face<'_>) -> (descender: i16) {
    face.descender()
}

/// The glyphs that a face holds for characters: for each character that it
/// has a glyph for, the number of that glyph.
pub uninterp spec fn face_glyphs(face: Face<'_>) -> Map<char, u16>;

/// The horizontal advances that a face holds: for each glyph that it gives
/// an advance for, by the number of the glyph, that advance in font units.
pub uninterp spec fn face_advances(face: Face<'_>) -> Map<u16, u16>;

/// The number of the glyph that the font has for `c`, if it has one.
///
/// Calls `Face::glyph_index`, which looks the character up in the character
/// maps of the face: the result is what the face holds for the character.
#[verifier::external_body]
fn face_glyph_index(face: &Face<'_>, c: char) -> (glyph_id: Option<u16>)
    ensures
        glyph_id == face_glyphs(*face).get(c),
{
    face.glyph_index(c).map(|id| id.0)
}

/// The horizontal advance of the glyph `glyph_id`, in font units, if the font
/// gives one.
///
/// Calls `Face::glyph_hor_advance`, which looks the glyph up in the metrics
/// of the face: the result is what the face holds for the glyph.
#[verifier::external_body]
fn face_glyph_hor_advance(face: &Face<'_>, glyph_id: u16) -> (hor_advance: Option<u16>)
    ensures
        hor_advance == face_advances(*face).get(glyph_id),
{
    face.glyph_hor_advance(ttf_parser::GlyphId(glyph_id))
}

/// The height of a font of `font_height` units above its descender: the font
/// height less the part of it that the descender takes of the em, in whole
/// units, and within the range of `u32`.
pub open spec fn height_above_descender(font_height: u32, units_per_em: u16, descender: i16) -> int {
    let above = units_per_em + descender;
    let height = (font_height * above) / (units_per_em as int);
    if above <= 0 {
        0
    } else if height > u32::MAX {
        u32::MAX as int
    } else {
        height
    }
}

/// The scale and the height of a font with the given metrics, set at
/// `font_height` units of the viewbox per em.
pub fn font_metrics(font_height: u32, units_per_em: u16, descender: i16) -> (metrics: (
    Scale,
    Scale,
    u32,
))
    requires
        16 <= units_per_em <= 16384,
    ensures
        metrics.0.numer_spec() == font_height,
        metrics.0.denom_spec() == units_per_em,
        metrics.1.numer_spec() == font_height,
        metrics.1.denom_spec() == units_per_em * OUTLINE_UNITS,
        metrics.2 == height_above_descender(font_height, units_per_em, descender),
{
    let scale = Scale::new(font_height, units_per_em as u32).unwrap();
    let outline_scale = Scale::new(font_height, units_per_em as u32 * OUTLINE_UNITS).unwrap();
    let above: i64 = units_per_em as i64 + descender as i64;
    let height: u32 = if above <= 0 {
        0
    } else {
        assert(font_height * above <= 0xffff_ffff * 0x1_0000) by (nonlinear_arith)
            requires
                0 <= font_height <= 0xffff_ffff,
                0 < above <= 0x1_0000,
        ;
        let h: u64 = (font_height as u64 * above as u64) / units_per_em as u64;
        if h > u32::MAX as u64 {
            u32::MAX
        } else {
            h as u32
        }
    };
    (scale, outline_scale, height)
}

/// A glyph that a font has for a character: its number in the font, and its
/// horizontal advance in font units.
#[derive(Debug, Clone, Copy, PartialEq, Eq)]
pub struct GlyphRequest {
    /// The number of the glyph in the font.
    pub glyph_id: u16,
    /// The horizontal advance of the glyph.
    pub hor_advance: u16,
}

/// The glyph to ask a font for, given what the font answers for a character:
/// the number of its glyph, and the advance that it gives for that number. A
/// character without a glyph, or with a glyph without an advance, has none.
pub fn glyph_request(glyph_id: Option<u16>, hor_advance: Option<u16>) -> (request: Option<
    GlyphRequest,
>)
    ensures
        request == match (glyph_id, hor_advance) {
            (Some(id), Some(advance)) => Some(GlyphRequest { glyph_id: id, hor_advance: advance }),
            _ => None,
        },
{
    match (glyph_id, hor_advance) {
        (Some(id), Some(advance)) => Some(GlyphRequest { glyph_id: id, hor_advance: advance }),
        _ => None,
    }
}

/// The glyph that `face` has for `c`: the glyph that it holds for the
/// character, with the advance that it holds for that glyph. A character
/// without a glyph, or with a glyph without an advance, has none.
pub open spec fn face_glyph(face: Face<'_>, c: char) -> Option<GlyphRequest> {
    match face_glyphs(face).get(c) {
        Some(id) => match face_advances(face).get(id) {
            Some(advance) => Some(GlyphRequest { glyph_id: id, hor_advance: advance }),
            None => None,
        },
        None => None,
    }
}

/// What a [`TrueTypeFont`] is set to.
pub ghost struct TrueTypeMetrics {
    /// The factor from font units to units of the viewbox.
    pub scale: Scale,
    /// The factor from outline units to units of the viewbox.
    pub outline_scale: Scale,
    /// The height of the font above its descender.
    pub height: u32,
    /// The precision of the coordinates in paths.
    pub precision: u8,
}

/// A True Type Font with a font height and path precision.
#[derive(Debug, Clone)]
pub struct TrueTypeFont<'a> {
    font: &'a Face<'a>,
    scale: Scale,
    outline_scale: Scale,
    height: u32,
    precision: u8,
    path_buffer: String,
}

impl<'a> View for TrueTypeFont<'a> {
    type V = TrueTypeMetrics;

    closed spec fn view(&self) -> TrueTypeMetrics {
        TrueTypeMetrics {
            scale: self.scale,
            outline_scale: self.outline_scale,
            height: self.height,
            precision: self.precision,
        }
    }
}

/// The glyph that a font set to `metrics` renders from an outline.
pub open spec fn outline_glyph(
    metrics: TrueTypeMetrics,
    hor_advance: u16,
    outline: Option<Seq<Segment>>,
) -> Glyph {
    Glyph {
        path: match outline {
            Some(segs) => Some(
                outline_text(
                    segs,
                    Point { x: 0, y: 0 },
                    metrics.outline_scale,
                    metrics.precision,
                ),
            ),
            None => None,
        },
        hor_advance: hor_advance as nat,
    }
}

impl<'a> TrueTypeFont<'a> {
    /// The face whose glyphs the font renders.
    pub closed spec fn face(&self) -> Face<'a> {
        *self.font
    }

    /// Construct a new [`TrueTypeFont`].
    ///
    /// The font is set at `font_height` units of the viewbox per em: that
    /// gives its scale, and its height is what stands above the descender.
    pub fn new(font: &'a Face<'a>, font_height: u32, precision: u8) -> (this: Self)
        ensures
            this.face() == *font,
            this@.precision == precision,
            exists|units_per_em: u16, descender: i16|
                {
                    &&& 16 <= units_per_em <= 16384
                    &&& this@.scale.numer_spec() == font_height
                    &&& this@.scale.denom_spec() == units_per_em
                    &&& this@.outline_scale.numer_spec() == font_height
                    &&& this@.outline_scale.denom_spec() == units_per_em * OUTLINE_UNITS
                    &&& this@.height == #[trigger] height_above_descender(
                        font_height,
                        units_per_em,
                        descender,
                    )
                },
    {
        let units_per_em = face_units_per_em(font);
        let descender = face_descender(font);
        let (scale, outline_scale, height) = font_metrics(font_height, units_per_em, descender);
        Self { font, scale, outline_scale, precision, height, path_buffer: String::new() }
    }

    /// The font height relative to the badge viewbox.
    pub fn height(&self) -> (height: u32)
        ensures
            height == self@.height,
    {
        self.height
    }

    /// The scale of the font used in path rendering.
    pub fn scale(&self) -> (scale: Scale)
        ensures
            scale == self@.scale,
    {
        self.scale
    }

    /// The precision of the font used in path rendering.
    pub fn precision(&self) -> (precision: u8)
        ensures
            precision == self@.precision,
    {
        self.precision
    }

    /// The glyph that the font has for `c`, if it has one with an advance.
    pub fn glyph(&self, c: char) -> (request: Option<GlyphRequest>)
        ensures
            request == face_glyph(self.face(), c),
    {
        match face_glyph_index(self.font, c) {
            Some(id) => glyph_request(Some(id), face_glyph_hor_advance(self.font, id)),
            None => None,
        }
    }

    /// Renders a glyph from its advance and its outline, if it has one: the
    /// path of the outline, drawn from the origin, in the font's scratch
    /// buffer.
    pub fn render_outline(&mut self, hor_advance: u16, outline: Option<&[Segment]>) -> (glyph:
        FontGlyph<'_>)
        ensures
            final(self)@ == old(self)@,
            final(self).face() == old(self).face(),
            glyph@ == outline_glyph(
                old(self)@,
                hor_advance,
                match outline {
                    Some(segs) => Some(segs@),
                    None => None,
                },
            ),
    {
        self.path_buffer.clear();
        match outline {
            Some(segs) => {
                let mut buf = String::new();
                core::mem::swap(&mut buf, &mut self.path_buffer);
                let mut sink = PathSink::new(self.outline_scale, self.precision, buf);
                sink.outline(segs);
                let mut path = sink.into_path();
                core::mem::swap(&mut path, &mut self.path_buffer);
                assert(self.path_buffer@ =~= outline_text(
                    segs@,
                    Point { x: 0, y: 0 },
                    self.outline_scale,
                    self.precision,
                ));
                FontGlyph { path: Some(self.path_buffer.as_str()), hor_advance: hor_advance as u32 }
            },
            None => FontGlyph { path: None, hor_advance: hor_advance as u32 },
        }
    }
}

} // verus!
