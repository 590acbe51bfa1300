//! Fonts: what a font renders for a character, and the layout of a run of
//! text along a line.

use vstd::prelude::*;
use crate::path::{move_to_abs_text, PathSink, Scale};
use crate::Point;

verus! {

/// Licenses for fonts included in the library: it includes none.
pub fn font_licenses() -> (licenses: &'static [&'static str])
    ensures
        licenses@.len() == 0,
{
    &[]
}

/// What a font renders for one character: the path of the glyph, where it
/// has an outline, and how far it moves the cursor, in font units.
pub ghost struct Glyph {
    pub path: Option<Seq<char>>,
    pub hor_advance: nat,
}

/// A font as far as a badge depends on it.
pub ghost struct FontFace {
    /// The height of the font in the badge's viewbox.
    pub height: u32,
    /// The factor from font units to units of the viewbox.
    pub scale: Scale,
    /// The precision of the coordinates in paths.
    pub precision: u8,
    /// The glyphs of the characters that the font can render.
    pub glyphs: Map<char, Glyph>,
}

impl FontFace {
    /// What the font renders for `c`, if it has a glyph for it.
    pub open spec fn glyph(self, c: char) -> Option<Glyph> {
        if self.glyphs.dom().contains(c) {
            Some(self.glyphs[c])
        } else {
            None
        }
    }
}

/// A rendered glyph.
#[derive(Debug)]
pub struct FontGlyph<'a> {
    /// The path of the glyph, if it has one.
    pub path: Option<&'a str>,
    /// The horizontal advance of the glyph, in font units.
    pub hor_advance: u32,
}

impl<'a> View for FontGlyph<'a> {
    type V = Glyph;

    open spec fn view(&self) -> Glyph {
        Glyph {
            path: match self.path {
                Some(p) => Some(p@),
                None => None,
            },
            hor_advance: self.hor_advance as nat,
        }
    }
}

/// A Font trait specific to badge generation.
pub trait Font {
    /// Whether the font is in a state in which it can be used.
    open spec fn inv(&self) -> bool {
        true
    }

    /// The font that this value renders.
    open spec fn face(&self) -> FontFace {
        arbitrary()
    }

    /// The font height relative to the badge viewbox.
    fn height(&self) -> (height: u32)
        requires
            self.inv(),
        ensures
            height == self.face().height,
    ;

    /// Render a character glyph if it exists.
    ///
    /// The same character gives the same glyph at every call: rendering
    /// leaves the font what it is.
    fn render_glyph(&mut self, c: char) -> (glyph: Option<FontGlyph<'_>>)
        requires
            old(self).inv(),
        ensures
            final(self).inv(),
            final(self).face() == old(self).face(),
            match glyph {
                Some(g) => old(self).face().glyph(c) == Some(g@),
                None => old(self).face().glyph(c) is None,
            },
    ;

    /// The scale of the font used in path rendering.
    fn scale(&self) -> (scale: Scale)
        requires
            self.inv(),
        ensures
            scale == self.face().scale,
    ;

    /// The precision of the font used in path rendering.
    fn precision(&self) -> (precision: u8)
        requires
            self.inv(),
        ensures
            precision == self.face().precision,
    ;
}

/// What becomes of a character that the font has no glyph for.
#[derive(Debug, Clone, Copy, PartialEq, Eq)]
pub enum MissingGlyph {
    /// It is left out of the run altogether.
    Skip,
    /// It takes a place in the run, with no path and no advance.
    ZeroAdvance,
}

/// The greatest advance of a run, in font units.
pub const ADVANCE_LIMIT: u64 = 0xffff_ffff_ffff_ffff;

/// A run of text as far as it is laid out.
pub ghost struct Run {
    /// How far the cursor has moved, in font units.
    pub advance: nat,
    /// How many places of the run are taken.
    pub places: nat,
    /// The path of the glyphs so far.
    pub path: Seq<char>,
}

/// Where the next glyph of `run` stands, in font units from the origin: after
/// the advances so far, and after the letter spacing unless it is the first.
pub open spec fn next_place(run: Run, letter_spacing: nat) -> nat {
    if run.places > 0 {
        run.advance + letter_spacing
    } else {
        run.advance
    }
}

/// The path of a glyph with the path `path`, placed `at` font units right of
/// `origin`: an absolute move to its place, then its path.
pub open spec fn placed_path(face: FontFace, origin: Point<u32>, at: nat, path: Seq<char>) -> Seq<
    char,
> {
    move_to_abs_text(
        origin.x * face.scale.denom_spec() + at * face.scale.numer_spec(),
        origin.y * face.scale.denom_spec(),
        face.scale.denom_spec(),
        face.precision,
    ) + path
}

/// The run `run` with the character `c` laid out after it.
pub open spec fn run_with(
    face: FontFace,
    origin: Point<u32>,
    letter_spacing: nat,
    missing: MissingGlyph,
    run: Run,
    c: char,
) -> Run {
    let at = next_place(run, letter_spacing);
    match face.glyph(c) {
        Some(g) => Run {
            advance: at + g.hor_advance,
            places: run.places + 1,
            path: match g.path {
                Some(p) => run.path + placed_path(face, origin, at, p),
                None => run.path,
            },
        },
        None => match missing {
            MissingGlyph::Skip => run,
            MissingGlyph::ZeroAdvance => Run { advance: at, places: run.places + 1, path: run.path },
        },
    }
}

/// The run of the characters of `text`, laid out from left to right.
pub open spec fn run_of(
    face: FontFace,
    origin: Point<u32>,
    letter_spacing: nat,
    missing: MissingGlyph,
    text: Seq<char>,
) -> Run
    decreases text.len(),
{
    if text.len() == 0 {
        Run { advance: 0, places: 0, path: Seq::<char>::empty() }
    } else {
        run_with(
            face,
            origin,
            letter_spacing,
            missing,
            run_of(face, origin, letter_spacing, missing, text.drop_last()),
            text.last(),
        )
    }
}

/// The width of an advance of `advance` font units, in whole units of the
/// viewbox.
pub open spec fn scaled_width(face: FontFace, advance: nat) -> int {
    (advance * face.scale.numer_spec()) / face.scale.denom_spec()
}

/// Whether a run of `advance` font units from `origin` stays within the
/// limits of the coordinates.
pub open spec fn run_fits(face: FontFace, origin: Point<u32>, advance: nat) -> bool {
    advance <= ADVANCE_LIMIT && origin.x + scaled_width(face, advance) <= u32::MAX
}

/// Renders `text` as one path, with the first glyph at `origin`, and returns
/// the width of the run in whole units of the viewbox.
///
/// The path is appended to `path_buffer`. Each glyph that has a path stands
/// where the advances of the glyphs before it, and `letter_spacing` font
/// units before each but the first, have moved the cursor. The result is
/// `None` where the run does not fit.
pub fn render_text_path<T: Font>(
    font: &mut T,
    origin: Point<u32>,
    text: &str,
    letter_spacing: u32,
    missing: MissingGlyph,
    path_buffer: &mut String,
) -> (width: Option<u32>)
    requires
        old(font).inv(),
    ensures
        final(font).inv(),
        final(font).face() == old(font).face(),
        ({
            let face = old(font).face();
            let run = run_of(face, origin, letter_spacing as nat, missing, text@);
            match width {
                Some(w) => {
                    &&& run_fits(face, origin, run.advance)
                    &&& w == scaled_width(face, run.advance)
                    &&& final(path_buffer)@ == old(path_buffer)@ + run.path
                },
                None => {
                    &&& !run_fits(face, origin, run.advance)
                    &&& old(path_buffer)@.is_prefix_of(final(path_buffer)@)
                },
            }
        }),
{
    broadcast use vstd::string::axiom_spec_iter;

    let scale = font.scale();
    let numer: u32 = scale.numer();
    let denom: u32 = scale.denom();
    let mut buf = String::new();
    core::mem::swap(&mut buf, path_buffer);
    let mut sink = PathSink::new(scale, font.precision(), buf);
    let ghost face = font.face();
    let ghost spacing = letter_spacing as nat;
    let mut advance: u64 = 0;
    let mut taken: bool = false;
    let mut fits: bool = true;
    for c in it: text.chars()
        invariant
            it.seq() == text@,
            font.inv(),
            font.face() == face,
            face == old(font).face(),
            numer == face.scale.numer_spec(),
            denom == face.scale.denom_spec(),
            denom > 0,
            spacing == letter_spacing,
            sink.precision() == face.precision,
            old(path_buffer)@.is_prefix_of(sink.text()),
            fits ==> {
                let run = run_of(face, origin, spacing, missing, text@.take(it.index()));
                &&& advance == run.advance
                &&& taken == (run.places > 0)
                &&& sink.text() == old(path_buffer)@ + run.path
            },
            !fits ==> exists|k: int|
                0 <= k <= text@.len() && #[trigger] run_of(
                    face,
                    origin,
                    spacing,
                    missing,
                    text@.take(k),
                ).advance > ADVANCE_LIMIT,
    {
        let ghost i = it.index();
        let ghost run = run_of(face, origin, spacing, missing, text@.take(i));
        assert(text@.take(i + 1).drop_last() =~= text@.take(i));
        assert(text@.take(i + 1).last() == c);
        let ghost next = run_of(face, origin, spacing, missing, text@.take(i + 1));
        assert(next == run_with(face, origin, spacing, missing, run, c));
        if fits {
            let at: u128 = if taken {
                advance as u128 + letter_spacing as u128
            } else {
                advance as u128
            };
            match font.render_glyph(c) {
                Some(entry) => {
                    if at + entry.hor_advance as u128 > ADVANCE_LIMIT as u128 {
                        fits = false;
                        assert(next.advance > ADVANCE_LIMIT);
                    } else {
                        if let Some(path) = entry.path {
                            assert(at * numer <= 0xffff_ffff_ffff_ffff * 0xffff_ffff)
                                by (nonlinear_arith)
                                requires
                                    0 <= at <= 0xffff_ffff_ffff_ffff,
                                    0 <= numer <= 0xffff_ffff,
                            ;
                            assert(origin.x * denom <= 0xffff_ffff * 0xffff_ffff)
                                by (nonlinear_arith)
                                requires
                                    0 <= origin.x <= 0xffff_ffff,
                                    0 <= denom <= 0xffff_ffff,
                            ;
                            assert(origin.y * denom <= 0xffff_ffff * 0xffff_ffff)
                                by (nonlinear_arith)
                                requires
                                    0 <= origin.y <= 0xffff_ffff,
                                    0 <= denom <= 0xffff_ffff,
                            ;
                            let x: u128 = origin.x as u128 * denom as u128 + at * numer as u128;
                            let y: u128 = origin.y as u128 * denom as u128;
                            let ghost before = sink.text();
                            sink.set_last(0, 0);
                            sink.write_move_to_abs(x as i128, y as i128, denom);
                            sink.write_str(path);
                            assert(sink.text() =~= before + placed_path(face, origin, at as nat, path@));
                            assert(old(path_buffer)@.is_prefix_of(sink.text()));
                        }
                        advance = (at + entry.hor_advance as u128) as u64;
                        taken = true;
                    }
                },
                None => {
                    match missing {
                        MissingGlyph::Skip => {},
                        MissingGlyph::ZeroAdvance => {
                            if at > ADVANCE_LIMIT as u128 {
                                fits = false;
                                assert(next.advance > ADVANCE_LIMIT);
                            } else {
                                advance = at as u64;
                                taken = true;
                            }
                        },
                    }
                },
            }
        }
    }
    assert(text@.take(text@.len() as int) =~= text@);
    let mut out = sink.into_path();
    core::mem::swap(&mut out, path_buffer);
    let ghost total = run_of(face, origin, spacing, missing, text@);
    if !fits {
        proof {
            let k = choose|k: int|
                0 <= k <= text@.len() && #[trigger] run_of(
                    face,
                    origin,
                    spacing,
                    missing,
                    text@.take(k),
                ).advance > ADVANCE_LIMIT;
            lemma_run_advance_grows(face, origin, spacing, missing, text@, k);
        }
        return None;
    }
    assert(advance * numer <= 0xffff_ffff_ffff_ffff * 0xffff_ffff) by (nonlinear_arith)
        requires
            0 <= advance <= 0xffff_ffff_ffff_ffff,
            0 <= numer <= 0xffff_ffff,
    ;
    let width: u128 = (advance as u128 * numer as u128) / denom as u128;
    if origin.x as u128 + width > u32::MAX as u128 {
        None
    } else {
        Some(width as u32)
    }
}

/// The advance of a run never shrinks as the text goes on.
pub proof fn lemma_run_advance_grows(
    face: FontFace,
    origin: Point<u32>,
    letter_spacing: nat,
    missing: MissingGlyph,
    text: Seq<char>,
    k: int,
)
    requires
        0 <= k <= text.len(),
    ensures
        run_of(face, origin, letter_spacing, missing, text.take(k)).advance <= run_of(
            face,
            origin,
            letter_spacing,
            missing,
            text,
        ).advance,
    decreases text.len() - k,
{
    if k == text.len() {
        assert(text.take(k) =~= text);
    } else {
        lemma_run_advance_grows(face, origin, letter_spacing, missing, text.drop_last(), k);
        assert(text.drop_last().take(k) =~= text.take(k));
    }
}

} // verus!
