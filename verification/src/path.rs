//! Path data: glyph outlines as compact path commands.

use vstd::prelude::*;
use vstd::string::StringExecFns;
use crate::num::{decimal_text, push_decimal, round_div};
use crate::Point;

verus! {

/// The greatest magnitude of the numerator of a value that a sink writes.
pub const VALUE_LIMIT: i128 = 0x10_0000_0000_0000_0000_0000_0000;

/// The greatest magnitude of a numerator that is rounded.
pub const ROUNDING_LIMIT: i128 = 0x1000_0000_0000_0000_0000_0000_0000_0000;

/// A scale factor: the exact fraction `numer / denom`.
#[derive(Debug, Clone, Copy, PartialEq, Eq)]
pub struct Scale {
    numer: u32,
    denom: u32,
}

impl Scale {
    #[verifier::type_invariant]
    spec fn well_formed(self) -> bool {
        self.denom > 0
    }

    /// The numerator of the factor.
    pub closed spec fn numer_spec(self) -> int {
        self.numer as int
    }

    /// The denominator of the factor.
    pub closed spec fn denom_spec(self) -> int {
        self.denom as int
    }

    /// The factor `numer / denom`, unless `denom` is zero.
    pub fn new(numer: u32, denom: u32) -> (scale: Option<Self>)
        ensures
            denom == 0 <==> scale is None,
            scale matches Some(s) ==> s.numer_spec() == numer && s.denom_spec() == denom,
    {
        if denom == 0 {
            None
        } else {
            Some(Self { numer, denom })
        }
    }

    /// The factor one.
    pub fn one() -> (scale: Self)
        ensures
            scale.numer_spec() == 1,
            scale.denom_spec() == 1,
    {
        Self { numer: 1, denom: 1 }
    }

    /// The numerator of the factor.
    pub fn numer(&self) -> (numer: u32)
        ensures
            numer == self.numer_spec(),
    {
        self.numer
    }

    /// The denominator of the factor, which is not zero.
    pub fn denom(&self) -> (denom: u32)
        ensures
            denom == self.denom_spec(),
            denom > 0,
    {
        proof {
            use_type_invariant(self);
        }
        self.denom
    }
}

/// The number of steps that a unit is divided into at `precision`: one where
/// it is zero, and else ten times the precision.
pub open spec fn precision_mod(precision: u8) -> int {
    if precision == 0 {
        1
    } else {
        precision * 10
    }
}

/// The value `n / d` in steps of `precision`, rounded to the nearest step.
pub open spec fn operand_steps(n: int, d: int, precision: u8) -> int {
    round_div(n * precision_mod(precision), d)
}

/// The text of the operand `n / d` at `precision`: the value rounded to the
/// nearest step, with a space before it unless it is the first of its command
/// or its minus sign parts it from the operand before.
pub open spec fn operand_text(n: int, d: int, precision: u8, first: bool) -> Seq<char> {
    let m = precision_mod(precision);
    let q = operand_steps(n, d, precision);
    (if !first && q >= 0 {
        seq![' ']
    } else {
        Seq::<char>::empty()
    }) + decimal_text(q, m)
}

/// The number of steps that a unit is divided into at `precision`.
pub fn steps_per_unit(precision: u8) -> (m: u32)
    ensures
        m == precision_mod(precision),
        0 < m <= 2550,
{
    if precision == 0 {
        1
    } else {
        precision as u32 * 10
    }
}

/// The integer nearest to `n / d`, halves rounded away from zero.
pub fn rounded(n: i128, d: u32) -> (q: i128)
    requires
        d > 0,
        -ROUNDING_LIMIT <= n <= ROUNDING_LIMIT,
    ensures
        q == round_div(n as int, d as int),
        -ROUNDING_LIMIT <= q <= ROUNDING_LIMIT,
{
    let d2: i128 = 2 * (d as i128);
    if n >= 0 {
        let q = (2 * n + (d as i128)) / d2;
        assert(q <= n) by (nonlinear_arith)
            requires
                q == (2 * n + d) / (2 * d),
                n >= 0,
                d >= 1,
                d2 == 2 * d,
        ;
        q
    } else {
        let a: i128 = -n;
        let q = (2 * a + (d as i128)) / d2;
        assert(q <= a) by (nonlinear_arith)
            requires
                q == (2 * a + d) / (2 * d),
                a >= 0,
                d >= 1,
        ;
        -q
    }
}

/// One primitive of a glyph outline, in outline units with `y` upwards.
#[derive(Debug, Clone, Copy, PartialEq, Eq)]
pub enum Segment {
    /// Begins a contour at a point.
    MoveTo { x: i32, y: i32 },
    /// A straight line to a point.
    LineTo { x: i32, y: i32 },
    /// A quadratic curve to a point, by one control point.
    QuadTo { x1: i32, y1: i32, x: i32, y: i32 },
    /// A cubic curve to a point, by two control points.
    CurveTo { x1: i32, y1: i32, x2: i32, y2: i32, x: i32, y: i32 },
    /// Ends the contour.
    Close,
}

/// The text of the horizontal operand `x`, as a step from `last`.
pub open spec fn x_text(x: i32, last: Point<i32>, scale: Scale, precision: u8, first: bool) -> Seq<
    char,
> {
    operand_text((x - last.x) * scale.numer_spec(), scale.denom_spec(), precision, first)
}

/// The text of the vertical operand `y`, as a step from `last` with `y`
/// downwards.
pub open spec fn y_text(y: i32, last: Point<i32>, scale: Scale, precision: u8) -> Seq<char> {
    operand_text((last.y - y) * scale.numer_spec(), scale.denom_spec(), precision, false)
}

/// The text of the point `(x, y)`, as a step from `last`.
pub open spec fn point_text(
    x: i32,
    y: i32,
    last: Point<i32>,
    scale: Scale,
    precision: u8,
    first: bool,
) -> Seq<char> {
    x_text(x, last, scale, precision, first) + y_text(y, last, scale, precision)
}

/// The path command of `seg`, drawn from the position `last`.
pub open spec fn segment_text(seg: Segment, last: Point<i32>, scale: Scale, precision: u8) -> Seq<
    char,
> {
    match seg {
        Segment::MoveTo { x, y } => seq!['m'] + point_text(x, y, last, scale, precision, true),
        Segment::LineTo { x, y } => seq!['l'] + point_text(x, y, last, scale, precision, true),
        Segment::QuadTo { x1, y1, x, y } => seq!['q'] + point_text(
            x1,
            y1,
            last,
            scale,
            precision,
            true,
        ) + point_text(x, y, last, scale, precision, false),
        Segment::CurveTo { x1, y1, x2, y2, x, y } => seq!['c'] + point_text(
            x1,
            y1,
            last,
            scale,
            precision,
            true,
        ) + point_text(x2, y2, last, scale, precision, false) + point_text(
            x,
            y,
            last,
            scale,
            precision,
            false,
        ),
        Segment::Close => seq!['Z'],
    }
}

/// The position after `seg`, drawn from the position `last`.
pub open spec fn segment_end(seg: Segment, last: Point<i32>) -> Point<i32> {
    match seg {
        Segment::MoveTo { x, y } => Point { x, y },
        Segment::LineTo { x, y } => Point { x, y },
        Segment::QuadTo { x1, y1, x, y } => Point { x, y },
        Segment::CurveTo { x1, y1, x2, y2, x, y } => Point { x, y },
        Segment::Close => last,
    }
}

/// The position after the outline `segs`, drawn from the position `last`.
pub open spec fn outline_end(segs: Seq<Segment>, last: Point<i32>) -> Point<i32>
    decreases segs.len(),
{
    if segs.len() == 0 {
        last
    } else {
        segment_end(segs.last(), outline_end(segs.drop_last(), last))
    }
}

/// The path data of the outline `segs`, drawn from the position `last`.
pub open spec fn outline_text(segs: Seq<Segment>, last: Point<i32>, scale: Scale, precision: u8) -> Seq<
    char,
>
    decreases segs.len(),
{
    if segs.len() == 0 {
        Seq::<char>::empty()
    } else {
        outline_text(segs.drop_last(), last, scale, precision) + segment_text(
            segs.last(),
            outline_end(segs.drop_last(), last),
            scale,
            precision,
        )
    }
}

/// A sink of path data: it appends path commands to a string, in screen
/// units, for outline primitives given in outline units.
pub struct PathSink {
    scale: Scale,
    last: Point<i32>,
    path: String,
    precision: u8,
}

impl PathSink {
    /// The path data written so far.
    pub closed spec fn text(&self) -> Seq<char> {
        self.path@
    }

    /// The position that the next command is drawn from.
    pub closed spec fn last(&self) -> Point<i32> {
        self.last
    }

    /// The factor from outline units to screen units.
    pub closed spec fn scale(&self) -> Scale {
        self.scale
    }

    /// The precision that operands are rounded to.
    pub closed spec fn precision(&self) -> u8 {
        self.precision
    }

    /// Whether `other` is this sink but for its text and its last position.
    pub open spec fn same_settings(&self, other: &Self) -> bool {
        self.scale() == other.scale() && self.precision() == other.precision()
    }

    /// A sink that appends to `path`, with its last position at the origin.
    pub fn new(scale: Scale, precision: u8, path: String) -> (sink: Self)
        ensures
            sink.text() == path@,
            sink.last() == (Point::<i32> { x: 0, y: 0 }),
            sink.scale() == scale,
            sink.precision() == precision,
    {
        Self { path, scale, precision, last: Point { x: 0, y: 0 } }
    }

    /// Gives back the string with all that was appended to it.
    pub fn into_path(self) -> (path: String)
        ensures
            path@ == self.text(),
    {
        self.path
    }

    /// Appends `s`.
    pub fn write_str(&mut self, s: &str)
        ensures
            final(self).text() == old(self).text() + s@,
            final(self).last() == old(self).last(),
            final(self).same_settings(old(self)),
    {
        self.path.append(s);
    }

    /// Appends the horizontal operand `x`, as a step from the last position.
    fn write_x(&mut self, x: i32, first: bool)
        ensures
            final(self).text() == old(self).text() + x_text(
                x,
                old(self).last(),
                old(self).scale(),
                old(self).precision(),
                first,
            ),
            final(self).last() == old(self).last(),
            final(self).same_settings(old(self)),
    {
        self.write_scaled(x as i64 - self.last.x as i64, first)
    }

    /// Appends the vertical operand `y`, as a step from the last position with
    /// `y` downwards.
    fn write_y(&mut self, y: i32)
        ensures
            final(self).text() == old(self).text() + y_text(
                y,
                old(self).last(),
                old(self).scale(),
                old(self).precision(),
            ),
            final(self).last() == old(self).last(),
            final(self).same_settings(old(self)),
    {
        self.write_scaled(self.last.y as i64 - y as i64, false)
    }

    /// Appends the operand `v`, scaled.
    fn write_scaled(&mut self, v: i64, first: bool)
        requires
            -0x1_0000_0000 <= v <= 0x1_0000_0000,
        ensures
            final(self).text() == old(self).text() + operand_text(
                v * old(self).scale().numer_spec(),
                old(self).scale().denom_spec(),
                old(self).precision(),
                first,
            ),
            final(self).last() == old(self).last(),
            final(self).same_settings(old(self)),
    {
        let numer: u32 = self.scale.numer();
        let denom: u32 = self.scale.denom();
        assert(-0x1_0000_0000_0000_0000 <= v * numer <= 0x1_0000_0000_0000_0000) by (nonlinear_arith)
            requires
                -0x1_0000_0000 <= v <= 0x1_0000_0000,
                0 <= numer <= 0xffff_ffff,
        ;
        self.write_value(v as i128 * numer as i128, denom, first);
    }

    /// Appends the operand `n / d`: rounded to a step of the precision, as an
    /// integer where it is whole and else as a decimal.
    pub fn write_value(&mut self, n: i128, d: u32, first: bool)
        requires
            d > 0,
            -VALUE_LIMIT <= n <= VALUE_LIMIT,
        ensures
            final(self).text() == old(self).text() + operand_text(
                n as int,
                d as int,
                old(self).precision(),
                first,
            ),
            final(self).last() == old(self).last(),
            final(self).same_settings(old(self)),
    {
        let m: u32 = steps_per_unit(self.precision);
        assert(-ROUNDING_LIMIT <= n * m <= ROUNDING_LIMIT) by (nonlinear_arith)
            requires
                -VALUE_LIMIT <= n <= VALUE_LIMIT,
                0 <= m <= 2550,
        ;
        let q: i128 = rounded(n * (m as i128), d);
        if !first && q >= 0 {
            self.path.push(' ');
        }
        push_decimal(&mut self.path, q, m);
        assert(self.path@ =~= old(self).path@ + operand_text(
            n as int,
            d as int,
            old(self).precision,
            first,
        ));
    }

    /// Appends an absolute move to the point `(x / d, y / d)`, in screen
    /// units.
    pub fn write_move_to_abs(&mut self, x: i128, y: i128, d: u32)
        requires
            d > 0,
            -VALUE_LIMIT <= x <= VALUE_LIMIT,
            -VALUE_LIMIT <= y <= VALUE_LIMIT,
        ensures
            final(self).text() == old(self).text() + move_to_abs_text(
                x as int,
                y as int,
                d as int,
                old(self).precision(),
            ),
            final(self).last() == old(self).last(),
            final(self).same_settings(old(self)),
    {
        self.write_str("M");
        self.write_value(x, d, true);
        self.write_value(y, d, false);
        assert(self.text() =~= old(self).text() + move_to_abs_text(
            x as int,
            y as int,
            d as int,
            old(self).precision(),
        )) by {
            reveal_strlit("M");
        }
    }

    /// Sets the position that the next command is drawn from.
    pub fn set_last(&mut self, x: i32, y: i32)
        ensures
            final(self).text() == old(self).text(),
            final(self).last() == (Point::<i32> { x, y }),
            final(self).same_settings(old(self)),
    {
        self.last = Point { x, y };
    }

    /// Whether this is the sink `old` after the command of `seg`: the
    /// command is appended, and the last position is where it ends.
    pub open spec fn after(&self, old: &Self, seg: Segment) -> bool {
        &&& self.text() == old.text() + segment_text(seg, old.last(), old.scale(), old.precision())
        &&& self.last() == segment_end(seg, old.last())
        &&& self.same_settings(old)
    }

    /// Begins a contour at `(x, y)`.
    pub fn move_to(&mut self, x: i32, y: i32)
        ensures
            final(self).after(old(self), Segment::MoveTo { x, y }),
    {
        self.write_str("m");
        self.write_x(x, true);
        self.write_y(y);
        self.set_last(x, y);
        assert(self.text() =~= old(self).text() + segment_text(
            Segment::MoveTo { x, y },
            old(self).last(),
            old(self).scale(),
            old(self).precision(),
        )) by {
            reveal_strlit("m");
        }
    }

    /// Draws a line to `(x, y)`.
    pub fn line_to(&mut self, x: i32, y: i32)
        ensures
            final(self).after(old(self), Segment::LineTo { x, y }),
    {
        self.write_str("l");
        self.write_x(x, true);
        self.write_y(y);
        self.set_last(x, y);
        assert(self.text() =~= old(self).text() + segment_text(
            Segment::LineTo { x, y },
            old(self).last(),
            old(self).scale(),
            old(self).precision(),
        )) by {
            reveal_strlit("l");
        }
    }

    /// Draws a quadratic curve to `(x, y)`, by the control point `(x1, y1)`.
    pub fn quad_to(&mut self, x1: i32, y1: i32, x: i32, y: i32)
        ensures
            final(self).after(old(self), Segment::QuadTo { x1, y1, x, y }),
    {
        self.write_str("q");
        self.write_x(x1, true);
        self.write_y(y1);
        self.write_x(x, false);
        self.write_y(y);
        self.set_last(x, y);
        assert(self.text() =~= old(self).text() + segment_text(
            Segment::QuadTo { x1, y1, x, y },
            old(self).last(),
            old(self).scale(),
            old(self).precision(),
        )) by {
            reveal_strlit("q");
        }
    }

    /// Draws a cubic curve to `(x, y)`, by the control points `(x1, y1)` and
    /// `(x2, y2)`.
    pub fn curve_to(&mut self, x1: i32, y1: i32, x2: i32, y2: i32, x: i32, y: i32)
        ensures
            final(self).after(old(self), Segment::CurveTo { x1, y1, x2, y2, x, y }),
    {
        self.write_str("c");
        self.write_x(x1, true);
        self.write_y(y1);
        self.write_x(x2, false);
        self.write_y(y2);
        self.write_x(x, false);
        self.write_y(y);
        self.set_last(x, y);
        assert(self.text() =~= old(self).text() + segment_text(
            Segment::CurveTo { x1, y1, x2, y2, x, y },
            old(self).last(),
            old(self).scale(),
            old(self).precision(),
        )) by {
            reveal_strlit("c");
        }
    }

    /// Ends the contour.
    pub fn close(&mut self)
        ensures
            final(self).after(old(self), Segment::Close),
    {
        self.write_str("Z");
        assert(self.text() =~= old(self).text() + seq!['Z']) by {
            reveal_strlit("Z");
        }
    }

    /// Appends the command of `seg`.
    pub fn segment(&mut self, seg: Segment)
        ensures
            final(self).after(old(self), seg),
    {
        match seg {
            Segment::MoveTo { x, y } => self.move_to(x, y),
            Segment::LineTo { x, y } => self.line_to(x, y),
            Segment::QuadTo { x1, y1, x, y } => self.quad_to(x1, y1, x, y),
            Segment::CurveTo { x1, y1, x2, y2, x, y } => self.curve_to(x1, y1, x2, y2, x, y),
            Segment::Close => self.close(),
        }
    }

    /// Appends the commands of the outline `segs`, in order.
    pub fn outline(&mut self, segs: &[Segment])
        ensures
            final(self).text() == old(self).text() + outline_text(
                segs@,
                old(self).last(),
                old(self).scale(),
                old(self).precision(),
            ),
            final(self).last() == outline_end(segs@, old(self).last()),
            final(self).same_settings(old(self)),
    {
        let mut i: usize = 0;
        while i < segs.len()
            invariant
                i <= segs.len(),
                self.text() == old(self).text() + outline_text(
                    segs@.take(i as int),
                    old(self).last(),
                    old(self).scale(),
                    old(self).precision(),
                ),
                self.last() == outline_end(segs@.take(i as int), old(self).last()),
                self.same_settings(old(self)),
            decreases segs.len() - i,
        {
            let ghost before = self.text();
            assert(segs@.take(i + 1).drop_last() =~= segs@.take(i as int));
            assert(segs@.take(i + 1).last() == segs@[i as int]);
            self.segment(segs[i]);
            assert(self.text() =~= old(self).text() + outline_text(
                segs@.take(i + 1),
                old(self).last(),
                old(self).scale(),
                old(self).precision(),
            ));
            i = i + 1;
        }
        assert(segs@.take(segs.len() as int) =~= segs@);
    }
}

/// The text of an absolute move to the point `(x / d, y / d)`.
pub open spec fn move_to_abs_text(x: int, y: int, d: int, precision: u8) -> Seq<char> {
    seq!['M'] + operand_text(x, d, precision, true) + operand_text(y, d, precision, false)
}

/// The horizontal step of an operand `x` drawn from `last`, in steps of the
/// precision.
pub open spec fn x_steps(x: i32, last: Point<i32>, scale: Scale, precision: u8) -> int {
    operand_steps((x - last.x) * scale.numer_spec(), scale.denom_spec(), precision)
}

/// The vertical step of an operand `y` drawn from `last`, in steps of the
/// precision, with `y` downwards.
pub open spec fn y_steps(y: i32, last: Point<i32>, scale: Scale, precision: u8) -> int {
    operand_steps((last.y - y) * scale.numer_spec(), scale.denom_spec(), precision)
}

/// Where a reader of the path data of `segs` stands after it, in steps of
/// the precision right of and below the start: the sum of the steps that
/// the commands give for their end points.
pub open spec fn traced(segs: Seq<Segment>, last: Point<i32>, scale: Scale, precision: u8) -> (
    int,
    int,
)
    decreases segs.len(),
{
    if segs.len() == 0 {
        (0, 0)
    } else {
        let before = traced(segs.drop_last(), last, scale, precision);
        let from = outline_end(segs.drop_last(), last);
        let to = segment_end(segs.last(), from);
        (
            before.0 + x_steps(to.x, from, scale, precision),
            before.1 + y_steps(to.y, from, scale, precision),
        )
    }
}

/// Rounding moves a value by half a unit at most.
pub proof fn lemma_round_div_near(n: int, d: int)
    requires
        d > 0,
    ensures
        -d <= 2 * (round_div(n, d) * d - n) <= d,
{
    if n >= 0 {
        let q = (2 * n + d) / (2 * d);
        assert(2 * d * q <= 2 * n + d < 2 * d * q + 2 * d) by (nonlinear_arith)
            requires
                q == (2 * n + d) / (2 * d),
                d > 0,
        ;
        assert(2 * (q * d - n) == 2 * d * q - 2 * n) by (nonlinear_arith);
    } else {
        let a = -n;
        let q = (2 * a + d) / (2 * d);
        assert(2 * d * q <= 2 * a + d < 2 * d * q + 2 * d) by (nonlinear_arith)
            requires
                q == (2 * a + d) / (2 * d),
                d > 0,
        ;
        assert(2 * ((-q) * d - n) == 2 * a - 2 * d * q) by (nonlinear_arith)
            requires
                a == -n,
        ;
    }
}

/// The path data of an outline leads a reader to where the outline ends:
/// the steps of its commands add up to the scaled end point, but for half a
/// step of the precision for each command at most.
pub proof fn lemma_traced_near_end(
    segs: Seq<Segment>,
    last: Point<i32>,
    scale: Scale,
    precision: u8,
)
    requires
        scale.denom_spec() > 0,
    ensures
        ({
            let end = outline_end(segs, last);
            let at = traced(segs, last, scale, precision);
            let unit = scale.numer_spec() * precision_mod(precision);
            let d = scale.denom_spec();
            &&& -(segs.len() as int) * d <= 2 * (at.0 * d - (end.x - last.x) * unit) <= segs.len()
                * d
            &&& -(segs.len() as int) * d <= 2 * (at.1 * d - (last.y - end.y) * unit) <= segs.len()
                * d
        }),
    decreases segs.len(),
{
    if segs.len() > 0 {
        let rest = segs.drop_last();
        lemma_traced_near_end(rest, last, scale, precision);
        let from = outline_end(rest, last);
        let to = outline_end(segs, last);
        let before = traced(rest, last, scale, precision);
        let m = precision_mod(precision);
        let num = scale.numer_spec();
        let d = scale.denom_spec();
        let unit = num * m;
        let k = rest.len() as int;
        let qx = x_steps(to.x, from, scale, precision);
        let qy = y_steps(to.y, from, scale, precision);
        lemma_round_div_near((to.x - from.x) * num * m, d);
        lemma_round_div_near((from.y - to.y) * num * m, d);
        assert((to.x - from.x) * num * m == (to.x - from.x) * unit) by (nonlinear_arith)
            requires
                unit == num * m,
        ;
        assert((from.y - to.y) * num * m == (from.y - to.y) * unit) by (nonlinear_arith)
            requires
                unit == num * m,
        ;
        assert((before.0 + qx) * d - (to.x - last.x) * unit == (before.0 * d - (from.x - last.x)
            * unit) + (qx * d - (to.x - from.x) * unit)) by (nonlinear_arith);
        assert((before.1 + qy) * d - (last.y - to.y) * unit == (before.1 * d - (last.y - from.y)
            * unit) + (qy * d - (from.y - to.y) * unit)) by (nonlinear_arith);
        assert(segs.len() * d == k * d + d) by (nonlinear_arith)
            requires
                segs.len() == k + 1,
        ;
        assert(-(segs.len() as int) * d == -k * d - d) by (nonlinear_arith)
            requires
                segs.len() == k + 1,
        ;
        let at = traced(segs, last, scale, precision);
        assert(at.0 == before.0 + qx);
        assert(at.1 == before.1 + qy);
        assert(-d <= 2 * (qx * d - (to.x - from.x) * unit) <= d);
        assert(-d <= 2 * (qy * d - (from.y - to.y) * unit) <= d);
        assert(-k * d <= 2 * (before.0 * d - (from.x - last.x) * unit) <= k * d);
        assert(-k * d <= 2 * (before.1 * d - (last.y - from.y) * unit) <= k * d);
    } else {
        let d = scale.denom_spec();
        let unit = scale.numer_spec() * precision_mod(precision);
        assert(outline_end(segs, last) == last);
        assert(traced(segs, last, scale, precision) == (0int, 0int));
        assert(0 * d == 0 && 0 * unit == 0) by (nonlinear_arith);
        assert(segs.len() * d == 0) by (nonlinear_arith)
            requires
                segs.len() == 0,
        ;
        assert(-(segs.len() as int) * d == 0) by (nonlinear_arith)
            requires
                segs.len() == 0,
        ;
    }
}

} // verus!
