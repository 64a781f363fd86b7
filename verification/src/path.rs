//! Straight segments of the tool path, drawn point by point.
use crate::bitmap::{Bitmap, Raster};
use crate::command::{in_reach, COORDINATE_LIMIT, MICRO};
use crate::fixed::floor_div;
use vstd::arithmetic::div_mod::lemma_fundamental_div_mod;
use vstd::prelude::*;

verus! {

/// A point of the machine's space.
#[derive(Debug, Clone, Copy, PartialEq, Eq, Structural)]
pub struct Point {
    pub x: i64,
    pub y: i64,
    pub z: i64,
}

impl Point {
    /// Whether all three coordinates are in reach.
    pub open spec fn in_reach(self) -> bool {
        in_reach(self.x) && in_reach(self.y) && in_reach(self.z)
    }
}

/// The distance of a number from zero.
pub open spec fn magnitude(v: int) -> int {
    if v < 0 {
        -v
    } else {
        v
    }
}

/// The extent that sets the number of samples of a segment: the larger of
/// its extents along X and Y, and at least one unit.
pub open spec fn line_span(from: Point, to: Point) -> int {
    let dx = magnitude(to.x - from.x);
    let dy = magnitude(to.y - from.y);
    if dx >= dy && dx >= MICRO {
        dx
    } else if dy >= MICRO {
        dy
    } else {
        MICRO as int
    }
}

/// The index of the last sample of a segment: four samples to the unit of
/// its span.
pub open spec fn line_steps(from: Point, to: Point) -> int {
    (4 * line_span(from, to)) / (MICRO as int)
}

/// Where sample `i` lies between `a` and `b`: the fraction of the way that
/// `i` is of four times the span, rounded down.
pub open spec fn along(a: i64, b: i64, i: int, span: int) -> int {
    a + ((b - a) * (i * MICRO)) / (4 * span)
}

/// Sample `i` of the segment.
pub open spec fn line_point(from: Point, to: Point, i: int) -> Point {
    let span = line_span(from, to);
    Point {
        x: along(from.x, to.x, i, span) as i64,
        y: along(from.y, to.y, i, span) as i64,
        z: along(from.z, to.z, i, span) as i64,
    }
}

/// The samples of the segment, from the first point on.
pub open spec fn line_points(from: Point, to: Point) -> Seq<Point> {
    Seq::new((line_steps(from, to) + 1) as nat, |i: int| line_point(from, to, i))
}

/// The raster with the points plotted one after the other.
pub open spec fn plotted(raster: Raster, points: Seq<Point>) -> Raster
    decreases points.len(),
{
    if points.len() == 0 {
        raster
    } else {
        let p = points.last();
        plotted(raster, points.drop_last()).plot(p.x, p.y, p.z)
    }
}

/// A sample lies between the two ends.
pub proof fn lemma_along_between(a: i64, b: i64, i: int, span: int)
    requires
        span > 0,
        0 <= i * MICRO <= 4 * span,
    ensures
        a <= b ==> a <= along(a, b, i, span) <= b,
        b <= a ==> b <= along(a, b, i, span) <= a,
{
    let d = b - a;
    let t = i * MICRO;
    let den = 4 * span;
    let q = (d * t) / den;
    lemma_fundamental_div_mod(d * t, den);
    if d >= 0 {
        assert(0 <= q <= d) by (nonlinear_arith)
            requires
                d >= 0,
                0 <= t <= den,
                den > 0,
                d * t == den * q + (d * t) % den,
                0 <= (d * t) % den < den,
        ;
    } else {
        assert(d <= q <= 0) by (nonlinear_arith)
            requires
                d < 0,
                0 <= t <= den,
                den > 0,
                d * t == den * q + (d * t) % den,
                0 <= (d * t) % den < den,
        ;
    }
}

/// Whether `v` lies between `a` and `b`, whichever of them is the larger.
pub open spec fn between(v: int, a: int, b: int) -> bool {
    (a <= v <= b) || (b <= v <= a)
}

/// The first sample of a segment is its first point, and every sample lies
/// between the two ends in each coordinate.
pub proof fn lemma_line_points_between(from: Point, to: Point, k: int)
    requires
        from.in_reach(),
        to.in_reach(),
        0 <= k <= line_steps(from, to),
    ensures
        line_points(from, to)[0] == from,
        between(line_points(from, to)[k].x as int, from.x as int, to.x as int),
        between(line_points(from, to)[k].y as int, from.y as int, to.y as int),
        between(line_points(from, to)[k].z as int, from.z as int, to.z as int),
{
    let span = line_span(from, to);
    lemma_fundamental_div_mod(4 * span, MICRO as int);
    assert(0 <= k * MICRO <= 4 * span) by (nonlinear_arith)
        requires
            0 <= k <= (4 * span) / (MICRO as int),
            4 * span == MICRO * ((4 * span) / (MICRO as int)) + (4 * span) % (MICRO as int),
            0 <= (4 * span) % (MICRO as int),
            MICRO == 1_000_000,
    ;
    lemma_along_between(from.x, to.x, k, span);
    lemma_along_between(from.y, to.y, k, span);
    lemma_along_between(from.z, to.z, k, span);
    lemma_along_between(from.x, to.x, 0, span);
    lemma_along_between(from.y, to.y, 0, span);
    lemma_along_between(from.z, to.z, 0, span);
    assert(along(from.x, to.x, 0, span) == from.x) by (nonlinear_arith)
        requires
            along(from.x, to.x, 0, span) == from.x + ((to.x - from.x) * (0 * MICRO)) / (4 * span),
            span > 0,
    ;
    assert(along(from.y, to.y, 0, span) == from.y) by (nonlinear_arith)
        requires
            along(from.y, to.y, 0, span) == from.y + ((to.y - from.y) * (0 * MICRO)) / (4 * span),
            span > 0,
    ;
    assert(along(from.z, to.z, 0, span) == from.z) by (nonlinear_arith)
        requires
            along(from.z, to.z, 0, span) == from.z + ((to.z - from.z) * (0 * MICRO)) / (4 * span),
            span > 0,
    ;
}

/// Computes [`along`].
fn sample(a: i64, b: i64, i: u64, span: u64) -> (v: i64)
    requires
        in_reach(a),
        in_reach(b),
        0 < span <= 2 * COORDINATE_LIMIT,
        i * MICRO <= 4 * span,
    ensures
        v == along(a, b, i as int, span as int),
{
    let d: i128 = b as i128 - a as i128;
    let t: i128 = (i as i128) * (MICRO as i128);
    let den: i128 = 4 * (span as i128);
    assert(-16_000_000_000_000_000_000_000_000_000_000 <= d * t
        <= 16_000_000_000_000_000_000_000_000_000_000) by (nonlinear_arith)
        requires
            -2_000_000_000_000_000 <= d <= 2_000_000_000_000_000,
            0 <= t <= 8_000_000_000_000_000,
    ;
    let q = floor_div(d * t, den);
    proof {
        lemma_along_between(a, b, i as int, span as int);
    }
    (a as i128 + q) as i64
}

/// The distance between two coordinates.
fn distance(a: i64, b: i64) -> (d: u64)
    requires
        in_reach(a),
        in_reach(b),
    ensures
        d == magnitude(b - a),
{
    if b >= a {
        (b - a) as u64
    } else {
        (a - b) as u64
    }
}

/// Draws the straight segment between two points as a row of samples, four to
/// the unit of its larger extent along X or Y and at least five, each on its
/// share of the way and in the colour of its depth.
pub fn draw_line(bitmap: &mut Bitmap, from: Point, to: Point)
    requires
        old(bitmap).wf(),
        from.in_reach(),
        to.in_reach(),
    ensures
        final(bitmap).wf(),
        final(bitmap)@ == plotted(old(bitmap)@, line_points(from, to)),
{
    let dx = distance(from.x, to.x);
    let dy = distance(from.y, to.y);
    let unit: u64 = 1_000_000;
    let span: u64 = if dx >= dy && dx >= unit {
        dx
    } else if dy >= unit {
        dy
    } else {
        unit
    };
    let steps: u64 = (4 * span) / unit;
    proof {
        lemma_fundamental_div_mod(4 * span, MICRO as int);
    }
    let mut i: u64 = 0;
    while i <= steps
        invariant
            i <= steps + 1,
            steps == line_steps(from, to),
            span == line_span(from, to),
            0 < span <= 2 * COORDINATE_LIMIT,
            steps * MICRO <= 4 * span,
            from.in_reach(),
            to.in_reach(),
            bitmap.wf(),
            bitmap@ == plotted(old(bitmap)@, line_points(from, to).take(i as int)),
        decreases steps + 1 - i,
    {
        assert(i * MICRO <= 4 * span) by (nonlinear_arith)
            requires
                i <= steps,
                steps * MICRO <= 4 * span,
        ;
        proof {
            let next = line_points(from, to).take(i + 1);
            assert(next.drop_last() =~= line_points(from, to).take(i as int));
            assert(next.last() == line_point(from, to, i as int));
        }
        let x = sample(from.x, to.x, i, span);
        let y = sample(from.y, to.y, i, span);
        let z = sample(from.z, to.z, i, span);
        bitmap.set_pixel(x, y, z);
        i += 1;
    }
    proof {
        assert(line_points(from, to).take(i as int) =~= line_points(from, to));
    }
}

} // verus!
