//! Circular arcs of the tool path.
//!
//! An arc is given by its two end points and the offset from the first of
//! them to the centre. It is drawn as sixty-five samples on the circle
//! through the first point: the sweep from the first point to the direction
//! of the second, in the sense asked for, is halved six times over. Halving
//! needs no angle: the direction midway between two directions is that of
//! their sum, or of their difference turned by a quarter, whichever is the
//! longer of the two.
use crate::bitmap::Bitmap;
use crate::command::{in_reach, COORDINATE_LIMIT};
use crate::fixed::floor_div;
use crate::path::{plotted, Point};
use vstd::arithmetic::div_mod::lemma_fundamental_div_mod;
use vstd::prelude::*;

verus! {

/// The number of steps of an arc.
pub const ARC_STEPS: usize = 64;

/// How often each half of the sweep is halved again.
pub const HALVINGS: u32 = 5;

/// No radius is longer than this.
pub const RADIUS_LIMIT: i64 = 1_500_000_000_000_000;

/// A direction in the plane of X and Y, from the centre of an arc.
#[derive(Debug, Clone, Copy, PartialEq, Eq, Structural)]
pub struct Vector {
    pub x: i64,
    pub y: i64,
}

impl Vector {
    /// Whether both components are within `limit` of zero.
    pub open spec fn within(self, limit: int) -> bool {
        -limit <= self.x <= limit && -limit <= self.y <= limit
    }
}

/// Whether `r` is the whole part of the square root of `n`.
pub open spec fn is_root(n: int, r: int) -> bool {
    0 <= r && r * r <= n < (r + 1) * (r + 1)
}

/// The whole part of the square root.
pub open spec fn root(n: int) -> int {
    choose|r: int| is_root(n, r)
}

/// There is one whole root only.
pub proof fn lemma_root_unique(n: int, r: int)
    requires
        is_root(n, r),
    ensures
        root(n) == r,
{
    let s = root(n);
    assert(is_root(n, s));
    assert(s == r) by (nonlinear_arith)
        requires
            0 <= r,
            r * r <= n < (r + 1) * (r + 1),
            0 <= s,
            s * s <= n < (s + 1) * (s + 1),
    ;
}

/// The length of a vector, rounded down.
pub open spec fn length(v: Vector) -> int {
    root(v.x * v.x + v.y * v.y)
}

/// One component brought to the radius `r`, rounded to the nearest step.
pub open spec fn brought(c: int, r: int, len: int) -> int {
    (2 * c * r + len) / (2 * len)
}

/// The vector with these components brought to the radius `r`.
pub open spec fn brought_to(x: int, y: int, r: int) -> Vector {
    let len = root(x * x + y * y);
    Vector { x: brought(x, r, len) as i64, y: brought(y, r, len) as i64 }
}

/// Vectors shorter than half the radius are stretched until their larger
/// component is this long at least, so that rounding their length to whole
/// steps does not tell on their direction.
pub const STRETCH: i64 = 2_251_799_813_685_248;

/// The larger of the magnitudes of the two components.
pub open spec fn largest(v: Vector) -> int {
    let x = if v.x < 0 {
        -v.x
    } else {
        v.x as int
    };
    let y = if v.y < 0 {
        -v.y
    } else {
        v.y as int
    };
    if x >= y {
        x
    } else {
        y
    }
}

/// The factor that stretches a vector to [`STRETCH`].
pub open spec fn stretch(v: Vector) -> int {
    (STRETCH - 1) / largest(v) + 1
}

/// The vector of length `r` in the direction of `v`; along X for a vector
/// without direction.
pub open spec fn rescale(v: Vector, r: int) -> Vector {
    let len = length(v);
    if len == 0 {
        Vector { x: r as i64, y: 0 }
    } else if 2 * len >= r {
        brought_to(v.x as int, v.y as int, r)
    } else {
        brought_to(stretch(v) * v.x, stretch(v) * v.y, r)
    }
}

/// The inner product.
pub open spec fn dot(a: Vector, b: Vector) -> int {
    a.x * b.x + a.y * b.y
}

/// How far `b` is turned against `a` in the sense of the sweep: positive
/// within the first half turn, negative within the second.
pub open spec fn turned(a: Vector, b: Vector, clockwise: bool) -> int {
    if clockwise {
        a.y * b.x - a.x * b.y
    } else {
        a.x * b.y - a.y * b.x
    }
}

/// The direction midway on the sweep from `a` to `b`, of whatever length.
///
/// Directions no more than a quarter turn apart are summed, and the sum is
/// mirrored if the sweep goes the long way round (`reflex`). Directions that
/// are further apart are subtracted, and the difference is turned a quarter
/// against the sense of the sweep.
pub open spec fn heading(a: Vector, b: Vector, clockwise: bool, reflex: bool) -> Vector {
    if dot(a, b) >= 0 {
        if reflex {
            Vector { x: (-(a.x + b.x)) as i64, y: (-(a.y + b.y)) as i64 }
        } else {
            Vector { x: (a.x + b.x) as i64, y: (a.y + b.y) as i64 }
        }
    } else if clockwise {
        Vector { x: (-(b.y - a.y)) as i64, y: (b.x - a.x) as i64 }
    } else {
        Vector { x: (b.y - a.y) as i64, y: (-(b.x - a.x)) as i64 }
    }
}

/// The direction midway on the sweep from `a` to `b`, at radius `r`.
pub open spec fn midway(a: Vector, b: Vector, r: int, clockwise: bool, reflex: bool) -> Vector {
    rescale(heading(a, b, clockwise, reflex), r)
}

/// The directions from `a` up to `b`, `b` left out, after halving the sweep
/// between them `depth` times.
pub open spec fn subdivided(a: Vector, b: Vector, r: int, clockwise: bool, depth: nat) -> Seq<
    Vector,
>
    decreases depth,
{
    if depth == 0 {
        seq![a]
    } else {
        let m = midway(a, b, r, clockwise, false);
        subdivided(a, m, r, clockwise, (depth - 1) as nat) + subdivided(
            m,
            b,
            r,
            clockwise,
            (depth - 1) as nat,
        )
    }
}

/// The directions of the samples of an arc from `a` to `b`, both included.
/// The sweep goes the long way round where `b` lies behind `a`.
pub open spec fn arc_directions(a: Vector, b: Vector, r: int, clockwise: bool) -> Seq<Vector> {
    let m = midway(a, b, r, clockwise, turned(a, b, clockwise) < 0);
    subdivided(a, m, r, clockwise, HALVINGS as nat) + subdivided(
        m,
        b,
        r,
        clockwise,
        HALVINGS as nat,
    ) + seq![b]
}

/// The radius of an arc: the length of the offset to its centre.
pub open spec fn arc_radius(i: i64, j: i64) -> int {
    length(Vector { x: i, y: j })
}

/// The direction from the centre to the first point of an arc.
pub open spec fn arc_start(i: i64, j: i64) -> Vector {
    Vector { x: (-i) as i64, y: (-j) as i64 }
}

/// The direction from the centre to the last sample of an arc: that of the
/// second point, at the radius of the first.
pub open spec fn arc_end(from: Point, to: Point, i: i64, j: i64) -> Vector {
    rescale(
        Vector { x: (to.x - from.x - i) as i64, y: (to.y - from.y - j) as i64 },
        arc_radius(i, j),
    )
}

/// Sample `k` of an arc, given its direction: the height goes evenly from
/// that of the first point to that of the second.
pub open spec fn arc_point(
    from: Point,
    to: Point,
    i: i64,
    j: i64,
    direction: Vector,
    k: int,
) -> Point {
    Point {
        x: (from.x + i + direction.x) as i64,
        y: (from.y + j + direction.y) as i64,
        z: (from.z + ((to.z - from.z) * k) / (ARC_STEPS as int)) as i64,
    }
}

/// The samples of the arc from `from` to `to` round the centre at the offset
/// `(i, j)` from `from`.
pub open spec fn arc_points(from: Point, to: Point, i: i64, j: i64, clockwise: bool) -> Seq<Point> {
    let directions = arc_directions(
        arc_start(i, j),
        arc_end(from, to, i, j),
        arc_radius(i, j),
        clockwise,
    );
    Seq::new(
        directions.len(),
        |k: int| arc_point(from, to, i, j, directions[k], k),
    )
}

/// Halving a sweep `depth` times gives two to the power of `depth`
/// directions, the first of them the start.
pub proof fn lemma_subdivided_len(a: Vector, b: Vector, r: int, clockwise: bool, depth: nat)
    ensures
        subdivided(a, b, r, clockwise, depth).len() == vstd::arithmetic::power2::pow2(depth),
        subdivided(a, b, r, clockwise, depth)[0] == a,
    decreases depth,
{
    vstd::arithmetic::power2::lemma2_to64();
    if depth == 0 {
    } else {
        let m = midway(a, b, r, clockwise, false);
        lemma_subdivided_len(a, m, r, clockwise, (depth - 1) as nat);
        lemma_subdivided_len(m, b, r, clockwise, (depth - 1) as nat);
        vstd::arithmetic::power2::lemma_pow2_unfold(depth);
    }
}

/// An arc has one sample more than it has steps. The first sample lies in
/// the direction of the start and the last in that of the end.
pub proof fn lemma_arc_directions_ends(a: Vector, b: Vector, r: int, clockwise: bool)
    ensures
        arc_directions(a, b, r, clockwise).len() == ARC_STEPS + 1,
        arc_directions(a, b, r, clockwise)[0] == a,
        arc_directions(a, b, r, clockwise)[ARC_STEPS as int] == b,
{
    let m = midway(a, b, r, clockwise, turned(a, b, clockwise) < 0);
    lemma_subdivided_len(a, m, r, clockwise, HALVINGS as nat);
    lemma_subdivided_len(m, b, r, clockwise, HALVINGS as nat);
    vstd::arithmetic::power2::lemma2_to64();
}

/// A component is no longer than the vector.
pub proof fn lemma_component_within_length(x: int, y: int, len: int)
    requires
        is_root(x * x + y * y, len),
    ensures
        -len <= x <= len,
        -len <= y <= len,
{
    assert(-len <= x <= len && -len <= y <= len) by (nonlinear_arith)
        requires
            0 <= len,
            x * x + y * y < (len + 1) * (len + 1),
    ;
}

/// A component brought to a radius is within the radius.
pub proof fn lemma_brought_within(c: int, r: int, len: int)
    requires
        0 < len,
        0 <= r,
        -len <= c <= len,
    ensures
        -r <= brought(c, r, len) <= r,
{
    let n = 2 * c * r + len;
    let d = 2 * len;
    let q = n / d;
    lemma_fundamental_div_mod(n, d);
    assert(-r <= q <= r) by (nonlinear_arith)
        requires
            n == d * q + n % d,
            0 <= n % d < d,
            n == 2 * c * r + len,
            d == 2 * len,
            0 < len,
            0 <= r,
            -len <= c <= len,
    ;
}

/// Computes the whole root.
fn whole_root(n: u128) -> (r: u64)
    requires
        n < 0x4000_0000_0000_0000_0000_0000_0000_0000,
    ensures
        is_root(n as int, r as int),
        r as int == root(n as int),
{
    let mut lo: u128 = 0;
    let mut hi: u128 = 0x8000_0000_0000_0000;
    while hi - lo > 1
        invariant
            lo < hi <= 0x8000_0000_0000_0000,
            lo * lo <= n < hi * hi,
        decreases hi - lo,
    {
        let mid: u128 = lo + (hi - lo) / 2;
        assert(mid * mid <= 0x4000_0000_0000_0000_0000_0000_0000_0000) by (nonlinear_arith)
            requires
                mid <= 0x8000_0000_0000_0000,
        ;
        if mid * mid <= n {
            lo = mid;
        } else {
            hi = mid;
        }
    }
    proof {
        lemma_root_unique(n as int, lo as int);
    }
    lo as u64
}

/// Computes [`brought_to`] for a vector of the length `len`.
fn bring(vx: i64, vy: i64, len: u64, r: i64) -> (out: Vector)
    requires
        -4 * COORDINATE_LIMIT <= vx <= 4 * COORDINATE_LIMIT,
        -4 * COORDINATE_LIMIT <= vy <= 4 * COORDINATE_LIMIT,
        0 <= r <= RADIUS_LIMIT,
        0 < len,
        is_root(vx * vx + vy * vy, len as int),
    ensures
        out == brought_to(vx as int, vy as int, r as int),
        out.within(r as int),
{
    let x: i128 = vx as i128;
    let y: i128 = vy as i128;
    let l: i128 = len as i128;
    let radius: i128 = r as i128;
    proof {
        lemma_root_unique(vx * vx + vy * vy, len as int);
        lemma_component_within_length(x as int, y as int, l as int);
        lemma_brought_within(x as int, r as int, l as int);
        lemma_brought_within(y as int, r as int, l as int);
        assert(-12_000_000_000_000_000_000_000_000_000_000 <= 2 * x * radius
            <= 12_000_000_000_000_000_000_000_000_000_000) by (nonlinear_arith)
            requires
                -4_000_000_000_000_000 <= x <= 4_000_000_000_000_000,
                0 <= radius <= 1_500_000_000_000_000,
        ;
        assert(-12_000_000_000_000_000_000_000_000_000_000 <= 2 * y * radius
            <= 12_000_000_000_000_000_000_000_000_000_000) by (nonlinear_arith)
            requires
                -4_000_000_000_000_000 <= y <= 4_000_000_000_000_000,
                0 <= radius <= 1_500_000_000_000_000,
        ;
    }
    let bx = floor_div(2 * x * radius + l, 2 * l);
    let by = floor_div(2 * y * radius + l, 2 * l);
    Vector { x: bx as i64, y: by as i64 }
}

/// The whole root of the square of the length of a vector.
fn length_of(vx: i64, vy: i64) -> (len: u64)
    requires
        -4 * COORDINATE_LIMIT <= vx <= 4 * COORDINATE_LIMIT,
        -4 * COORDINATE_LIMIT <= vy <= 4 * COORDINATE_LIMIT,
    ensures
        is_root(vx * vx + vy * vy, len as int),
        len as int == root(vx * vx + vy * vy),
{
    let x: i128 = vx as i128;
    let y: i128 = vy as i128;
    assert(0 <= x * x <= 16_000_000_000_000_000_000_000_000_000_000) by (nonlinear_arith)
        requires
            -4_000_000_000_000_000 <= x <= 4_000_000_000_000_000,
    ;
    assert(0 <= y * y <= 16_000_000_000_000_000_000_000_000_000_000) by (nonlinear_arith)
        requires
            -4_000_000_000_000_000 <= y <= 4_000_000_000_000_000,
    ;
    let square: i128 = x * x + y * y;
    whole_root(square as u128)
}

/// The stretch factor is such that the larger component comes to
/// [`STRETCH`] at least, and to no more than that and itself.
pub proof fn lemma_stretch(v: Vector)
    requires
        0 < largest(v),
    ensures
        0 < stretch(v),
        STRETCH <= stretch(v) * largest(v) <= STRETCH - 1 + largest(v),
        -(stretch(v) * largest(v)) <= stretch(v) * v.x <= stretch(v) * largest(v),
        -(stretch(v) * largest(v)) <= stretch(v) * v.y <= stretch(v) * largest(v),
{
    let m = largest(v);
    let q = (STRETCH - 1) / m;
    let k = stretch(v);
    lemma_fundamental_div_mod(STRETCH - 1, m);
    assert(k * m == m * q + m) by (nonlinear_arith)
        requires
            k == q + 1,
    ;
    assert(0 <= q) by (nonlinear_arith)
        requires
            STRETCH - 1 == m * q + (STRETCH - 1) % m,
            0 <= (STRETCH - 1) % m < m,
            0 < m,
            STRETCH == 2_251_799_813_685_248,
    ;
    let x = v.x as int;
    let y = v.y as int;
    assert(-(k * m) <= k * x <= k * m && -(k * m) <= k * y <= k * m) by (nonlinear_arith)
        requires
            0 < k,
            -m <= x <= m,
            -m <= y <= m,
    ;
}

/// Computes [`rescale`].
fn rescaled(v: Vector, r: i64) -> (out: Vector)
    requires
        v.within(4 * COORDINATE_LIMIT),
        0 <= r <= RADIUS_LIMIT,
    ensures
        out == rescale(v, r as int),
        out.within(r as int),
{
    let len = length_of(v.x, v.y);
    if len == 0 {
        return Vector { x: r, y: 0 };
    }
    if 2 * (len as i128) >= r as i128 {
        return bring(v.x, v.y, len, r);
    }
    let ax: i64 = if v.x < 0 {
        -v.x
    } else {
        v.x
    };
    let ay: i64 = if v.y < 0 {
        -v.y
    } else {
        v.y
    };
    let m: i64 = if ax >= ay {
        ax
    } else {
        ay
    };
    proof {
        lemma_component_within_length(v.x as int, v.y as int, len as int);
        assert(1 <= v.x * v.x + v.y * v.y) by (nonlinear_arith)
            requires
                1 <= len,
                len * len <= v.x * v.x + v.y * v.y,
        ;
        assert(m > 0) by (nonlinear_arith)
            requires
                0 <= m,
                m == 0 ==> v.x == 0 && v.y == 0,
                1 <= v.x * v.x + v.y * v.y,
        ;
        assert(m == largest(v));
        lemma_stretch(v);
    }
    let k: i64 = (STRETCH - 1) / m + 1;
    assert(k == stretch(v));
    let sx: i64 = ((k as i128) * (v.x as i128)) as i64;
    let sy: i64 = ((k as i128) * (v.y as i128)) as i64;
    proof {
        let km = k * m;
        assert(sx == km || sx == -km || sy == km || sy == -km) by (nonlinear_arith)
            requires
                sx == k * v.x,
                sy == k * v.y,
                km == k * m,
                m == v.x || m == -v.x || m == v.y || m == -v.y,
        ;
    }
    let stretched = length_of(sx, sy);
    assert(stretched > 0) by (nonlinear_arith)
        requires
            is_root(sx * sx + sy * sy, stretched as int),
            sx >= 2_251_799_813_685_248 || sx <= -2_251_799_813_685_248 || sy
                >= 2_251_799_813_685_248 || sy <= -2_251_799_813_685_248,
    ;
    bring(sx, sy, stretched, r)
}

/// Computes [`midway`].
fn midpoint(a: Vector, b: Vector, r: i64, clockwise: bool, reflex: bool) -> (m: Vector)
    requires
        a.within(RADIUS_LIMIT as int),
        b.within(RADIUS_LIMIT as int),
        0 <= r <= RADIUS_LIMIT,
    ensures
        m == midway(a, b, r as int, clockwise, reflex),
        m.within(RADIUS_LIMIT as int),
{
    let ax: i128 = a.x as i128;
    let ay: i128 = a.y as i128;
    let bx: i128 = b.x as i128;
    let by: i128 = b.y as i128;
    assert(-2_250_000_000_000_000_000_000_000_000_000 <= ax * bx
        <= 2_250_000_000_000_000_000_000_000_000_000) by (nonlinear_arith)
        requires
            -1_500_000_000_000_000 <= ax <= 1_500_000_000_000_000,
            -1_500_000_000_000_000 <= bx <= 1_500_000_000_000_000,
    ;
    assert(-2_250_000_000_000_000_000_000_000_000_000 <= ay * by
        <= 2_250_000_000_000_000_000_000_000_000_000) by (nonlinear_arith)
        requires
            -1_500_000_000_000_000 <= ay <= 1_500_000_000_000_000,
            -1_500_000_000_000_000 <= by <= 1_500_000_000_000_000,
    ;
    let inner: i128 = ax * bx + ay * by;
    let w = if inner >= 0 {
        if reflex {
            Vector { x: (-(ax + bx)) as i64, y: (-(ay + by)) as i64 }
        } else {
            Vector { x: (ax + bx) as i64, y: (ay + by) as i64 }
        }
    } else if clockwise {
        Vector { x: (-(by - ay)) as i64, y: (bx - ax) as i64 }
    } else {
        Vector { x: (by - ay) as i64, y: (-(bx - ax)) as i64 }
    };
    rescaled(w, r)
}

/// Whether the sweep from `a` to `b` goes the long way round.
fn sweeps_reflex(a: Vector, b: Vector, clockwise: bool) -> (reflex: bool)
    requires
        a.within(RADIUS_LIMIT as int),
        b.within(RADIUS_LIMIT as int),
    ensures
        reflex == (turned(a, b, clockwise) < 0),
{
    let ax: i128 = a.x as i128;
    let ay: i128 = a.y as i128;
    let bx: i128 = b.x as i128;
    let by: i128 = b.y as i128;
    assert(-2_250_000_000_000_000_000_000_000_000_000 <= ax * by
        <= 2_250_000_000_000_000_000_000_000_000_000) by (nonlinear_arith)
        requires
            -1_500_000_000_000_000 <= ax <= 1_500_000_000_000_000,
            -1_500_000_000_000_000 <= by <= 1_500_000_000_000_000,
    ;
    assert(-2_250_000_000_000_000_000_000_000_000_000 <= ay * bx
        <= 2_250_000_000_000_000_000_000_000_000_000) by (nonlinear_arith)
        requires
            -1_500_000_000_000_000 <= ay <= 1_500_000_000_000_000,
            -1_500_000_000_000_000 <= bx <= 1_500_000_000_000_000,
    ;
    if clockwise {
        ay * bx - ax * by < 0
    } else {
        ax * by - ay * bx < 0
    }
}

/// Appends [`subdivided`] to `out`.
fn subdivide(a: Vector, b: Vector, r: i64, clockwise: bool, depth: u32, out: &mut Vec<Vector>)
    requires
        a.within(RADIUS_LIMIT as int),
        b.within(RADIUS_LIMIT as int),
        0 <= r <= RADIUS_LIMIT,
        forall|k: int| 0 <= k < old(out)@.len() ==> (#[trigger] old(out)@[k]).within(
            RADIUS_LIMIT as int,
        ),
    ensures
        final(out)@ == old(out)@ + subdivided(a, b, r as int, clockwise, depth as nat),
        forall|k: int| 0 <= k < final(out)@.len() ==> (#[trigger] final(out)@[k]).within(
            RADIUS_LIMIT as int,
        ),
    decreases depth,
{
    if depth == 0 {
        out.push(a);
        assert(out@ =~= old(out)@ + seq![a]);
    } else {
        let m = midpoint(a, b, r, clockwise, false);
        subdivide(a, m, r, clockwise, depth - 1, out);
        subdivide(m, b, r, clockwise, depth - 1, out);
        assert(out@ =~= old(out)@ + (subdivided(a, m, r as int, clockwise, (depth - 1) as nat)
            + subdivided(m, b, r as int, clockwise, (depth - 1) as nat)));
    }
}

/// The radius of an arc.
fn radius_of(i: i64, j: i64) -> (r: i64)
    requires
        in_reach(i),
        in_reach(j),
    ensures
        r == arc_radius(i, j),
        0 <= r <= RADIUS_LIMIT,
{
    let x: i128 = i as i128;
    let y: i128 = j as i128;
    assert(0 <= x * x <= 1_000_000_000_000_000_000_000_000_000_000) by (nonlinear_arith)
        requires
            -1_000_000_000_000_000 <= x <= 1_000_000_000_000_000,
    ;
    assert(0 <= y * y <= 1_000_000_000_000_000_000_000_000_000_000) by (nonlinear_arith)
        requires
            -1_000_000_000_000_000 <= y <= 1_000_000_000_000_000,
    ;
    let square: i128 = x * x + y * y;
    let r = whole_root(square as u128);
    assert(r <= 1_500_000_000_000_000) by (nonlinear_arith)
        requires
            r * r <= square,
            square <= 2_000_000_000_000_000_000_000_000_000_000,
            0 <= r,
    ;
    r as i64
}

/// Computes [`arc_directions`].
fn directions(a: Vector, b: Vector, r: i64, clockwise: bool) -> (out: Vec<Vector>)
    requires
        a.within(RADIUS_LIMIT as int),
        b.within(RADIUS_LIMIT as int),
        0 <= r <= RADIUS_LIMIT,
    ensures
        out@ == arc_directions(a, b, r as int, clockwise),
        forall|k: int| 0 <= k < out@.len() ==> (#[trigger] out@[k]).within(RADIUS_LIMIT as int),
{
    let reflex = sweeps_reflex(a, b, clockwise);
    let m = midpoint(a, b, r, clockwise, reflex);
    let mut out: Vec<Vector> = Vec::new();
    subdivide(a, m, r, clockwise, HALVINGS, &mut out);
    subdivide(m, b, r, clockwise, HALVINGS, &mut out);
    out.push(b);
    assert(out@ =~= arc_directions(a, b, r as int, clockwise));
    out
}

/// The height of sample `k`.
fn height_at(from: i64, to: i64, k: usize) -> (z: i64)
    requires
        in_reach(from),
        in_reach(to),
        k <= ARC_STEPS,
    ensures
        z == from + ((to - from) * k) / (ARC_STEPS as int),
        -3 * COORDINATE_LIMIT <= z <= 3 * COORDINATE_LIMIT,
{
    let d: i128 = to as i128 - from as i128;
    assert(-128_000_000_000_000_000 <= d * k <= 128_000_000_000_000_000) by (nonlinear_arith)
        requires
            -2_000_000_000_000_000 <= d <= 2_000_000_000_000_000,
            0 <= k <= 64,
    ;
    let q = floor_div(d * (k as i128), 64);
    (from as i128 + q) as i64
}

/// Draws the arc from `from` to `to` round the centre at the offset `(i, j)`
/// from `from`, clockwise or counterclockwise, as sixty-five samples in the
/// colours of their depths.
///
/// The samples lie on the circle round the centre through `from`, to the
/// rounding of their coordinates
/// ([`lemma_arc_on_circle`](crate::arc_laws::lemma_arc_on_circle)). The first
/// is `from`; the last lies in the direction of `to`. The height goes evenly
/// from that of `from` to that of `to`.
pub fn draw_arc(bitmap: &mut Bitmap, from: Point, to: Point, i: i64, j: i64, clockwise: bool)
    requires
        old(bitmap).wf(),
        from.in_reach(),
        to.in_reach(),
        in_reach(i),
        in_reach(j),
    ensures
        final(bitmap).wf(),
        final(bitmap)@ == plotted(old(bitmap)@, arc_points(from, to, i, j, clockwise)),
{
    let r = radius_of(i, j);
    let a = Vector { x: -i, y: -j };
    let toward = Vector { x: to.x - from.x - i, y: to.y - from.y - j };
    let b = rescaled(toward, r);
    let around = directions(a, b, r, clockwise);
    proof {
        lemma_arc_directions_ends(a, b, r as int, clockwise);
    }
    let ghost points = arc_points(from, to, i, j, clockwise);
    let mut k: usize = 0;
    while k < around.len()
        invariant
            k <= around.len(),
            around.len() == ARC_STEPS + 1,
            around@ == arc_directions(a, b, r as int, clockwise),
            a == arc_start(i, j),
            b == arc_end(from, to, i, j),
            r == arc_radius(i, j),
            points == arc_points(from, to, i, j, clockwise),
            forall|n: int| 0 <= n < around@.len() ==> (#[trigger] around@[n]).within(
                RADIUS_LIMIT as int,
            ),
            from.in_reach(),
            to.in_reach(),
            in_reach(i),
            in_reach(j),
            bitmap.wf(),
            bitmap@ == plotted(old(bitmap)@, points.take(k as int)),
        decreases around.len() - k,
    {
        proof {
            let next = points.take(k + 1);
            assert(next.drop_last() =~= points.take(k as int));
            assert(next.last() == arc_point(from, to, i, j, around@[k as int], k as int));
            assert(around@[k as int].within(RADIUS_LIMIT as int));
        }
        let direction = around[k];
        let x: i64 = from.x + i + direction.x;
        let y: i64 = from.y + j + direction.y;
        let z = height_at(from.z, to.z, k);
        bitmap.set_pixel(x, y, z);
        k += 1;
    }
    proof {
        assert(points.take(k as int) =~= points);
    }
}

} // verus!
