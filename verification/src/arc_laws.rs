//! What holds of the samples of an arc: they start at the first point, end at
//! the second where that lies on the circle, lie on the circle to the
//! rounding of their coordinates, every one of them, and each halving stays
//! within its sweep.
use crate::arc::{
    arc_directions, arc_end, arc_points, arc_radius, arc_start, brought, brought_to, dot,
    heading, is_root, largest, lemma_arc_directions_ends, lemma_brought_within,
    lemma_component_within_length, lemma_stretch, lemma_subdivided_len, length, midway, rescale,
    root, stretch, subdivided, turned, Vector, ARC_STEPS, HALVINGS, RADIUS_LIMIT, STRETCH,
};
use crate::command::in_reach;
use crate::path::Point;
use vstd::arithmetic::div_mod::{lemma_fundamental_div_mod, lemma_fundamental_div_mod_converse};
use vstd::prelude::*;

verus! {

/// The square of the length of a vector.
pub open spec fn norm2(v: Vector) -> int {
    v.x * v.x + v.y * v.y
}

/// Whether a direction lies on the circle of radius `r`, to the rounding of
/// its components: it is longer than `r` less two steps, and shorter than
/// `r` and three steps.
pub open spec fn on_circle(v: Vector, r: int) -> bool {
    r * r - 2 * r <= norm2(v) <= r * r + 6 * r + 1
}

/// The square of a length is not negative.
pub proof fn lemma_norm2_positive(v: Vector)
    ensures
        0 <= norm2(v),
{
    assert(0 <= v.x * v.x + v.y * v.y) by (nonlinear_arith);
}

/// Every number that is not negative has a whole root.
pub proof fn lemma_root_exists(n: int)
    requires
        0 <= n,
    ensures
        is_root(n, root(n)),
    decreases n,
{
    if n == 0 {
        assert(is_root(0, 0));
    } else {
        lemma_root_exists(n - 1);
        let s = root(n - 1);
        if (s + 1) * (s + 1) <= n {
            assert(is_root(n, s + 1)) by (nonlinear_arith)
                requires
                    0 <= s,
                    s * s <= n - 1 < (s + 1) * (s + 1),
                    (s + 1) * (s + 1) <= n,
            ;
        } else {
            assert(is_root(n, s));
        }
    }
}

/// A component brought to the length that the vector has stays as it is.
proof fn lemma_brought_to_own_length(c: int, len: int)
    requires
        0 < len,
    ensures
        brought(c, len, len) == c,
{
    assert(2 * c * len + len == c * (2 * len) + len) by (nonlinear_arith);
    lemma_fundamental_div_mod_converse(2 * c * len + len, 2 * len, c, len);
}

/// The first sample of an arc is its first point. Where the second point is
/// as far from the centre as the first, to the rounding of the radius, the
/// last sample is the second point.
pub proof fn lemma_arc_ends(from: Point, to: Point, i: i64, j: i64, clockwise: bool)
    requires
        from.in_reach(),
        to.in_reach(),
        in_reach(i),
        in_reach(j),
    ensures
        arc_points(from, to, i, j, clockwise).len() == ARC_STEPS + 1,
        arc_points(from, to, i, j, clockwise)[0] == from,
        length(Vector { x: (to.x - from.x - i) as i64, y: (to.y - from.y - j) as i64 })
            == arc_radius(i, j) ==> arc_points(from, to, i, j, clockwise)[ARC_STEPS as int]
            == to,
{
    let r = arc_radius(i, j);
    let toward = Vector { x: (to.x - from.x - i) as i64, y: (to.y - from.y - j) as i64 };
    lemma_arc_directions_ends(arc_start(i, j), arc_end(from, to, i, j), r, clockwise);
    assert(((to.z - from.z) * 0) / 64 == 0) by (nonlinear_arith);
    assert(((to.z - from.z) * 64) / 64 == to.z - from.z) by (nonlinear_arith);
    if length(toward) == r {
        lemma_norm2_positive(toward);
        lemma_root_exists(norm2(toward));
        if r > 0 {
            lemma_brought_to_own_length(toward.x as int, r);
            lemma_brought_to_own_length(toward.y as int, r);
        } else {
            let len = length(toward);
            assert(norm2(toward) < 1) by (nonlinear_arith)
                requires
                    len == 0,
                    norm2(toward) < (len + 1) * (len + 1),
            ;
            assert(toward.x == 0 && toward.y == 0) by (nonlinear_arith)
                requires
                    toward.x * toward.x + toward.y * toward.y < 1,
            ;
        }
    }
}

/// The heading midway on a sweep lies within the sweep: no more than half a
/// turn ahead of the start, with the end no more than half a turn ahead of
/// it, in the sense of the sweep.
///
/// `reflex` says whether the end lies behind the start, as it does for the
/// first halving of an arc that goes the long way round. The later halvings
/// take it that it does not.
pub proof fn lemma_heading_within_sweep(a: Vector, b: Vector, clockwise: bool, reflex: bool)
    requires
        a.within(RADIUS_LIMIT as int),
        b.within(RADIUS_LIMIT as int),
        reflex == (turned(a, b, clockwise) < 0),
    ensures
        turned(a, heading(a, b, clockwise, reflex), clockwise) >= 0,
        turned(heading(a, b, clockwise, reflex), b, clockwise) >= 0,
{
    let w = heading(a, b, clockwise, reflex);
    let t = turned(a, b, clockwise);
    let d = dot(a, b);
    let na = norm2(a);
    let nb = norm2(b);
    lemma_norm2_positive(a);
    lemma_norm2_positive(b);
    if d >= 0 {
        if reflex {
            assert(w.x == -(a.x + b.x) && w.y == -(a.y + b.y));
            assert(turned(a, w, clockwise) == -t && turned(w, b, clockwise) == -t)
                by (nonlinear_arith)
                requires
                    w.x == -(a.x + b.x),
                    w.y == -(a.y + b.y),
                    t == turned(a, b, clockwise),
            ;
        } else {
            assert(w.x == a.x + b.x && w.y == a.y + b.y);
            assert(turned(a, w, clockwise) == t && turned(w, b, clockwise) == t)
                by (nonlinear_arith)
                requires
                    w.x == a.x + b.x,
                    w.y == a.y + b.y,
                    t == turned(a, b, clockwise),
            ;
        }
    } else {
        if clockwise {
            assert(w.x == -(b.y - a.y) && w.y == b.x - a.x);
        } else {
            assert(w.x == b.y - a.y && w.y == -(b.x - a.x));
        }
        assert(turned(a, w, clockwise) == na - d && turned(w, b, clockwise) == nb - d)
            by (nonlinear_arith)
            requires
                clockwise ==> w.x == -(b.y - a.y) && w.y == b.x - a.x,
                !clockwise ==> w.x == b.y - a.y && w.y == -(b.x - a.x),
                d == a.x * b.x + a.y * b.y,
                na == a.x * a.x + a.y * a.y,
                nb == b.x * b.x + b.y * b.y,
        ;
    }
}

/// How far the square of a component that was brought to the radius `r` can
/// be from the square of what it is the rounding of. `p` is the component
/// after and `c` the component before, of a vector of length `len`.
proof fn lemma_brought_square(c: int, r: int, len: int)
    requires
        0 < len,
        0 <= r,
        -len <= c <= len,
    ensures
        ({
            let big = 2 * len * brought(c, r, len);
            let exact = 2 * c * r;
            exact * exact - 4 * ((len * len) * r) <= big * big <= exact * exact + 4 * ((len * len)
                * r) + len * len
        }),
{
    let n = 2 * c * r + len;
    let d = 2 * len;
    let p = n / d;
    lemma_fundamental_div_mod(n, d);
    let e = len - n % d;
    let big = 2 * len * p;
    let exact = 2 * c * r;
    assert(big == exact + e) by (nonlinear_arith)
        requires
            n == d * p + n % d,
            n == 2 * c * r + len,
            d == 2 * len,
            e == len - n % d,
            big == 2 * len * p,
            exact == 2 * c * r,
    ;
    assert(-len < e <= len);
    assert(big * big == exact * exact + 2 * (exact * e) + e * e) by (nonlinear_arith)
        requires
            big == exact + e,
    ;
    assert(-(2 * (len * r)) <= exact <= 2 * (len * r)) by (nonlinear_arith)
        requires
            exact == 2 * c * r,
            -len <= c <= len,
            0 <= r,
    ;
    let bound = 2 * (len * r);
    assert(-(bound * len) <= exact * e <= bound * len) by (nonlinear_arith)
        requires
            -bound <= exact <= bound,
            -len <= e <= len,
            0 <= bound,
            0 < len,
    ;
    let l2r = (len * len) * r;
    assert(bound * len == 2 * l2r) by (nonlinear_arith)
        requires
            bound == 2 * (len * r),
            l2r == (len * len) * r,
    ;
    assert(0 <= e * e <= len * len) by (nonlinear_arith)
        requires
            -len <= e <= len,
    ;
    let a = exact * exact;
    let b = exact * e;
    let c2 = e * e;
    let big2 = big * big;
    assert(big2 == a + 2 * b + c2);
    assert(a - 4 * l2r <= big2 <= a + 4 * l2r + len * len);
}

/// Components that were brought to the radius `r` are within `r`, and the
/// vector that they make lies on the circle, if the vector that they come
/// from was at least half as long as the radius.
pub proof fn lemma_brought_to_on_circle(x: int, y: int, r: int)
    requires
        0 <= r <= RADIUS_LIMIT,
        0 < root(x * x + y * y),
        r <= 2 * root(x * x + y * y),
    ensures
        brought_to(x, y, r).within(r),
        on_circle(brought_to(x, y, r), r),
{
    let len = root(x * x + y * y);
    let n = x * x + y * y;
    assert(0 <= n) by (nonlinear_arith)
        requires
            n == x * x + y * y,
    ;
    lemma_root_exists(n);
    lemma_component_within_length(x, y, len);
    lemma_brought_within(x, r, len);
    lemma_brought_within(y, r, len);
    let p = brought(x, r, len);
    let q = brought(y, r, len);
    assert(brought_to(x, y, r) == (Vector { x: p as i64, y: q as i64 }));
    assert(norm2(brought_to(x, y, r)) == p * p + q * q);
    lemma_brought_square(x, r, len);
    lemma_brought_square(y, r, len);
    let l2 = len * len;
    let bp = 2 * len * p;
    let bq = 2 * len * q;
    let ex = 2 * x * r;
    let ey = 2 * y * r;
    assert(bp * bp + bq * bq == 4 * l2 * (p * p + q * q)) by (nonlinear_arith)
        requires
            bp == 2 * len * p,
            bq == 2 * len * q,
            l2 == len * len,
    ;
    assert(ex * ex + ey * ey == 4 * (r * r) * n) by (nonlinear_arith)
        requires
            ex == 2 * x * r,
            ey == 2 * y * r,
            n == x * x + y * y,
    ;
    let rr = r * r;
    assert(0 <= rr) by (nonlinear_arith)
        requires
            rr == r * r,
    ;
    assert(n <= l2 + 2 * len) by (nonlinear_arith)
        requires
            n < (len + 1) * (len + 1),
            l2 == len * len,
    ;
    assert(4 * rr * l2 <= 4 * rr * n <= 4 * rr * l2 + 8 * rr * len) by (nonlinear_arith)
        requires
            l2 <= n <= l2 + 2 * len,
            0 <= rr,
    ;
    let s = p * p + q * q;
    let l2r = l2 * r;
    let l2s = l2 * s;
    let rrl2 = rr * l2;
    assert(0 < l2) by (nonlinear_arith)
        requires
            l2 == len * len,
            0 < len,
    ;
    assert(bp * bp + bq * bq == 4 * l2s) by (nonlinear_arith)
        requires
            bp * bp + bq * bq == 4 * l2 * (p * p + q * q),
            l2s == l2 * s,
            s == p * p + q * q,
    ;
    assert(4 * rrl2 <= 4 * rr * n <= 4 * rrl2 + 8 * (rr * len)) by (nonlinear_arith)
        requires
            4 * rr * l2 <= 4 * rr * n <= 4 * rr * l2 + 8 * rr * len,
            rrl2 == rr * l2,
    ;
    assert(4 * l2s >= 4 * rrl2 - 8 * l2r);
    assert(s >= rr - 2 * r) by (nonlinear_arith)
        requires
            4 * l2s >= 4 * rrl2 - 8 * l2r,
            l2s == l2 * s,
            rrl2 == rr * l2,
            l2r == l2 * r,
            0 < l2,
    ;
        assert(8 * (rr * len) <= 16 * l2r) by (nonlinear_arith)
            requires
                rr == r * r,
                l2 == len * len,
                l2r == l2 * r,
                0 <= r <= 2 * len,
                0 < len,
        ;
        assert(4 * l2s <= 4 * rrl2 + 24 * l2r + 2 * l2);
        assert(s <= rr + 6 * r + 1) by (nonlinear_arith)
            requires
                4 * l2s <= 4 * rrl2 + 24 * l2r + 2 * l2,
                l2s == l2 * s,
                rrl2 == rr * l2,
                l2r == l2 * r,
                0 < l2,
        ;
}

/// The whole root of a number that is no less than the square of `r` is no
/// less than `r`.
proof fn lemma_root_at_least(n: int, r: int)
    requires
        0 <= r,
        r * r <= n,
    ensures
        r <= root(n),
{
    assert(0 <= n) by (nonlinear_arith)
        requires
            r * r <= n,
    ;
    lemma_root_exists(n);
    let len = root(n);
    assert(r <= len) by (nonlinear_arith)
        requires
            0 <= r,
            0 <= len,
            r * r <= n,
            n < (len + 1) * (len + 1),
    ;
}

/// A vector that was brought to the radius `r` has its components within `r`
/// and lies on the circle, whatever its length was.
pub proof fn lemma_rescale_on_circle(v: Vector, r: int)
    requires
        0 <= r <= RADIUS_LIMIT,
    ensures
        rescale(v, r).within(r),
        on_circle(rescale(v, r), r),
{
    let len = length(v);
    lemma_norm2_positive(v);
    lemma_root_exists(norm2(v));
    if len == 0 {
        assert(norm2(rescale(v, r)) == r * r) by (nonlinear_arith)
            requires
                rescale(v, r) == (Vector { x: r as i64, y: 0 }),
                0 <= r <= RADIUS_LIMIT,
        ;
        assert(0 <= r * r) by (nonlinear_arith);
    } else if 2 * len >= r {
        lemma_brought_to_on_circle(v.x as int, v.y as int, r);
    } else {
        lemma_component_within_length(v.x as int, v.y as int, len);
        assert(1 <= norm2(v)) by (nonlinear_arith)
            requires
                1 <= len,
                len * len <= norm2(v),
        ;
        let m = largest(v);
        assert(0 < m) by (nonlinear_arith)
            requires
                0 <= m,
                m == 0 ==> v.x == 0 && v.y == 0,
                1 <= v.x * v.x + v.y * v.y,
        ;
        lemma_stretch(v);
        let k = stretch(v);
        let x = k * v.x;
        let y = k * v.y;
        let km = k * m;
        assert(x == km || x == -km || y == km || y == -km) by (nonlinear_arith)
            requires
                x == k * v.x,
                y == k * v.y,
                km == k * m,
                m == v.x || m == -v.x || m == v.y || m == -v.y,
        ;
        assert(STRETCH * STRETCH <= x * x + y * y) by (nonlinear_arith)
            requires
                x == km || x == -km || y == km || y == -km,
                STRETCH <= km,
                STRETCH == 2_251_799_813_685_248,
        ;
        lemma_root_at_least(x * x + y * y, STRETCH as int);
        lemma_brought_to_on_circle(x, y, r);
    }
}

/// The direction midway between two directions lies on the circle.
pub proof fn lemma_midway_on_circle(a: Vector, b: Vector, r: int, clockwise: bool, reflex: bool)
    requires
        0 <= r <= RADIUS_LIMIT,
    ensures
        on_circle(midway(a, b, r, clockwise, reflex), r),
        midway(a, b, r, clockwise, reflex).within(RADIUS_LIMIT as int),
{
    lemma_rescale_on_circle(heading(a, b, clockwise, reflex), r);
}

/// All the directions between two directions on the circle lie on the
/// circle, however often the sweep is halved.
pub proof fn lemma_subdivided_on_circle(
    a: Vector,
    b: Vector,
    r: int,
    clockwise: bool,
    depth: nat,
    k: int,
)
    requires
        0 <= r <= RADIUS_LIMIT,
        on_circle(a, r),
        0 <= k < subdivided(a, b, r, clockwise, depth).len(),
    ensures
        on_circle(subdivided(a, b, r, clockwise, depth)[k], r),
    decreases depth,
{
    if depth > 0 {
        let m = midway(a, b, r, clockwise, false);
        lemma_midway_on_circle(a, b, r, clockwise, false);
        let first = subdivided(a, m, r, clockwise, (depth - 1) as nat);
        if k < first.len() {
            lemma_subdivided_on_circle(a, m, r, clockwise, (depth - 1) as nat, k);
        } else {
            lemma_subdivided_on_circle(m, b, r, clockwise, (depth - 1) as nat, k - first.len());
        }
    }
}

/// Every direction of an arc lies on the circle of its radius.
pub proof fn lemma_arc_directions_on_circle(
    from: Point,
    to: Point,
    i: i64,
    j: i64,
    clockwise: bool,
    k: int,
)
    requires
        from.in_reach(),
        to.in_reach(),
        in_reach(i),
        in_reach(j),
        0 <= k <= ARC_STEPS,
    ensures
        0 <= arc_radius(i, j) <= RADIUS_LIMIT,
        on_circle(
            arc_directions(
                arc_start(i, j),
                arc_end(from, to, i, j),
                arc_radius(i, j),
                clockwise,
            )[k],
            arc_radius(i, j),
        ),
        arc_directions(
            arc_start(i, j),
            arc_end(from, to, i, j),
            arc_radius(i, j),
            clockwise,
        )[k].within(RADIUS_LIMIT as int),
{
    let r = arc_radius(i, j);
    let a = arc_start(i, j);
    let toward = Vector { x: (to.x - from.x - i) as i64, y: (to.y - from.y - j) as i64 };
    let b = arc_end(from, to, i, j);
    let offset = Vector { x: i, y: j };
    lemma_norm2_positive(offset);
    lemma_root_exists(norm2(offset));
    assert(norm2(offset) <= 2_000_000_000_000_000_000_000_000_000_000) by (nonlinear_arith)
        requires
            norm2(offset) == offset.x * offset.x + offset.y * offset.y,
            -1_000_000_000_000_000 <= offset.x <= 1_000_000_000_000_000,
            -1_000_000_000_000_000 <= offset.y <= 1_000_000_000_000_000,
    ;
    assert(r <= 1_499_999_999_999_997) by (nonlinear_arith)
        requires
            r * r <= norm2(offset),
            norm2(offset) <= 2_000_000_000_000_000_000_000_000_000_000,
            0 <= r,
    ;
    assert(norm2(a) == norm2(offset)) by (nonlinear_arith)
        requires
            a.x == -offset.x,
            a.y == -offset.y,
            norm2(a) == a.x * a.x + a.y * a.y,
            norm2(offset) == offset.x * offset.x + offset.y * offset.y,
    ;
    assert(norm2(offset) <= r * r + 2 * r) by (nonlinear_arith)
        requires
            norm2(offset) < (r + 1) * (r + 1),
    ;
    assert(on_circle(a, r));
    lemma_rescale_on_circle(toward, r);
    let reflex = turned(a, b, clockwise) < 0;
    let m = midway(a, b, r, clockwise, reflex);
    lemma_midway_on_circle(a, b, r, clockwise, reflex);
    let first = subdivided(a, m, r, clockwise, HALVINGS as nat);
    let second = subdivided(m, b, r, clockwise, HALVINGS as nat);
    lemma_subdivided_len(a, m, r, clockwise, HALVINGS as nat);
    lemma_subdivided_len(m, b, r, clockwise, HALVINGS as nat);
    vstd::arithmetic::power2::lemma2_to64();
    let all = arc_directions(a, b, r, clockwise);
    if k < first.len() {
        lemma_subdivided_on_circle(a, m, r, clockwise, HALVINGS as nat, k);
        assert(all[k] == first[k]);
    } else if k < first.len() + second.len() {
        lemma_subdivided_on_circle(m, b, r, clockwise, HALVINGS as nat, k - first.len());
        assert(all[k] == second[k - first.len()]);
    } else {
        assert(all[k] == b);
    }
    lemma_on_circle_within(all[k], r);
}

/// A direction on the circle has its components within the radius and three
/// steps.
proof fn lemma_on_circle_within(v: Vector, r: int)
    requires
        0 <= r <= RADIUS_LIMIT - 3,
        on_circle(v, r),
    ensures
        v.within(RADIUS_LIMIT as int),
{
    assert(-(r + 3) <= v.x <= r + 3 && -(r + 3) <= v.y <= r + 3) by (nonlinear_arith)
        requires
            v.x * v.x + v.y * v.y <= r * r + 6 * r + 1,
            0 <= r,
    ;
}

/// Every sample of an arc lies on the circle round the centre through the
/// first point, to the rounding of its coordinates: no more than two steps
/// inside and three steps outside.
pub proof fn lemma_arc_on_circle(from: Point, to: Point, i: i64, j: i64, clockwise: bool, k: int)
    requires
        from.in_reach(),
        to.in_reach(),
        in_reach(i),
        in_reach(j),
        0 <= k <= ARC_STEPS,
    ensures
        ({
            let p = arc_points(from, to, i, j, clockwise)[k];
            let r = arc_radius(i, j);
            let dx = p.x - (from.x + i);
            let dy = p.y - (from.y + j);
            r * r - 2 * r <= dx * dx + dy * dy <= r * r + 6 * r + 1
        }),
{
    lemma_arc_directions_on_circle(from, to, i, j, clockwise, k);
    lemma_arc_directions_ends(
        arc_start(i, j),
        arc_end(from, to, i, j),
        arc_radius(i, j),
        clockwise,
    );
}

} // verus!
