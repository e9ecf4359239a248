//! Plane geometry for the on-screen controls: points in fixed-point screen
//! coordinates and the orientation-based point-in-triangle test used to hit
//! test the triangular arrow buttons.

use vstd::prelude::*;

verus! {

/// Number of coordinate units per screen pixel.  Positions are kept as
/// fixed-point integers so that movement by `speed * elapsed_time` and the
/// hit tests are exact.
pub const PIXEL: i64 = 1_000_000;

/// Bound on every coordinate the geometry works with; generous enough for
/// any screen, and small enough that the orientation determinants fit in
/// `i128` (2^61, so each factor of a determinant stays below 2^62).
pub const MAX_COORD: i64 = 0x2000_0000_0000_0000;

/// A point on the screen, in fixed-point coordinates ([`PIXEL`] units per
/// pixel).  The y axis grows downward, as screen coordinates do.
#[derive(Clone, Copy, PartialEq, Eq, Structural, Debug)]
pub struct Point {
    pub x: i64,
    pub y: i64,
}

/// A triangular screen area acting as one directional on-screen button.
#[derive(Clone, Copy, PartialEq, Eq, Structural, Debug)]
pub struct ButtonRegion {
    pub v1: Point,
    pub v2: Point,
    pub v3: Point,
}

pub open spec fn coord_ok(c: int) -> bool {
    -MAX_COORD <= c <= MAX_COORD
}

pub open spec fn point_ok(p: Point) -> bool {
    coord_ok(p.x as int) && coord_ok(p.y as int)
}

pub open spec fn region_ok(r: ButtonRegion) -> bool {
    point_ok(r.v1) && point_ok(r.v2) && point_ok(r.v3)
}

/// Twice the signed area of the triangle `(p1, p2, p3)`: positive for one
/// winding order, negative for the other, zero when the three points are
/// collinear.
pub open spec fn orient(p1: Point, p2: Point, p3: Point) -> int {
    (p1.x - p3.x) * (p2.y - p3.y) - (p2.x - p3.x) * (p1.y - p3.y)
}

/// The hit test: `pt` lies in the closed triangle `(v1, v2, v3)` exactly
/// when the three edge orientations are not a mixture of strictly positive
/// and strictly negative values.  On a degenerate (collinear) triangle this
/// accepts exactly the points collinear with it, never a point off that
/// line.
pub open spec fn in_triangle(pt: Point, v1: Point, v2: Point, v3: Point) -> bool {
    let d1 = orient(pt, v1, v2);
    let d2 = orient(pt, v2, v3);
    let d3 = orient(pt, v3, v1);
    !((d1 < 0 || d2 < 0 || d3 < 0) && (d1 > 0 || d2 > 0 || d3 > 0))
}

/// `pt` lies strictly inside the triangle: all three edge orientations have
/// the same strict sign.  A triangle with a strictly interior point is in
/// particular non-degenerate.
pub open spec fn strictly_inside(pt: Point, v1: Point, v2: Point, v3: Point) -> bool {
    let d1 = orient(pt, v1, v2);
    let d2 = orient(pt, v2, v3);
    let d3 = orient(pt, v3, v1);
    (d1 > 0 && d2 > 0 && d3 > 0) || (d1 < 0 && d2 < 0 && d3 < 0)
}

/// `pt` lies strictly outside the axis-aligned bounding box of the three
/// vertices: beyond all of them in some coordinate direction.
pub open spec fn outside_bounding_box(pt: Point, v1: Point, v2: Point, v3: Point) -> bool {
    ||| (pt.x > v1.x && pt.x > v2.x && pt.x > v3.x)
    ||| (pt.x < v1.x && pt.x < v2.x && pt.x < v3.x)
    ||| (pt.y > v1.y && pt.y > v2.y && pt.y > v3.y)
    ||| (pt.y < v1.y && pt.y < v2.y && pt.y < v3.y)
}

proof fn lemma_cross_antisym(px: int, py: int, ax: int, ay: int, bx: int, by: int)
    by (nonlinear_arith)
    ensures
        (px - bx) * (ay - by) - (ax - bx) * (py - by) == -((px - ax) * (by - ay) - (bx - ax) * (
        py - ay)),
{
}

proof fn lemma_orient_vertex_swap(p: Point, a: Point, b: Point)
    ensures
        orient(p, a, b) == -orient(p, b, a),
{
    lemma_cross_antisym(p.x as int, p.y as int, a.x as int, a.y as int, b.x as int, b.y as int);
}

/// The orientation determinants of a triangle and of the same triangle with
/// its vertex order reversed are negatives of each other.
pub proof fn lemma_orient_reversal(v1: Point, v2: Point, v3: Point)
    ensures
        orient(v3, v2, v1) == -orient(v1, v2, v3),
{
    lemma_cross_antisym(
        v3.x as int,
        v3.y as int,
        v2.x as int,
        v2.y as int,
        v1.x as int,
        v1.y as int,
    );
    lemma_orient_vertex_swap(v1, v3, v2);
}

/// The hit test does not depend on the winding order of the triangle's
/// vertices: reflecting the order (clockwise against counter-clockwise)
/// leaves the answer unchanged for every query point.
pub proof fn lemma_winding_independent(pt: Point, v1: Point, v2: Point, v3: Point)
    ensures
        in_triangle(pt, v1, v2, v3) == in_triangle(pt, v3, v2, v1),
{
    lemma_orient_vertex_swap(pt, v3, v2);
    lemma_orient_vertex_swap(pt, v2, v1);
    lemma_orient_vertex_swap(pt, v1, v3);
}

/// A point strictly inside a triangle passes the hit test.
pub proof fn lemma_strictly_inside_hit(pt: Point, v1: Point, v2: Point, v3: Point)
    requires
        strictly_inside(pt, v1, v2, v3),
    ensures
        in_triangle(pt, v1, v2, v3),
{
}

#[verifier::rlimit(100)]
proof fn lemma_orient_sum(
    px: int,
    py: int,
    x1: int,
    y1: int,
    x2: int,
    y2: int,
    x3: int,
    y3: int,
) by (nonlinear_arith)
    ensures
        ((px - x2) * (y1 - y2) - (x1 - x2) * (py - y2)) + ((px - x3) * (y2 - y3) - (x2 - x3) * (py
            - y3)) + ((px - x1) * (y3 - y1) - (x3 - x1) * (py - y1)) == (x1 - x3) * (y2 - y3) - (x2
            - x3) * (y1 - y3),
{
}

proof fn lemma_barycentric(
    px: int,
    py: int,
    x1: int,
    y1: int,
    x2: int,
    y2: int,
    x3: int,
    y3: int,
    d1: int,
    d2: int,
    d3: int,
    t: int,
)
    requires
        d1 == (px - x2) * (y1 - y2) - (x1 - x2) * (py - y2),
        d2 == (px - x3) * (y2 - y3) - (x2 - x3) * (py - y3),
        d3 == (px - x1) * (y3 - y1) - (x3 - x1) * (py - y1),
        t == (x1 - x3) * (y2 - y3) - (x2 - x3) * (y1 - y3),
    ensures
        d1 + d2 + d3 == t,
        px * t == d2 * x1 + d3 * x2 + d1 * x3,
        py * t == d2 * y1 + d3 * y2 + d1 * y3,
{
    let u1: int = x1 - px;
    let w1: int = y1 - py;
    let u2: int = x2 - px;
    let w2: int = y2 - py;
    let u3: int = x3 - px;
    let w3: int = y3 - py;
    lemma_orient_sum(px, py, x1, y1, x2, y2, x3, y3);
    // Each edge determinant, rewritten with the query point at the origin.
    assert(d1 == u1 * w2 - u2 * w1) by (nonlinear_arith)
        requires
            d1 == (px - x2) * (y1 - y2) - (x1 - x2) * (py - y2),
            u1 == x1 - px,
            w1 == y1 - py,
            u2 == x2 - px,
            w2 == y2 - py,
    ;
    assert(d2 == u2 * w3 - u3 * w2) by (nonlinear_arith)
        requires
            d2 == (px - x3) * (y2 - y3) - (x2 - x3) * (py - y3),
            u2 == x2 - px,
            w2 == y2 - py,
            u3 == x3 - px,
            w3 == y3 - py,
    ;
    assert(d3 == u3 * w1 - u1 * w3) by (nonlinear_arith)
        requires
            d3 == (px - x1) * (y3 - y1) - (x3 - x1) * (py - y1),
            u3 == x3 - px,
            w3 == y3 - py,
            u1 == x1 - px,
            w1 == y1 - py,
    ;
    lemma_tri_cancel(u1, w1, u2, w2, u3, w3);
    assert(d2 * u1 + d3 * u2 + d1 * u3 == 0);
    assert(d2 * w1 + d3 * w2 + d1 * w3 == 0);
    // Undo the translation, one product at a time.
    assert(d2 * u1 == d2 * x1 - d2 * px) by (nonlinear_arith)
        requires
            u1 == x1 - px,
    ;
    assert(d3 * u2 == d3 * x2 - d3 * px) by (nonlinear_arith)
        requires
            u2 == x2 - px,
    ;
    assert(d1 * u3 == d1 * x3 - d1 * px) by (nonlinear_arith)
        requires
            u3 == x3 - px,
    ;
    assert(d2 * w1 == d2 * y1 - d2 * py) by (nonlinear_arith)
        requires
            w1 == y1 - py,
    ;
    assert(d3 * w2 == d3 * y2 - d3 * py) by (nonlinear_arith)
        requires
            w2 == y2 - py,
    ;
    assert(d1 * w3 == d1 * y3 - d1 * py) by (nonlinear_arith)
        requires
            w3 == y3 - py,
    ;
    assert(px * t == d1 * px + d2 * px + d3 * px) by (nonlinear_arith)
        requires
            t == d1 + d2 + d3,
    ;
    assert(py * t == d1 * py + d2 * py + d3 * py) by (nonlinear_arith)
        requires
            t == d1 + d2 + d3,
    ;
}

/// Both weighted cancellation identities behind the barycentric reading of
/// a point, with the query point translated to the origin.
proof fn lemma_tri_cancel(u1: int, w1: int, u2: int, w2: int, u3: int, w3: int)
    by (nonlinear_arith)
    ensures
        (u2 * w3 - u3 * w2) * u1 + (u3 * w1 - u1 * w3) * u2 + (u1 * w2 - u2 * w1) * u3 == 0,
        (u2 * w3 - u3 * w2) * w1 + (u3 * w1 - u1 * w3) * w2 + (u1 * w2 - u2 * w1) * w3 == 0,
{
}

proof fn lemma_weighted_below(c: int, a1: int, a2: int, a3: int, w1: int, w2: int, w3: int)
    by (nonlinear_arith)
    requires
        a1 < c,
        a2 < c,
        a3 < c,
        w1 >= 0,
        w2 >= 0,
        w3 >= 0,
        w1 + w2 + w3 > 0,
    ensures
        w1 * a1 + w2 * a2 + w3 * a3 < c * (w1 + w2 + w3),
{
}

proof fn lemma_weighted_above(c: int, a1: int, a2: int, a3: int, w1: int, w2: int, w3: int)
    by (nonlinear_arith)
    requires
        a1 > c,
        a2 > c,
        a3 > c,
        w1 >= 0,
        w2 >= 0,
        w3 >= 0,
        w1 + w2 + w3 > 0,
    ensures
        w1 * a1 + w2 * a2 + w3 * a3 > c * (w1 + w2 + w3),
{
}

proof fn lemma_outside_box_miss_ccw(pt: Point, v1: Point, v2: Point, v3: Point)
    requires
        orient(v1, v2, v3) > 0,
        outside_bounding_box(pt, v1, v2, v3),
    ensures
        !in_triangle(pt, v1, v2, v3),
{
    let d1: int = orient(pt, v1, v2);
    let d2: int = orient(pt, v2, v3);
    let d3: int = orient(pt, v3, v1);
    let t: int = orient(v1, v2, v3);
    lemma_barycentric(
        pt.x as int,
        pt.y as int,
        v1.x as int,
        v1.y as int,
        v2.x as int,
        v2.y as int,
        v3.x as int,
        v3.y as int,
        d1,
        d2,
        d3,
        t,
    );
    if in_triangle(pt, v1, v2, v3) {
        // No mixture of strict signs, and they sum to t > 0: all are >= 0.
        assert(d1 >= 0 && d2 >= 0 && d3 >= 0);
        if pt.x > v1.x && pt.x > v2.x && pt.x > v3.x {
            lemma_weighted_below(pt.x as int, v1.x as int, v2.x as int, v3.x as int, d2, d3, d1);
        } else if pt.x < v1.x && pt.x < v2.x && pt.x < v3.x {
            lemma_weighted_above(pt.x as int, v1.x as int, v2.x as int, v3.x as int, d2, d3, d1);
        } else if pt.y > v1.y && pt.y > v2.y && pt.y > v3.y {
            lemma_weighted_below(pt.y as int, v1.y as int, v2.y as int, v3.y as int, d2, d3, d1);
        } else {
            lemma_weighted_above(pt.y as int, v1.y as int, v2.y as int, v3.y as int, d2, d3, d1);
        }
    }
}

/// A point strictly beyond the bounding box of a non-degenerate triangle
/// fails the hit test.  (Non-degeneracy is needed: a degenerate triangle
/// accepts every point collinear with it, however far away.)
pub proof fn lemma_outside_box_miss(pt: Point, v1: Point, v2: Point, v3: Point)
    requires
        orient(v1, v2, v3) != 0,
        outside_bounding_box(pt, v1, v2, v3),
    ensures
        !in_triangle(pt, v1, v2, v3),
{
    if orient(v1, v2, v3) > 0 {
        lemma_outside_box_miss_ccw(pt, v1, v2, v3);
    } else {
        lemma_orient_reversal(v1, v2, v3);
        lemma_winding_independent(pt, v1, v2, v3);
        lemma_outside_box_miss_ccw(pt, v3, v2, v1);
    }
}

proof fn lemma_product_bound(a: int, b: int, m: int) by (nonlinear_arith)
    requires
        -m <= a <= m,
        -m <= b <= m,
        0 <= m,
    ensures
        -(m * m) <= a * b <= m * m,
{
}

/// Builds a point from whole-pixel coordinates.
pub fn from_pixels(x: i64, y: i64) -> (p: Point)
    requires
        -2_000_000_000 <= x <= 2_000_000_000,
        -2_000_000_000 <= y <= 2_000_000_000,
    ensures
        p.x == x * PIXEL,
        p.y == y * PIXEL,
        point_ok(p),
{
    Point { x: x * PIXEL, y: y * PIXEL }
}

/// The orientation determinant of [`orient`], computed exactly.
pub fn sign(p1: Point, p2: Point, p3: Point) -> (d: i128)
    requires
        point_ok(p1),
        point_ok(p2),
        point_ok(p3),
    ensures
        d == orient(p1, p2, p3),
{
    let ax: i128 = p1.x as i128 - p3.x as i128;
    let ay: i128 = p2.y as i128 - p3.y as i128;
    let bx: i128 = p2.x as i128 - p3.x as i128;
    let by: i128 = p1.y as i128 - p3.y as i128;
    proof {
        lemma_product_bound(ax as int, ay as int, 2 * MAX_COORD);
        lemma_product_bound(bx as int, by as int, 2 * MAX_COORD);
    }
    ax * ay - bx * by
}

/// Whether `pt` lies in the closed triangle `(v1, v2, v3)`.
pub fn point_in_triangle(pt: Point, v1: Point, v2: Point, v3: Point) -> (r: bool)
    requires
        point_ok(pt),
        point_ok(v1),
        point_ok(v2),
        point_ok(v3),
    ensures
        r == in_triangle(pt, v1, v2, v3),
{
    let d1: i128 = sign(pt, v1, v2);
    let d2: i128 = sign(pt, v2, v3);
    let d3: i128 = sign(pt, v3, v1);

    let has_neg = (d1 < 0) || (d2 < 0) || (d3 < 0);
    let has_pos = (d1 > 0) || (d2 > 0) || (d3 > 0);

    !(has_neg && has_pos)
}

impl ButtonRegion {
    /// Whether a touch or click at `pt` hits this button.
    pub fn contains(&self, pt: Point) -> (r: bool)
        requires
            region_ok(*self),
            point_ok(pt),
        ensures
            r == in_triangle(pt, self.v1, self.v2, self.v3),
    {
        point_in_triangle(pt, self.v1, self.v2, self.v3)
    }
}

} // verus!
