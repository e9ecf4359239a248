use circle_pad::geometry::{from_pixels, point_in_triangle, sign, Point, PIXEL};
use circle_pad::regions::{down_region, left_region, right_region, up_region};

fn px(x: i64, y: i64) -> Point {
    from_pixels(x, y)
}

#[test]
fn from_pixels_scales_by_the_fixed_point_unit() {
    let p = from_pixels(395, 425);
    assert_eq!(p.x, 395 * PIXEL);
    assert_eq!(p.y, 425 * PIXEL);
    let q = from_pixels(-30, 0);
    assert_eq!(q.x, -30 * PIXEL);
    assert_eq!(q.y, 0);
}

#[test]
fn sign_is_the_orientation_determinant() {
    let o = Point { x: 0, y: 0 };
    let e1 = Point { x: 1, y: 0 };
    let e2 = Point { x: 0, y: 1 };
    assert_eq!(sign(o, e1, e2), 1);
    assert_eq!(sign(o, e2, e1), -1);
    // Collinear points give zero.
    let a = Point { x: 1, y: 2 };
    let b = Point { x: 3, y: 4 };
    let c = Point { x: 5, y: 6 };
    assert_eq!(sign(a, b, c), 0);
}

#[test]
fn left_button_contains_its_offset_point_and_not_a_far_one() {
    // The leftward arrow is the triangle (0, 25), (0, -25), (-30, 0)
    // offset by (395, 425); the offset point itself lies on its boundary.
    let r = left_region();
    assert!(point_in_triangle(px(395, 425), r.v1, r.v2, r.v3));
    assert!(!point_in_triangle(px(1000, 1000), r.v1, r.v2, r.v3));
}

#[test]
fn winding_order_is_irrelevant() {
    let v1 = px(395, 450);
    let v2 = px(395, 400);
    let v3 = px(365, 425);
    let samples = [
        px(390, 425),
        px(395, 425),
        px(365, 425),
        px(1000, 1000),
        px(0, 0),
        px(396, 425),
    ];
    for pt in samples {
        assert_eq!(
            point_in_triangle(pt, v1, v2, v3),
            point_in_triangle(pt, v3, v2, v1)
        );
    }
}

#[test]
fn strictly_inside_hits_and_far_outside_misses() {
    let v1 = Point { x: 0, y: 0 };
    let v2 = Point { x: 100, y: 0 };
    let v3 = Point { x: 0, y: 100 };
    assert!(point_in_triangle(Point { x: 10, y: 10 }, v1, v2, v3));
    assert!(!point_in_triangle(Point { x: 1000, y: 1000 }, v1, v2, v3));
    assert!(!point_in_triangle(Point { x: -5, y: 50 }, v1, v2, v3));
    assert!(!point_in_triangle(Point { x: 50, y: -5 }, v1, v2, v3));
}

#[test]
fn boundary_points_hit() {
    let v1 = Point { x: 0, y: 0 };
    let v2 = Point { x: 100, y: 0 };
    let v3 = Point { x: 0, y: 100 };
    // On an edge, and on a vertex: the test is non-strict.
    assert!(point_in_triangle(Point { x: 50, y: 0 }, v1, v2, v3));
    assert!(point_in_triangle(Point { x: 0, y: 100 }, v1, v2, v3));
    assert!(point_in_triangle(Point { x: 50, y: 50 }, v1, v2, v3));
}

#[test]
fn collinear_triangle_accepts_exactly_collinear_points() {
    let v1 = Point { x: 0, y: 0 };
    let v2 = Point { x: 10, y: 0 };
    let v3 = Point { x: 20, y: 0 };
    assert!(point_in_triangle(Point { x: 5, y: 0 }, v1, v2, v3));
    // Even far beyond the segment, a collinear point passes the non-strict test ...
    assert!(point_in_triangle(Point { x: 1000, y: 0 }, v1, v2, v3));
    // ... but a point off the line does not.
    assert!(!point_in_triangle(Point { x: 5, y: 5 }, v1, v2, v3));
}

#[test]
fn buttons_do_not_overlap_at_the_pad_center() {
    let c = px(425, 425);
    for r in [left_region(), right_region(), up_region(), down_region()] {
        assert!(!point_in_triangle(c, r.v1, r.v2, r.v3));
    }
}

#[test]
fn each_button_contains_an_interior_point() {
    let l = left_region();
    assert!(point_in_triangle(px(390, 425), l.v1, l.v2, l.v3));
    let r = right_region();
    assert!(point_in_triangle(px(460, 425), r.v1, r.v2, r.v3));
    let u = up_region();
    assert!(point_in_triangle(px(425, 390), u.v1, u.v2, u.v3));
    let d = down_region();
    assert!(point_in_triangle(px(425, 460), d.v1, d.v2, d.v3));
}
