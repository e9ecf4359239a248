//! The fixed geometry of the four on-screen arrow buttons: each is a
//! triangle placed at a fixed offset near the lower right corner of the
//! 500 x 500 window.

use vstd::prelude::*;
use crate::geometry::{ButtonRegion, PIXEL, Point, from_pixels, region_ok};

verus! {

/// The point `(x, y)` given in whole pixels, as fixed-point coordinates.
pub open spec fn at_pixels(x: int, y: int) -> Point {
    Point { x: (x * PIXEL) as i64, y: (y * PIXEL) as i64 }
}

pub open spec fn left_region_spec() -> ButtonRegion {
    ButtonRegion {
        v1: at_pixels(395, 450),
        v2: at_pixels(395, 400),
        v3: at_pixels(365, 425),
    }
}

pub open spec fn right_region_spec() -> ButtonRegion {
    ButtonRegion {
        v1: at_pixels(455, 450),
        v2: at_pixels(455, 400),
        v3: at_pixels(485, 425),
    }
}

pub open spec fn up_region_spec() -> ButtonRegion {
    ButtonRegion {
        v1: at_pixels(450, 395),
        v2: at_pixels(400, 395),
        v3: at_pixels(425, 365),
    }
}

pub open spec fn down_region_spec() -> ButtonRegion {
    ButtonRegion {
        v1: at_pixels(450, 455),
        v2: at_pixels(400, 455),
        v3: at_pixels(425, 485),
    }
}

/// The leftward arrow: vertices (0, 25), (0, -25), (-30, 0) around the
/// offset (395, 425), in pixels.
pub fn left_region() -> (r: ButtonRegion)
    ensures
        r == left_region_spec(),
        region_ok(r),
{
    ButtonRegion {
        v1: from_pixels(395, 450),
        v2: from_pixels(395, 400),
        v3: from_pixels(365, 425),
    }
}

/// The rightward arrow: vertices (0, 25), (0, -25), (30, 0) around the
/// offset (455, 425), in pixels.
pub fn right_region() -> (r: ButtonRegion)
    ensures
        r == right_region_spec(),
        region_ok(r),
{
    ButtonRegion {
        v1: from_pixels(455, 450),
        v2: from_pixels(455, 400),
        v3: from_pixels(485, 425),
    }
}

/// The upward arrow: vertices (25, 0), (-25, 0), (0, -30) around the
/// offset (425, 395), in pixels.
pub fn up_region() -> (r: ButtonRegion)
    ensures
        r == up_region_spec(),
        region_ok(r),
{
    ButtonRegion {
        v1: from_pixels(450, 395),
        v2: from_pixels(400, 395),
        v3: from_pixels(425, 365),
    }
}

/// The downward arrow: vertices (25, 0), (-25, 0), (0, 30) around the
/// offset (425, 455), in pixels.
pub fn down_region() -> (r: ButtonRegion)
    ensures
        r == down_region_spec(),
        region_ok(r),
{
    ButtonRegion {
        v1: from_pixels(450, 455),
        v2: from_pixels(400, 455),
        v3: from_pixels(425, 485),
    }
}

} // verus!
