//! The application state and the once-per-frame update step: the circle's
//! position moves at a fixed speed for every movement input active this
//! frame, keys and on-screen buttons composing additively.

use vstd::prelude::*;
use crate::geometry::{ButtonRegion, PIXEL, coord_ok, in_triangle};
use crate::input::{InputSnapshot, Key, MAX_FRAME_MICROS, input_ok};
use crate::regions::{
    down_region, down_region_spec, left_region, left_region_spec, right_region, right_region_spec,
    up_region, up_region_spec,
};

verus! {

/// Movement speed in pixels per second.  Because a pixel is [`PIXEL`]
/// (one million) coordinate units and frame times are in microseconds, this
/// is also the number of coordinate units travelled per microsecond.
pub const MOVE_SPEED: i64 = 100;

/// Coordinate bound under which a single movement cannot overflow; wider
/// than [`crate::geometry::MAX_COORD`] so that the up-to-four movements of
/// one frame can be chained.
pub const POS_LIMIT: i64 = 0x4000_0000_0000_0000;

/// What the demo tracks between frames: the circle's position and the key
/// released most recently.
pub struct State {
    pub x: i64,
    pub y: i64,
    pub last_key: Option<Key>,
}

/// The position is within the geometry bound.
pub open spec fn state_ok(s: State) -> bool {
    coord_ok(s.x as int) && coord_ok(s.y as int)
}

pub open spec fn press_count(active: bool) -> int {
    if active {
        1
    } else {
        0
    }
}

/// Whether some active touch, or the held mouse pointer, lies in the given
/// button's triangle.
pub open spec fn region_touched(input: InputSnapshot, r: ButtonRegion) -> bool {
    ||| exists|j: int|
        0 <= j < input.touches@.len() && in_triangle(#[trigger] input.touches@[j], r.v1, r.v2, r.v3)
    ||| (input.mouse matches Some(p) && in_triangle(p, r.v1, r.v2, r.v3))
}

/// Net horizontal movement direction this frame: rightward inputs minus
/// leftward inputs.  A held key and a touched button each count once, so
/// the result ranges over -2 ..= 2.
pub open spec fn x_direction(input: InputSnapshot) -> int {
    press_count(region_touched(input, right_region_spec())) + press_count(input.d_down)
        - press_count(region_touched(input, left_region_spec())) - press_count(input.a_down)
}

/// Net vertical movement direction this frame: downward inputs minus
/// upward inputs (the y axis grows downward).
pub open spec fn y_direction(input: InputSnapshot) -> int {
    press_count(region_touched(input, down_region_spec())) + press_count(input.s_down)
        - press_count(region_touched(input, up_region_spec())) - press_count(input.w_down)
}

/// `m` added up `d` times: the displacement of one axis, written out case
/// by case over the five values a net direction can take so that concrete
/// positions follow by plain arithmetic.  [`lemma_direction_scaling`] shows
/// it equals the product `m * d`.
pub open spec fn scaled_by_direction(m: int, d: int) -> int {
    if d == 2 {
        m + m
    } else if d == 1 {
        m
    } else if d == 0 {
        0
    } else if d == -1 {
        -m
    } else {
        -(m + m)
    }
}

/// The horizontal position after one frame of the given input: moved by
/// exactly `MOVE_SPEED * elapsed_micros` for each unit of net direction.
pub open spec fn step_x(x: int, input: InputSnapshot) -> int {
    x + scaled_by_direction(MOVE_SPEED * input.elapsed_micros, x_direction(input))
}

/// The vertical position after one frame of the given input.
pub open spec fn step_y(y: int, input: InputSnapshot) -> int {
    y + scaled_by_direction(MOVE_SPEED * input.elapsed_micros, y_direction(input))
}

/// The cased displacement is exactly the product of the per-microsecond
/// speed with the net direction: one frame moves each axis by
/// `m * d`, movement inputs composing additively.
pub proof fn lemma_direction_scaling(m: int, d: int)
    requires
        -2 <= d <= 2,
    ensures
        scaled_by_direction(m, d) == m * d,
{
    lemma_scale_direction(m, d);
}

impl State {
    /// The state at startup: the circle in the middle of the 500 x 500
    /// window, no key released yet.
    pub fn new() -> (s: State)
        ensures
            s.x == 400 * PIXEL,
            s.y == 300 * PIXEL,
            s.last_key is None,
            state_ok(s),
    {
        State { x: 400 * PIXEL, y: 300 * PIXEL, last_key: None }
    }

    /// One upward movement: up the screen by `MOVE_SPEED * elapsed_micros`
    /// coordinate units.
    pub fn move_up(&mut self, elapsed_micros: u64)
        requires
            -POS_LIMIT <= old(self).y <= POS_LIMIT,
            elapsed_micros <= MAX_FRAME_MICROS,
        ensures
            final(self).y == old(self).y - MOVE_SPEED * elapsed_micros,
            final(self).x == old(self).x,
            final(self).last_key == old(self).last_key,
    {
        self.y = self.y - MOVE_SPEED * (elapsed_micros as i64);
    }

    /// One leftward movement.
    pub fn move_left(&mut self, elapsed_micros: u64)
        requires
            -POS_LIMIT <= old(self).x <= POS_LIMIT,
            elapsed_micros <= MAX_FRAME_MICROS,
        ensures
            final(self).x == old(self).x - MOVE_SPEED * elapsed_micros,
            final(self).y == old(self).y,
            final(self).last_key == old(self).last_key,
    {
        self.x = self.x - MOVE_SPEED * (elapsed_micros as i64);
    }

    /// One downward movement.
    pub fn move_down(&mut self, elapsed_micros: u64)
        requires
            -POS_LIMIT <= old(self).y <= POS_LIMIT,
            elapsed_micros <= MAX_FRAME_MICROS,
        ensures
            final(self).y == old(self).y + MOVE_SPEED * elapsed_micros,
            final(self).x == old(self).x,
            final(self).last_key == old(self).last_key,
    {
        self.y = self.y + MOVE_SPEED * (elapsed_micros as i64);
    }

    /// One rightward movement.
    pub fn move_right(&mut self, elapsed_micros: u64)
        requires
            -POS_LIMIT <= old(self).x <= POS_LIMIT,
            elapsed_micros <= MAX_FRAME_MICROS,
        ensures
            final(self).x == old(self).x + MOVE_SPEED * elapsed_micros,
            final(self).y == old(self).y,
            final(self).last_key == old(self).last_key,
    {
        self.x = self.x + MOVE_SPEED * (elapsed_micros as i64);
    }
}

/// Spells out the product `m * d` for each of the five values the net
/// direction of one axis can take.
proof fn lemma_scale_direction(m: int, d: int)
    by (nonlinear_arith)
    requires
        -2 <= d <= 2,
    ensures
        d == -2 ==> m * d == -(m + m),
        d == -1 ==> m * d == -m,
        d == 0 ==> m * d == 0,
        d == 1 ==> m * d == m,
        d == 2 ==> m * d == m + m,
{
}

/// The per-frame update: records the key released most recently, hit tests
/// every active touch and the held mouse pointer against the four arrow
/// buttons, and moves the position once for each active input, by exactly
/// `MOVE_SPEED * elapsed_micros` per input.  Opposite inputs cancel.
#[verifier::loop_isolation(false)]
#[verifier::rlimit(50)]
pub fn update(state: &mut State, input: &InputSnapshot)
    requires
        state_ok(*old(state)),
        input_ok(*input),
    ensures
        final(state).x == step_x(old(state).x as int, *input),
        final(state).y == step_y(old(state).y as int, *input),
        final(state).last_key == input.last_key_released,
{
    state.last_key = input.last_key_released;

    let left = left_region();
    let right = right_region();
    let up = up_region();
    let down = down_region();

    let mut up_pressed = false;
    let mut down_pressed = false;
    let mut left_pressed = false;
    let mut right_pressed = false;

    let n: usize = input.touches.len();
    let mut i: usize = 0;
    while i < n
        invariant
            0 <= i <= n,
            left_pressed == exists|j: int|
                0 <= j < i && in_triangle(#[trigger] input.touches@[j], left.v1, left.v2, left.v3),
            right_pressed == exists|j: int|
                0 <= j < i && in_triangle(
                    #[trigger] input.touches@[j],
                    right.v1,
                    right.v2,
                    right.v3,
                ),
            down_pressed == exists|j: int|
                0 <= j < i && in_triangle(#[trigger] input.touches@[j], down.v1, down.v2, down.v3),
            up_pressed == exists|j: int|
                0 <= j < i && in_triangle(#[trigger] input.touches@[j], up.v1, up.v2, up.v3),
        decreases n - i,
    {
        let p = input.touches[i];
        if left.contains(p) {
            left_pressed = true;
        }
        if right.contains(p) {
            right_pressed = true;
        }
        if down.contains(p) {
            down_pressed = true;
        }
        if up.contains(p) {
            up_pressed = true;
        }
        i = i + 1;
    }

    if let Some(p) = input.mouse {
        if left.contains(p) {
            left_pressed = true;
        }
        if right.contains(p) {
            right_pressed = true;
        }
        if down.contains(p) {
            down_pressed = true;
        }
        if up.contains(p) {
            up_pressed = true;
        }
    }

    assert(left_pressed == region_touched(*input, left_region_spec()));
    assert(right_pressed == region_touched(*input, right_region_spec()));
    assert(down_pressed == region_touched(*input, down_region_spec()));
    assert(up_pressed == region_touched(*input, up_region_spec()));

    let dt = input.elapsed_micros;
    if up_pressed {
        state.move_up(dt);
    }
    if down_pressed {
        state.move_down(dt);
    }
    if right_pressed {
        state.move_right(dt);
    }
    if left_pressed {
        state.move_left(dt);
    }

    if input.w_down {
        state.move_up(dt);
    }
    if input.a_down {
        state.move_left(dt);
    }
    if input.s_down {
        state.move_down(dt);
    }
    if input.d_down {
        state.move_right(dt);
    }

}

/// Holding the vertical movement keys alone (no touch, no held mouse
/// button) for one frame moves the position by exactly
/// `MOVE_SPEED * elapsed_micros` along the y axis: up for W, down for S,
/// and not at all when both or neither are held.
pub proof fn lemma_vertical_key_motion(y: int, input: InputSnapshot)
    requires
        input.touches@.len() == 0,
        input.mouse is None,
    ensures
        input.w_down && !input.s_down ==> step_y(y, input) == y - MOVE_SPEED
            * input.elapsed_micros,
        input.s_down && !input.w_down ==> step_y(y, input) == y + MOVE_SPEED
            * input.elapsed_micros,
        input.w_down == input.s_down ==> step_y(y, input) == y,
{
    assert(!region_touched(input, up_region_spec()));
    assert(!region_touched(input, down_region_spec()));
}

/// The horizontal counterpart: left for A, right for D, cancellation when
/// both or neither are held.
pub proof fn lemma_horizontal_key_motion(x: int, input: InputSnapshot)
    requires
        input.touches@.len() == 0,
        input.mouse is None,
    ensures
        input.a_down && !input.d_down ==> step_x(x, input) == x - MOVE_SPEED
            * input.elapsed_micros,
        input.d_down && !input.a_down ==> step_x(x, input) == x + MOVE_SPEED
            * input.elapsed_micros,
        input.a_down == input.d_down ==> step_x(x, input) == x,
{
    assert(!region_touched(input, left_region_spec()));
    assert(!region_touched(input, right_region_spec()));
}

} // verus!
