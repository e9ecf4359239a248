//! The per-frame input snapshot: everything the update step reads, already
//! decoded into plain values.

use vstd::prelude::*;
use crate::geometry::{Point, point_ok};

verus! {

/// Longest frame time, in microseconds, that an update accepts; keeps the
/// movement arithmetic well inside `i64`.
pub const MAX_FRAME_MICROS: u64 = 1_000_000_000;

/// The keys the demo tells apart: the four movement keys, and one value for
/// every other key.
#[derive(Clone, Copy, PartialEq, Eq, Structural, Debug)]
pub enum Key {
    W,
    A,
    S,
    D,
    Other,
}

pub open spec fn key_label(k: Key) -> Seq<char> {
    match k {
        Key::W => "W"@,
        Key::A => "A"@,
        Key::S => "S"@,
        Key::D => "D"@,
        Key::Other => "Other"@,
    }
}

impl Key {
    /// Display name of the key.
    pub fn label(&self) -> (r: &'static str)
        ensures
            r@ == key_label(*self),
    {
        match self {
            Key::W => "W",
            Key::A => "A",
            Key::S => "S",
            Key::D => "D",
            Key::Other => "Other",
        }
    }
}

/// One frame's worth of input, as the host hands it over: active touch
/// positions, the pointer position while the left mouse button is held, the
/// state of the four movement keys, the key released most recently, and the
/// elapsed frame time.
pub struct InputSnapshot {
    pub touches: Vec<Point>,
    pub mouse: Option<Point>,
    pub w_down: bool,
    pub a_down: bool,
    pub s_down: bool,
    pub d_down: bool,
    pub last_key_released: Option<Key>,
    pub elapsed_micros: u64,
}

/// Every reported position is in range and the frame time is sane.
pub open spec fn input_ok(input: InputSnapshot) -> bool {
    &&& forall|i: int| 0 <= i < input.touches@.len() ==> point_ok(#[trigger] input.touches@[i])
    &&& (input.mouse matches Some(p) ==> point_ok(p))
    &&& input.elapsed_micros <= MAX_FRAME_MICROS
}

} // verus!
