use circle_pad::geometry::{from_pixels, PIXEL};
use circle_pad::input::{InputSnapshot, Key};
use circle_pad::state::{update, State, MOVE_SPEED};

const FRAME: u64 = 16_000;

fn idle(elapsed_micros: u64) -> InputSnapshot {
    InputSnapshot {
        touches: vec![],
        mouse: None,
        w_down: false,
        a_down: false,
        s_down: false,
        d_down: false,
        last_key_released: None,
        elapsed_micros,
    }
}

fn delta(elapsed_micros: u64) -> i64 {
    MOVE_SPEED * elapsed_micros as i64
}

#[test]
fn initial_state_centers_the_circle() {
    let s = State::new();
    assert_eq!(s.x, 400 * PIXEL);
    assert_eq!(s.y, 300 * PIXEL);
    assert!(s.last_key.is_none());
}

#[test]
fn no_input_no_motion() {
    let mut s = State::new();
    update(&mut s, &idle(FRAME));
    assert_eq!(s.x, 400 * PIXEL);
    assert_eq!(s.y, 300 * PIXEL);
}

#[test]
fn w_key_moves_up_by_speed_times_elapsed() {
    let mut s = State::new();
    let mut input = idle(FRAME);
    input.w_down = true;
    update(&mut s, &input);
    assert_eq!(s.y, 300 * PIXEL - delta(FRAME));
    assert_eq!(s.x, 400 * PIXEL);
    // 16 000 us at 100 pixels per second is exactly 1.6 pixels.
    assert_eq!(s.y, 300 * PIXEL - 16 * PIXEL / 10);
}

#[test]
fn each_key_moves_its_own_axis() {
    for (key, dx, dy) in [
        (Key::W, 0, -1),
        (Key::A, -1, 0),
        (Key::S, 0, 1),
        (Key::D, 1, 0),
    ] {
        let mut s = State::new();
        let mut input = idle(FRAME);
        match key {
            Key::W => input.w_down = true,
            Key::A => input.a_down = true,
            Key::S => input.s_down = true,
            Key::D => input.d_down = true,
            Key::Other => {}
        }
        update(&mut s, &input);
        assert_eq!(s.x, 400 * PIXEL + dx * delta(FRAME));
        assert_eq!(s.y, 300 * PIXEL + dy * delta(FRAME));
    }
}

#[test]
fn opposite_keys_cancel() {
    let mut s = State::new();
    let mut input = idle(FRAME);
    input.w_down = true;
    input.s_down = true;
    input.a_down = true;
    input.d_down = true;
    update(&mut s, &input);
    assert_eq!(s.x, 400 * PIXEL);
    assert_eq!(s.y, 300 * PIXEL);
}

#[test]
fn touch_on_the_left_button_moves_left() {
    let mut s = State::new();
    let mut input = idle(FRAME);
    input.touches = vec![from_pixels(390, 425)];
    update(&mut s, &input);
    assert_eq!(s.x, 400 * PIXEL - delta(FRAME));
    assert_eq!(s.y, 300 * PIXEL);
}

#[test]
fn mouse_on_the_up_button_moves_up() {
    let mut s = State::new();
    let mut input = idle(FRAME);
    input.mouse = Some(from_pixels(425, 390));
    update(&mut s, &input);
    assert_eq!(s.x, 400 * PIXEL);
    assert_eq!(s.y, 300 * PIXEL - delta(FRAME));
}

#[test]
fn a_key_and_left_button_stack() {
    let mut s = State::new();
    let mut input = idle(FRAME);
    input.a_down = true;
    input.touches = vec![from_pixels(390, 425)];
    update(&mut s, &input);
    assert_eq!(s.x, 400 * PIXEL - 2 * delta(FRAME));
    assert_eq!(s.y, 300 * PIXEL);
}

#[test]
fn two_touches_on_one_button_count_once() {
    let mut s = State::new();
    let mut input = idle(FRAME);
    input.touches = vec![from_pixels(390, 425), from_pixels(391, 425)];
    update(&mut s, &input);
    assert_eq!(s.x, 400 * PIXEL - delta(FRAME));
    assert_eq!(s.y, 300 * PIXEL);
}

#[test]
fn touch_outside_every_button_moves_nothing() {
    let mut s = State::new();
    let mut input = idle(FRAME);
    input.touches = vec![from_pixels(200, 200)];
    update(&mut s, &input);
    assert_eq!(s.x, 400 * PIXEL);
    assert_eq!(s.y, 300 * PIXEL);
}

#[test]
fn released_key_is_recorded_for_the_next_frame() {
    let mut s = State::new();
    let mut input = idle(FRAME);
    input.last_key_released = Some(Key::W);
    update(&mut s, &input);
    assert_eq!(s.last_key, Some(Key::W));
    assert_eq!(s.last_key.unwrap().label(), "W");

    // A frame with no release clears it again, as the host reports None.
    update(&mut s, &idle(FRAME));
    assert_eq!(s.last_key, None);
}

#[test]
fn key_labels_name_the_keys() {
    assert_eq!(Key::W.label(), "W");
    assert_eq!(Key::A.label(), "A");
    assert_eq!(Key::S.label(), "S");
    assert_eq!(Key::D.label(), "D");
    assert_eq!(Key::Other.label(), "Other");
}

#[test]
fn zero_elapsed_time_moves_nothing() {
    let mut s = State::new();
    let mut input = idle(0);
    input.w_down = true;
    input.d_down = true;
    update(&mut s, &input);
    assert_eq!(s.x, 400 * PIXEL);
    assert_eq!(s.y, 300 * PIXEL);
}
