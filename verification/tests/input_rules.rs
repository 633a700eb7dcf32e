use floret::input::{key_motion, pick_motion, HeldKeys};
use floret::ui::RespawnPressed;

fn keys(right: bool, left: bool, up: bool, down: bool) -> HeldKeys {
    HeldKeys { right, left, up, down }
}

#[test]
fn nothing_held_is_no_motion() {
    assert_eq!(key_motion(keys(false, false, false, false)), (0, 0));
}

#[test]
fn single_keys_point_their_way() {
    assert_eq!(key_motion(keys(true, false, false, false)), (1, 0));
    assert_eq!(key_motion(keys(false, true, false, false)), (-1, 0));
    assert_eq!(key_motion(keys(false, false, true, false)), (0, 1));
    assert_eq!(key_motion(keys(false, false, false, true)), (0, -1));
}

#[test]
fn diagonal_press_is_unit_on_each_axis() {
    assert_eq!(key_motion(keys(true, false, true, false)), (1, 1));
    assert_eq!(key_motion(keys(false, true, false, true)), (-1, -1));
}

#[test]
fn opposite_keys_cancel() {
    assert_eq!(key_motion(keys(true, true, false, false)), (0, 0));
    assert_eq!(key_motion(keys(true, true, true, true)), (0, 0));
    assert_eq!(key_motion(keys(false, false, true, true)), (0, 0));
}

#[test]
fn mirrored_keys_mirror_the_direction() {
    let (x, y) = key_motion(keys(true, false, false, true));
    let (mx, my) = key_motion(keys(false, true, true, false));
    assert_eq!((mx, my), (-x, -y));
}

#[test]
fn touch_wins_when_present() {
    assert_eq!(pick_motion(Some((0.5f32, -0.25f32)), (1.0f32, 0.0f32)), (0.5, -0.25));
    assert_eq!(pick_motion(Some(7), 3), 7);
}

#[test]
fn keyboard_is_used_without_touch() {
    assert_eq!(pick_motion(None, (1.0f32, 1.0f32)), (1.0, 1.0));
    assert_eq!(pick_motion::<i32>(None, 3), 3);
}

#[test]
fn respawn_starts_unpressed() {
    let mut flag = RespawnPressed::default();
    assert_eq!(flag, RespawnPressed(false));
    assert!(!flag.take());
}

#[test]
fn a_press_is_read_exactly_once() {
    let mut flag = RespawnPressed::default();
    flag.press();
    assert_eq!(flag, RespawnPressed(true));
    assert!(flag.take());
    assert_eq!(flag, RespawnPressed(false));
    assert!(!flag.take());
}

#[test]
fn two_presses_are_one_request() {
    let mut flag = RespawnPressed(false);
    flag.press();
    flag.press();
    assert!(flag.take());
    assert!(!flag.take());
}
