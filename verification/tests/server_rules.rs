use floret::server::{input_is_quiet, should_clear_input, tick_sub, STALE_INPUT_TICKS};

#[test]
fn stale_threshold_is_two_seconds_at_64_hz() {
    assert_eq!(STALE_INPUT_TICKS, 128);
    assert_eq!(STALE_INPUT_TICKS / 64, 2);
}

#[test]
fn tick_sub_is_the_plain_difference_nearby() {
    assert_eq!(tick_sub(12, 10), 2);
    assert_eq!(tick_sub(10, 12), -2);
    assert_eq!(tick_sub(500, 500), 0);
}

#[test]
fn tick_sub_wraps_like_the_network_tick() {
    assert_eq!(tick_sub(0, u32::MAX), 1);
    assert_eq!(tick_sub(u32::MAX, 0), -1);
    assert_eq!(tick_sub(0x8000_0000, 0), i32::MIN);
    assert_eq!(tick_sub(0x7fff_ffff, 0), i32::MAX);
    assert_eq!(tick_sub(3, u32::MAX - 2), 6);
}

#[test]
fn never_heard_from_is_quiet() {
    assert!(input_is_quiet(0, None));
    assert!(input_is_quiet(1_000_000, None));
}

#[test]
fn exactly_the_threshold_is_still_replayed() {
    assert!(!input_is_quiet(200, Some(72)));
    assert!(input_is_quiet(200, Some(71)));
}

#[test]
fn recent_input_is_replayed() {
    assert!(!input_is_quiet(1000, Some(1000)));
    assert!(!input_is_quiet(1000, Some(999)));
}

#[test]
fn input_from_ahead_is_not_stale() {
    assert!(!input_is_quiet(200, Some(300)));
    assert!(!input_is_quiet(u32::MAX - 10, Some(5)));
}

#[test]
fn quiet_across_the_wrap() {
    // 200 ticks after the counter wrapped.
    assert!(input_is_quiet(100, Some(u32::MAX - 99)));
    assert!(!input_is_quiet(10, Some(u32::MAX - 10)));
}

#[test]
fn clearing_needs_quiet_and_a_moving_stick() {
    assert!(should_clear_input(1000, Some(0), false));
    assert!(!should_clear_input(1000, Some(0), true));
    assert!(!should_clear_input(1000, Some(990), false));
    assert!(should_clear_input(5, None, false));
    assert!(!should_clear_input(5, None, true));
}

#[test]
fn a_cleared_input_is_not_cleared_again() {
    let now = 5000;
    let last = Some(10);
    assert!(should_clear_input(now, last, false));
    // After the reset the input rests, so the next tick leaves it alone.
    assert!(!should_clear_input(now + 1, last, true));
}
