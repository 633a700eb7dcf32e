//! The server's rule for players who have gone quiet.
//!
//! The networking layer replays a silent client's last input forever. Once
//! nothing has arrived for [`STALE_INPUT_TICKS`] ticks the server puts that
//! player's stick back to centre, so someone who closed their laptop
//! mid-stride stops walking.
use vstd::prelude::*;

verus! {

/// Ticks of silence before the last input stops being replayed: 128 ticks at
/// 64 Hz is two seconds.
pub const STALE_INPUT_TICKS: i32 = 128;

/// `later - earlier` for two simulation ticks, as a signed `i32`: the integer
/// difference taken modulo 2^32 into the `i32` range.
pub open spec fn tick_distance(later: u32, earlier: u32) -> int {
    let d = later - earlier;
    if d > i32::MAX {
        d - 0x1_0000_0000
    } else if d < i32::MIN {
        d + 0x1_0000_0000
    } else {
        d
    }
}

/// `later - earlier` for two ticks, with the semantics of the tick type of
/// the networking layer: the 64-bit difference truncated to `i32`.
pub fn tick_sub(later: u32, earlier: u32) -> (d: i32)
    ensures
        d == tick_distance(later, earlier),
{
    let wide: i64 = later as i64 - earlier as i64;
    if wide > i32::MAX as i64 {
        (wide - 0x1_0000_0000i64) as i32
    } else if wide < i32::MIN as i64 {
        (wide + 0x1_0000_0000i64) as i32
    } else {
        wide as i32
    }
}

/// A player is quiet when no input of theirs ever arrived, or when the last
/// one is more than [`STALE_INPUT_TICKS`] ticks old.
pub open spec fn is_quiet(now: u32, last_remote: Option<u32>) -> bool {
    match last_remote {
        None => true,
        Some(last) => tick_distance(now, last) > STALE_INPUT_TICKS,
    }
}

/// The stick goes back to centre when the player is quiet and is not already
/// at rest (leaving a resting input alone keeps change detection quiet).
pub open spec fn clears_input(now: u32, last_remote: Option<u32>, at_rest: bool) -> bool {
    is_quiet(now, last_remote) && !at_rest
}

/// Whether the player whose last remote input arrived at tick `last_remote`
/// (`None`: never) is quiet at server tick `now`.
pub fn input_is_quiet(now: u32, last_remote: Option<u32>) -> (quiet: bool)
    ensures
        quiet == is_quiet(now, last_remote),
{
    match last_remote {
        None => true,
        Some(last) => tick_sub(now, last) > STALE_INPUT_TICKS,
    }
}

/// Whether to reset a player's input to the resting input this tick, given
/// the server tick, the tick of the player's last remote input, and whether
/// the current input already is the resting one.
pub fn should_clear_input(now: u32, last_remote: Option<u32>, at_rest: bool) -> (clear: bool)
    ensures
        clear == clears_input(now, last_remote, at_rest),
{
    input_is_quiet(now, last_remote) && !at_rest
}

} // verus!

verus! {

/// A player the server has never heard from is quiet.
pub proof fn lemma_never_heard_is_quiet(now: u32)
    ensures
        is_quiet(now, None),
{
}

/// A player whose last input arrived at most [`STALE_INPUT_TICKS`] ticks ago
/// keeps walking on it.
pub proof fn lemma_recent_input_is_replayed(now: u32, last: u32, at_rest: bool)
    requires
        last <= now,
        now - last <= STALE_INPUT_TICKS,
    ensures
        !is_quiet(now, Some(last)),
        !clears_input(now, Some(last), at_rest),
{
}

/// A player silent for more than [`STALE_INPUT_TICKS`] ticks has their stick
/// put back to centre, unless it already rests there.
pub proof fn lemma_stale_input_is_cleared(now: u32, last: u32)
    requires
        last <= now,
        now - last > STALE_INPUT_TICKS,
        now - last <= i32::MAX,
    ensures
        is_quiet(now, Some(last)),
        clears_input(now, Some(last), false),
{
}

/// An input stamped with a tick ahead of the server's (clients run ahead of
/// it) is never treated as stale.
pub proof fn lemma_input_from_ahead_is_replayed(now: u32, last: u32)
    requires
        now < last,
        last - now <= 0x8000_0000,
    ensures
        !is_quiet(now, Some(last)),
{
}

/// A resting input is never rewritten: clearing is done at most once per
/// silence.
pub proof fn lemma_resting_input_is_left_alone(now: u32, last_remote: Option<u32>)
    ensures
        !clears_input(now, last_remote, true),
{
}

/// An input stamped ahead of the server tick (by at most half the tick range)
/// is never reset, whether or not it rests.
pub proof fn lemma_input_from_ahead_is_never_cleared(now: u32, last: u32, at_rest: bool)
    requires
        now < last,
        last - now <= 0x8000_0000,
    ensures
        !clears_input(now, Some(last), at_rest),
{
}

/// A moving stick of a player never heard from is reset.
pub proof fn lemma_never_heard_moving_is_cleared(now: u32)
    ensures
        clears_input(now, None, false),
{
}

/// The whole decision in terms of the tick counters: a moving stick is reset
/// exactly when the ticks elapsed since the last input, counted modulo 2^32,
/// lie strictly between 128 and 2^31; a resting one never is.
pub proof fn lemma_clear_decision_by_elapsed_ticks(now: u32, last: u32, at_rest: bool)
    ensures
        clears_input(now, Some(last), at_rest) == (!at_rest && {
            let elapsed = (now - last) % 0x1_0000_0000int;
            STALE_INPUT_TICKS < elapsed && elapsed < 0x8000_0000int
        }),
{
    let d = now - last;
    if d < 0 {
        assert((d + 0x1_0000_0000int) % 0x1_0000_0000int == d % 0x1_0000_0000int) by (nonlinear_arith);
        assert((d + 0x1_0000_0000int) % 0x1_0000_0000int == d + 0x1_0000_0000int) by (nonlinear_arith)
            requires 0 <= d + 0x1_0000_0000int < 0x1_0000_0000int;
    } else {
        assert(d % 0x1_0000_0000int == d) by (nonlinear_arith)
            requires 0 <= d < 0x1_0000_0000int;
    }
}

/// The tick difference is the one `i32` that agrees with `later - earlier`
/// modulo 2^32: it lies in the `i32` range and differs from the true
/// difference by a multiple of 2^32 (by nothing when the true difference
/// already fits).
pub proof fn lemma_tick_distance_is_the_i32_residue(later: u32, earlier: u32)
    ensures
        i32::MIN <= tick_distance(later, earlier) <= i32::MAX,
        ({
            let gap = (later - earlier) - tick_distance(later, earlier);
            gap == 0 || gap == 0x1_0000_0000int || gap == -0x1_0000_0000int
        }),
        i32::MIN <= later - earlier <= i32::MAX ==> tick_distance(later, earlier) == later - earlier,
{
}

/// A player is quiet exactly when nothing ever arrived, or when the ticks
/// elapsed since the last input, counted modulo 2^32, lie strictly between
/// 128 and 2^31.
pub proof fn lemma_quiet_by_elapsed_ticks(now: u32, last_remote: Option<u32>)
    ensures
        is_quiet(now, last_remote) == match last_remote {
            None => true,
            Some(last) => {
                let elapsed = (now - last) % 0x1_0000_0000int;
                STALE_INPUT_TICKS < elapsed && elapsed < 0x8000_0000int
            },
        },
{
    if let Some(last) = last_remote {
        lemma_clear_decision_by_elapsed_ticks(now, last, false);
    }
}

} // verus!
