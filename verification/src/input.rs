//! How the client turns what a person is holding into a direction.
//!
//! The keyboard and the touchscreen both reduce to one stick reading before
//! anything reaches the network. The arithmetic of the touch stick is done in
//! floating point by the client itself; what is decided here is the keyboard's
//! direction and which of the two devices is listened to.
use vstd::prelude::*;

verus! {

/// The four directions of the keyboard, each already combining its letter
/// key and its arrow key (D or Right, A or Left, W or Up, S or Down).
#[derive(Clone, Copy, Debug, PartialEq, Eq)]
pub struct HeldKeys {
    pub right: bool,
    pub left: bool,
    pub up: bool,
    pub down: bool,
}

/// One axis of the keyboard stick: `1` for the positive key alone, `-1` for
/// the negative one alone, `0` for neither or both.
pub open spec fn axis(positive: bool, negative: bool) -> int {
    (if positive { 1int } else { 0int }) - (if negative { 1int } else { 0int })
}

/// The keyboard as a direction `(x, y)`: x grows to the right, y grows up.
pub open spec fn key_direction(held: HeldKeys) -> (int, int) {
    (axis(held.right, held.left), axis(held.up, held.down))
}

fn axis_of(positive: bool, negative: bool) -> (a: i8)
    ensures
        a == axis(positive, negative),
{
    let p: i8 = if positive { 1 } else { 0 };
    let n: i8 = if negative { 1 } else { 0 };
    p - n
}

/// WASD (and the arrow keys) as a direction: `(right - left, up - down)`,
/// each component `-1`, `0` or `1`.
pub fn key_motion(held: HeldKeys) -> (direction: (i8, i8))
    ensures
        direction.0 == key_direction(held).0,
        direction.1 == key_direction(held).1,
{
    (axis_of(held.right, held.left), axis_of(held.up, held.down))
}

/// Touch wins when present: a phone has no keyboard to disagree with, and a
/// laptop with a touchscreen is driven by whichever one is being held.
pub fn pick_motion<M>(touch: Option<M>, keys: M) -> (motion: M)
    ensures
        motion == (match touch {
            Some(t) => t,
            None => keys,
        }),
{
    match touch {
        Some(t) => t,
        None => keys,
    }
}

/// Each keyboard axis is `-1`, `0` or `1`: no key combination walks faster
/// along an axis than a single key.
pub proof fn lemma_key_axes_are_unit(held: HeldKeys)
    ensures
        -1 <= key_direction(held).0 <= 1,
        -1 <= key_direction(held).1 <= 1,
{
}

/// Opposite keys held together cancel out.
pub proof fn lemma_opposite_keys_cancel(held: HeldKeys)
    ensures
        held.right == held.left ==> key_direction(held).0 == 0,
        held.up == held.down ==> key_direction(held).1 == 0,
{
}

/// Mirroring the keys mirrors the direction: swapping left with right and up
/// with down negates both axes.
pub proof fn lemma_mirrored_keys_mirror_direction(held: HeldKeys)
    ensures
        ({
            let mirrored = HeldKeys { right: held.left, left: held.right, up: held.down, down: held.up };
            key_direction(mirrored).0 == -key_direction(held).0
                && key_direction(mirrored).1 == -key_direction(held).1
        }),
{
}

/// With nothing held the keyboard asks for no movement.
pub proof fn lemma_no_keys_no_motion()
    ensures
        key_direction(HeldKeys { right: false, left: false, up: false, down: false }) == (0int, 0int),
{
}

/// Each axis is decided by its own two keys alone: the positive key alone
/// gives `1`, the negative key alone `-1`, both or neither `0`, whatever is
/// held on the other axis.
pub proof fn lemma_each_axis_follows_its_own_keys(held: HeldKeys)
    ensures
        held.right && !held.left ==> key_direction(held).0 == 1,
        !held.right && held.left ==> key_direction(held).0 == -1,
        held.right == held.left ==> key_direction(held).0 == 0,
        held.up && !held.down ==> key_direction(held).1 == 1,
        !held.up && held.down ==> key_direction(held).1 == -1,
        held.up == held.down ==> key_direction(held).1 == 0,
{
}

/// Changing the horizontal keys never changes the vertical component, and
/// changing the vertical keys never changes the horizontal one.
pub proof fn lemma_axes_are_independent(held: HeldKeys, right: bool, left: bool, up: bool, down: bool)
    ensures
        key_direction(HeldKeys { right, left, up: held.up, down: held.down }).1 == key_direction(held).1,
        key_direction(HeldKeys { right: held.right, left: held.left, up, down }).0 == key_direction(held).0,
{
}

/// Every combination of one horizontal and one vertical key walks
/// diagonally: both components are non-zero.
pub proof fn lemma_diagonals_move_on_both_axes(held: HeldKeys)
    requires
        held.right != held.left,
        held.up != held.down,
    ensures
        key_direction(held).0 != 0,
        key_direction(held).1 != 0,
{
}

} // verus!
