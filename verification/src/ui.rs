//! The on-screen "go to the middle" button.
//!
//! A click is an event that happens once, whenever the finger lands; the input
//! system runs on a fixed tick and needs to know whether the button was
//! pressed since it last looked. One flag bridges the two: the button sets
//! it, the input system reads and clears it.
use vstd::prelude::*;

verus! {

/// Set by the button, read and cleared by the input system on its next tick.
#[derive(Clone, Copy, Debug, PartialEq, Eq)]
pub struct RespawnPressed(pub bool);

/// The flag after the button was pressed.
pub open spec fn after_press(flag: RespawnPressed) -> RespawnPressed {
    RespawnPressed(true)
}

/// What reading the flag answers, and the flag after it was read.
pub open spec fn after_take(flag: RespawnPressed) -> (bool, RespawnPressed) {
    (flag.0, RespawnPressed(false))
}

impl Default for RespawnPressed {
    /// Nobody has pressed the button yet.
    fn default() -> (flag: Self)
        ensures
            flag == RespawnPressed(false),
    {
        RespawnPressed(false)
    }
}

impl RespawnPressed {
    /// The button was clicked.
    pub fn press(&mut self)
        ensures
            *final(self) == after_press(*old(self)),
    {
        self.0 = true;
    }

    /// Whether the button was clicked since the last read; the flag is
    /// cleared by reading it.
    pub fn take(&mut self) -> (pressed: bool)
        ensures
            (pressed, *final(self)) == after_take(*old(self)),
    {
        let pressed = self.0;
        self.0 = false;
        pressed
    }
}

/// A click is delivered exactly once: the first read after a press answers
/// `true`, the next one `false`.
pub proof fn lemma_press_is_read_once(flag: RespawnPressed)
    ensures
        after_take(after_press(flag)).0,
        !after_take(after_take(after_press(flag)).1).0,
{
}

/// Pressing twice before a read is one request, not two.
pub proof fn lemma_presses_do_not_accumulate(flag: RespawnPressed)
    ensures
        after_press(after_press(flag)) == after_press(flag),
        !after_take(after_take(after_press(after_press(flag))).1).0,
{
}

/// Without a press, reading never reports one.
pub proof fn lemma_no_press_no_respawn()
    ensures
        !after_take(RespawnPressed(false)).0,
{
}

/// Reading the flag answers what it held and always leaves it cleared,
/// whatever it was before.
pub proof fn lemma_take_reports_and_clears(flag: RespawnPressed)
    ensures
        after_take(flag).0 == flag.0,
        after_take(flag).1 == RespawnPressed(false),
{
}

/// Two reads in a row without a press between them: the second always
/// answers `false` and leaves the flag cleared.
pub proof fn lemma_second_read_without_press_is_false(flag: RespawnPressed)
    ensures
        !after_take(after_take(flag).1).0,
        after_take(after_take(flag).1).1 == RespawnPressed(false),
{
}

/// Pressing always leaves the flag set, whatever it was.
pub proof fn lemma_press_sets(flag: RespawnPressed)
    ensures
        after_press(flag) == RespawnPressed(true),
{
}

} // verus!
