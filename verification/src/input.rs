//! The toggle flags that the keyboard drives, and the edge detection that
//! guards them.
//!
//! A flag follows presses, not held keys: it flips in the frame in which its
//! key goes down and in no other.

use vstd::prelude::*;

verus! {

/// The flags that the player flips from the keyboard.
#[derive(Clone, Copy, Debug, PartialEq, Eq, Structural)]
pub struct PlayerInputs {
    /// Whether the cursor is to be grabbed by the primary window.
    pub mouse_locked: bool,
}

impl PlayerInputs {
    /// The flags as they are at startup: the cursor is free.
    pub fn new() -> (inputs: PlayerInputs)
        ensures
            !inputs.mouse_locked,
    {
        PlayerInputs { mouse_locked: false }
    }
}

/// What is remembered of one key from the frame before.
#[derive(Clone, Copy, Debug, PartialEq, Eq, Structural)]
pub struct KeyTracker {
    /// Whether the key was down when it was last sampled.
    pub down: bool,
}

/// Whether a key that was `before` in the last frame and is `now` in this
/// one has gone down in between.
pub open spec fn rising_edge(before: bool, now: bool) -> bool {
    now && !before
}

/// The level of the key in the frame before the last one of `levels`, where
/// `before` is its level ahead of them all.
pub open spec fn level_before_last(before: bool, levels: Seq<bool>) -> bool {
    if levels.len() <= 1 {
        before
    } else {
        levels[levels.len() - 2]
    }
}

/// How often the key goes down over the frames of `levels`.
pub open spec fn presses(before: bool, levels: Seq<bool>) -> nat
    decreases levels.len(),
{
    if levels.len() == 0 {
        0
    } else if rising_edge(level_before_last(before, levels), levels.last()) {
        presses(before, levels.drop_last()) + 1
    } else {
        presses(before, levels.drop_last())
    }
}

/// The flag after the frames of `levels`, each sampled and handled in turn.
pub open spec fn locked_after(before: bool, locked: bool, levels: Seq<bool>) -> bool
    decreases levels.len(),
{
    if levels.len() == 0 {
        locked
    } else {
        locked_after(before, locked, levels.drop_last()) != rising_edge(
            level_before_last(before, levels),
            levels.last(),
        )
    }
}

impl KeyTracker {
    /// A tracker for a key that has not been seen down yet.
    pub fn new() -> (tracker: KeyTracker)
        ensures
            !tracker.down,
    {
        KeyTracker { down: false }
    }

    /// Takes this frame's level of the key and says whether the key went
    /// down during the frame.
    pub fn sample(&mut self, down_now: bool) -> (just_pressed: bool)
        ensures
            final(self).down == down_now,
            just_pressed == rising_edge(old(self).down, down_now),
    {
        let just_pressed = down_now && !self.down;
        self.down = down_now;
        just_pressed
    }
}

/// Flips the cursor-lock flag when the toggle key went down during this
/// frame, and leaves it alone otherwise.
pub fn handle_input(just_pressed: bool, opt: &mut PlayerInputs)
    ensures
        final(opt).mouse_locked == (old(opt).mouse_locked != just_pressed),
{
    if just_pressed {
        opt.mouse_locked = !opt.mouse_locked;
    }
}

/// The flag has changed over a run of frames exactly if the key went down
/// an odd number of times in it.
pub proof fn lemma_flag_follows_presses(before: bool, locked: bool, levels: Seq<bool>)
    ensures
        (locked_after(before, locked, levels) != locked) == (presses(before, levels) % 2 == 1),
    decreases levels.len(),
{
    if levels.len() > 0 {
        lemma_flag_follows_presses(before, locked, levels.drop_last());
    }
}

/// A key that is held down through a run of frames counts as pressed once if
/// it was up before the run, and not at all if it was down already.
pub proof fn lemma_held_key_presses_once(before: bool, levels: Seq<bool>)
    requires
        levels.len() > 0,
        forall|i: int| 0 <= i < levels.len() ==> levels[i],
    ensures
        presses(before, levels) == if before {
            0nat
        } else {
            1nat
        },
    decreases levels.len(),
{
    if levels.len() > 1 {
        lemma_held_key_presses_once(before, levels.drop_last());
    } else {
        assert(presses(before, levels.drop_last()) == 0);
    }
}

/// Holding the toggle key down through any number of frames, from up, flips
/// the flag exactly once.
pub proof fn lemma_held_key_flips_once(locked: bool, levels: Seq<bool>)
    requires
        levels.len() > 0,
        forall|i: int| 0 <= i < levels.len() ==> levels[i],
    ensures
        presses(false, levels) == 1,
        locked_after(false, locked, levels) == !locked,
{
    lemma_held_key_presses_once(false, levels);
    lemma_flag_follows_presses(false, locked, levels);
}

} // verus!
