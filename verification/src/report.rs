//! The periodic position report: on the frame in which the diagnostic timer
//! completes a period, the positions of all marked entities, and on every
//! other frame nothing.

use crate::scene::{thing_positions, Vec3, World};
use crate::timer::{elapsed_after, fires, DiagnosticTimer};
use vstd::prelude::*;

verus! {

/// Advances the timer by this frame's time. If the frame completes a period,
/// hands back the positions of all marked entities of the world, in the
/// order of their creation: a report that may be empty. On every other frame
/// hands back nothing.
pub fn get_things_pos(delta_nanos: u64, timer: &mut DiagnosticTimer, world: &World) -> (report:
    Option<Vec<Vec3>>)
    ensures
        final(timer).period() == old(timer).period(),
        final(timer).elapsed() == elapsed_after(
            old(timer).period(),
            old(timer).elapsed(),
            delta_nanos as nat,
        ),
        report.is_some() == fires(old(timer).period(), old(timer).elapsed(), delta_nanos as nat),
        report matches Some(positions) ==> positions@ == thing_positions(world@),
{
    if timer.tick(delta_nanos) {
        Some(world.things())
    } else {
        None
    }
}

} // verus!
