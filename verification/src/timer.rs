//! The repeating interval timer that gates the position report.
//!
//! Time is counted in whole nanoseconds. The timer keeps the time left over
//! from the last completed period, so no frame time is ever lost or counted
//! twice, however the frames fall.

use bevy::time::{Timer, TimerMode};
use std::time::Duration;
use vstd::arithmetic::div_mod::*;
use vstd::prelude::*;

verus! {

/// Nanoseconds in one second.
pub const NANOS_PER_SECOND: u64 = 1_000_000_000;

/// The most periods that the engine's timer can count within one tick.
pub const MAX_PERIODS_PER_TICK: u64 = 4_294_967_295;

/// The time on the clock after a tick of `delta`, starting from `elapsed`.
pub open spec fn elapsed_after(period: nat, elapsed: nat, delta: nat) -> nat {
    (elapsed + delta) % period
}

/// Whether a tick of `delta`, starting from `elapsed`, completes a period.
pub open spec fn fires(period: nat, elapsed: nat, delta: nat) -> bool {
    elapsed + delta >= period
}

/// The sum of a run of frame deltas.
pub open spec fn total(deltas: Seq<nat>) -> nat
    decreases deltas.len(),
{
    if deltas.len() == 0 {
        0
    } else {
        total(deltas.drop_last()) + deltas.last()
    }
}

/// The time on the clock after ticking through `deltas` in order.
pub open spec fn elapsed_after_all(period: nat, elapsed: nat, deltas: Seq<nat>) -> nat
    decreases deltas.len(),
{
    if deltas.len() == 0 {
        elapsed
    } else {
        elapsed_after(period, elapsed_after_all(period, elapsed, deltas.drop_last()), deltas.last())
    }
}

/// How many of the ticks in `deltas` complete a period.
pub open spec fn emissions(period: nat, elapsed: nat, deltas: Seq<nat>) -> nat
    decreases deltas.len(),
{
    if deltas.len() == 0 {
        0
    } else {
        let before = elapsed_after_all(period, elapsed, deltas.drop_last());
        let earlier = emissions(period, elapsed, deltas.drop_last());
        if fires(period, before, deltas.last()) {
            earlier + 1
        } else {
            earlier
        }
    }
}

/// Ticks a repeating `bevy::time::Timer` once. The timer is made with
/// `Timer::new` for `period_nanos`, put at `elapsed_nanos` with
/// `Timer::set_elapsed` and advanced with `Timer::tick`; what comes back is
/// `Timer::elapsed` in nanoseconds and `Timer::just_finished`.
///
/// Believed of the engine, not proved: a repeating timer that is not paused
/// adds the delta to its clock, reports a finish exactly when the clock has
/// reached the period, and then keeps the remainder of the clock by the
/// period. The engine counts the completed periods in 32 bits and divides by
/// the period, which is why the period must not be zero and the tick must
/// not span more periods than that count can hold.
#[verifier::external_body]
fn repeating_tick(period_nanos: u64, elapsed_nanos: u64, delta_nanos: u64) -> (out: (u64, bool))
    requires
        period_nanos > 0,
        (elapsed_nanos as nat + delta_nanos as nat) / (period_nanos as nat) <= u32::MAX,
    ensures
        out.0 == elapsed_after(period_nanos as nat, elapsed_nanos as nat, delta_nanos as nat),
        out.1 == fires(period_nanos as nat, elapsed_nanos as nat, delta_nanos as nat),
{
    let mut timer = Timer::new(Duration::from_nanos(period_nanos), TimerMode::Repeating);
    timer.set_elapsed(Duration::from_nanos(elapsed_nanos));
    timer.tick(Duration::from_nanos(delta_nanos));
    (timer.elapsed().as_nanos() as u64, timer.just_finished())
}

/// A repeating interval timer with a fixed period.
#[derive(Clone, Copy, Debug, PartialEq, Eq)]
pub struct DiagnosticTimer {
    period_nanos: u64,
    elapsed_nanos: u64,
}

impl DiagnosticTimer {
    #[verifier::type_invariant]
    spec fn well_formed(self) -> bool {
        0 < self.period_nanos && self.elapsed_nanos < self.period_nanos
    }

    /// The period, in nanoseconds.
    pub closed spec fn period(self) -> nat {
        self.period_nanos as nat
    }

    /// The time since the last completed period, in nanoseconds.
    pub closed spec fn elapsed(self) -> nat {
        self.elapsed_nanos as nat
    }

    /// A timer at rest with the given period, or nothing for a period of zero.
    pub fn new(period_nanos: u64) -> (timer: Option<DiagnosticTimer>)
        ensures
            timer.is_some() == (period_nanos > 0),
            timer matches Some(t) ==> t.period() == period_nanos && t.elapsed() == 0,
    {
        if period_nanos == 0 {
            None
        } else {
            Some(DiagnosticTimer { period_nanos, elapsed_nanos: 0 })
        }
    }

    /// A timer at rest with a period of `seconds` whole seconds, or nothing
    /// for a period of zero.
    pub fn from_seconds(seconds: u32) -> (timer: Option<DiagnosticTimer>)
        ensures
            timer.is_some() == (seconds > 0),
            timer matches Some(t) ==> t.period() == seconds * NANOS_PER_SECOND && t.elapsed() == 0,
    {
        let seconds_wide: u64 = seconds as u64;
        Self::new(seconds_wide * NANOS_PER_SECOND)
    }

    /// The period, in nanoseconds.
    pub fn period_nanos(&self) -> (nanos: u64)
        ensures
            nanos == self.period(),
            nanos > 0,
    {
        proof {
            use_type_invariant(self);
        }
        self.period_nanos
    }

    /// The time since the last completed period, in nanoseconds.
    pub fn elapsed_nanos(&self) -> (nanos: u64)
        ensures
            nanos == self.elapsed(),
            nanos < self.period(),
    {
        proof {
            use_type_invariant(self);
        }
        self.elapsed_nanos
    }

    /// Advances the timer by one frame and says whether a period was
    /// completed during it. The time left over stays on the clock.
    ///
    /// A frame of any length is taken: one that spans more periods than the
    /// engine's timer can count is fed to it in slices that it can.
    pub fn tick(&mut self, delta_nanos: u64) -> (fired: bool)
        ensures
            final(self).period() == old(self).period(),
            final(self).elapsed() == elapsed_after(
                old(self).period(),
                old(self).elapsed(),
                delta_nanos as nat,
            ),
            fired == fires(old(self).period(), old(self).elapsed(), delta_nanos as nat),
    {
        proof {
            use_type_invariant(&*self);
        }
        let period: u64 = self.period_nanos;
        let start: u64 = self.elapsed_nanos;
        let slice_max: u64 = match period.checked_mul(MAX_PERIODS_PER_TICK - 1) {
            Some(product) => product,
            None => u64::MAX,
        };
        let mut elapsed: u64 = start;
        let mut remaining: u64 = delta_nanos;
        let mut fired: bool = false;
        proof {
            lemma_small_mod(start as nat, period as nat);
        }
        while remaining > 0
            invariant
                0 < period,
                0 < slice_max,
                slice_max <= period * (MAX_PERIODS_PER_TICK - 1),
                elapsed < period,
                start < period,
                remaining <= delta_nanos,
                elapsed == (start + (delta_nanos - remaining)) % (period as int),
                fired == (start + (delta_nanos - remaining) >= period),
            decreases remaining,
        {
            let slice: u64 = if remaining < slice_max {
                remaining
            } else {
                slice_max
            };
            proof {
                lemma_slice_within_count(period as int, elapsed as int, slice as int);
                lemma_tick_composes(
                    period as int,
                    start as int + (delta_nanos as int - remaining as int),
                    slice as int,
                );
            }
            let out = repeating_tick(period, elapsed, slice);
            elapsed = out.0;
            fired = fired || out.1;
            remaining = remaining - slice;
        }
        self.elapsed_nanos = elapsed;
        fired
    }
}

/// A slice of at most `period * (MAX_PERIODS_PER_TICK - 1)` on top of a clock
/// below the period spans no more periods than 32 bits can count.
proof fn lemma_slice_within_count(period: int, elapsed: int, slice: int)
    requires
        0 < period,
        0 <= elapsed < period,
        0 <= slice <= period * (MAX_PERIODS_PER_TICK - 1),
    ensures
        (elapsed + slice) / period <= u32::MAX,
{
    let bound: int = MAX_PERIODS_PER_TICK as int;
    assert(period * (bound - 1) + period == period * bound) by (nonlinear_arith);
    assert(elapsed + slice < period * bound);
    lemma_div_by_multiple(bound, period);
    lemma_div_is_ordered(elapsed + slice, bound * period, period);
    assert(bound * period == period * bound) by (nonlinear_arith);
}

/// Ticking from the remainder of `sum` by `slice` is ticking from `sum`
/// itself: the remainders agree, and a period has been completed by the end
/// exactly if one was before or the slice completes one.
proof fn lemma_tick_composes(period: int, sum: int, slice: int)
    requires
        0 < period,
        0 <= sum,
        0 <= slice,
    ensures
        (sum % period + slice) % period == (sum + slice) % period,
        (sum + slice >= period) == (sum >= period || sum % period + slice >= period),
{
    lemma_add_mod_noop_right(slice, sum, period);
    if sum < period {
        lemma_small_mod(sum as nat, period as nat);
    } else {
        lemma_mod_pos_bound(sum, period);
    }
}

/// The time left on the clock after any run of ticks is the remainder of all
/// the time that went in: nothing is lost between frames and the clock never
/// runs backward past a period it has not completed.
pub proof fn lemma_leftover_accumulates(period: nat, elapsed: nat, deltas: Seq<nat>)
    requires
        0 < period,
        elapsed < period,
    ensures
        elapsed_after_all(period, elapsed, deltas) == (elapsed + total(deltas)) % period,
    decreases deltas.len(),
{
    if deltas.len() == 0 {
        lemma_small_mod(elapsed, period);
    } else {
        lemma_leftover_accumulates(period, elapsed, deltas.drop_last());
        lemma_tick_composes(
            period as int,
            (elapsed + total(deltas.drop_last())) as int,
            deltas.last() as int,
        );
    }
}

/// However the frames fall, the timer fires at most once for each period
/// that the time put in has completed.
pub proof fn lemma_at_most_once_per_period(period: nat, elapsed: nat, deltas: Seq<nat>)
    requires
        0 < period,
        elapsed < period,
    ensures
        emissions(period, elapsed, deltas) <= (elapsed + total(deltas)) / period,
    decreases deltas.len(),
{
    if deltas.len() == 0 {
        lemma_basic_div(elapsed as int, period as int);
    } else {
        let earlier = deltas.drop_last();
        lemma_at_most_once_per_period(period, elapsed, earlier);
        lemma_leftover_accumulates(period, elapsed, earlier);
        lemma_periods_of_step(
            period as int,
            (elapsed + total(earlier)) as int,
            deltas.last() as int,
        );
    }
}

/// Whether no single frame of `deltas` completes more than one period: each
/// frame, added to the time that was on the clock before it, stays below two
/// periods.
pub open spec fn one_period_per_frame(period: nat, elapsed: nat, deltas: Seq<nat>) -> bool {
    forall|i: int|
        0 <= i < deltas.len() ==> elapsed_after_all(period, elapsed, deltas.take(i))
            + #[trigger] deltas[i] < 2 * period
}

/// Where no single frame completes more than one period, the timer fires
/// exactly once for each period that the time put in has completed.
pub proof fn lemma_once_per_completed_period(period: nat, elapsed: nat, deltas: Seq<nat>)
    requires
        0 < period,
        elapsed < period,
        one_period_per_frame(period, elapsed, deltas),
    ensures
        emissions(period, elapsed, deltas) == (elapsed + total(deltas)) / period,
    decreases deltas.len(),
{
    if deltas.len() == 0 {
        lemma_basic_div(elapsed as int, period as int);
    } else {
        let earlier = deltas.drop_last();
        let last = deltas.len() - 1;
        assert(deltas.take(last) == earlier);
        assert forall|i: int| 0 <= i < earlier.len() implies elapsed_after_all(
            period,
            elapsed,
            earlier.take(i),
        ) + #[trigger] earlier[i] < 2 * period by {
            assert(earlier.take(i) == deltas.take(i));
            assert(earlier[i] == deltas[i]);
        }
        assert(elapsed_after_all(period, elapsed, earlier) + deltas[last] < 2 * period);
        lemma_once_per_completed_period(period, elapsed, earlier);
        lemma_leftover_accumulates(period, elapsed, earlier);
        lemma_periods_of_step(
            period as int,
            (elapsed + total(earlier)) as int,
            deltas.last() as int,
        );
    }
}

/// Frames that are no longer than the period complete one period each at
/// most.
pub proof fn lemma_short_frames_complete_one_period(period: nat, elapsed: nat, deltas: Seq<nat>)
    requires
        0 < period,
        elapsed < period,
        forall|i: int| 0 <= i < deltas.len() ==> deltas[i] <= period,
    ensures
        one_period_per_frame(period, elapsed, deltas),
{
    assert forall|i: int| 0 <= i < deltas.len() implies elapsed_after_all(
        period,
        elapsed,
        deltas.take(i),
    ) + #[trigger] deltas[i] < 2 * period by {
        lemma_leftover_accumulates(period, elapsed, deltas.take(i));
        lemma_mod_pos_bound((elapsed + total(deltas.take(i))) as int, period as int);
    }
}

/// Two ways of cutting the same stretch of time into frames, none longer
/// than the period, make the timer fire equally often and leave the same
/// time on the clock.
pub proof fn lemma_subdivision_is_immaterial(
    period: nat,
    elapsed: nat,
    coarse: Seq<nat>,
    fine: Seq<nat>,
)
    requires
        0 < period,
        elapsed < period,
        total(coarse) == total(fine),
        forall|i: int| 0 <= i < coarse.len() ==> coarse[i] <= period,
        forall|i: int| 0 <= i < fine.len() ==> fine[i] <= period,
    ensures
        emissions(period, elapsed, coarse) == emissions(period, elapsed, fine),
        elapsed_after_all(period, elapsed, coarse) == elapsed_after_all(period, elapsed, fine),
{
    lemma_short_frames_complete_one_period(period, elapsed, coarse);
    lemma_short_frames_complete_one_period(period, elapsed, fine);
    lemma_once_per_completed_period(period, elapsed, coarse);
    lemma_once_per_completed_period(period, elapsed, fine);
    lemma_leftover_accumulates(period, elapsed, coarse);
    lemma_leftover_accumulates(period, elapsed, fine);
}

/// The periods completed by `sum + step` are those completed by `sum` and
/// those that `step` completes on top of the remainder of `sum`: none if the
/// two stay below the period, at least one otherwise, and exactly one where
/// the two stay below two periods.
proof fn lemma_periods_of_step(period: int, sum: int, step: int)
    requires
        0 < period,
        0 <= sum,
        0 <= step,
    ensures
        (sum + step) / period == sum / period + (sum % period + step) / period,
        sum % period + step < period ==> (sum % period + step) / period == 0,
        sum % period + step >= period ==> (sum % period + step) / period >= 1,
        sum % period + step < 2 * period ==> (sum % period + step) / period <= 1,
{
    let rest = sum % period + step;
    lemma_fundamental_div_mod(sum, period);
    lemma_mod_pos_bound(sum, period);
    lemma_hoist_over_denominator(rest, sum / period, period as nat);
    assert(rest + (sum / period) * period == sum + step) by (nonlinear_arith)
        requires
            rest == sum % period + step,
            sum == period * (sum / period) + sum % period,
    ;
    if rest < period {
        lemma_basic_div(rest, period);
    } else {
        lemma_hoist_over_denominator(rest - period, 1, period as nat);
        lemma_div_pos_is_pos(rest - period, period);
        if rest < 2 * period {
            lemma_basic_div(rest - period, period);
        }
    }
}

} // verus!
