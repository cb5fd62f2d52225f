use bevy::time::{Timer, TimerMode};
use scene_bootstrap::timer::{DiagnosticTimer, NANOS_PER_SECOND};
use std::time::Duration;

fn two_seconds() -> DiagnosticTimer {
    DiagnosticTimer::from_seconds(2).unwrap()
}

#[test]
fn timer_starts_at_rest() {
    let timer = two_seconds();
    assert_eq!(timer.period_nanos(), 2_000_000_000);
    assert_eq!(timer.elapsed_nanos(), 0);
}

#[test]
fn timer_without_period_is_refused() {
    assert_eq!(DiagnosticTimer::new(0), None);
    assert_eq!(DiagnosticTimer::from_seconds(0), None);
    assert!(DiagnosticTimer::new(1).is_some());
}

#[test]
fn timer_from_seconds_counts_nanoseconds() {
    let timer = DiagnosticTimer::from_seconds(u32::MAX).unwrap();
    assert_eq!(timer.period_nanos(), 4_294_967_295 * NANOS_PER_SECOND);
    assert_eq!(DiagnosticTimer::new(7).unwrap().period_nanos(), 7);
}

#[test]
fn tick_below_period_accumulates() {
    let mut timer = two_seconds();
    assert!(!timer.tick(1_500_000_000));
    assert_eq!(timer.elapsed_nanos(), 1_500_000_000);
    assert!(!timer.tick(499_999_999));
    assert_eq!(timer.elapsed_nanos(), 1_999_999_999);
}

#[test]
fn tick_reaching_period_fires_and_keeps_the_rest() {
    let mut timer = two_seconds();
    assert!(!timer.tick(1_500_000_000));
    assert!(timer.tick(1_000_000_000));
    assert_eq!(timer.elapsed_nanos(), 500_000_000);
    assert!(!timer.tick(1_000_000_000));
    assert_eq!(timer.elapsed_nanos(), 1_500_000_000);
}

#[test]
fn tick_of_exactly_one_period_fires() {
    let mut timer = two_seconds();
    assert!(timer.tick(2_000_000_000));
    assert_eq!(timer.elapsed_nanos(), 0);
}

#[test]
fn tick_of_nothing_changes_nothing() {
    let mut timer = two_seconds();
    assert!(!timer.tick(0));
    assert_eq!(timer.elapsed_nanos(), 0);
    assert!(!timer.tick(1_999_999_999));
    assert!(!timer.tick(0));
    assert_eq!(timer.elapsed_nanos(), 1_999_999_999);
}

#[test]
fn tick_over_several_periods_fires_once() {
    let mut timer = two_seconds();
    assert!(timer.tick(4_600_000_000));
    assert_eq!(timer.elapsed_nanos(), 600_000_000);
    assert!(!timer.tick(1_000_000_000));
}

#[test]
fn tick_of_the_longest_frame_keeps_the_remainder() {
    let mut timer = two_seconds();
    assert!(!timer.tick(1_000_000_000));
    assert!(timer.tick(u64::MAX));
    // (1_000_000_000 + 18_446_744_073_709_551_615) % 2_000_000_000
    assert_eq!(timer.elapsed_nanos(), 709_551_615);
    assert_eq!(timer.period_nanos(), 2_000_000_000);
}

#[test]
fn tick_with_a_long_period_does_not_overflow() {
    let mut timer = DiagnosticTimer::new(u64::MAX).unwrap();
    assert!(!timer.tick(u64::MAX - 1));
    assert_eq!(timer.elapsed_nanos(), u64::MAX - 1);
    assert!(timer.tick(u64::MAX));
    assert_eq!(timer.elapsed_nanos(), u64::MAX - 1);
}

fn fired_in(timer: &mut DiagnosticTimer, delta: u64, frames: u64) -> u64 {
    let mut fired = 0;
    for _ in 0..frames {
        if timer.tick(delta) {
            fired += 1;
        }
    }
    fired
}

#[test]
fn timer_fires_once_per_completed_period() {
    // ten seconds at sixty frames a second
    let mut timer = two_seconds();
    let delta = 16_666_667;
    let frames = 600;
    let fired = fired_in(&mut timer, delta, frames);
    assert_eq!(fired, (delta * frames) / 2_000_000_000);
    assert_eq!(fired, 5);
    assert_eq!(timer.elapsed_nanos(), (delta * frames) % 2_000_000_000);
}

#[test]
fn timer_does_not_care_how_time_is_cut() {
    let mut coarse = two_seconds();
    let mut fine = two_seconds();
    let coarse_fired = fired_in(&mut coarse, 1_000_000_000, 9);
    let fine_fired = fired_in(&mut fine, 1_000_000, 9_000);
    assert_eq!(coarse_fired, 4);
    assert_eq!(fine_fired, 4);
    assert_eq!(coarse.elapsed_nanos(), 1_000_000_000);
    assert_eq!(fine.elapsed_nanos(), 1_000_000_000);
}

#[test]
fn timer_fires_on_the_frame_that_completes_the_period() {
    let mut timer = two_seconds();
    let mut fired_on = Vec::new();
    for frame in 1..=9u32 {
        if timer.tick(500_000_000) {
            fired_on.push(frame);
        }
    }
    assert_eq!(fired_on, vec![4, 8]);
}

#[test]
fn timer_agrees_with_a_running_timer_of_the_engine() {
    let mut theirs = Timer::from_seconds(2.0, TimerMode::Repeating);
    let mut ours = two_seconds();
    let deltas = [
        16_666_667u64,
        1_983_333_332,
        1,
        0,
        2_000_000_000,
        1_999_999_999,
        3,
        7_123_456_789,
        400_000_000,
        1_600_000_000,
        33_333_333,
    ];
    for delta in deltas {
        theirs.tick(Duration::from_nanos(delta));
        let fired = ours.tick(delta);
        assert_eq!(fired, theirs.just_finished());
        assert_eq!(u128::from(ours.elapsed_nanos()), theirs.elapsed().as_nanos());
    }
}
