use sdf_zoom::timer::{ZoomPhase, ZoomTimer};
use sdf_zoom::units::{DEFAULT_DURATION_MICROS, MAX_DURATION_MICROS};

#[test]
fn default_timer_is_idle_with_ten_second_duration() {
    let t = ZoomTimer::default();
    assert_eq!(t.current_phase(), ZoomPhase::Idle);
    assert_eq!(t.elapsed_micros, 0);
    assert_eq!(t.duration_micros, DEFAULT_DURATION_MICROS);
    assert!(!t.running);
}

#[test]
fn tick_while_idle_is_a_no_op() {
    // Scenario: fresh controller, duration 10.0 s; tick with delta 5.0 s
    // while Idle leaves the state Idle and the elapsed time at zero.
    let mut t = ZoomTimer::new(10_000_000);
    t.tick(5_000_000);
    assert_eq!(t.current_phase(), ZoomPhase::Idle);
    assert_eq!(t.elapsed_micros, 0);
}

#[test]
fn trigger_starts_the_animation() {
    let mut t = ZoomTimer::new(10_000_000);
    t.trigger();
    assert_eq!(t.current_phase(), ZoomPhase::Animating);
    assert_eq!(t.elapsed_micros, 0);
}

#[test]
fn tick_accumulates_and_settles_at_duration() {
    // Scenario: trigger fires, then one tick with the full duration as
    // its delta settles the timer with elapsed exactly the duration.
    let mut t = ZoomTimer::new(10_000_000);
    t.trigger();
    t.tick(10_000_000);
    assert_eq!(t.current_phase(), ZoomPhase::Settled);
    assert_eq!(t.elapsed_micros, 10_000_000);
    assert!(!t.running);
}

#[test]
fn tick_clamps_overshoot_at_duration() {
    let mut t = ZoomTimer::new(10_000_000);
    t.trigger();
    t.tick(u64::MAX);
    assert_eq!(t.current_phase(), ZoomPhase::Settled);
    assert_eq!(t.elapsed_micros, 10_000_000);
}

#[test]
fn trigger_while_animating_does_not_restart() {
    let mut t = ZoomTimer::new(10_000_000);
    t.trigger();
    t.tick(4_000_000);
    let before = t;
    t.trigger();
    assert_eq!(t, before);
    assert_eq!(t.elapsed_micros, 4_000_000);
    assert_eq!(t.current_phase(), ZoomPhase::Animating);
}

#[test]
fn trigger_while_settled_does_not_restart() {
    let mut t = ZoomTimer::new(10_000_000);
    t.trigger();
    t.tick(12_000_000);
    let before = t;
    t.trigger();
    assert_eq!(t, before);
    assert_eq!(t.current_phase(), ZoomPhase::Settled);
    t.tick(1_000_000);
    assert_eq!(t.elapsed_micros, 10_000_000);
}

#[test]
fn delta_sequence_sums_and_clamps() {
    // Non-negative deltas summing past the duration: the final elapsed
    // time is the total clamped at the duration and never decreases.
    let mut t = ZoomTimer::new(10_000_000);
    t.trigger();
    let deltas = [3_000_000u64, 0, 2_500_000, 4_000_000, 1_000_000];
    let mut prev = 0u64;
    let mut total = 0u64;
    for d in deltas {
        t.tick(d);
        total += d;
        assert!(t.elapsed_micros >= prev);
        assert_eq!(t.elapsed_micros, total.min(10_000_000));
        prev = t.elapsed_micros;
    }
    assert_eq!(t.current_phase(), ZoomPhase::Settled);
    assert_eq!(t.elapsed_micros, 10_000_000);
}

#[test]
fn new_timer_takes_the_largest_duration() {
    let mut t = ZoomTimer::new(MAX_DURATION_MICROS);
    t.trigger();
    t.tick(MAX_DURATION_MICROS - 1);
    assert_eq!(t.current_phase(), ZoomPhase::Animating);
    t.tick(1);
    assert_eq!(t.current_phase(), ZoomPhase::Settled);
    assert_eq!(t.elapsed_micros, MAX_DURATION_MICROS);
}
