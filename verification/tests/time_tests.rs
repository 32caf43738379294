use sim_core::accumulator::FixedTimestepAccumulator;
use sim_core::clock::{Clock, Scale};
use sim_core::errors::CoreError;
use sim_core::timer::Timer;

#[test]
fn clock_accumulates_scaled_deltas() {
    let mut c = Clock::new();
    assert!(!c.updated());
    assert_eq!(c.advance(5, None), Ok(()));
    assert!(c.updated());
    assert_eq!(c.delta(), 5);
    assert_eq!(c.elapsed_total(), 5);
    assert_eq!(c.raw_delta(), 5);
    assert_eq!(c.raw_elapsed_total(), 5);

    // An override is applied and stored for subsequent advances.
    assert_eq!(c.advance(4, Some(Scale::new(2, 1))), Ok(()));
    assert_eq!(c.delta(), 8);
    assert_eq!(c.elapsed_total(), 13);
    assert_eq!(c.raw_elapsed_total(), 9);
    assert_eq!(c.advance(1, None), Ok(()));
    assert_eq!(c.delta(), 2);
    assert_eq!(c.elapsed_total(), 15);
    assert_eq!(c.scale().num, 2);
    assert_eq!(c.scale().den, 1);
}

#[test]
fn clock_elapsed_total_is_monotone_over_any_deltas() {
    let deltas: Vec<i64> = vec![3, 0, 250, 1, 0, 999_999, 42];
    let mut c = Clock::new();
    let mut previous: u64 = 0;
    let mut sum: u64 = 0;
    for d in deltas {
        assert_eq!(c.advance(d, None), Ok(()));
        assert!(c.elapsed_total() >= previous);
        previous = c.elapsed_total();
        sum += d as u64;
        assert_eq!(c.elapsed_total(), sum);
    }
}

#[test]
fn clock_zero_delta_still_marks_updated() {
    let mut c = Clock::new();
    assert_eq!(c.advance(0, None), Ok(()));
    assert!(c.updated());
    assert_eq!(c.delta(), 0);
    assert_eq!(c.elapsed_total(), 0);
}

#[test]
fn clock_rejects_negative_delta() {
    let mut c = Clock::new();
    assert_eq!(c.advance(7, None), Ok(()));
    assert_eq!(c.advance(-1, None), Err(CoreError::InvalidDelta));
    // The rejected advance left the clock untouched.
    assert_eq!(c.delta(), 7);
    assert_eq!(c.elapsed_total(), 7);
    assert_eq!(c.raw_elapsed_total(), 7);
}

#[test]
fn clock_scale_zero_freezes_scaled_time() {
    let mut c = Clock::new();
    c.set_scale(Scale::new(0, 1));
    assert_eq!(c.advance(100, None), Ok(()));
    assert_eq!(c.delta(), 0);
    assert_eq!(c.elapsed_total(), 0);
    // Raw bookkeeping keeps running while the clock is paused.
    assert_eq!(c.raw_delta(), 100);
    assert_eq!(c.raw_elapsed_total(), 100);
}

#[test]
fn clock_scale_rounds_toward_zero() {
    let mut c = Clock::new();
    assert_eq!(c.advance(5, Some(Scale::new(1, 2))), Ok(()));
    assert_eq!(c.delta(), 2);
    assert_eq!(c.elapsed_total(), 2);
}

#[test]
fn timer_round_trip_completes_exactly_at_duration() {
    let mut t = Timer::new(10, false).unwrap();
    t.tick(3);
    assert!(!t.finished());
    assert_eq!(t.elapsed(), 3);
    t.tick(3);
    t.tick(4);
    assert!(t.finished());
    assert_eq!(t.elapsed(), 10);
    assert_eq!(t.times_finished_this_tick(), 1);

    // Further ticks are no-ops until reset.
    t.tick(25);
    assert!(t.finished());
    assert_eq!(t.elapsed(), 10);
    assert_eq!(t.times_finished_this_tick(), 0);

    t.reset();
    assert!(!t.finished());
    assert_eq!(t.elapsed(), 0);
    assert_eq!(t.duration(), 10);
    t.tick(4);
    assert_eq!(t.elapsed(), 4);
}

#[test]
fn repeating_timer_counts_every_completion_in_one_tick() {
    let mut t = Timer::new(100_000_000, true).unwrap();
    t.tick(350_000_000);
    assert_eq!(t.times_finished_this_tick(), 3);
    assert_eq!(t.elapsed(), 50_000_000);
    assert!(t.finished());
}

#[test]
fn repeating_timer_completion_count_is_per_tick() {
    let mut t = Timer::new(10, true).unwrap();
    t.tick(21);
    assert_eq!(t.times_finished_this_tick(), 2);
    assert!(t.finished());
    t.tick(3);
    assert_eq!(t.times_finished_this_tick(), 0);
    assert!(!t.finished());
    assert_eq!(t.elapsed(), 4);
}

#[test]
fn timer_zero_duration_is_rejected() {
    assert!(matches!(Timer::new(0, false), Err(CoreError::InvalidDuration)));
    assert!(matches!(Timer::new(0, true), Err(CoreError::InvalidDuration)));
}

#[test]
fn timer_tick_zero_changes_nothing() {
    let mut t = Timer::new(10, false).unwrap();
    t.tick(6);
    t.tick(0);
    assert_eq!(t.elapsed(), 6);
    assert!(!t.finished());
    assert_eq!(t.times_finished_this_tick(), 0);

    let mut r = Timer::new(10, true).unwrap();
    r.tick(7);
    r.tick(0);
    assert_eq!(r.elapsed(), 7);
    assert!(!r.finished());
    assert_eq!(r.times_finished_this_tick(), 0);
}

#[test]
fn accumulator_emits_whole_steps_and_keeps_remainder() {
    // One sixtieth of a second, in nanoseconds.
    let mut a = FixedTimestepAccumulator::new(16_666_667, 1_000).unwrap();
    let steps: u64 = a.accumulate(50_000_000);
    assert_eq!(steps, 2);
    assert_eq!(a.accumulator(), 16_666_666);
    assert_eq!(a.step_length(), 16_666_667);
    // The next accumulated nanosecond completes the pending step.
    let steps: u64 = a.accumulate(1);
    assert_eq!(steps, 1);
    assert_eq!(a.accumulator(), 0);
}

#[test]
fn accumulator_zero_delta_changes_nothing() {
    let mut a = FixedTimestepAccumulator::new(10, 4).unwrap();
    assert_eq!(a.accumulate(7), 0);
    assert_eq!(a.accumulate(0), 0);
    assert_eq!(a.accumulator(), 7);
    assert_eq!(a.step_length(), 10);
    assert_eq!(a.max_steps_per_cycle(), 4);
}

#[test]
fn accumulator_caps_catch_up_after_a_stall() {
    let mut a = FixedTimestepAccumulator::new(10, 3).unwrap();
    // Forty-seven covers four whole steps; only three run, the rest of the
    // whole steps is discarded, the remainder below one step is kept.
    assert_eq!(a.accumulate(47), 3);
    assert_eq!(a.accumulator(), 7);
}

#[test]
fn accumulator_zero_step_length_is_rejected() {
    assert!(matches!(
        FixedTimestepAccumulator::new(0, 4),
        Err(CoreError::InvalidStepLength)
    ));
}

#[test]
fn accumulator_reset_clears_remainder_only() {
    let mut a = FixedTimestepAccumulator::new(10, 4).unwrap();
    a.accumulate(26);
    assert_eq!(a.accumulator(), 6);
    a.reset();
    assert_eq!(a.accumulator(), 0);
    assert_eq!(a.step_length(), 10);
    assert_eq!(a.max_steps_per_cycle(), 4);
}

#[test]
fn clock_drives_timer_and_accumulator() {
    let mut c = Clock::new();
    let mut t = Timer::new(30, true).unwrap();
    let mut a = FixedTimestepAccumulator::new(20, 100).unwrap();
    let mut total_steps: u64 = 0;
    for _ in 0..5 {
        assert_eq!(c.advance(25, None), Ok(()));
        t.tick(c.delta());
        total_steps += a.accumulate(c.delta());
    }
    assert_eq!(c.elapsed_total(), 125);
    assert_eq!(t.elapsed(), 125 % 30);
    assert_eq!(total_steps, 125 / 20);
    assert_eq!(a.accumulator(), 125 % 20);
}
