use deskclock::stopwatch::Stopwatch;
use deskclock::time::{Duration, Instant};

fn at_millis(ms: u64) -> Instant {
    Instant::from_origin(Duration::from_millis(ms))
}

// ============================================================
// Stopwatch Core Tests
// ============================================================

#[test]
fn test_stopwatch_new_starts_zeroed() {
    let sw = Stopwatch::new();
    assert_eq!(sw.elapsed_time(), Duration::zero());
    assert!(sw.last_start_time().is_none());
    assert!(!sw.is_running());
}

#[test]
fn test_stopwatch_start() {
    let mut sw = Stopwatch::new();
    assert!(!sw.is_running());
    sw.start();
    assert!(sw.is_running());
    assert!(sw.last_start_time().is_some());
}

#[test]
fn test_stopwatch_start_when_already_running_does_nothing() {
    let mut sw = Stopwatch::new();
    sw.start_at(at_millis(0));
    let start_time = sw.last_start_time().unwrap();
    sw.start_at(at_millis(10));
    // Should not change - still running from the first start
    assert!(sw.is_running());
    assert_eq!(sw.last_start_time(), Some(start_time));
}

#[test]
fn test_stopwatch_pause_while_not_running_does_nothing() {
    let mut sw = Stopwatch::new();
    sw.pause();
    assert!(!sw.is_running());
    assert!(sw.last_start_time().is_none());
}

#[test]
fn test_stopwatch_pause_stops_running() {
    let mut sw = Stopwatch::new();
    sw.start_at(at_millis(0));
    let _elapsed_before = sw.current_elapsed_at(at_millis(50));
    sw.pause_at(at_millis(50));
    assert!(!sw.is_running());
    assert!(sw.last_start_time().is_none());
    // elapsed_time should have some value now
    assert!(sw.elapsed_time() >= Duration::zero());
}

#[test]
fn test_stopwatch_reset_clears_all_state() {
    let mut sw = Stopwatch::new();
    sw.start_at(at_millis(0));
    sw.pause_at(at_millis(100));
    sw.reset();
    assert_eq!(sw.elapsed_time(), Duration::zero());
    assert!(sw.last_start_time().is_none());
    assert!(!sw.is_running());
}

#[test]
fn test_stopwatch_current_elapsed_while_running() {
    let mut sw = Stopwatch::new();
    sw.start_at(at_millis(0));
    let initial_elapsed = sw.current_elapsed_at(at_millis(0));
    let later_elapsed = sw.current_elapsed_at(at_millis(100));
    assert!(later_elapsed >= initial_elapsed);
}

#[test]
fn test_stopwatch_current_elapsed_while_paused() {
    let mut sw = Stopwatch::new();
    sw.start_at(at_millis(0));
    let elapsed_at_pause = sw.current_elapsed_at(at_millis(100));
    sw.pause_at(at_millis(100));
    let elapsed_after_sleep = sw.current_elapsed_at(at_millis(200));
    assert!(elapsed_after_sleep >= elapsed_at_pause - Duration::from_millis(50));
    assert!(elapsed_after_sleep <= elapsed_at_pause + Duration::from_millis(50));
}

#[test]
fn test_stopwatch_restart_after_pause() {
    let mut sw = Stopwatch::new();
    sw.start_at(at_millis(0));
    sw.pause_at(at_millis(100));
    let elapsed_before_restart = sw.elapsed_time();
    sw.start_at(at_millis(200));
    assert!(sw.is_running());
    let elapsed_now = sw.current_elapsed_at(at_millis(300));
    assert!(elapsed_now > elapsed_before_restart);
}

// ============================================================
// Stopwatch Edge Cases
// ============================================================

#[test]
fn test_stopwatch_elapsed_time_accrues_across_multiple_pause_cycles() {
    let mut sw = Stopwatch::new();

    sw.start_at(at_millis(0));
    sw.pause_at(at_millis(50));
    let elapsed_after_first = sw.elapsed_time();

    sw.start_at(at_millis(100));
    sw.pause_at(at_millis(150));

    let total_elapsed = sw.elapsed_time();
    assert!(total_elapsed >= elapsed_after_first);
}

#[test]
fn test_stopwatch_current_elapsed_returns_zero_when_reset() {
    let sw = Stopwatch::new();
    assert_eq!(sw.current_elapsed(), Duration::zero());
}

// ============================================================
// Stopwatch Lap Tests
// ============================================================

#[test]
fn test_stopwatch_new_has_no_lap() {
    let sw = Stopwatch::new();
    assert!(sw.last_lap_elapsed().is_none());
}

#[test]
fn test_stopwatch_add_lap_records_duration() {
    let mut sw = Stopwatch::new();
    let lap = Duration::from_secs(30);
    sw.add_lap(lap);
    assert_eq!(sw.last_lap_elapsed(), Some(lap));
}

#[test]
fn test_stopwatch_add_lap_overwrites_previous_lap() {
    let mut sw = Stopwatch::new();
    sw.add_lap(Duration::from_secs(10));
    sw.add_lap(Duration::from_secs(20));
    assert_eq!(sw.last_lap_elapsed(), Some(Duration::from_secs(20)));
}

#[test]
fn test_stopwatch_reset_clears_lap() {
    let mut sw = Stopwatch::new();
    sw.add_lap(Duration::from_secs(15));
    assert!(sw.last_lap_elapsed().is_some());
    sw.reset();
    assert!(sw.last_lap_elapsed().is_none());
}

#[test]
fn test_stopwatch_add_lap_does_not_affect_running_state() {
    let mut sw = Stopwatch::new();
    sw.start();
    let lap = sw.current_elapsed();
    sw.add_lap(lap);
    assert!(sw.is_running());
    assert!(sw.last_start_time().is_some());
}

#[test]
fn test_stopwatch_add_lap_does_not_affect_elapsed_time() {
    let mut sw = Stopwatch::new();
    sw.start_at(at_millis(0));
    let elapsed_before = sw.current_elapsed_at(at_millis(50));
    sw.add_lap(elapsed_before);
    let elapsed_after = sw.current_elapsed_at(at_millis(50));
    assert!(elapsed_after >= elapsed_before - Duration::from_millis(5));
}

// ============================================================
// Scenarios on explicit points in time
// ============================================================

#[test]
fn stopwatch_runs_add_their_spans() {
    let mut sw = Stopwatch::new();
    sw.start_at(at_millis(1_000));
    sw.pause_at(at_millis(3_500));
    assert_eq!(sw.elapsed_time(), Duration::from_millis(2_500));
    assert_eq!(sw.current_elapsed_at(at_millis(9_000)), Duration::from_millis(2_500));
    sw.start_at(at_millis(10_000));
    assert_eq!(sw.current_elapsed_at(at_millis(10_750)), Duration::from_millis(3_250));
    sw.pause_at(at_millis(11_000));
    assert_eq!(sw.elapsed_time(), Duration::from_millis(3_500));
}

#[test]
fn stopwatch_clock_going_back_counts_nothing() {
    let mut sw = Stopwatch::new();
    sw.start_at(at_millis(5_000));
    assert_eq!(sw.current_elapsed_at(at_millis(4_000)), Duration::zero());
}

#[test]
fn stopwatch_default_is_new() {
    let sw = Stopwatch::default();
    assert_eq!(sw.elapsed_time(), Duration::zero());
    assert!(!sw.is_running());
    assert!(sw.last_lap_elapsed().is_none());
}

#[test]
fn stopwatch_elapsed_fits_at_within_range() {
    let mut sw = Stopwatch::new();
    sw.add_lap(Duration::from_secs(1));
    sw.start_at(at_millis(0));
    assert!(sw.elapsed_fits_at(at_millis(1_000)));
    let far = Instant::from_origin(Duration::from_secs(u64::MAX));
    assert!(sw.elapsed_fits_at(far));
}

#[test]
fn two_runs_accrue_both_spans_and_not_the_pause() {
    let mut sw = Stopwatch::new();
    sw.start_at(at_millis(1_000));
    sw.pause_at(at_millis(4_000));
    let after_first = sw.elapsed_time();
    sw.start_at(at_millis(10_000));
    sw.pause_at(at_millis(12_500));
    assert_eq!(after_first, Duration::from_millis(3_000));
    assert_eq!(sw.elapsed_time(), Duration::from_millis(5_500));
    assert!(sw.elapsed_time() >= after_first);
    assert!(!sw.is_running());
}
