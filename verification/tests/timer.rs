use deskclock::time::{Duration, Instant};
use deskclock::timer::CountdownTimer;

fn at_millis(ms: u64) -> Instant {
    Instant::from_origin(Duration::from_millis(ms))
}

/// A stopped timer of 25 minutes whose duration was then moved to `secs`
/// seconds, without starting it.
fn timer_with_duration_secs(secs: u64) -> CountdownTimer {
    let mut timer = CountdownTimer::with_duration(25 * 60);
    timer.adjust_seconds(secs as i32 - 25 * 60);
    assert_eq!(timer.duration(), Duration::from_secs(secs));
    timer
}

// ============================================================
// CountdownTimer Core Tests
// ============================================================

#[test]
fn test_countdown_timer_new_has_default_25_minutes() {
    let timer = CountdownTimer::with_duration(25 * 60);
    assert_eq!(timer.duration(), Duration::from_secs(25 * 60));
    assert_eq!(timer.initial_duration(), Duration::from_secs(25 * 60));
    assert!(timer.end_time().is_none());
    assert!(!timer.is_running());
    assert!(!timer.is_paused());
    assert!(!timer.is_finished());
}

#[test]
fn test_countdown_timer_remaining_when_not_running() {
    let timer = CountdownTimer::with_duration(25 * 60);
    assert_eq!(timer.remaining(), Duration::from_secs(25 * 60));
}

#[test]
fn test_countdown_timer_start() {
    let mut timer = CountdownTimer::with_duration(25 * 60);
    assert!(!timer.is_running());
    timer.start();
    assert!(timer.is_running());
    assert!(!timer.is_paused());
    assert!(!timer.is_finished());
    assert!(timer.end_time().is_some());
}

#[test]
fn test_countdown_timer_start_clears_finished_flag() {
    let mut timer = CountdownTimer::with_duration(25 * 60);
    timer.finish();
    assert!(timer.is_finished());
    timer.adjust_seconds(60);
    assert_eq!(timer.duration(), Duration::from_secs(60));
    timer.start();
    assert!(!timer.is_finished());
    assert!(timer.is_running());
}

#[test]
fn test_countdown_timer_start_when_already_running_does_nothing() {
    let mut timer = CountdownTimer::with_duration(25 * 60);
    timer.start_at(at_millis(0));
    let end_time = timer.end_time().unwrap();
    timer.start_at(at_millis(10));
    // Should still be running with same end_time (not extended)
    assert!(timer.is_running());
    assert_eq!(timer.end_time(), Some(end_time));
}

#[test]
fn test_countdown_timer_pause_while_not_running_does_nothing() {
    let mut timer = CountdownTimer::with_duration(25 * 60);
    timer.pause();
    assert!(!timer.is_running());
    assert!(!timer.is_paused());
    assert!(timer.end_time().is_none());
}

#[test]
fn test_countdown_timer_pause_sets_paused_flag() {
    let mut timer = CountdownTimer::with_duration(25 * 60);
    timer.start_at(at_millis(0));
    timer.pause_at(at_millis(50));
    assert!(!timer.is_running());
    assert!(timer.is_paused());
    assert!(timer.end_time().is_none());
}

#[test]
fn test_countdown_timer_pause_saves_remaining_duration() {
    let mut timer = timer_with_duration_secs(100);
    timer.start_at(at_millis(0));
    let remaining_before_pause = timer.remaining_at(at_millis(50));
    timer.pause_at(at_millis(50));
    // Duration should now be approximately what was remaining
    assert!(timer.duration().as_millis() >= remaining_before_pause.as_millis() - 100);
    assert!(timer.duration().as_millis() <= remaining_before_pause.as_millis() + 100);
}

#[test]
fn test_countdown_timer_reset_restores_initial_duration() {
    let mut timer = CountdownTimer::with_duration(25 * 60);
    let initial = timer.initial_duration();
    // Modify duration without calling start() (which would update initial_duration)
    timer.adjust_seconds(10 - 25 * 60);
    assert_eq!(timer.duration(), Duration::from_secs(10));
    timer.pause(); // pause does nothing if not running
    timer.adjust_seconds(-5);
    assert_eq!(timer.duration(), Duration::from_secs(5));
    timer.reset();
    assert_eq!(timer.duration(), initial);
    assert_eq!(timer.initial_duration(), initial);
    assert!(!timer.is_running());
    assert!(!timer.is_paused());
    assert!(!timer.is_finished());
    assert!(timer.end_time().is_none());
}

#[test]
fn test_countdown_timer_finish_sets_zero_duration() {
    let mut timer = CountdownTimer::with_duration(25 * 60);
    timer.start();
    timer.finish();
    assert_eq!(timer.duration(), Duration::zero());
    assert!(!timer.is_running());
    assert!(!timer.is_paused());
    assert!(timer.is_finished());
    assert!(timer.end_time().is_none());
}

#[test]
fn timer_test_countdown_timer_finish_sets_correct_state() {
    let mut timer = CountdownTimer::with_duration(25 * 60);
    timer.start();
    timer.finish();

    assert_eq!(timer.duration(), Duration::zero());
    assert!(!timer.is_paused());
    assert!(!timer.is_running());
    assert!(timer.is_finished());
    assert!(timer.end_time().is_none());
}

#[test]
fn test_countdown_timer_adjust_minutes_positive() {
    let mut timer = CountdownTimer::with_duration(25 * 60);
    let initial = timer.duration();
    timer.adjust_minutes(5);
    assert_eq!(timer.duration(), initial + Duration::from_secs(300));
}

#[test]
fn test_countdown_timer_adjust_minutes_negative() {
    let mut timer = CountdownTimer::with_duration(25 * 60);
    let initial = timer.duration();
    timer.adjust_minutes(-1);
    assert_eq!(timer.duration(), initial - Duration::from_secs(60));
}

#[test]
fn test_countdown_timer_adjust_minutes_does_not_go_below_zero() {
    let mut timer = timer_with_duration_secs(30);
    timer.adjust_minutes(-10); // Should try to subtract 600 seconds
    assert!(timer.duration() >= Duration::zero());
}

#[test]
fn test_countdown_timer_adjust_seconds_positive() {
    let mut timer = CountdownTimer::with_duration(25 * 60);
    let initial = timer.duration();
    timer.adjust_seconds(30);
    assert_eq!(timer.duration(), initial + Duration::from_secs(30));
}

#[test]
fn test_countdown_timer_adjust_seconds_negative() {
    let mut timer = CountdownTimer::with_duration(25 * 60);
    let initial = timer.duration();
    timer.adjust_seconds(-10);
    assert_eq!(timer.duration(), initial - Duration::from_secs(10));
}

#[test]
fn test_countdown_timer_adjust_seconds_does_not_go_below_zero() {
    let mut timer = timer_with_duration_secs(5);
    timer.adjust_seconds(-10); // Should try to subtract 10 seconds
    assert!(timer.duration() >= Duration::zero());
}

#[test]
fn test_countdown_timer_adjust_while_running_keeps_running() {
    let mut timer = CountdownTimer::with_duration(25 * 60);
    timer.start();
    assert!(timer.is_running());
    assert!(timer.end_time().is_some());

    // Adjusting must NOT silently stop the timer.
    timer.adjust_minutes(1);
    assert!(timer.is_running(), "timer should still be running after adjust");
    assert!(timer.end_time().is_some(), "end_time should be recomputed");
    assert!(!timer.is_paused());

    timer.adjust_seconds(30);
    assert!(timer.is_running());
    assert!(timer.end_time().is_some());
}

#[test]
fn test_countdown_timer_adjust_seconds_while_running_adjusts_remaining() {
    let mut timer = CountdownTimer::with_duration(25 * 60);
    timer.start();
    let remaining_before = timer.remaining();
    timer.adjust_minutes(1);
    let remaining_after = timer.remaining();
    assert!(
        remaining_after >= remaining_before + Duration::from_secs(60) - Duration::from_millis(50),
        "adjusting +60s while running should extend remaining by ~60s"
    );
}

#[test]
fn test_countdown_timer_stop_clears_running_state() {
    let mut timer = CountdownTimer::with_duration(25 * 60);
    timer.start();
    timer.stop();
    assert!(!timer.is_running());
    assert!(!timer.is_paused());
    assert!(!timer.is_finished());
    assert!(timer.end_time().is_none());
}

#[test]
fn test_countdown_timer_has_expired_while_running_at_zero() {
    let mut timer = timer_with_duration_secs(0);
    timer.start();
    // With zero duration, remaining() will be ZERO
    assert!(timer.has_expired());
}

#[test]
fn test_countdown_timer_has_expired_false_when_not_running() {
    let timer = CountdownTimer::with_duration(25 * 60);
    assert!(!timer.has_expired());
}

#[test]
fn test_countdown_timer_has_expired_false_when_partially_remaining() {
    let mut timer = CountdownTimer::with_duration(60);
    timer.start();
    assert!(!timer.has_expired());
}

#[test]
fn test_countdown_timer_has_expired_false_after_finish() {
    let mut timer = CountdownTimer::with_duration(25 * 60);
    timer.start();
    timer.finish();
    // finish() clears is_running, so has_expired no longer reports true
    // (prevents the event loop from re-triggering the flash every tick).
    assert!(!timer.has_expired());
    assert!(timer.is_finished());
}

// ============================================================
// CountdownTimer Edge Cases
// ============================================================

#[test]
fn test_countdown_timer_remaining_with_zero_duration() {
    let timer = timer_with_duration_secs(0);
    assert_eq!(timer.remaining(), Duration::zero());
}

#[test]
fn test_countdown_timer_start_with_zero_duration_sets_running_but_remaining_is_zero() {
    let mut timer = timer_with_duration_secs(0);
    timer.start();
    // start() sets is_running = true regardless of duration,
    // but remaining() will be zero since duration is zero
    assert!(timer.is_running());
    assert_eq!(timer.remaining(), Duration::zero());
}

#[test]
fn test_countdown_timer_adjust_minutes_with_no_running_state() {
    let mut timer = CountdownTimer::with_duration(25 * 60);
    let initial = timer.duration();
    timer.adjust_minutes(10);
    assert_eq!(timer.duration(), initial + Duration::from_secs(600));
}

#[test]
fn test_countdown_timer_adjust_seconds_with_no_running_state() {
    let mut timer = CountdownTimer::with_duration(25 * 60);
    let initial = timer.duration();
    timer.adjust_seconds(45);
    assert_eq!(timer.duration(), initial + Duration::from_secs(45));
}

// ============================================================
// Scenarios on explicit points in time
// ============================================================

#[test]
fn timer_counts_down_from_its_start() {
    let mut timer = CountdownTimer::with_duration(10);
    timer.start_at(at_millis(1_000));
    assert_eq!(timer.remaining_at(at_millis(1_000)), Duration::from_secs(10));
    assert_eq!(timer.remaining_at(at_millis(4_000)), Duration::from_secs(7));
    assert_eq!(timer.remaining_at(at_millis(20_000)), Duration::zero());
    assert!(!timer.has_expired_at(at_millis(10_999)));
    assert!(timer.has_expired_at(at_millis(11_000)));
}

#[test]
fn timer_pause_freezes_remaining() {
    let mut timer = CountdownTimer::with_duration(10);
    timer.start_at(at_millis(0));
    timer.pause_at(at_millis(2_500));
    assert_eq!(timer.duration(), Duration::from_millis(7_500));
    assert_eq!(timer.remaining_at(at_millis(9_000)), Duration::from_millis(7_500));
    assert!(!timer.has_expired_at(at_millis(100_000)));
}

#[test]
fn timer_reset_restores_duration_at_start() {
    let mut timer = CountdownTimer::with_duration(10);
    timer.adjust_seconds(20);
    timer.start_at(at_millis(0));
    assert_eq!(timer.initial_duration(), Duration::from_secs(30));
    timer.pause_at(at_millis(5_000));
    timer.reset();
    assert_eq!(timer.duration(), Duration::from_secs(30));
    assert!(!timer.is_paused());
}

#[test]
fn timer_start_with_zero_keeps_initial_duration() {
    let mut timer = timer_with_duration_secs(0);
    timer.start_at(at_millis(0));
    assert_eq!(timer.initial_duration(), Duration::from_secs(25 * 60));
    assert!(timer.has_expired_at(at_millis(0)));
}

#[test]
fn timer_adjust_at_moves_end_of_running_countdown() {
    let mut timer = CountdownTimer::with_duration(60);
    timer.start_at(at_millis(0));
    timer.adjust_minutes_at(1, at_millis(10_000));
    assert!(timer.is_running());
    assert_eq!(timer.duration(), Duration::from_secs(120));
    assert_eq!(timer.end_time(), Some(at_millis(130_000)));
    timer.adjust_seconds_at(-200, at_millis(10_000));
    assert_eq!(timer.duration(), Duration::zero());
    assert!(timer.has_expired_at(at_millis(10_000)));
}

#[test]
fn timer_adjust_up_then_down_restores_duration() {
    let mut timer = CountdownTimer::with_duration(90);
    timer.adjust_minutes(1);
    timer.adjust_minutes(-1);
    assert_eq!(timer.duration(), Duration::from_secs(90));
    timer.adjust_seconds(1);
    timer.adjust_seconds(-1);
    assert_eq!(timer.duration(), Duration::from_secs(90));
}

#[test]
fn timer_shift_fits_at_rejects_overflow() {
    let timer = CountdownTimer::with_duration(i64::MAX as u64);
    assert!(!timer.shift_fits_at(1, at_millis(0)));
    assert!(timer.shift_fits_at(-1, at_millis(0)));
    let small = CountdownTimer::with_duration(60);
    assert!(small.shift_fits_at(60, at_millis(0)));
    assert!(small.shift_fits_at(-600, at_millis(0)));
}

#[test]
fn reset_goes_back_to_duration_at_latest_start() {
    let mut timer = CountdownTimer::with_duration(1500);
    timer.start_at(at_millis(0));
    timer.pause_at(at_millis(100_000));
    assert_eq!(timer.duration(), Duration::from_secs(1400));
    timer.adjust_seconds_at(10, at_millis(100_000));
    timer.start_at(at_millis(200_000));
    assert_eq!(timer.initial_duration(), Duration::from_secs(1410));
    timer.finish();
    timer.reset();
    assert_eq!(timer.duration(), Duration::from_secs(1410));
    assert!(!timer.is_running());
}

#[test]
fn reset_without_a_counting_start_keeps_first_duration() {
    let mut timer = CountdownTimer::with_duration(90);
    timer.adjust_seconds_at(-90, at_millis(0));
    timer.start_at(at_millis(0));
    assert!(timer.has_expired_at(at_millis(5_000)));
    assert_eq!(timer.remaining_at(at_millis(5_000)), Duration::zero());
    timer.reset();
    assert_eq!(timer.duration(), Duration::from_secs(90));
}
