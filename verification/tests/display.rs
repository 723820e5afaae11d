use deskclock::display::{blink_on, countdown_text, lap_text, stopwatch_text};
use deskclock::time::Duration;

#[test]
fn countdown_text_minutes_and_seconds() {
    assert_eq!(countdown_text(Duration::from_secs(25 * 60)), "25:00");
    assert_eq!(countdown_text(Duration::from_secs(65)), "01:05");
    assert_eq!(countdown_text(Duration::zero()), "00:00");
    assert_eq!(countdown_text(Duration::from_millis(59_999)), "00:59");
}

#[test]
fn countdown_text_with_hours() {
    assert_eq!(countdown_text(Duration::from_secs(3600)), "01:00:00");
    assert_eq!(countdown_text(Duration::from_secs(3723)), "01:02:03");
    assert_eq!(countdown_text(Duration::from_secs(100 * 3600 + 59)), "100:00:59");
}

#[test]
fn stopwatch_text_below_and_above_an_hour() {
    assert_eq!(stopwatch_text(Duration::from_millis(83_456)), "01:23.45");
    assert_eq!(stopwatch_text(Duration::zero()), "00:00.00");
    assert_eq!(stopwatch_text(Duration::from_millis(3_599_999)), "59:59.99");
    assert_eq!(stopwatch_text(Duration::from_millis(3_723_450)), "01:02:03");
}

#[test]
fn lap_text_follows_stopwatch_formats() {
    assert_eq!(lap_text(Duration::from_millis(83_456)), "01:23.45");
    assert_eq!(lap_text(Duration::from_secs(3600)), "01:00:00");
    assert_eq!(lap_text(Duration::from_millis(3_723_450)), "01:02:03");
}

#[test]
fn blink_on_half_seconds() {
    assert!(blink_on(0));
    assert!(blink_on(499));
    assert!(!blink_on(500));
    assert!(!blink_on(999));
    assert!(blink_on(1_000));
    assert!(blink_on(-499));
    assert!(!blink_on(-500));
    assert!(!blink_on(i64::MIN));
}
