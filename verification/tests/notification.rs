use deskclock::notification::{notification_script, MockNotifier, Notifier, SystemNotifier};

#[test]
fn test_mock_notifier_sends_notification() {
    let mut notifier = MockNotifier::new();
    notifier.send_notification("Title", "Body");
    assert_eq!(notifier.count(), 1);
    let (title, body) = notifier.last_notification().unwrap();
    assert_eq!(title, "Title");
    assert_eq!(body, "Body");
}

#[test]
fn test_mock_notifier_clears() {
    let mut notifier = MockNotifier::new();
    notifier.send_notification("T1", "B1");
    notifier.clear();
    assert_eq!(notifier.count(), 0);
    assert!(notifier.last_notification().is_none());
}

#[test]
fn test_mock_notifier_collects_multiple_notifications() {
    let mut notifier = MockNotifier::new();
    notifier.send_notification("T1", "B1");
    notifier.send_notification("T2", "B2");
    notifier.send_notification("T3", "B3");
    assert_eq!(notifier.count(), 3);
    assert_eq!(notifier.last_notification().unwrap(), ("T3", "B3"));
}

#[test]
fn test_mock_notifier_no_notifications_returns_none() {
    let notifier = MockNotifier::new();
    assert!(notifier.last_notification().is_none());
}

#[test]
fn test_mock_notifier_preserves_special_characters() {
    let mut notifier = MockNotifier::new();
    let title = "Timer Complete! 🕒";
    let body = "00:00 - Your countdown has finished";
    notifier.send_notification(title, body);
    let (t, b) = notifier.last_notification().unwrap();
    assert_eq!(t, title);
    assert_eq!(b, body);
}

#[test]
fn test_system_notifier_exists_and_is_debuggable() {
    let notifier = SystemNotifier::new();
    let debug_str = format!("{:?}", notifier);
    assert!(debug_str.contains("SystemNotifier"));
    assert!(debug_str.contains("enabled"));
}

#[test]
fn test_mock_notifier_is_send_sync() {
    fn assert_send_sync<T: Send + Sync>(_: &T) {}
    let notifier = MockNotifier::new();
    assert_send_sync(&notifier);
}

#[test]
fn test_mock_notifier_empty_string_notifications() {
    let mut notifier = MockNotifier::new();
    notifier.send_notification("", "");
    assert_eq!(notifier.count(), 1);
    let (t, b) = notifier.last_notification().unwrap();
    assert_eq!(t, "");
    assert_eq!(b, "");
}

#[test]
fn test_mock_notifier_unicode_body() {
    let mut notifier = MockNotifier::new();
    notifier.send_notification("Countdown Done", "倒计时已结束 - Time's up!");
    let (_t, b) = notifier.last_notification().unwrap();
    assert!(b.contains("倒计时已结束"));
    assert!(b.contains("Time's up!"));
}

#[test]
fn test_mock_notifier_receives_timer_finish_notification() {
    let mut notifier = MockNotifier::new();

    let title = "Countdown Timer Complete";
    let body = "00:00 - Timer has finished";

    notifier.send_notification(title, body);

    assert_eq!(notifier.count(), 1);
    let (t, b) = notifier.last_notification().unwrap();
    assert_eq!(t, "Countdown Timer Complete");
    assert_eq!(b, "00:00 - Timer has finished");
}

#[test]
fn test_mock_notifier_multiple_different_messages() {
    let mut notifier = MockNotifier::new();

    notifier.send_notification("Timer 1", "5 minutes done");
    assert_eq!(notifier.count(), 1);

    notifier.clear();

    notifier.send_notification("Timer 2", "10 minutes done");
    assert_eq!(notifier.count(), 1);
    let (t, b) = notifier.last_notification().unwrap();
    assert_eq!(t, "Timer 2");
    assert_eq!(b, "10 minutes done");
}

#[test]
fn notification_script_escapes_title_and_body() {
    assert_eq!(
        notification_script("Done", "00:00"),
        "display notification \"00:00\" with title \"Done\""
    );
    assert_eq!(
        notification_script("Say \"hi\"", "a\\b`c\nd"),
        "display notification \"a\\\\b\\`c\\nd\" with title \"Say \\\"hi\\\"\""
    );
}

#[test]
fn mock_notifier_keeps_order() {
    let mut notifier = MockNotifier::new();
    notifier.send_notification("T1", "B1");
    notifier.send_notification("T2", "B2");
    assert_eq!(notifier.notified[0], ("T1".to_string(), "B1".to_string()));
    assert_eq!(notifier.notified[1], ("T2".to_string(), "B2".to_string()));
}

#[test]
fn system_notifier_debug_shows_only_whether_enabled() {
    let notifier = SystemNotifier::new();
    assert_eq!(format!("{:?}", notifier), "SystemNotifier { enabled: true }");
}
