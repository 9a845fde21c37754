use chicandoit::models::NotificationType;
use chicandoit::notifications::{
    accountability_dispatch, achievement_dispatch, communication_dispatch, task_reminder_dispatch,
    NotificationManager,
};
use chicandoit::time::Timestamp;

fn now() -> Timestamp {
    Timestamp::new(1_700_000_000, 42)
}

#[test]
fn manager_starts_enabled_and_can_be_switched() {
    let mut manager = NotificationManager::new();
    assert!(manager.is_enabled());
    manager.set_enabled(false);
    assert!(!manager.is_enabled());
    manager.set_enabled(false);
    assert!(!manager.is_enabled());
    manager.set_enabled(true);
    assert!(manager.is_enabled());
}

#[test]
fn disabled_manager_sends_nothing() {
    let mut manager = NotificationManager::new();
    manager.set_enabled(false);
    assert!(manager.send_accountability_notification("hi").is_none());
    assert!(manager.send_task_reminder("t", 5).is_none());
    assert!(manager.send_achievement_notification("a").is_none());
    assert!(manager.send_communication_alert("gmail", 3).is_none());
}

#[test]
fn enabled_manager_stamps_what_it_sends() {
    let manager = NotificationManager::new();
    let first = manager.send_accountability_notification("Check in").unwrap();
    let second = manager.send_accountability_notification("Check in").unwrap();
    assert_eq!(first.record.id.chars().count(), 36);
    assert_ne!(first.record.id, second.record.id);
    assert!(first.record.created_at.secs > 1_600_000_000);
    assert_eq!(first.alert.body, "Check in");
    assert_eq!(first.record.message, "Check in");
    assert!(!first.record.is_read);
    assert!(manager.send_task_reminder("t", 5).is_some());
    assert!(manager.send_achievement_notification("a").is_some());
    assert!(manager.send_communication_alert("gmail", 3).is_some());
    assert!(manager.send_communication_alert("gmail", -3).is_some());
    assert!(manager.send_communication_alert("gmail", 0).is_none());
}

#[test]
fn accountability_dispatch_shows_and_records_the_message() {
    let d = accountability_dispatch("Time to check in", "n-1".to_string(), now());
    assert_eq!(d.alert.summary, "ChiCanDoIt - Accountability Check");
    assert_eq!(d.alert.body, "Time to check in");
    assert_eq!(d.alert.icon, "productivity");
    assert_eq!(d.alert.timeout_ms, 5000);
    assert_eq!(d.record.id, "n-1");
    assert_eq!(d.record.title, "Accountability Check");
    assert_eq!(d.record.message, "Time to check in");
    assert_eq!(d.record.notification_type, NotificationType::Accountability);
    assert!(!d.record.is_read);
    assert_eq!(d.record.created_at, now());
    assert_eq!(d.record.action_url, None);
}

#[test]
fn task_reminder_wording_depends_on_the_minutes_left() {
    let message = |minutes: i32| task_reminder_dispatch("Pay rent", minutes, "n".to_string(), now()).record.message;
    assert_eq!(message(0), "\u{26A0}\u{FE0F} Task 'Pay rent' is overdue!");
    assert_eq!(message(-15), "\u{26A0}\u{FE0F} Task 'Pay rent' is overdue!");
    assert_eq!(message(1), "\u{23F0} Task 'Pay rent' is due in 1 minutes");
    assert_eq!(message(30), "\u{23F0} Task 'Pay rent' is due in 30 minutes");
    assert_eq!(message(31), "\u{1F4CB} Reminder: 'Pay rent' is due in 31 minutes");
    assert_eq!(message(i32::MAX), "\u{1F4CB} Reminder: 'Pay rent' is due in 2147483647 minutes");
    let d = task_reminder_dispatch("Pay rent", 10, "n-2".to_string(), now());
    assert_eq!(d.alert.summary, "ChiCanDoIt - Task Reminder");
    assert_eq!(d.alert.icon, "task");
    assert_eq!(d.alert.timeout_ms, 7000);
    assert_eq!(d.alert.body, d.record.message);
    assert_eq!(d.record.title, "Task Reminder");
    assert_eq!(d.record.notification_type, NotificationType::TaskReminder);
    assert_eq!(d.record.action_url.as_deref(), Some("app://task/Pay rent"));
}

#[test]
fn achievement_dispatch_announces_the_achievement() {
    let d = achievement_dispatch("Ten tasks done", "n-3".to_string(), now());
    assert_eq!(d.alert.summary, "ChiCanDoIt - Achievement!");
    assert_eq!(d.alert.body, "\u{1F389} Achievement unlocked: Ten tasks done");
    assert_eq!(d.alert.icon, "achievement");
    assert_eq!(d.alert.timeout_ms, 8000);
    assert_eq!(d.record.title, "Achievement Unlocked!");
    assert_eq!(d.record.message, "\u{1F389} Achievement unlocked: Ten tasks done");
    assert_eq!(d.record.notification_type, NotificationType::Achievement);
    assert_eq!(d.record.action_url, None);
}

#[test]
fn communication_alert_wording_depends_on_the_service() {
    let of = |service: &str, count: i32| communication_dispatch(service, count, "n".to_string(), now());
    let gmail = of("gmail", 3);
    assert_eq!(gmail.alert.icon, "mail");
    assert_eq!(gmail.record.message, "\u{1F4E7} 3 new emails require attention");
    assert_eq!(gmail.record.action_url.as_deref(), Some("app://communication/gmail"));
    let discord = of("discord", 12);
    assert_eq!(discord.alert.icon, "chat");
    assert_eq!(discord.record.message, "\u{1F4AC} 12 new Discord messages");
    let messenger = of("messenger", 1);
    assert_eq!(messenger.alert.icon, "message");
    assert_eq!(messenger.record.message, "\u{1F4F1} 1 new messages in Messenger");
    let other = of("slack", -2);
    assert_eq!(other.alert.icon, "notification");
    assert_eq!(other.record.message, "\u{1F4E2} -2 new messages in slack");
    assert_eq!(other.record.action_url.as_deref(), Some("app://communication/slack"));
    assert_eq!(other.alert.summary, "ChiCanDoIt - Communication Alert");
    assert_eq!(other.alert.timeout_ms, 4000);
    assert_eq!(other.alert.body, other.record.message);
    assert_eq!(other.record.title, "Communication Alert");
    assert_eq!(other.record.notification_type, NotificationType::Communication);
    let upper = of("Gmail", 1);
    assert_eq!(upper.alert.icon, "notification");
}
