use chicandoit::ai_engine::AIEngine;
use chicandoit::models::{CommunicationActivity, Priority, Task, TaskStatus};
use chicandoit::notifications::NotificationManager;
use chicandoit::remote::RemoteReply;
use chicandoit::scheduler::{accountability_check, communication_sync, insights_refresh, Effect, Event, Job, Timer};
use chicandoit::time::Timestamp;

fn at(secs: i64) -> Timestamp {
    Timestamp::new(secs, 0)
}

fn one_task() -> Vec<Task> {
    vec![Task {
        id: "a".to_string(),
        title: "t".to_string(),
        description: None,
        priority: Priority::Low,
        status: TaskStatus::Completed,
        category: "work".to_string(),
        estimated_time: 1,
        actual_time: None,
        due_date: None,
        created_at: at(0),
        updated_at: at(0),
        completed_at: None,
    }]
}

#[test]
fn periods_are_an_hour_half_an_hour_and_a_quarter() {
    assert_eq!(Job::AccountabilityCheck.period_secs(), 3600);
    assert_eq!(Job::InsightsRefresh.period_secs(), 1800);
    assert_eq!(Job::CommunicationSync.period_secs(), 900);
}

#[test]
fn first_tick_is_due_at_once() {
    let timer = Timer::start(Job::InsightsRefresh, at(1_000));
    assert!(timer.is_due(at(1_000)));
    assert!(!timer.is_due(at(999)));
    assert_eq!(timer.secs_until_due(at(1_000)), 0);
    assert_eq!(timer.secs_until_due(at(990)), 10);
}

#[test]
fn next_tick_is_on_schedule_whatever_the_outcome() {
    for succeeded in [true, false] {
        let mut timer = Timer::start(Job::CommunicationSync, at(1_000));
        timer.tick_done(at(1_000), succeeded);
        assert!(!timer.is_due(at(1_899)));
        assert!(timer.is_due(at(1_900)));
        assert_eq!(timer.secs_until_due(at(1_003)), 897);
        timer.tick_done(at(1_950), succeeded);
        assert_eq!(timer.secs_until_due(at(1_950)), 850);
        assert!(timer.is_due(at(2_800)));
    }
}

#[test]
fn missed_ticks_are_not_caught_up_on() {
    let mut timer = Timer::start(Job::AccountabilityCheck, at(0));
    timer.tick_done(at(3 * 3_600 + 20), true);
    assert!(!timer.is_due(at(3 * 3_600 + 21)));
    assert_eq!(timer.secs_until_due(at(3 * 3_600 + 20)), 3_580);
    assert!(timer.is_due(at(4 * 3_600)));
    timer.tick_done(at(4 * 3_600), false);
    assert_eq!(timer.secs_until_due(at(4 * 3_600)), 3_600);
}

#[test]
fn a_clock_set_back_leaves_the_first_tick_due_at_the_start() {
    let mut timer = Timer::start(Job::AccountabilityCheck, at(10_000));
    timer.tick_done(at(9_000), true);
    assert_eq!(timer.secs_until_due(at(9_000)), 1_000);
    let mut late = Timer::start(Job::AccountabilityCheck, at(i64::MAX - 10));
    late.tick_done(at(i64::MAX - 5), true);
    assert_eq!(late.secs_until_due(at(i64::MAX - 5)), 5);
}

#[test]
fn event_names_are_fixed() {
    assert_eq!(Event::AccountabilityCheck(String::new()).name(), "accountability_check");
    assert_eq!(Event::InsightsUpdated(Vec::new()).name(), "insights_updated");
    assert_eq!(Event::CommunicationSynced(Vec::new()).name(), "communication_synced");
}

#[test]
fn accountability_check_shows_stores_and_publishes() {
    let engine = AIEngine::new(None);
    let manager = NotificationManager::new();
    let (message, effects) = accountability_check(&one_task(), &engine, &manager, at(3), &RemoteReply::NotAsked);
    assert_eq!(
        message,
        "Accountability moment: Focus on your next priority task. You're making solid progress! \u{2728}"
    );
    assert_eq!(effects.len(), 4);
    let mut stored_id = String::new();
    match &effects[0] {
        Effect::Show(alert) => {
            assert_eq!(alert.body, message);
            assert_eq!(alert.summary, "ChiCanDoIt - Accountability Check");
        }
        _ => panic!("expected an alert"),
    }
    match &effects[1] {
        Effect::SaveNotification(record) => {
            assert_eq!(record.message, message);
            stored_id = record.id.clone();
        }
        _ => panic!("expected a record"),
    }
    match &effects[2] {
        Effect::Publish(event) => {
            assert_eq!(event.name(), "notification");
            match event {
                Event::Notification(record) => assert_eq!(record.id, stored_id),
                _ => panic!("expected a notification"),
            }
        }
        _ => panic!("expected an event"),
    }
    match &effects[3] {
        Effect::Publish(Event::AccountabilityCheck(text)) => assert_eq!(*text, message),
        _ => panic!("expected the message"),
    }
    assert!(!effects[0].ends_tick_on_failure());
    assert!(!effects[1].ends_tick_on_failure());
    assert!(effects[2].ends_tick_on_failure());
    assert!(effects[3].ends_tick_on_failure());
}

#[test]
fn accountability_check_only_publishes_while_alerts_are_off() {
    let engine = AIEngine::new(None);
    let mut manager = NotificationManager::new();
    manager.set_enabled(false);
    let (message, effects) = accountability_check(&one_task(), &engine, &manager, at(1), &RemoteReply::NotAsked);
    assert_eq!(message, "Time check! You've finished 1 tasks. Which one will you tackle next?");
    assert_eq!(effects.len(), 1);
    match &effects[0] {
        Effect::Publish(Event::AccountabilityCheck(text)) => assert_eq!(*text, message),
        _ => panic!("expected the message"),
    }
}

#[test]
fn insights_refresh_publishes_the_insights() {
    let engine = AIEngine::new(None);
    let effects = insights_refresh(&[], &engine, at(0), &RemoteReply::NotAsked);
    assert_eq!(effects.len(), 1);
    match &effects[0] {
        Effect::Publish(Event::InsightsUpdated(insights)) => assert_eq!(
            *insights,
            vec!["Start by adding your daily tasks to track progress effectively.".to_string()]
        ),
        _ => panic!("expected insights"),
    }
}

#[test]
fn communication_sync_publishes_the_snapshots() {
    let activity = CommunicationActivity {
        service: "gmail".to_string(),
        message_count: 5,
        unread_count: 2,
        last_activity: Some(at(9)),
        mentions: 0,
        keywords_detected: vec!["meeting".to_string()],
    };
    let effects = communication_sync(vec![activity]);
    assert_eq!(effects.len(), 1);
    match &effects[0] {
        Effect::Publish(Event::CommunicationSynced(list)) => {
            assert_eq!(list.len(), 1);
            assert_eq!(list[0].service, "gmail");
            assert_eq!(list[0].keywords_detected, vec!["meeting".to_string()]);
        }
        _ => panic!("expected snapshots"),
    }
}
