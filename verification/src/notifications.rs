//! Notifications: what to show on the desktop and what to keep on record
//! for each kind of alert. The caller shows, stores and publishes them.

use crate::models::{clock_reading, fresh_id, is_random_id, NotificationItem, NotificationType};
use crate::text::{same_text, signed_decimal, signed_decimal_string, text_view};
use crate::time::{current_time, Timestamp};
use vstd::prelude::*;
use vstd::string::*;

verus! {

/// Decides whether alerts go out at all.
pub struct NotificationManager {
    enabled: bool,
}

/// An alert for the desktop's notification surface.
#[derive(Debug)]
pub struct DesktopAlert {
    pub summary: String,
    pub body: String,
    pub icon: String,
    /// Milliseconds for which the alert stays up.
    pub timeout_ms: u32,
}

/// An alert together with the record that is kept of it.
#[derive(Debug)]
pub struct Dispatch {
    pub alert: DesktopAlert,
    pub record: NotificationItem,
}

/// Whether `dispatch` shows `message` under `summary` with `icon` for
/// `timeout_ms` milliseconds, and records it unread under `title`, `kind` and
/// `action_url` with the identifier `id` at the instant `now`.
pub open spec fn dispatches(
    dispatch: Dispatch,
    summary: Seq<char>,
    icon: Seq<char>,
    timeout_ms: u32,
    title: Seq<char>,
    message: Seq<char>,
    kind: NotificationType,
    action_url: Option<Seq<char>>,
    id: String,
    now: Timestamp,
) -> bool {
    &&& dispatch.alert.summary@ == summary
    &&& dispatch.alert.body@ == message
    &&& dispatch.alert.icon@ == icon
    &&& dispatch.alert.timeout_ms == timeout_ms
    &&& dispatch.record.id == id
    &&& dispatch.record.title@ == title
    &&& dispatch.record.message@ == message
    &&& dispatch.record.notification_type == kind
    &&& !dispatch.record.is_read
    &&& dispatch.record.created_at == now
    &&& text_view(dispatch.record.action_url) == action_url
}

fn make_dispatch(
    summary: &str,
    icon: &str,
    timeout_ms: u32,
    title: &str,
    message: String,
    kind: NotificationType,
    action_url: Option<String>,
    id: String,
    now: Timestamp,
) -> (dispatch: Dispatch)
    ensures
        dispatches(
            dispatch,
            summary@,
            icon@,
            timeout_ms,
            title@,
            message@,
            kind,
            text_view(action_url),
            id,
            now,
        ),
{
    Dispatch {
        alert: DesktopAlert {
            summary: String::from_str(summary),
            body: message.clone(),
            icon: String::from_str(icon),
            timeout_ms,
        },
        record: NotificationItem {
            id,
            title: String::from_str(title),
            message,
            notification_type: kind,
            is_read: false,
            created_at: now,
            action_url,
        },
    }
}

/// The reminder for a task that is due or overdue.
pub open spec fn overdue_reminder(title: Seq<char>) -> Seq<char> {
    "⚠️ Task '"@ + title + "' is overdue!"@
}

fn overdue_reminder_text(title: &str) -> (s: String)
    ensures
        s@ == overdue_reminder(title@),
{
    let mut s = String::from_str("⚠️ Task '");
    s.append(title);
    s.append("' is overdue!");
    s
}

/// The reminder for a task that is due within half an hour.
pub open spec fn due_soon_reminder(title: Seq<char>, minutes: int) -> Seq<char> {
    "⏰ Task '"@ + title + "' is due in "@ + signed_decimal(minutes) + " minutes"@
}

fn due_soon_reminder_text(title: &str, minutes: i64) -> (s: String)
    ensures
        s@ == due_soon_reminder(title@, minutes as int),
{
    let mut s = String::from_str("⏰ Task '");
    s.append(title);
    s.append("' is due in ");
    s.append(signed_decimal_string(minutes).as_str());
    s.append(" minutes");
    s
}

/// The reminder for a task that is due later.
pub open spec fn due_later_reminder(title: Seq<char>, minutes: int) -> Seq<char> {
    "📋 Reminder: '"@ + title + "' is due in "@ + signed_decimal(minutes) + " minutes"@
}

fn due_later_reminder_text(title: &str, minutes: i64) -> (s: String)
    ensures
        s@ == due_later_reminder(title@, minutes as int),
{
    let mut s = String::from_str("📋 Reminder: '");
    s.append(title);
    s.append("' is due in ");
    s.append(signed_decimal_string(minutes).as_str());
    s.append(" minutes");
    s
}

/// The action reference of a task reminder.
pub open spec fn task_link(title: Seq<char>) -> Seq<char> {
    "app://task/"@ + title
}

fn task_link_text(title: &str) -> (s: String)
    ensures
        s@ == task_link(title@),
{
    let mut s = String::from_str("app://task/");
    s.append(title);
    s
}

/// The message for an achievement.
pub open spec fn achievement_message(achievement: Seq<char>) -> Seq<char> {
    "🎉 Achievement unlocked: "@ + achievement
}

fn achievement_message_text(achievement: &str) -> (s: String)
    ensures
        s@ == achievement_message(achievement@),
{
    let mut s = String::from_str("🎉 Achievement unlocked: ");
    s.append(achievement);
    s
}

/// The alert for new mail.
pub open spec fn gmail_alert(count: int) -> Seq<char> {
    "📧 "@ + signed_decimal(count) + " new emails require attention"@
}

fn gmail_alert_text(count: i64) -> (s: String)
    ensures
        s@ == gmail_alert(count as int),
{
    let mut s = String::from_str("📧 ");
    s.append(signed_decimal_string(count).as_str());
    s.append(" new emails require attention");
    s
}

/// The alert for new Discord messages.
pub open spec fn discord_alert(count: int) -> Seq<char> {
    "💬 "@ + signed_decimal(count) + " new Discord messages"@
}

fn discord_alert_text(count: i64) -> (s: String)
    ensures
        s@ == discord_alert(count as int),
{
    let mut s = String::from_str("💬 ");
    s.append(signed_decimal_string(count).as_str());
    s.append(" new Discord messages");
    s
}

/// The alert for new Messenger messages.
pub open spec fn messenger_alert(count: int) -> Seq<char> {
    "📱 "@ + signed_decimal(count) + " new messages in Messenger"@
}

fn messenger_alert_text(count: i64) -> (s: String)
    ensures
        s@ == messenger_alert(count as int),
{
    let mut s = String::from_str("📱 ");
    s.append(signed_decimal_string(count).as_str());
    s.append(" new messages in Messenger");
    s
}

/// The alert for new messages in any other service.
pub open spec fn service_alert(count: int, service: Seq<char>) -> Seq<char> {
    "📢 "@ + signed_decimal(count) + " new messages in "@ + service
}

fn service_alert_text(count: i64, service: &str) -> (s: String)
    ensures
        s@ == service_alert(count as int, service@),
{
    let mut s = String::from_str("📢 ");
    s.append(signed_decimal_string(count).as_str());
    s.append(" new messages in ");
    s.append(service);
    s
}

/// The action reference of a communication alert.
pub open spec fn service_link(service: Seq<char>) -> Seq<char> {
    "app://communication/"@ + service
}

fn service_link_text(service: &str) -> (s: String)
    ensures
        s@ == service_link(service@),
{
    let mut s = String::from_str("app://communication/");
    s.append(service);
    s
}

/// The reminder for a task that is due in `minutes` minutes: overdue at zero
/// or less, due soon up to thirty, due later beyond.
pub open spec fn reminder_message(title: Seq<char>, minutes: int) -> Seq<char> {
    if minutes <= 0 {
        overdue_reminder(title)
    } else if minutes <= 30 {
        due_soon_reminder(title, minutes)
    } else {
        due_later_reminder(title, minutes)
    }
}

/// The alert for `count` new messages in `service`.
pub open spec fn alert_message(service: Seq<char>, count: int) -> Seq<char> {
    if service == "gmail"@ {
        gmail_alert(count)
    } else if service == "discord"@ {
        discord_alert(count)
    } else if service == "messenger"@ {
        messenger_alert(count)
    } else {
        service_alert(count, service)
    }
}

/// The icon that goes with an alert for `service`.
pub open spec fn alert_icon(service: Seq<char>) -> Seq<char> {
    if service == "gmail"@ {
        "mail"@
    } else if service == "discord"@ {
        "chat"@
    } else if service == "messenger"@ {
        "message"@
    } else {
        "notification"@
    }
}

/// Whether `dispatch` is the accountability check-in `message`, recorded
/// under `id` at `now`.
pub open spec fn is_accountability_dispatch(
    dispatch: Dispatch,
    message: Seq<char>,
    id: String,
    now: Timestamp,
) -> bool {
    dispatches(
        dispatch,
        "ChiCanDoIt - Accountability Check"@,
        "productivity"@,
        5000,
        "Accountability Check"@,
        message,
        NotificationType::Accountability,
        None,
        id,
        now,
    )
}

/// Whether `dispatch` is the reminder for the task `task_title`, due in
/// `due_in_minutes` minutes, recorded under `id` at `now`.
pub open spec fn is_task_reminder_dispatch(
    dispatch: Dispatch,
    task_title: Seq<char>,
    due_in_minutes: int,
    id: String,
    now: Timestamp,
) -> bool {
    dispatches(
        dispatch,
        "ChiCanDoIt - Task Reminder"@,
        "task"@,
        7000,
        "Task Reminder"@,
        reminder_message(task_title, due_in_minutes),
        NotificationType::TaskReminder,
        Some(task_link(task_title)),
        id,
        now,
    )
}

/// Whether `dispatch` is the announcement of `achievement`, recorded under
/// `id` at `now`.
pub open spec fn is_achievement_dispatch(
    dispatch: Dispatch,
    achievement: Seq<char>,
    id: String,
    now: Timestamp,
) -> bool {
    dispatches(
        dispatch,
        "ChiCanDoIt - Achievement!"@,
        "achievement"@,
        8000,
        "Achievement Unlocked!"@,
        achievement_message(achievement),
        NotificationType::Achievement,
        None,
        id,
        now,
    )
}

/// Whether `dispatch` is the alert for `count` new messages in `service`,
/// recorded under `id` at `now`.
pub open spec fn is_communication_dispatch(
    dispatch: Dispatch,
    service: Seq<char>,
    count: int,
    id: String,
    now: Timestamp,
) -> bool {
    dispatches(
        dispatch,
        "ChiCanDoIt - Communication Alert"@,
        alert_icon(service),
        4000,
        "Communication Alert"@,
        alert_message(service, count),
        NotificationType::Communication,
        Some(service_link(service)),
        id,
        now,
    )
}

/// The accountability check-in `message`, as an alert and its record.
pub fn accountability_dispatch(message: &str, id: String, now: Timestamp) -> (dispatch: Dispatch)
    ensures
        is_accountability_dispatch(dispatch, message@, id, now),
{
    make_dispatch(
        "ChiCanDoIt - Accountability Check",
        "productivity",
        5000,
        "Accountability Check",
        String::from_str(message),
        NotificationType::Accountability,
        None,
        id,
        now,
    )
}

/// The reminder for the task `task_title`, due in `due_in_minutes` minutes.
pub fn task_reminder_dispatch(
    task_title: &str,
    due_in_minutes: i32,
    id: String,
    now: Timestamp,
) -> (dispatch: Dispatch)
    ensures
        is_task_reminder_dispatch(dispatch, task_title@, due_in_minutes as int, id, now),
{
    let message = if due_in_minutes <= 0 {
        overdue_reminder_text(task_title)
    } else if due_in_minutes <= 30 {
        due_soon_reminder_text(task_title, due_in_minutes as i64)
    } else {
        due_later_reminder_text(task_title, due_in_minutes as i64)
    };
    make_dispatch(
        "ChiCanDoIt - Task Reminder",
        "task",
        7000,
        "Task Reminder",
        message,
        NotificationType::TaskReminder,
        Some(task_link_text(task_title)),
        id,
        now,
    )
}

/// The announcement of `achievement`.
pub fn achievement_dispatch(achievement: &str, id: String, now: Timestamp) -> (dispatch: Dispatch)
    ensures
        is_achievement_dispatch(dispatch, achievement@, id, now),
{
    make_dispatch(
        "ChiCanDoIt - Achievement!",
        "achievement",
        8000,
        "Achievement Unlocked!",
        achievement_message_text(achievement),
        NotificationType::Achievement,
        None,
        id,
        now,
    )
}

/// The alert for `count` new messages in `service`.
pub fn communication_dispatch(service: &str, count: i32, id: String, now: Timestamp) -> (dispatch:
    Dispatch)
    ensures
        is_communication_dispatch(dispatch, service@, count as int, id, now),
{
    let mut icon = "notification";
    let message = if same_text(service, "gmail") {
        icon = "mail";
        gmail_alert_text(count as i64)
    } else if same_text(service, "discord") {
        icon = "chat";
        discord_alert_text(count as i64)
    } else if same_text(service, "messenger") {
        icon = "message";
        messenger_alert_text(count as i64)
    } else {
        service_alert_text(count as i64, service)
    };
    make_dispatch(
        "ChiCanDoIt - Communication Alert",
        icon,
        4000,
        "Communication Alert",
        message,
        NotificationType::Communication,
        Some(service_link_text(service)),
        id,
        now,
    )
}

/// A freshly drawn identifier and a reading of the clock.
pub open spec fn freshly_stamped(record: NotificationItem) -> bool {
    is_random_id(record.id@) && clock_reading(record.created_at)
}

impl NotificationManager {
    /// Whether alerts are switched on.
    pub closed spec fn enabled(&self) -> bool {
        self.enabled
    }

    /// A manager that lets alerts out.
    pub fn new() -> (manager: Self)
        ensures
            manager.enabled(),
    {
        NotificationManager { enabled: true }
    }

    /// Switches alerts on or off.
    pub fn set_enabled(&mut self, enabled: bool)
        ensures
            final(self).enabled() == enabled,
    {
        self.enabled = enabled;
    }

    /// Whether alerts go out.
    pub fn is_enabled(&self) -> (enabled: bool)
        ensures
            enabled == self.enabled(),
    {
        self.enabled
    }

    /// The accountability check-in `message` under a fresh identifier,
    /// stamped with the system clock; nothing while alerts are switched off.
    pub fn send_accountability_notification(&self, message: &str) -> (dispatch: Option<Dispatch>)
        ensures
            dispatch is Some == self.enabled(),
            dispatch matches Some(d) ==> freshly_stamped(d.record) && is_accountability_dispatch(
                d,
                message@,
                d.record.id,
                d.record.created_at,
            ),
    {
        if !self.enabled {
            return None;
        }
        let now = current_time();
        Some(accountability_dispatch(message, fresh_id(), now))
    }

    /// The reminder for a task under a fresh identifier, stamped with the
    /// system clock; nothing while alerts are switched off.
    pub fn send_task_reminder(&self, task_title: &str, due_in_minutes: i32) -> (dispatch: Option<
        Dispatch,
    >)
        ensures
            dispatch is Some == self.enabled(),
            dispatch matches Some(d) ==> freshly_stamped(d.record) && is_task_reminder_dispatch(
                d,
                task_title@,
                due_in_minutes as int,
                d.record.id,
                d.record.created_at,
            ),
    {
        if !self.enabled {
            return None;
        }
        let now = current_time();
        Some(task_reminder_dispatch(task_title, due_in_minutes, fresh_id(), now))
    }

    /// The announcement of an achievement under a fresh identifier, stamped
    /// with the system clock; nothing while alerts are switched off.
    pub fn send_achievement_notification(&self, achievement: &str) -> (dispatch: Option<Dispatch>)
        ensures
            dispatch is Some == self.enabled(),
            dispatch matches Some(d) ==> freshly_stamped(d.record) && is_achievement_dispatch(
                d,
                achievement@,
                d.record.id,
                d.record.created_at,
            ),
    {
        if !self.enabled {
            return None;
        }
        let now = current_time();
        Some(achievement_dispatch(achievement, fresh_id(), now))
    }

    /// The alert for `count` new messages in `service` under a fresh
    /// identifier, stamped with the system clock; nothing while alerts are
    /// switched off, and nothing for a count of zero.
    pub fn send_communication_alert(&self, service: &str, count: i32) -> (dispatch: Option<Dispatch>)
        ensures
            dispatch is Some == (self.enabled() && count != 0),
            dispatch matches Some(d) ==> freshly_stamped(d.record) && is_communication_dispatch(
                d,
                service@,
                count as int,
                d.record.id,
                d.record.created_at,
            ),
    {
        if !self.enabled || count == 0 {
            return None;
        }
        let now = current_time();
        Some(communication_dispatch(service, count, fresh_id(), now))
    }
}

} // verus!
