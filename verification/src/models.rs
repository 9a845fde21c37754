//! The records of the tracker: tasks and the requests that create and change
//! them, statistics, insights, notifications and settings.

use crate::time::{current_time, is_before, whole_days_between, Timestamp, NANOS_PER_SEC};
use vstd::prelude::*;

verus! {

/// How much a task matters.
#[derive(Clone, Copy, Debug, PartialEq, Eq, Structural)]
pub enum Priority {
    Low,
    Medium,
    High,
    Critical,
}

/// Where a task stands.
#[derive(Clone, Copy, Debug, PartialEq, Eq, Structural)]
pub enum TaskStatus {
    Pending,
    InProgress,
    Completed,
    Paused,
    Cancelled,
}

/// What an insight is about.
#[derive(Clone, Copy, Debug, PartialEq, Eq, Structural)]
pub enum InsightType {
    ProductivityTip,
    TaskPrioritization,
    TimeManagement,
    PatternRecognition,
    Accountability,
}

/// What a notification is about.
#[derive(Clone, Copy, Debug, PartialEq, Eq, Structural)]
pub enum NotificationType {
    Accountability,
    TaskReminder,
    Deadline,
    Achievement,
    Communication,
    Insight,
}

/// The colours of the user interface.
#[derive(Clone, Copy, Debug, PartialEq, Eq, Structural)]
pub enum AppTheme {
    Light,
    Dark,
    Auto,
}

/// The unit of work.
#[derive(Debug)]
pub struct Task {
    pub id: String,
    pub title: String,
    pub description: Option<String>,
    pub priority: Priority,
    pub status: TaskStatus,
    pub category: String,
    /// Minutes.
    pub estimated_time: i32,
    /// Minutes.
    pub actual_time: Option<i32>,
    pub due_date: Option<Timestamp>,
    pub created_at: Timestamp,
    pub updated_at: Timestamp,
    pub completed_at: Option<Timestamp>,
}

/// What it takes to create a task.
#[derive(Debug)]
pub struct CreateTaskRequest {
    pub title: String,
    pub description: Option<String>,
    pub priority: Priority,
    pub category: String,
    pub estimated_time: i32,
    pub due_date: Option<Timestamp>,
}

/// A partial update: a field that is `None` leaves the task's field alone.
#[derive(Debug)]
pub struct UpdateTaskRequest {
    pub title: Option<String>,
    pub description: Option<String>,
    pub priority: Option<Priority>,
    pub status: Option<TaskStatus>,
    pub category: Option<String>,
    pub estimated_time: Option<i32>,
    pub actual_time: Option<i32>,
    pub due_date: Option<Timestamp>,
}

/// An exact quotient `numerator / denominator`; the denominator is positive
/// in every fraction that this library hands out.
#[derive(Clone, Copy, Debug, PartialEq, Eq, Structural)]
pub struct Fraction {
    pub numerator: i128,
    pub denominator: u64,
}

/// One generated piece of guidance.
#[derive(Debug)]
pub struct AIInsight {
    pub id: String,
    pub message: String,
    pub insight_type: InsightType,
    /// Thousandths: 1000 stands for full confidence.
    pub confidence: u32,
    pub created_at: Timestamp,
}

/// What was done on one day.
#[derive(Debug)]
pub struct DailyProgress {
    /// Days since 1970-01-01.
    pub date: i32,
    pub completed: i32,
    pub created: i32,
    /// Minutes.
    pub total_time: i32,
}

/// Aggregates over a set of tasks.
#[derive(Debug)]
pub struct ProductivityStats {
    pub total_tasks: usize,
    pub completed_tasks: usize,
    pub pending_tasks: usize,
    pub overdue_tasks: usize,
    /// Completed tasks per hundred tasks.
    pub completion_rate: Fraction,
    /// Mean recorded minutes of the completed tasks that recorded any.
    pub average_completion_time: Option<Fraction>,
    pub most_productive_hours: Vec<i32>,
    pub common_categories: Vec<String>,
    pub weekly_progress: Vec<DailyProgress>,
}

/// A status summary of one communication service.
#[derive(Debug)]
pub struct CommunicationActivity {
    pub service: String,
    pub message_count: i32,
    pub unread_count: i32,
    pub last_activity: Option<Timestamp>,
    pub mentions: i32,
    pub keywords_detected: Vec<String>,
}

/// A record of an alert shown to the user.
#[derive(Debug)]
pub struct NotificationItem {
    pub id: String,
    pub title: String,
    pub message: String,
    pub notification_type: NotificationType,
    pub is_read: bool,
    pub created_at: Timestamp,
    pub action_url: Option<String>,
}

/// The settings of the application.
#[derive(Debug)]
pub struct AppSettings {
    /// Minutes.
    pub accountability_interval: i32,
    pub enable_notifications: bool,
    /// Seconds after midnight.
    pub work_hours_start: u32,
    /// Seconds after midnight.
    pub work_hours_end: u32,
    pub auto_start: bool,
    pub minimize_to_tray: bool,
    pub theme: AppTheme,
}

/// Whether `c` is a digit or one of the letters `a` to `f`.
pub open spec fn is_lower_hex(c: char) -> bool {
    ('0' <= c && c <= '9') || ('a' <= c && c <= 'f')
}

/// The shape of an identifier: 32 lower-case hexadecimal digits in groups of
/// 8, 4, 4, 4 and 12, with a hyphen between neighbouring groups.
pub open spec fn is_hyphenated_id(s: Seq<char>) -> bool {
    &&& s.len() == 36
    &&& forall|i: int|
        0 <= i < 36 ==> if i == 8 || i == 13 || i == 18 || i == 23 {
            s[i] == '-'
        } else {
            is_lower_hex(#[trigger] s[i])
        }
}

/// The marks of a random identifier: the digit after the second hyphen is
/// the version, 4, and the digit after the third hyphen holds the variant,
/// which leaves it one of `8`, `9`, `a` and `b`.
pub open spec fn is_random_id(s: Seq<char>) -> bool {
    &&& is_hyphenated_id(s)
    &&& s[14] == '4'
    &&& (s[19] == '8' || s[19] == '9' || s[19] == 'a' || s[19] == 'b')
}

/// Draws a random identifier with `uuid::Uuid::new_v4` and writes it out with
/// the crate's `Display`, which is the hyphenated lower-case form. Nothing is
/// proved of the call. `new_v4` fixes the version and the variant bits of
/// what it draws; nothing is claimed of the other digits, nor that two draws
/// differ. `uuid` panics where the system hands out no random bytes.
#[verifier::external_body]
pub(crate) fn fresh_id() -> (id: String)
    ensures
        is_random_id(id@),
{
    uuid::Uuid::new_v4().to_string()
}

/// Copies an optional text.
pub(crate) fn clone_text(text: &Option<String>) -> (copy: Option<String>)
    ensures
        copy == *text,
{
    match text {
        Some(s) => Some(s.clone()),
        None => None,
    }
}

/// The task that a creation request gives, under the identifier `id` at the
/// instant `now`.
pub open spec fn created(request: CreateTaskRequest, id: String, now: Timestamp) -> Task {
    Task {
        id,
        title: request.title,
        description: request.description,
        priority: request.priority,
        status: TaskStatus::Pending,
        category: request.category,
        estimated_time: request.estimated_time,
        actual_time: None,
        due_date: request.due_date,
        created_at: now,
        updated_at: now,
        completed_at: None,
    }
}

/// Whether `request` moves `task` into `Completed` from another status.
pub open spec fn enters_completed(task: Task, request: UpdateTaskRequest) -> bool {
    request.status == Some(TaskStatus::Completed) && task.status != TaskStatus::Completed
}

/// The task that `task` becomes when `request` is applied at `now`. Each field
/// present in the request replaces the task's; the others stay. The completion
/// instant is set once: to `now`, when the task moves into `Completed` from
/// another status and none is on record. Once set it stays; leaving
/// `Completed` does not clear it, and returning does not change it. The
/// update instant is always set to `now`.
pub open spec fn updated(task: Task, request: UpdateTaskRequest, now: Timestamp) -> Task {
    Task {
        id: task.id,
        title: if request.title is Some {
            request.title->0
        } else {
            task.title
        },
        description: if request.description is Some {
            request.description
        } else {
            task.description
        },
        priority: if request.priority is Some {
            request.priority->0
        } else {
            task.priority
        },
        status: if request.status is Some {
            request.status->0
        } else {
            task.status
        },
        category: if request.category is Some {
            request.category->0
        } else {
            task.category
        },
        estimated_time: if request.estimated_time is Some {
            request.estimated_time->0
        } else {
            task.estimated_time
        },
        actual_time: if request.actual_time is Some {
            request.actual_time
        } else {
            task.actual_time
        },
        due_date: if request.due_date is Some {
            request.due_date
        } else {
            task.due_date
        },
        created_at: task.created_at,
        updated_at: now,
        completed_at: if enters_completed(task, request) && task.completed_at is None {
            Some(now)
        } else {
            task.completed_at
        },
    }
}

/// A task is overdue at `now` when it has a due date that lies before `now`
/// and it is not completed.
pub open spec fn overdue_at(task: Task, now: Timestamp) -> bool {
    task.due_date is Some && is_before(task.due_date->0, now) && task.status
        != TaskStatus::Completed
}

/// Whole days from `now` to the due date of `task`, if it has one.
pub open spec fn days_until_due_from(task: Task, now: Timestamp) -> Option<int> {
    match task.due_date {
        Some(due) => Some(whole_days_between(now, due)),
        None => None,
    }
}

/// What the system clock can return: an instant at or after the epoch.
pub open spec fn clock_reading(now: Timestamp) -> bool {
    now.secs >= 0 && now.nanos < NANOS_PER_SEC
}

impl Clone for Task {
    fn clone(&self) -> (copy: Self)
        ensures
            copy == *self,
    {
        Task {
            id: self.id.clone(),
            title: self.title.clone(),
            description: clone_text(&self.description),
            priority: self.priority,
            status: self.status,
            category: self.category.clone(),
            estimated_time: self.estimated_time,
            actual_time: self.actual_time,
            due_date: self.due_date,
            created_at: self.created_at,
            updated_at: self.updated_at,
            completed_at: self.completed_at,
        }
    }
}

impl Clone for NotificationItem {
    fn clone(&self) -> (copy: Self)
        ensures
            copy == *self,
    {
        NotificationItem {
            id: self.id.clone(),
            title: self.title.clone(),
            message: self.message.clone(),
            notification_type: self.notification_type,
            is_read: self.is_read,
            created_at: self.created_at,
            action_url: clone_text(&self.action_url),
        }
    }
}

impl Clone for AIInsight {
    fn clone(&self) -> (copy: Self)
        ensures
            copy == *self,
    {
        AIInsight {
            id: self.id.clone(),
            message: self.message.clone(),
            insight_type: self.insight_type,
            confidence: self.confidence,
            created_at: self.created_at,
        }
    }
}

impl Task {
    /// Builds the task for `request` under a given identifier and instant.
    pub fn create(request: CreateTaskRequest, id: String, now: Timestamp) -> (task: Task)
        ensures
            task == created(request, id, now),
    {
        Task {
            id,
            title: request.title,
            description: request.description,
            priority: request.priority,
            status: TaskStatus::Pending,
            category: request.category,
            estimated_time: request.estimated_time,
            actual_time: None,
            due_date: request.due_date,
            created_at: now,
            updated_at: now,
            completed_at: None,
        }
    }

    /// Builds the task for `request` under a fresh random identifier, stamped
    /// with the system clock.
    pub fn new(request: CreateTaskRequest) -> (task: Task)
        ensures
            task == created(request, task.id, task.created_at),
            is_random_id(task.id@),
            clock_reading(task.created_at),
    {
        let now = current_time();
        let id = fresh_id();
        Task::create(request, id, now)
    }

    /// Applies `request` at the instant `now`.
    pub fn apply_update(&mut self, request: UpdateTaskRequest, now: Timestamp)
        ensures
            *final(self) == updated(*old(self), request, now),
    {
        if let Some(title) = request.title {
            self.title = title;
        }
        if let Some(description) = request.description {
            self.description = Some(description);
        }
        if let Some(priority) = request.priority {
            self.priority = priority;
        }
        if let Some(status) = request.status {
            if status == TaskStatus::Completed && self.status != TaskStatus::Completed
                && self.completed_at.is_none() {
                self.completed_at = Some(now);
            }
            self.status = status;
        }
        if let Some(category) = request.category {
            self.category = category;
        }
        if let Some(estimated_time) = request.estimated_time {
            self.estimated_time = estimated_time;
        }
        if let Some(actual_time) = request.actual_time {
            self.actual_time = Some(actual_time);
        }
        if let Some(due_date) = request.due_date {
            self.due_date = Some(due_date);
        }
        self.updated_at = now;
    }

    /// Applies `request` at the instant that the system clock shows.
    pub fn update(&mut self, request: UpdateTaskRequest)
        ensures
            *final(self) == updated(*old(self), request, final(self).updated_at),
            clock_reading(final(self).updated_at),
    {
        let now = current_time();
        self.apply_update(request, now);
    }

    /// Whether the task is overdue at `now`.
    pub fn is_overdue_at(&self, now: &Timestamp) -> (overdue: bool)
        ensures
            overdue == overdue_at(*self, *now),
    {
        match self.due_date {
            Some(due_date) => due_date.before(now) && self.status != TaskStatus::Completed,
            None => false,
        }
    }

    /// Whether the task is overdue by the system clock.
    pub fn is_overdue(&self) -> (overdue: bool)
        ensures
            exists|now: Timestamp| clock_reading(now) && overdue == #[trigger] overdue_at(*self, now),
    {
        let now = current_time();
        let overdue = self.is_overdue_at(&now);
        assert(clock_reading(now) && overdue == overdue_at(*self, now));
        overdue
    }

    /// Whole days from `now` until the due date; `None` without a due date.
    pub fn days_until_due_at(&self, now: &Timestamp) -> (days: Option<i64>)
        ensures
            days is Some == self.due_date is Some,
            days matches Some(d) ==> days_until_due_from(*self, *now) == Some(d as int),
    {
        match self.due_date {
            Some(due_date) => Some(due_date.days_since(now)),
            None => None,
        }
    }

    /// Whole days from the system clock's instant until the due date.
    pub fn days_until_due(&self) -> (days: Option<i64>)
        ensures
            days is Some == self.due_date is Some,
            days matches Some(d) ==> exists|now: Timestamp|
                clock_reading(now) && #[trigger] days_until_due_from(*self, now) == Some(d as int),
    {
        let now = current_time();
        let days = self.days_until_due_at(&now);
        assert(days matches Some(d) ==> clock_reading(now) && days_until_due_from(*self, now)
            == Some(d as int));
        days
    }
}

} // verus!
