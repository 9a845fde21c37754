//! The task store: four tables of records, each held under its identifier,
//! with the queries and aggregates that the tracker asks of them.

use crate::analytics::{compute_stats, passes, stats_of, task_passes, TaskFilter};
use crate::listing::RowKey;
use crate::models::{
    clock_reading, clone_text, AIInsight, CommunicationActivity, NotificationItem,
    ProductivityStats, Task, TaskStatus,
};
use crate::records::{
    distinct_keys, holds_key, lemma_listing_of_lists, limit_to, limited, list_records, listing_of,
    lists, lists_all, position_of, Record,
};
use crate::text::{text_view, views};
use crate::time::{current_time, Timestamp};
use vstd::prelude::*;
use vstd::string::*;

verus! {

/// Why the store refused or failed.
#[derive(Clone, Copy, Debug, PartialEq, Eq, Structural)]
pub enum StorageError {
    /// The backend cannot be reached.
    Unavailable,
    /// A record with the same identifier is already stored.
    Conflict,
    /// What is stored, or what is to be stored, cannot be read or written.
    Corrupted,
}

impl StorageError {
    /// The error in words.
    pub open spec fn text(self) -> Seq<char> {
        match self {
            StorageError::Unavailable => "storage backend unavailable"@,
            StorageError::Conflict => "a record with this id already exists"@,
            StorageError::Corrupted => "stored data cannot be read or written"@,
        }
    }

    /// Writes the error in words.
    pub fn message(&self) -> (s: String)
        ensures
            s@ == self.text(),
    {
        match self {
            StorageError::Unavailable => String::from_str("storage backend unavailable"),
            StorageError::Conflict => String::from_str("a record with this id already exists"),
            StorageError::Corrupted => String::from_str("stored data cannot be read or written"),
        }
    }
}

/// The stored form of a communication snapshot: one per service, with the
/// keywords as the text of a JSON array, the instant at which the service was
/// first saved, and the instant of the last save.
#[derive(Debug)]
pub struct CommunicationRecord {
    pub service: String,
    pub message_count: i32,
    pub unread_count: i32,
    pub last_activity: Option<Timestamp>,
    pub mentions: i32,
    pub keywords_json: String,
    pub created_at: Timestamp,
    pub updated_at: Timestamp,
}

impl Record for CommunicationRecord {
    open spec fn key(&self) -> Seq<char> {
        self.service@
    }

    open spec fn listed_at(&self) -> Timestamp {
        self.updated_at
    }

    fn key_text(&self) -> (key: &str) {
        self.service.as_str()
    }

    fn listing_instant(&self) -> (at: Timestamp) {
        self.updated_at
    }

    fn duplicate(&self) -> (copy: Self) {
        CommunicationRecord {
            service: self.service.clone(),
            message_count: self.message_count,
            unread_count: self.unread_count,
            last_activity: self.last_activity,
            mentions: self.mentions,
            keywords_json: self.keywords_json.clone(),
            created_at: self.created_at,
            updated_at: self.updated_at,
        }
    }
}

/// The JSON text that `serde_json` writes for an array of these strings.
pub uninterp spec fn json_array_text(items: Seq<Seq<char>>) -> Seq<char>;

/// The strings that `serde_json` reads out of `text` as a JSON array of
/// strings; `None` where `text` is no such array.
pub uninterp spec fn json_array_items(text: Seq<char>) -> Option<Seq<Seq<char>>>;

/// The texts of a list of strings, if there is a list.
pub open spec fn items_view(items: Option<Vec<String>>) -> Option<Seq<Seq<char>>> {
    match items {
        Some(v) => Some(views(v@)),
        None => None,
    }
}

/// Writes `items` as a JSON array with `serde_json::to_string`. The text
/// depends on the strings alone and is given the name `json_array_text`. The
/// call fails only where a value refuses to be written or a map has a key
/// that is no string; a list of strings holds neither, so there is a text.
#[verifier::external_body]
pub(crate) fn write_json_array(items: &Vec<String>) -> (text: Option<String>)
    ensures
        text_view(text) == Some(json_array_text(views(items@))),
{
    match serde_json::to_string(items) {
        Ok(text) => Some(text),
        Err(_) => None,
    }
}

/// Reads `text` as a JSON array of strings with `serde_json::from_str`. The
/// outcome depends on the text alone and is given the name
/// `json_array_items`; nothing more is claimed.
#[verifier::external_body]
pub(crate) fn read_json_array(text: &str) -> (items: Option<Vec<String>>)
    ensures
        items_view(items) == json_array_items(text@),
{
    match serde_json::from_str::<Vec<String>>(text) {
        Ok(items) => Some(items),
        Err(_) => None,
    }
}

/// The keywords that a stored text stands for: the strings of the JSON
/// array, or none where the text is no such array.
pub open spec fn stored_keywords(decoded: Option<Seq<Seq<char>>>) -> Seq<Seq<char>> {
    match decoded {
        Some(items) => items,
        None => Seq::empty(),
    }
}

/// Turns the outcome of reading a stored keyword text into keywords.
pub fn keywords_or_none(decoded: Option<Vec<String>>) -> (keywords: Vec<String>)
    ensures
        views(keywords@) == stored_keywords(items_view(decoded)),
{
    match decoded {
        Some(items) => items,
        None => {
            let none: Vec<String> = Vec::new();
            assert(views(none@) =~= Seq::<Seq<char>>::empty());
            none
        },
    }
}

/// Whether `activity` is what `record` stands for.
pub open spec fn is_activity_of(activity: CommunicationActivity, record: CommunicationRecord) -> bool {
    &&& activity.service == record.service
    &&& activity.message_count == record.message_count
    &&& activity.unread_count == record.unread_count
    &&& activity.last_activity == record.last_activity
    &&& activity.mentions == record.mentions
    &&& views(activity.keywords_detected@) == stored_keywords(
        json_array_items(record.keywords_json@),
    )
}

/// Whether `record` stores `activity` with the keyword text `keywords_json`,
/// first saved at `created_at` and last saved at `updated_at`.
pub open spec fn stores(
    record: CommunicationRecord,
    activity: CommunicationActivity,
    keywords_json: Seq<char>,
    created_at: Timestamp,
    updated_at: Timestamp,
) -> bool {
    &&& record.service == activity.service
    &&& record.message_count == activity.message_count
    &&& record.unread_count == activity.unread_count
    &&& record.last_activity == activity.last_activity
    &&& record.mentions == activity.mentions
    &&& record.keywords_json@ == keywords_json
    &&& record.created_at == created_at
    &&& record.updated_at == updated_at
}

/// Whether `after` is `before` with the snapshot `activity` saved at `now`:
/// a service that `before` holds keeps its place and the instant of its first
/// save, and has everything else replaced; a new service is added at the
/// end, first saved at `now`. No other record changes.
pub open spec fn saved(
    before: Seq<CommunicationRecord>,
    after: Seq<CommunicationRecord>,
    activity: CommunicationActivity,
    keywords_json: Seq<char>,
    now: Timestamp,
) -> bool {
    if holds_key(before, activity.service@) {
        let i = index_of_key(before, activity.service@);
        &&& after.len() == before.len()
        &&& stores(after[i], activity, keywords_json, before[i].created_at, now)
        &&& forall|j: int| 0 <= j < before.len() && j != i ==> after[j] == before[j]
    } else {
        &&& after.len() == before.len() + 1
        &&& stores(after.last(), activity, keywords_json, now, now)
        &&& after.drop_last() == before
    }
}

/// The place of the record under `key`, where `rows` holds one.
pub open spec fn index_of_key<T: Record>(rows: Seq<T>, key: Seq<char>) -> int {
    choose|i: int| 0 <= i < rows.len() && #[trigger] rows[i].key() == key
}

/// Among records with distinct identifiers, the place of a key is its only
/// place.
pub proof fn lemma_index_of_key<T: Record>(rows: Seq<T>, i: int)
    requires
        distinct_keys(rows),
        0 <= i < rows.len(),
    ensures
        index_of_key(rows, rows[i].key()) == i,
{
    let j = index_of_key(rows, rows[i].key());
    assert(rows[i].key() == rows[i].key());
    if j < i {
        assert(rows[j].key() != rows[i].key());
    } else if i < j {
        assert(rows[i].key() != rows[j].key());
    }
}

/// Saving a snapshot leaves the services of the table distinct.
pub proof fn lemma_saved_keeps_keys_distinct(
    before: Seq<CommunicationRecord>,
    after: Seq<CommunicationRecord>,
    activity: CommunicationActivity,
    keywords: Seq<char>,
    now: Timestamp,
)
    requires
        distinct_keys(before),
        saved(before, after, activity, keywords, now),
    ensures
        distinct_keys(after),
{
    if holds_key(before, activity.service@) {
        let i = index_of_key(before, activity.service@);
        assert(after[i].key() == before[i].key());
        assert forall|a: int, b: int| 0 <= a < b < after.len() implies #[trigger] after[a].key()
            != #[trigger] after[b].key() by {
            assert(after[a].key() == before[a].key());
            assert(after[b].key() == before[b].key());
        }
    } else {
        assert forall|a: int, b: int| 0 <= a < b < after.len() implies #[trigger] after[a].key()
            != #[trigger] after[b].key() by {
            assert(after[a] == after.drop_last()[a]);
            if b < after.len() - 1 {
                assert(after[b] == after.drop_last()[b]);
            } else {
                assert(before[a].key() != activity.service@);
            }
        }
    }
}

/// What becomes of a stored task when `task` overwrites it: every field is
/// taken from `task` but the identifier and the creation instant.
pub open spec fn overwritten(stored: Task, task: Task) -> Task {
    Task { id: stored.id, created_at: stored.created_at, ..task }
}

/// `record` marked as read.
pub open spec fn marked_read(record: NotificationItem) -> NotificationItem {
    NotificationItem { is_read: true, ..record }
}

/// How many of `rows` are unread.
pub open spec fn unread_count(rows: Seq<NotificationItem>) -> nat
    decreases rows.len(),
{
    if rows.len() == 0 {
        0
    } else {
        unread_count(rows.drop_last()) + if rows.last().is_read {
            0nat
        } else {
            1nat
        }
    }
}

/// The instant by which overdue tasks are listed: the due date.
pub open spec fn due_instant(task: Task) -> Timestamp {
    match task.due_date {
        Some(due) => due,
        None => task.created_at,
    }
}

/// `listing` holds the tasks of `rows` that pass `filter`, each once, newest
/// first.
pub open spec fn lists_passing(listing: Seq<Task>, rows: Seq<Task>, filter: TaskFilter) -> bool {
    lists(listing, rows, |t: Task| passes(t, filter), |t: Task| t.created_at, true)
}

/// `listing` holds the tasks of `rows` that pass `filter`, each once, the
/// one due soonest first.
pub open spec fn lists_by_due_date(listing: Seq<Task>, rows: Seq<Task>, filter: TaskFilter) -> bool {
    lists(listing, rows, |t: Task| passes(t, filter), |t: Task| due_instant(t), false)
}

/// `listing` holds the tasks of `rows` that are overdue at `now`, each once,
/// the one due soonest first.
pub open spec fn lists_overdue(listing: Seq<Task>, rows: Seq<Task>, now: Timestamp) -> bool {
    lists_by_due_date(listing, rows, TaskFilter::OverdueAt(now))
}

/// The store.
pub struct Database {
    tasks: Vec<Task>,
    insights: Vec<AIInsight>,
    notifications: Vec<NotificationItem>,
    communication: Vec<CommunicationRecord>,
}

fn list_tasks(rows: &Vec<Task>, filter: &TaskFilter, by_due_date: bool) -> (listing: Vec<Task>)
    requires
        distinct_keys(rows@),
    ensures
        by_due_date ==> lists_by_due_date(listing@, rows@, *filter),
        !by_due_date ==> lists_passing(listing@, rows@, *filter),
{
    let mut picked: Vec<usize> = Vec::new();
    let mut keys: Vec<RowKey> = Vec::new();
    let mut k: usize = 0;
    while k < rows.len()
        invariant
            k <= rows.len(),
            picked@.len() == keys@.len(),
            picked@.len() <= k,
            forall|q: int| 0 <= q < picked@.len() ==> #[trigger] picked@[q] < k,
            forall|p: int, q: int| 0 <= p < q < picked@.len() ==> picked@[p] < picked@[q],
            forall|q: int|
                0 <= q < keys@.len() ==> (#[trigger] keys@[q]).id@ == rows@[picked@[q] as int].key()
                    && keys@[q].at == (if by_due_date {
                    due_instant(rows@[picked@[q] as int])
                } else {
                    rows@[picked@[q] as int].created_at
                }) && passes(rows@[picked@[q] as int], *filter),
            forall|j: usize| j < k && passes(rows@[j as int], *filter) ==> #[trigger] picked@.contains(j),
        decreases rows.len() - k,
    {
        if task_passes(&rows[k], filter) {
            let at = if by_due_date {
                match rows[k].due_date {
                    Some(due) => due,
                    None => rows[k].created_at,
                }
            } else {
                rows[k].created_at
            };
            let ghost old_picked = picked@;
            picked.push(k);
            keys.push(RowKey { at, id: rows[k].id.clone() });
            proof {
                assert(picked@[picked@.len() - 1] == k);
                assert forall|j: usize| j < k + 1 && passes(rows@[j as int], *filter) implies #[trigger] picked@.contains(j) by {
                    if j < k {
                        assert(old_picked.contains(j));
                        let q = choose|q: int| 0 <= q < old_picked.len() && old_picked[q] == j;
                        assert(picked@[q] == j);
                    }
                }
            }
        }
        k += 1;
    }
    let newest_first = !by_due_date;
    let (listing, Ghost(order)) = listing_of(rows, &picked, &keys, newest_first);
    proof {
        if by_due_date {
            lemma_listing_of_lists(
                listing@,
                rows@,
                picked@,
                keys@,
                order,
                |t: Task| passes(t, *filter),
                |t: Task| due_instant(t),
                false,
            );
        } else {
            lemma_listing_of_lists(
                listing@,
                rows@,
                picked@,
                keys@,
                order,
                |t: Task| passes(t, *filter),
                |t: Task| t.created_at,
                true,
            );
        }
    }
    listing
}

impl Database {
    /// The stored tasks, in the order in which they were stored.
    pub closed spec fn tasks(&self) -> Seq<Task> {
        self.tasks@
    }

    /// The stored insights, in the order in which they were stored.
    pub closed spec fn insights(&self) -> Seq<AIInsight> {
        self.insights@
    }

    /// The stored notifications, in the order in which they were stored.
    pub closed spec fn notifications(&self) -> Seq<NotificationItem> {
        self.notifications@
    }

    /// The stored communication snapshots, one for each service.
    pub closed spec fn communication(&self) -> Seq<CommunicationRecord> {
        self.communication@
    }

    /// In each table, no two records share an identifier.
    pub open spec fn well_formed(&self) -> bool {
        &&& distinct_keys(self.tasks())
        &&& distinct_keys(self.insights())
        &&& distinct_keys(self.notifications())
        &&& distinct_keys(self.communication())
    }

    /// An empty store.
    pub fn new() -> (db: Self)
        ensures
            db.well_formed(),
            db.tasks().len() == 0,
            db.insights().len() == 0,
            db.notifications().len() == 0,
            db.communication().len() == 0,
    {
        Database {
            tasks: Vec::new(),
            insights: Vec::new(),
            notifications: Vec::new(),
            communication: Vec::new(),
        }
    }

    /// All tasks, newest first.
    pub fn get_all_tasks(&self) -> (listing: Vec<Task>)
        requires
            self.well_formed(),
        ensures
            lists_all(listing@, self.tasks(), true),
    {
        list_records(&self.tasks, true)
    }

    /// The task under `id`, if the store holds one.
    pub fn get_task_by_id(&self, id: &str) -> (found: Option<Task>)
        requires
            self.well_formed(),
        ensures
            found is Some <==> holds_key(self.tasks(), id@),
            found matches Some(task) ==> task == self.tasks()[index_of_key(self.tasks(), id@)],
    {
        match position_of(&self.tasks, id) {
            Some(i) => {
                proof {
                    lemma_index_of_key(self.tasks@, i as int);
                }
                Some(self.tasks[i].clone())
            },
            None => None,
        }
    }

    /// Stores a new task. A task whose identifier is taken is refused, and
    /// the store stays as it was.
    pub fn create_task(&mut self, task: Task) -> (outcome: Result<Task, StorageError>)
        requires
            old(self).well_formed(),
        ensures
            final(self).well_formed(),
            final(self).insights() == old(self).insights(),
            final(self).notifications() == old(self).notifications(),
            final(self).communication() == old(self).communication(),
            outcome is Err <==> holds_key(old(self).tasks(), task.id@),
            outcome matches Ok(stored) ==> stored == task && final(self).tasks() == old(
                self,
            ).tasks().push(task),
            outcome matches Err(e) ==> e == StorageError::Conflict && final(self).tasks() == old(
                self,
            ).tasks(),
    {
        match position_of(&self.tasks, task.id.as_str()) {
            Some(_) => Err(StorageError::Conflict),
            None => {
                let stored = task.clone();
                self.tasks.push(task);
                Ok(stored)
            },
        }
    }

    /// Overwrites the stored task that has the identifier of `task`; its
    /// identifier and creation instant stay. Where no such task is stored,
    /// nothing changes. Either way `task` is handed back.
    pub fn update_task(&mut self, task: Task) -> (given: Task)
        requires
            old(self).well_formed(),
        ensures
            final(self).well_formed(),
            final(self).insights() == old(self).insights(),
            final(self).notifications() == old(self).notifications(),
            final(self).communication() == old(self).communication(),
            given == task,
            holds_key(old(self).tasks(), task.id@) ==> final(self).tasks() == old(
                self,
            ).tasks().update(
                index_of_key(old(self).tasks(), task.id@),
                overwritten(old(self).tasks()[index_of_key(old(self).tasks(), task.id@)], task),
            ),
            !holds_key(old(self).tasks(), task.id@) ==> final(self).tasks() == old(self).tasks(),
    {
        match position_of(&self.tasks, task.id.as_str()) {
            Some(i) => {
                proof {
                    lemma_index_of_key(self.tasks@, i as int);
                }
                let merged = Task {
                    id: self.tasks[i].id.clone(),
                    title: task.title.clone(),
                    description: clone_text(&task.description),
                    priority: task.priority,
                    status: task.status,
                    category: task.category.clone(),
                    estimated_time: task.estimated_time,
                    actual_time: task.actual_time,
                    due_date: task.due_date,
                    created_at: self.tasks[i].created_at,
                    updated_at: task.updated_at,
                    completed_at: task.completed_at,
                };
                self.tasks.set(i, merged);
                task
            },
            None => task,
        }
    }

    /// Removes the task under `id` and tells whether there was one.
    pub fn delete_task(&mut self, id: &str) -> (existed: bool)
        requires
            old(self).well_formed(),
        ensures
            final(self).well_formed(),
            final(self).insights() == old(self).insights(),
            final(self).notifications() == old(self).notifications(),
            final(self).communication() == old(self).communication(),
            existed == holds_key(old(self).tasks(), id@),
            existed ==> final(self).tasks() == old(self).tasks().remove(
                index_of_key(old(self).tasks(), id@),
            ),
            !existed ==> final(self).tasks() == old(self).tasks(),
    {
        match position_of(&self.tasks, id) {
            Some(i) => {
                proof {
                    lemma_index_of_key(self.tasks@, i as int);
                }
                let _ = self.tasks.remove(i);
                true
            },
            None => false,
        }
    }

    /// The tasks with the given status, newest first.
    pub fn get_tasks_by_status(&self, status: TaskStatus) -> (listing: Vec<Task>)
        requires
            self.well_formed(),
        ensures
            lists_passing(listing@, self.tasks(), TaskFilter::Status(status)),
    {
        list_tasks(&self.tasks, &TaskFilter::Status(status), false)
    }

    /// The tasks that are overdue at `now`, the one due soonest first.
    pub fn get_overdue_tasks_at(&self, now: Timestamp) -> (listing: Vec<Task>)
        requires
            self.well_formed(),
        ensures
            lists_overdue(listing@, self.tasks(), now),
    {
        list_tasks(&self.tasks, &TaskFilter::OverdueAt(now), true)
    }

    /// The tasks that are overdue by the system clock, the one due soonest
    /// first.
    pub fn get_overdue_tasks(&self) -> (listing: Vec<Task>)
        requires
            self.well_formed(),
        ensures
            exists|now: Timestamp|
                clock_reading(now) && #[trigger] lists_overdue(listing@, self.tasks(), now),
    {
        let now = current_time();
        let listing = self.get_overdue_tasks_at(now);
        assert(clock_reading(now) && lists_overdue(listing@, self.tasks(), now));
        listing
    }

    /// The statistics of the stored tasks at `now`. The three lists of the
    /// result stay empty.
    pub fn get_productivity_stats_at(&self, now: Timestamp) -> (stats: ProductivityStats)
        ensures
            stats@ == stats_of(self.tasks(), now),
            stats.most_productive_hours@.len() == 0,
            stats.common_categories@.len() == 0,
            stats.weekly_progress@.len() == 0,
    {
        compute_stats(self.tasks.as_slice(), now)
    }

    /// The statistics of the stored tasks by the system clock. The three
    /// lists of the result stay empty.
    pub fn get_productivity_stats(&self) -> (stats: ProductivityStats)
        ensures
            exists|now: Timestamp| clock_reading(now) && stats@ == #[trigger] stats_of(self.tasks(), now),
            stats.most_productive_hours@.len() == 0,
            stats.common_categories@.len() == 0,
            stats.weekly_progress@.len() == 0,
    {
        let now = current_time();
        let stats = self.get_productivity_stats_at(now);
        assert(clock_reading(now) && stats@ == stats_of(self.tasks(), now));
        stats
    }

    /// Stores a new insight. One whose identifier is taken is refused.
    pub fn save_ai_insight(&mut self, insight: AIInsight) -> (outcome: Result<(), StorageError>)
        requires
            old(self).well_formed(),
        ensures
            final(self).well_formed(),
            final(self).tasks() == old(self).tasks(),
            final(self).notifications() == old(self).notifications(),
            final(self).communication() == old(self).communication(),
            outcome is Err <==> holds_key(old(self).insights(), insight.id@),
            outcome is Ok ==> final(self).insights() == old(self).insights().push(insight),
            outcome matches Err(e) ==> e == StorageError::Conflict && final(self).insights() == old(
                self,
            ).insights(),
    {
        match position_of(&self.insights, insight.id.as_str()) {
            Some(_) => Err(StorageError::Conflict),
            None => {
                self.insights.push(insight);
                Ok(())
            },
        }
    }

    /// The most recent insights, newest first, at most `limit` of them; all
    /// of them under a negative limit.
    pub fn get_recent_insights(&self, limit: i32) -> (listing: Vec<AIInsight>)
        requires
            self.well_formed(),
        ensures
            exists|full: Seq<AIInsight>| #[trigger]
                lists_all(full, self.insights(), true) && listing@ == limited(full, limit as int),
    {
        let full = list_records(&self.insights, true);
        let ghost all = full@;
        let listing = limit_to(full, limit);
        assert(lists_all(all, self.insights(), true) && listing@ == limited(all, limit as int));
        listing
    }

    /// Stores a new notification. One whose identifier is taken is refused.
    pub fn save_notification(&mut self, notification: &NotificationItem) -> (outcome: Result<
        (),
        StorageError,
    >)
        requires
            old(self).well_formed(),
        ensures
            final(self).well_formed(),
            final(self).tasks() == old(self).tasks(),
            final(self).insights() == old(self).insights(),
            final(self).communication() == old(self).communication(),
            outcome is Err <==> holds_key(old(self).notifications(), notification.id@),
            outcome is Ok ==> final(self).notifications() == old(self).notifications().push(
                *notification,
            ),
            outcome matches Err(e) ==> e == StorageError::Conflict && final(self).notifications()
                == old(self).notifications(),
    {
        match position_of(&self.notifications, notification.id.as_str()) {
            Some(_) => Err(StorageError::Conflict),
            None => {
                self.notifications.push(notification.clone());
                Ok(())
            },
        }
    }

    /// The most recent notifications, newest first, at most `limit` of them;
    /// all of them under a negative limit.
    pub fn get_notifications(&self, limit: i32) -> (listing: Vec<NotificationItem>)
        requires
            self.well_formed(),
        ensures
            exists|full: Seq<NotificationItem>| #[trigger]
                lists_all(full, self.notifications(), true) && listing@ == limited(
                    full,
                    limit as int,
                ),
    {
        let full = list_records(&self.notifications, true);
        let ghost all = full@;
        let listing = limit_to(full, limit);
        assert(lists_all(all, self.notifications(), true) && listing@ == limited(
            all,
            limit as int,
        ));
        listing
    }

    /// Marks the notification under `id` as read and tells whether the store
    /// holds one. A read flag that is set stays set.
    pub fn mark_notification_read(&mut self, id: &str) -> (found: bool)
        requires
            old(self).well_formed(),
        ensures
            final(self).well_formed(),
            final(self).tasks() == old(self).tasks(),
            final(self).insights() == old(self).insights(),
            final(self).communication() == old(self).communication(),
            found == holds_key(old(self).notifications(), id@),
            found ==> final(self).notifications() == old(self).notifications().update(
                index_of_key(old(self).notifications(), id@),
                marked_read(
                    old(self).notifications()[index_of_key(old(self).notifications(), id@)],
                ),
            ),
            !found ==> final(self).notifications() == old(self).notifications(),
    {
        match position_of(&self.notifications, id) {
            Some(i) => {
                proof {
                    lemma_index_of_key(self.notifications@, i as int);
                }
                let marked = NotificationItem {
                    id: self.notifications[i].id.clone(),
                    title: self.notifications[i].title.clone(),
                    message: self.notifications[i].message.clone(),
                    notification_type: self.notifications[i].notification_type,
                    is_read: true,
                    created_at: self.notifications[i].created_at,
                    action_url: clone_text(&self.notifications[i].action_url),
                };
                self.notifications.set(i, marked);
                true
            },
            None => false,
        }
    }

    /// The number of notifications that are not marked as read.
    pub fn get_unread_notification_count(&self) -> (count: usize)
        ensures
            count == unread_count(self.notifications()),
    {
        let mut count: usize = 0;
        let mut i: usize = 0;
        while i < self.notifications.len()
            invariant
                i <= self.notifications@.len(),
                count <= i,
                count == unread_count(self.notifications@.take(i as int)),
            decreases self.notifications@.len() - i,
        {
            assert(self.notifications@.take(i as int + 1).drop_last() =~= self.notifications@.take(
                i as int,
            ));
            if !self.notifications[i].is_read {
                count += 1;
            }
            i += 1;
        }
        assert(self.notifications@.take(self.notifications@.len() as int) =~= self.notifications@);
        count
    }

    /// Saves the snapshot of a service at the instant `now`, given the text
    /// that its keywords are stored as. A service that was saved before keeps
    /// the instant of its first save, and everything else is replaced; a new
    /// service is added.
    pub fn store_communication_activity(
        &mut self,
        activity: &CommunicationActivity,
        keywords_json: String,
        now: Timestamp,
    )
        requires
            old(self).well_formed(),
        ensures
            final(self).well_formed(),
            final(self).tasks() == old(self).tasks(),
            final(self).insights() == old(self).insights(),
            final(self).notifications() == old(self).notifications(),
            saved(
                old(self).communication(),
                final(self).communication(),
                *activity,
                keywords_json@,
                now,
            ),
    {
        let found = position_of(&self.communication, activity.service.as_str());
        let created_at = match found {
            Some(i) => self.communication[i].created_at,
            None => now,
        };
        let record = CommunicationRecord {
            service: activity.service.clone(),
            message_count: activity.message_count,
            unread_count: activity.unread_count,
            last_activity: activity.last_activity,
            mentions: activity.mentions,
            keywords_json,
            created_at,
            updated_at: now,
        };
        match found {
            Some(i) => {
                proof {
                    lemma_index_of_key(self.communication@, i as int);
                }
                self.communication.set(i, record);
            },
            None => {
                let ghost before = self.communication@;
                self.communication.push(record);
                assert(self.communication@.drop_last() =~= before);
            },
        }
    }

    /// Saves the snapshot of a service at the instant `now`, with its
    /// keywords written as a JSON array. The save always succeeds.
    pub fn save_communication_activity_at(
        &mut self,
        activity: CommunicationActivity,
        now: Timestamp,
    ) -> (outcome: Result<(), StorageError>)
        requires
            old(self).well_formed(),
        ensures
            final(self).well_formed(),
            final(self).tasks() == old(self).tasks(),
            final(self).insights() == old(self).insights(),
            final(self).notifications() == old(self).notifications(),
            outcome is Ok,
            saved(
                old(self).communication(),
                final(self).communication(),
                activity,
                json_array_text(views(activity.keywords_detected@)),
                now,
            ),
    {
        match write_json_array(&activity.keywords_detected) {
            Some(keywords_json) => {
                self.store_communication_activity(&activity, keywords_json, now);
                Ok(())
            },
            None => Err(StorageError::Corrupted),
        }
    }

    /// Saves the snapshot of a service at the instant that the system clock
    /// shows. The save always succeeds.
    pub fn save_communication_activity(&mut self, activity: CommunicationActivity) -> (outcome:
        Result<(), StorageError>)
        requires
            old(self).well_formed(),
        ensures
            final(self).well_formed(),
            final(self).tasks() == old(self).tasks(),
            final(self).insights() == old(self).insights(),
            final(self).notifications() == old(self).notifications(),
            outcome is Ok,
            exists|now: Timestamp|
                clock_reading(now) && #[trigger] saved(
                    old(self).communication(),
                    final(self).communication(),
                    activity,
                    json_array_text(views(activity.keywords_detected@)),
                    now,
                ),
    {
        let now = current_time();
        let outcome = self.save_communication_activity_at(activity, now);
        assert(clock_reading(now) && saved(
            old(self).communication(),
            self.communication(),
            activity,
            json_array_text(views(activity.keywords_detected@)),
            now,
        ));
        outcome
    }

    /// The stored records of all services, the one saved last first.
    pub fn communication_records(&self) -> (listing: Vec<CommunicationRecord>)
        requires
            self.well_formed(),
        ensures
            lists_all(listing@, self.communication(), true),
    {
        list_records(&self.communication, true)
    }

    /// The snapshots of all services, the one saved last first.
    pub fn get_communication_activity(&self) -> (activities: Vec<CommunicationActivity>)
        requires
            self.well_formed(),
        ensures
            exists|listing: Seq<CommunicationRecord>| #[trigger]
                lists_all(listing, self.communication(), true) && activities@.len() == listing.len() && forall|i: int|
                    0 <= i < listing.len() ==> is_activity_of(#[trigger] activities@[i], listing[i]),
    {
        let listing = list_records(&self.communication, true);
        let mut activities: Vec<CommunicationActivity> = Vec::new();
        let mut i: usize = 0;
        while i < listing.len()
            invariant
                i <= listing@.len(),
                activities@.len() == i,
                forall|k: int| 0 <= k < i ==> is_activity_of(#[trigger] activities@[k], listing@[k]),
            decreases listing@.len() - i,
        {
            let record = &listing[i];
            let keywords = keywords_or_none(read_json_array(record.keywords_json.as_str()));
            activities.push(
                CommunicationActivity {
                    service: record.service.clone(),
                    message_count: record.message_count,
                    unread_count: record.unread_count,
                    last_activity: record.last_activity,
                    mentions: record.mentions,
                    keywords_detected: keywords,
                },
            );
            i += 1;
        }
        assert(lists_all(listing@, self.communication(), true));
        activities
    }
}

} // verus!
