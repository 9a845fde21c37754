//! What holds of the library as a whole, stated over the models that its
//! contracts use, and proved.

use crate::ai_engine::{accountability_message_of, completed_count, insights_of};
use crate::accountability::fallback_accountability;
use crate::analytics::{
    count_passing, lemma_count_bounded, lemma_statuses_disjoint, stats_of, TaskFilter,
};
use crate::database::{
    index_of_key, lemma_index_of_key, lemma_saved_keeps_keys_distinct, marked_read, saved, stores,
    CommunicationRecord,
};
use crate::insights::{fallback_insights_of, nonblank_trimmed, remote_insights};
use crate::models::{
    enters_completed, overdue_at, updated, CommunicationActivity, NotificationItem, Task,
    TaskStatus, UpdateTaskRequest,
};
use crate::records::{distinct_keys, holds_key, lemma_same_elements_same_listing, lists, Record};
use crate::remote::{answer_of, completion_text, is_success, RemoteReply};
use crate::text::{lines, trimmed};
use crate::time::{hour_of_day, is_before, Timestamp};
use vstd::prelude::*;

verus! {

/// The task that `task` becomes under a series of updates, applied in turn,
/// each at its own instant.
pub open spec fn updated_by_all(task: Task, updates: Seq<(UpdateTaskRequest, Timestamp)>) -> Task
    decreases updates.len(),
{
    if updates.len() == 0 {
        task
    } else {
        updated(updated_by_all(task, updates.drop_last()), updates.last().0, updates.last().1)
    }
}

/// An update that moves a task into `Completed` from another status, where
/// no completion is on record, records the instant of the update as the
/// completion instant.
pub proof fn law_completion_records_instant(task: Task, request: UpdateTaskRequest, now: Timestamp)
    requires
        enters_completed(task, request),
        task.completed_at is None,
    ensures
        updated(task, request, now).completed_at == Some(now),
{
}

/// Once a completion instant is on record, no update changes or clears it,
/// whatever the update does to the status.
pub proof fn law_completion_instant_is_kept(task: Task, request: UpdateTaskRequest, now: Timestamp)
    requires
        task.completed_at is Some,
    ensures
        updated(task, request, now).completed_at == task.completed_at,
{
}

/// An update that does not move a task into `Completed` from another status
/// leaves the completion instant as it was, set or not set.
pub proof fn law_other_updates_leave_completion_instant(
    task: Task,
    request: UpdateTaskRequest,
    now: Timestamp,
)
    requires
        !enters_completed(task, request),
    ensures
        updated(task, request, now).completed_at == task.completed_at,
{
}

/// Once a completion instant is on record, it survives every series of
/// updates, also one that moves the status away from `Completed` and back.
pub proof fn law_completion_instant_survives(
    task: Task,
    updates: Seq<(UpdateTaskRequest, Timestamp)>,
)
    requires
        task.completed_at is Some,
    ensures
        updated_by_all(task, updates).completed_at == task.completed_at,
    decreases updates.len(),
{
    if updates.len() > 0 {
        law_completion_instant_survives(task, updates.drop_last());
    }
}

/// No update changes the identifier or the creation instant of a task, and
/// every update stamps it with the instant at which it is applied.
pub proof fn law_update_keeps_identity(task: Task, request: UpdateTaskRequest, now: Timestamp)
    ensures
        updated(task, request, now).id == task.id,
        updated(task, request, now).created_at == task.created_at,
        updated(task, request, now).updated_at == now,
{
}

/// Where the clock does not run backwards, the update instant of a task
/// never moves back.
pub proof fn law_update_instant_never_moves_back(
    task: Task,
    request: UpdateTaskRequest,
    now: Timestamp,
)
    requires
        !is_before(now, task.updated_at),
    ensures
        !is_before(updated(task, request, now).updated_at, task.updated_at),
{
}

/// A notification that is marked as read is read, and marking changes
/// nothing else of it; marking it again changes nothing at all.
pub proof fn law_read_flag_is_one_way(record: NotificationItem)
    ensures
        marked_read(record).is_read,
        marked_read(record).id == record.id,
        marked_read(record).title == record.title,
        marked_read(record).message == record.message,
        marked_read(record).notification_type == record.notification_type,
        marked_read(record).created_at == record.created_at,
        marked_read(record).action_url == record.action_url,
        marked_read(marked_read(record)) == marked_read(record),
{
}

/// Whether a task is overdue depends on its due date, its status and the
/// instant alone.
pub proof fn law_overdue_depends_on_due_date_and_status(a: Task, b: Task, now: Timestamp)
    requires
        a.due_date == b.due_date,
        a.status == b.status,
    ensures
        overdue_at(a, now) == overdue_at(b, now),
{
}

/// A completed task is never overdue, nor is one without a due date.
pub proof fn law_completed_is_not_overdue(task: Task, now: Timestamp)
    requires
        task.status == TaskStatus::Completed || task.due_date is None,
    ensures
        !overdue_at(task, now),
{
}

/// Where there is a mean recorded time, it is a fraction with a positive
/// denominator: the number of completed tasks that recorded a time.
pub proof fn law_average_is_a_fraction(tasks: Seq<Task>, now: Timestamp)
    ensures
        stats_of(tasks, now).average_completion_time matches Some(mean) ==> mean.1 > 0,
{
}

/// Completed and pending tasks together are no more than all tasks, and so
/// are the overdue ones.
pub proof fn law_stats_totals(tasks: Seq<Task>, now: Timestamp)
    ensures
        stats_of(tasks, now).completed_tasks + stats_of(tasks, now).pending_tasks <= stats_of(
            tasks,
            now,
        ).total_tasks,
        stats_of(tasks, now).overdue_tasks <= stats_of(tasks, now).total_tasks,
{
    lemma_statuses_disjoint(tasks, TaskStatus::Completed, TaskStatus::Pending);
    lemma_count_bounded(tasks, TaskFilter::OverdueAt(now));
}

/// The completion rate is a fraction with a positive denominator that lies
/// between 0 and 100. It is zero for an empty task set, and otherwise zero
/// exactly when no task is completed.
pub proof fn law_completion_rate(tasks: Seq<Task>, now: Timestamp)
    ensures
        stats_of(tasks, now).completion_rate.1 > 0,
        0 <= stats_of(tasks, now).completion_rate.0 <= 100 * stats_of(tasks, now).completion_rate.1,
        tasks.len() == 0 ==> stats_of(tasks, now).completion_rate.0 == 0,
        stats_of(tasks, now).completion_rate.0 == 0 <==> stats_of(tasks, now).completed_tasks == 0,
{
    lemma_count_bounded(tasks, TaskFilter::Status(TaskStatus::Completed));
}

/// Among task sets that are empty or hold a completed task, the completion
/// rate is zero exactly for the empty one.
pub proof fn law_completion_rate_zero_iff_empty(tasks: Seq<Task>, now: Timestamp)
    requires
        tasks.len() == 0 || stats_of(tasks, now).completed_tasks > 0,
    ensures
        stats_of(tasks, now).completion_rate.0 == 0 <==> tasks.len() == 0,
{
    lemma_count_bounded(tasks, TaskFilter::Status(TaskStatus::Completed));
}

/// The rule-based insights are a function of the task set and the instant:
/// two lists made for the same tasks at the same instant are the same.
pub proof fn law_fallback_insights_deterministic(
    first: Seq<Seq<char>>,
    second: Seq<Seq<char>>,
    tasks: Seq<Task>,
    now: Timestamp,
)
    requires
        first == fallback_insights_of(tasks, now),
        second == fallback_insights_of(tasks, now),
    ensures
        first == second,
{
}

/// The rule-based insights depend on the tasks only through four counts
/// (all, completed, open with high priority, overdue) and on the instant
/// only through the overdue count and the hour of the day.
pub proof fn law_fallback_insights_depend_on_counts_and_hour(
    a: Seq<Task>,
    at_a: Timestamp,
    b: Seq<Task>,
    at_b: Timestamp,
)
    requires
        a.len() == b.len(),
        completed_count(a) == completed_count(b),
        count_passing(a, TaskFilter::HighPriorityOpen) == count_passing(
            b,
            TaskFilter::HighPriorityOpen,
        ),
        count_passing(a, TaskFilter::OverdueAt(at_a)) == count_passing(
            b,
            TaskFilter::OverdueAt(at_b),
        ),
        hour_of_day(at_a) == hour_of_day(at_b),
    ensures
        fallback_insights_of(a, at_a) == fallback_insights_of(b, at_b),
{
}

/// The check-in template depends on the second alone, not on the
/// nanoseconds, and the same template comes round after five seconds.
pub proof fn law_template_comes_round_after_five_seconds(
    completed: nat,
    pending: nat,
    now: Timestamp,
    later: Timestamp,
)
    requires
        later.secs == now.secs + 5 || later.secs == now.secs,
    ensures
        fallback_accountability(completed, pending, later) == fallback_accountability(
            completed,
            pending,
            now,
        ),
{
}

/// The rules give one to three insights for every task set at every instant.
pub proof fn law_fallback_insight_count(tasks: Seq<Task>, now: Timestamp)
    ensures
        1 <= fallback_insights_of(tasks, now).len() <= 3,
{
}

/// There are always one to three insights: whatever the tasks, the instant,
/// the credential and the answer of the model.
pub proof fn law_insight_count(
    configured: bool,
    answer: Option<Seq<char>>,
    tasks: Seq<Task>,
    now: Timestamp,
)
    ensures
        1 <= insights_of(configured, answer, tasks, now).len() <= 3,
{
}

/// An answer of the model without a line that is not blank leads to the
/// insights of the rules, as no answer does.
pub proof fn law_blank_answer_falls_back(answer: Seq<char>, tasks: Seq<Task>, now: Timestamp)
    requires
        nonblank_trimmed(lines(trimmed(answer))).len() == 0,
    ensures
        insights_of(true, Some(answer), tasks, now) == fallback_insights_of(tasks, now),
{
}

/// A response that reports success with a JSON document that lacks the text
/// leads to the insights of the rules.
pub proof fn law_reply_without_text_falls_back(
    status: u16,
    body: String,
    tasks: Seq<Task>,
    now: Timestamp,
)
    requires
        is_success(status),
        completion_text(body@) == Some(None::<Seq<char>>),
    ensures
        insights_of(true, answer_of(RemoteReply::Answered { status, body }), tasks, now)
            == fallback_insights_of(tasks, now),
{
    let nothing = Seq::<char>::empty();
    assert(trimmed(nothing) == nothing);
    assert(lines(nothing) == seq![nothing]);
    assert(seq![nothing].drop_last() =~= Seq::<Seq<char>>::empty());
    assert(nonblank_trimmed(seq![nothing]) == nonblank_trimmed(Seq::<Seq<char>>::empty()));
    assert(remote_insights(nothing).len() == 0);
}

/// A reply carries no answer where nothing was asked, where no response
/// arrived, where the status reports no success, and where the body is no
/// JSON document.
pub proof fn law_failed_reply_carries_no_answer(reply: RemoteReply)
    requires
        reply is NotAsked || reply is Failed || (reply matches RemoteReply::Answered {
            status,
            body,
        } && (!is_success(status) || completion_text(body@) is None)),
    ensures
        answer_of(reply) is None,
{
}

/// Where the remote path is configured and the request fails, the insights
/// and the check-in message are those of the rules: the failure does not
/// show.
pub proof fn law_remote_failure_falls_back(reply: RemoteReply, tasks: Seq<Task>, now: Timestamp)
    requires
        answer_of(reply) is None,
    ensures
        insights_of(true, answer_of(reply), tasks, now) == fallback_insights_of(tasks, now),
        1 <= insights_of(true, answer_of(reply), tasks, now).len() <= 3,
        accountability_message_of(true, answer_of(reply), tasks, now) == fallback_accountability(
            completed_count(tasks),
            (tasks.len() - completed_count(tasks)) as nat,
            now,
        ),
{
}

/// Without a credential the reply makes no difference.
pub proof fn law_unconfigured_ignores_reply(reply: RemoteReply, tasks: Seq<Task>, now: Timestamp)
    ensures
        insights_of(false, answer_of(reply), tasks, now) == fallback_insights_of(tasks, now),
{
}

/// Saving the snapshot of a service a second time keeps the instant of the
/// first save as its creation instant; the counts, the keywords and the
/// instant of the last save are those of the second save.
pub proof fn law_upsert_keeps_creation_time(
    before: Seq<CommunicationRecord>,
    between: Seq<CommunicationRecord>,
    after: Seq<CommunicationRecord>,
    first: CommunicationActivity,
    first_keywords: Seq<char>,
    first_saved_at: Timestamp,
    second: CommunicationActivity,
    second_keywords: Seq<char>,
    second_saved_at: Timestamp,
)
    requires
        distinct_keys(before),
        first.service@ == second.service@,
        saved(before, between, first, first_keywords, first_saved_at),
        saved(between, after, second, second_keywords, second_saved_at),
    ensures
        holds_key(between, first.service@),
        after.len() == between.len(),
        ({
            let i = index_of_key(between, first.service@);
            &&& stores(after[i], second, second_keywords, between[i].created_at, second_saved_at)
            &&& !holds_key(before, first.service@) ==> after[i].created_at == first_saved_at
            &&& holds_key(before, first.service@) ==> after[i].created_at == before[i].created_at
        }),
{
    if holds_key(before, first.service@) {
        let i = index_of_key(before, first.service@);
        assert(between[i].key() == first.service@);
        lemma_saved_keeps_keys_distinct(before, between, first, first_keywords, first_saved_at);
        lemma_index_of_key(between, i);
    } else {
        let i = between.len() - 1;
        assert(between[i].key() == first.service@);
        lemma_saved_keeps_keys_distinct(before, between, first, first_keywords, first_saved_at);
        lemma_index_of_key(between, i);
    }
}

/// The listing of the wanted records of a table is determined: two listings
/// of the same records by the same order are the same, entry by entry.
pub proof fn law_listing_is_determined<T: Record>(
    first: Seq<T>,
    second: Seq<T>,
    rows: Seq<T>,
    wanted: spec_fn(T) -> bool,
    at: spec_fn(T) -> Timestamp,
    newest_first: bool,
)
    requires
        lists(first, rows, wanted, at, newest_first),
        lists(second, rows, wanted, at, newest_first),
    ensures
        first == second,
{
    lemma_same_elements_same_listing(first, second, at, newest_first);
}

/// An update that names nothing but a new status leaves every other field
/// of the task as it was. Where it completes a task that was not completed,
/// the task has a completion instant afterwards: the instant of the update,
/// unless an earlier completion is on record, which then stays.
pub proof fn law_status_only_update(task: Task, status: TaskStatus, now: Timestamp)
    ensures
        ({
            let request = UpdateTaskRequest {
                title: None,
                description: None,
                priority: None,
                status: Some(status),
                category: None,
                estimated_time: None,
                actual_time: None,
                due_date: None,
            };
            let after = updated(task, request, now);
            &&& after.id == task.id
            &&& after.title == task.title
            &&& after.description == task.description
            &&& after.priority == task.priority
            &&& after.category == task.category
            &&& after.estimated_time == task.estimated_time
            &&& after.actual_time == task.actual_time
            &&& after.due_date == task.due_date
            &&& after.created_at == task.created_at
            &&& after.status == status
            &&& after.updated_at == now
            &&& status == TaskStatus::Completed && task.status != TaskStatus::Completed
                ==> after.completed_at is Some
            &&& status == TaskStatus::Completed && task.status != TaskStatus::Completed
                && task.completed_at is None ==> after.completed_at == Some(now)
            &&& task.completed_at is Some ==> after.completed_at == task.completed_at
        }),
{
}

} // verus!
