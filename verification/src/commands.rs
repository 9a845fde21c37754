//! The commands of the presentation layer, as far as they decide anything:
//! what each one does to the store and what it answers.

use crate::database::{index_of_key, lemma_index_of_key, overwritten, Database, StorageError};
use crate::models::{
    clock_reading, created, fresh_id, is_random_id, updated, CreateTaskRequest, NotificationItem,
    Task, UpdateTaskRequest,
};
use crate::records::{holds_key, limited, lists_all, Record};
use crate::time::{current_time, Timestamp};
use vstd::prelude::*;
use vstd::string::*;

verus! {

/// Why a command failed.
#[derive(Clone, Copy, Debug, PartialEq, Eq, Structural)]
pub enum CommandError {
    /// The store holds no task under the identifier given.
    TaskNotFound,
    /// The store refused or failed.
    Storage(StorageError),
}

/// The number of notifications that are listed where the caller names none.
pub const DEFAULT_NOTIFICATION_LIMIT: i32 = 20;

impl CommandError {
    /// The error in words.
    pub open spec fn text(self) -> Seq<char> {
        match self {
            CommandError::TaskNotFound => "Task not found"@,
            CommandError::Storage(e) => e.text(),
        }
    }

    /// Writes the error in words.
    pub fn message(&self) -> (s: String)
        ensures
            s@ == self.text(),
    {
        match self {
            CommandError::TaskNotFound => String::from_str("Task not found"),
            CommandError::Storage(e) => e.message(),
        }
    }
}

/// Creates the task for `request` under the identifier `id` at `now` and
/// stores it. An identifier that is taken is a conflict, and the store stays
/// as it was.
pub fn create_task_as(
    db: &mut Database,
    request: CreateTaskRequest,
    id: String,
    now: Timestamp,
) -> (outcome: Result<Task, CommandError>)
    requires
        old(db).well_formed(),
    ensures
        final(db).well_formed(),
        final(db).insights() == old(db).insights(),
        final(db).notifications() == old(db).notifications(),
        final(db).communication() == old(db).communication(),
        outcome is Err <==> holds_key(old(db).tasks(), id@),
        outcome matches Ok(task) ==> task == created(request, id, now) && final(db).tasks() == old(db).tasks().push(task),
        outcome matches Err(e) ==> e == CommandError::Storage(StorageError::Conflict) && final(db).tasks() == old(db).tasks(),
{
    let task = Task::create(request, id, now);
    match db.create_task(task) {
        Ok(stored) => Ok(stored),
        Err(e) => Err(CommandError::Storage(e)),
    }
}

/// Creates the task for `request` under a fresh random identifier, stamped
/// with the system clock, and stores it. The command fails only where the
/// identifier drawn is taken by a stored task, so never on an empty store.
pub fn create_task(db: &mut Database, request: CreateTaskRequest) -> (outcome: Result<
    Task,
    CommandError,
>)
    requires
        old(db).well_formed(),
    ensures
        final(db).well_formed(),
        final(db).insights() == old(db).insights(),
        final(db).notifications() == old(db).notifications(),
        final(db).communication() == old(db).communication(),
        outcome matches Ok(task) ==> is_random_id(task.id@) && clock_reading(task.created_at)
            && !holds_key(old(db).tasks(), task.id@) && task == created(
            request,
            task.id,
            task.created_at,
        ) && final(db).tasks() == old(db).tasks().push(task),
        outcome matches Err(e) ==> e == CommandError::Storage(StorageError::Conflict) && final(db).tasks() == old(db).tasks(),
        outcome is Err ==> exists|key: Seq<char>|
            is_random_id(key) && #[trigger] holds_key(old(db).tasks(), key),
        old(db).tasks().len() == 0 ==> outcome is Ok,
{
    let now = current_time();
    let id = fresh_id();
    let outcome = create_task_as(db, request, id, now);
    assert(outcome is Err ==> is_random_id(id@) && holds_key(old(db).tasks(), id@));
    outcome
}

/// Applies `request` at `now` to the task stored under `id` and stores the
/// result. Where no task is stored under `id`, the command fails and the
/// store stays as it was.
pub fn update_task_at(
    db: &mut Database,
    id: &str,
    request: UpdateTaskRequest,
    now: Timestamp,
) -> (outcome: Result<Task, CommandError>)
    requires
        old(db).well_formed(),
    ensures
        final(db).well_formed(),
        final(db).insights() == old(db).insights(),
        final(db).notifications() == old(db).notifications(),
        final(db).communication() == old(db).communication(),
        outcome is Ok <==> holds_key(old(db).tasks(), id@),
        outcome matches Ok(task) ==> ({
            let i = index_of_key(old(db).tasks(), id@);
            &&& task == updated(old(db).tasks()[i], request, now)
            &&& final(db).tasks() == old(db).tasks().update(i, task)
        }),
        outcome matches Err(e) ==> e == CommandError::TaskNotFound && final(db).tasks() == old(db).tasks(),
{
    match db.get_task_by_id(id) {
        Some(mut task) => {
            task.apply_update(request, now);
            proof {
                let i = index_of_key(db.tasks(), id@);
                assert(db.tasks()[i].key() == id@);
                lemma_index_of_key(db.tasks(), i);
                assert(task.id@ == id@);
                assert(overwritten(db.tasks()[i], task) == task);
            }
            let updated_task = db.update_task(task);
            Ok(updated_task)
        },
        None => Err(CommandError::TaskNotFound),
    }
}

/// Applies `request` to the task stored under `id` at the instant that the
/// system clock shows.
pub fn update_task(db: &mut Database, id: &str, request: UpdateTaskRequest) -> (outcome: Result<
    Task,
    CommandError,
>)
    requires
        old(db).well_formed(),
    ensures
        final(db).well_formed(),
        final(db).insights() == old(db).insights(),
        final(db).notifications() == old(db).notifications(),
        final(db).communication() == old(db).communication(),
        outcome is Ok <==> holds_key(old(db).tasks(), id@),
        outcome matches Ok(task) ==> ({
            let i = index_of_key(old(db).tasks(), id@);
            &&& clock_reading(task.updated_at)
            &&& task == updated(old(db).tasks()[i], request, task.updated_at)
            &&& final(db).tasks() == old(db).tasks().update(i, task)
        }),
        outcome matches Err(e) ==> e == CommandError::TaskNotFound && final(db).tasks() == old(db).tasks(),
{
    let now = current_time();
    update_task_at(db, id, request, now)
}

/// The most recent notifications, newest first: at most `limit` of them, at
/// most twenty where no limit is named.
pub fn get_notifications(db: &Database, limit: Option<i32>) -> (listing: Vec<NotificationItem>)
    requires
        db.well_formed(),
    ensures
        exists|full: Seq<NotificationItem>| #[trigger]
            lists_all(full, db.notifications(), true) && listing@ == limited(
                full,
                match limit {
                    Some(n) => n as int,
                    None => 20,
                },
            ),
{
    let limit = match limit {
        Some(n) => n,
        None => DEFAULT_NOTIFICATION_LIMIT,
    };
    db.get_notifications(limit)
}

} // verus!
