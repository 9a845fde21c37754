use chicandoit::commands::{
    create_task, create_task_as, get_notifications, update_task, update_task_at, CommandError,
    DEFAULT_NOTIFICATION_LIMIT,
};
use chicandoit::database::{Database, StorageError};
use chicandoit::models::{
    CreateTaskRequest, NotificationItem, NotificationType, Priority, TaskStatus, UpdateTaskRequest,
};
use chicandoit::time::Timestamp;

fn request(title: &str) -> CreateTaskRequest {
    CreateTaskRequest {
        title: title.to_string(),
        description: None,
        priority: Priority::Medium,
        category: "work".to_string(),
        estimated_time: 25,
        due_date: None,
    }
}

fn complete() -> UpdateTaskRequest {
    UpdateTaskRequest {
        title: None,
        description: None,
        priority: None,
        status: Some(TaskStatus::Completed),
        category: None,
        estimated_time: None,
        actual_time: None,
        due_date: None,
    }
}

#[test]
fn create_command_stores_a_pending_task() {
    let mut db = Database::new();
    let task = create_task_as(&mut db, request("one"), "id-1".to_string(), Timestamp::new(10, 0)).unwrap();
    assert_eq!(task.id, "id-1");
    assert_eq!(task.status, TaskStatus::Pending);
    assert_eq!(task.created_at, Timestamp::new(10, 0));
    assert_eq!(db.get_task_by_id("id-1").unwrap().title, "one");
    let again = create_task_as(&mut db, request("two"), "id-1".to_string(), Timestamp::new(11, 0));
    assert_eq!(again.err(), Some(CommandError::Storage(StorageError::Conflict)));
    assert_eq!(db.get_task_by_id("id-1").unwrap().title, "one");
    assert_eq!(db.get_all_tasks().len(), 1);
}

#[test]
fn create_command_draws_identifier_and_instant() {
    let mut db = Database::new();
    let first = create_task(&mut db, request("one")).unwrap();
    let second = create_task(&mut db, request("two")).unwrap();
    assert_ne!(first.id, second.id);
    assert_eq!(first.id.len(), 36);
    assert!(first.created_at.secs > 1_600_000_000);
    assert_eq!(db.get_all_tasks().len(), 2);
    assert_eq!(db.get_task_by_id(&second.id).unwrap().title, "two");
}

#[test]
fn update_command_merges_and_stores() {
    let mut db = Database::new();
    create_task_as(&mut db, request("one"), "id-1".to_string(), Timestamp::new(10, 0)).unwrap();
    let updated = update_task_at(&mut db, "id-1", complete(), Timestamp::new(20, 5)).unwrap();
    assert_eq!(updated.title, "one");
    assert_eq!(updated.status, TaskStatus::Completed);
    assert_eq!(updated.completed_at, Some(Timestamp::new(20, 5)));
    assert_eq!(updated.updated_at, Timestamp::new(20, 5));
    assert_eq!(updated.created_at, Timestamp::new(10, 0));
    let stored = db.get_task_by_id("id-1").unwrap();
    assert_eq!(stored.status, TaskStatus::Completed);
    assert_eq!(stored.completed_at, Some(Timestamp::new(20, 5)));
    assert_eq!(stored.category, "work");
    assert_eq!(stored.estimated_time, 25);
}

#[test]
fn update_command_fails_for_a_missing_task() {
    let mut db = Database::new();
    create_task_as(&mut db, request("one"), "id-1".to_string(), Timestamp::new(10, 0)).unwrap();
    let outcome = update_task_at(&mut db, "id-2", complete(), Timestamp::new(20, 0));
    assert_eq!(outcome.err(), Some(CommandError::TaskNotFound));
    assert_eq!(CommandError::TaskNotFound.message(), "Task not found");
    assert_eq!(
        CommandError::Storage(StorageError::Conflict).message(),
        "a record with this id already exists"
    );
    assert_eq!(db.get_task_by_id("id-1").unwrap().status, TaskStatus::Pending);
    assert_eq!(update_task(&mut db, "nope", complete()).err(), Some(CommandError::TaskNotFound));
}

#[test]
fn update_command_by_the_clock_completes_now() {
    let mut db = Database::new();
    create_task_as(&mut db, request("one"), "id-1".to_string(), Timestamp::new(10, 0)).unwrap();
    let updated = update_task(&mut db, "id-1", complete()).unwrap();
    assert!(updated.updated_at.secs > 1_600_000_000);
    assert_eq!(updated.completed_at, Some(updated.updated_at));
}

#[test]
fn notifications_default_to_twenty() {
    let mut db = Database::new();
    for i in 0..25 {
        let n = NotificationItem {
            id: format!("n{:02}", i),
            title: "t".to_string(),
            message: "m".to_string(),
            notification_type: NotificationType::Deadline,
            is_read: false,
            created_at: Timestamp::new(i, 0),
            action_url: None,
        };
        db.save_notification(&n).unwrap();
    }
    assert_eq!(DEFAULT_NOTIFICATION_LIMIT, 20);
    let listed = get_notifications(&db, None);
    assert_eq!(listed.len(), 20);
    assert_eq!(listed[0].id, "n24");
    assert_eq!(listed[19].id, "n05");
    assert_eq!(get_notifications(&db, Some(3)).len(), 3);
    assert_eq!(get_notifications(&db, Some(100)).len(), 25);
}
