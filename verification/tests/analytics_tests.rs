use chicandoit::analytics::{
    analyze_patterns, compute_stats, count_tasks, most_frequent_category, sum_recorded_minutes,
    TaskFilter,
};
use chicandoit::models::{Fraction, Priority, Task, TaskStatus};
use chicandoit::time::Timestamp;

fn task(id: &str, status: TaskStatus, priority: Priority, category: &str) -> Task {
    Task {
        id: id.to_string(),
        title: format!("task {}", id),
        description: None,
        priority,
        status,
        category: category.to_string(),
        estimated_time: 30,
        actual_time: None,
        due_date: None,
        created_at: Timestamp::new(100, 0),
        updated_at: Timestamp::new(100, 0),
        completed_at: None,
    }
}

fn done(id: &str, minutes: Option<i32>) -> Task {
    let mut t = task(id, TaskStatus::Completed, Priority::Low, "work");
    t.actual_time = minutes;
    t
}

#[test]
fn stats_of_no_tasks_are_all_zero() {
    let stats = compute_stats(&[], Timestamp::new(1_000, 0));
    assert_eq!(stats.total_tasks, 0);
    assert_eq!(stats.completed_tasks, 0);
    assert_eq!(stats.pending_tasks, 0);
    assert_eq!(stats.overdue_tasks, 0);
    assert_eq!(stats.completion_rate, Fraction { numerator: 0, denominator: 1 });
    assert_eq!(stats.average_completion_time, None);
    assert!(stats.most_productive_hours.is_empty());
    assert!(stats.common_categories.is_empty());
    assert!(stats.weekly_progress.is_empty());
}

#[test]
fn stats_count_each_status_and_the_overdue() {
    let now = Timestamp::new(1_000, 0);
    let mut late = task("a", TaskStatus::Pending, Priority::Low, "work");
    late.due_date = Some(Timestamp::new(999, 0));
    let mut late_done = done("b", Some(30));
    late_done.due_date = Some(Timestamp::new(10, 0));
    let mut future = task("c", TaskStatus::InProgress, Priority::Low, "work");
    future.due_date = Some(Timestamp::new(1_001, 0));
    let mut late_paused = task("d", TaskStatus::Paused, Priority::Low, "work");
    late_paused.due_date = Some(Timestamp::new(0, 0));
    let tasks = vec![
        late,
        late_done,
        future,
        late_paused,
        task("e", TaskStatus::Cancelled, Priority::Low, "work"),
        done("f", Some(45)),
        done("g", None),
        task("h", TaskStatus::Pending, Priority::Low, "work"),
    ];
    let stats = compute_stats(&tasks, now);
    assert_eq!(stats.total_tasks, 8);
    assert_eq!(stats.completed_tasks, 3);
    assert_eq!(stats.pending_tasks, 2);
    assert_eq!(stats.overdue_tasks, 2);
    assert!(stats.completed_tasks + stats.pending_tasks <= stats.total_tasks);
    assert_eq!(stats.completion_rate, Fraction { numerator: 300, denominator: 8 });
    assert_eq!(stats.average_completion_time, Some(Fraction { numerator: 75, denominator: 2 }));
}

#[test]
fn completion_rate_is_zero_without_completed_tasks() {
    let tasks = vec![task("a", TaskStatus::Pending, Priority::Low, "work")];
    let stats = compute_stats(&tasks, Timestamp::new(1_000, 0));
    assert_eq!(stats.total_tasks, 1);
    assert_eq!(stats.completion_rate.numerator, 0);
    assert_eq!(stats.completion_rate.denominator, 1);
    let all_done = vec![done("a", None), done("b", None)];
    let stats = compute_stats(&all_done, Timestamp::new(1_000, 0));
    assert_eq!(stats.completion_rate, Fraction { numerator: 200, denominator: 2 });
    assert_eq!(stats.average_completion_time, None);
}

#[test]
fn average_ignores_open_tasks_and_tasks_without_time() {
    let mut open_with_time = task("a", TaskStatus::InProgress, Priority::Low, "work");
    open_with_time.actual_time = Some(1_000);
    let tasks = vec![open_with_time, done("b", Some(10)), done("c", None), done("d", Some(-4))];
    assert_eq!(sum_recorded_minutes(&tasks), 6);
    assert_eq!(count_tasks(&tasks, &TaskFilter::CompletedWithTime), 2);
    let stats = compute_stats(&tasks, Timestamp::new(0, 0));
    assert_eq!(stats.average_completion_time, Some(Fraction { numerator: 6, denominator: 2 }));
}

#[test]
fn filters_count_what_they_name() {
    let mut overdue = task("a", TaskStatus::Pending, Priority::Critical, "home");
    overdue.due_date = Some(Timestamp::new(5, 0));
    let tasks = vec![
        overdue,
        task("b", TaskStatus::Completed, Priority::High, "work"),
        task("c", TaskStatus::Pending, Priority::Medium, "work"),
        task("d", TaskStatus::InProgress, Priority::High, "Work"),
    ];
    assert_eq!(count_tasks(&tasks, &TaskFilter::Status(TaskStatus::Pending)), 2);
    assert_eq!(count_tasks(&tasks, &TaskFilter::Status(TaskStatus::Paused)), 0);
    assert_eq!(count_tasks(&tasks, &TaskFilter::HighPriority), 3);
    assert_eq!(count_tasks(&tasks, &TaskFilter::HighPriorityOpen), 2);
    assert_eq!(count_tasks(&tasks, &TaskFilter::OverdueAt(Timestamp::new(6, 0))), 1);
    assert_eq!(count_tasks(&tasks, &TaskFilter::OverdueAt(Timestamp::new(5, 0))), 0);
    assert_eq!(count_tasks(&tasks, &TaskFilter::Category("work".to_string())), 2);
    assert_eq!(count_tasks(&tasks, &TaskFilter::Category("garden".to_string())), 0);
}

#[test]
fn most_frequent_category_of_no_tasks_is_none() {
    assert_eq!(most_frequent_category(&[]), None);
    assert!(analyze_patterns(&[]).is_empty());
}

#[test]
fn most_frequent_category_tie_goes_to_the_first_encountered() {
    let tasks = vec![
        task("a", TaskStatus::Pending, Priority::Low, "home"),
        task("b", TaskStatus::Pending, Priority::Low, "work"),
        task("c", TaskStatus::Pending, Priority::Low, "work"),
        task("d", TaskStatus::Pending, Priority::Low, "home"),
        task("e", TaskStatus::Pending, Priority::Low, "garden"),
    ];
    assert_eq!(most_frequent_category(&tasks), Some((0, 2)));
    assert_eq!(analyze_patterns(&tasks), vec!["Most frequent category: home (2 tasks)".to_string()]);
    let mut reversed = tasks;
    reversed.reverse();
    assert_eq!(most_frequent_category(&reversed), Some((1, 2)));
    assert_eq!(
        analyze_patterns(&reversed),
        vec!["Most frequent category: home (2 tasks)".to_string()]
    );
    let swapped = vec![
        task("b", TaskStatus::Pending, Priority::Low, "work"),
        task("a", TaskStatus::Pending, Priority::Low, "home"),
        task("d", TaskStatus::Pending, Priority::Low, "home"),
        task("c", TaskStatus::Pending, Priority::Low, "work"),
    ];
    assert_eq!(
        analyze_patterns(&swapped),
        vec!["Most frequent category: work (2 tasks)".to_string()]
    );
}

#[test]
fn a_later_category_with_more_tasks_wins() {
    let tasks = vec![
        task("a", TaskStatus::Pending, Priority::Low, "home"),
        task("b", TaskStatus::Pending, Priority::Low, "work"),
        task("c", TaskStatus::Pending, Priority::Low, "work"),
    ];
    assert_eq!(most_frequent_category(&tasks), Some((1, 2)));
}

#[test]
fn patterns_come_in_the_order_of_detection() {
    let mut high = task("a", TaskStatus::Pending, Priority::High, "work");
    high.actual_time = Some(500);
    let tasks = vec![high, done("b", Some(30)), done("c", Some(45))];
    assert_eq!(
        analyze_patterns(&tasks),
        vec![
            "Most frequent category: work (3 tasks)".to_string(),
            "Average completion time: 37.5 minutes".to_string(),
            "33% of tasks are high priority".to_string(),
        ]
    );
}

#[test]
fn average_is_written_with_one_rounded_decimal() {
    let line = |times: &[i32]| -> String {
        let tasks: Vec<Task> =
            times.iter().enumerate().map(|(i, m)| done(&format!("t{}", i), Some(*m))).collect();
        analyze_patterns(&tasks)[1].clone()
    };
    assert_eq!(line(&[1, 2, 2]), "Average completion time: 1.7 minutes");
    assert_eq!(line(&[10]), "Average completion time: 10.0 minutes");
    assert_eq!(line(&[0, 0, 0, 1]), "Average completion time: 0.2 minutes");
    assert_eq!(line(&[0, 0, 1, 2]), "Average completion time: 0.8 minutes");
    assert_eq!(line(&[1, 1, 1]), "Average completion time: 1.0 minutes");
    assert_eq!(line(&[99, 100, 100]), "Average completion time: 99.7 minutes");
    assert_eq!(line(&[-5, -6]), "Average completion time: -5.5 minutes");
    assert_eq!(line(&[0, 0, 0, 0, 0, 0, 0, 0, 0, 0, 0, 0, 0, 0, 0, 0, 0, 0, 0, 0, -1]),
        "Average completion time: 0.0 minutes");
    assert_eq!(line(&[i32::MAX, i32::MAX]), "Average completion time: 2147483647.0 minutes");
}

#[test]
fn high_priority_share_is_rounded_to_whole_per_cent() {
    let share = |high: usize, total: usize| -> String {
        let tasks: Vec<Task> = (0..total)
            .map(|i| {
                let p = if i < high { Priority::Critical } else { Priority::Medium };
                task(&format!("t{}", i), TaskStatus::Pending, p, "work")
            })
            .collect();
        analyze_patterns(&tasks).last().unwrap().clone()
    };
    assert_eq!(share(1, 3), "33% of tasks are high priority");
    assert_eq!(share(2, 3), "67% of tasks are high priority");
    assert_eq!(share(1, 8), "12% of tasks are high priority");
    assert_eq!(share(3, 8), "38% of tasks are high priority");
    assert_eq!(share(5, 5), "100% of tasks are high priority");
    assert_eq!(share(1, 200), "0% of tasks are high priority");
    assert_eq!(share(0, 2), "Most frequent category: work (2 tasks)");
}
