use chicandoit::insights::{fallback_insights, insights_from_content, make_presentable};
use chicandoit::models::{Priority, Task, TaskStatus};
use chicandoit::time::Timestamp;

const PEAK: &str = "Peak productivity hours: 9-11 AM. Use this time for challenging tasks.";
const POST_LUNCH: &str = "Post-lunch dip is normal. Consider lighter tasks or a short break.";
const END_OF_DAY: &str = "End of workday approaching. Review what you've accomplished today.";

fn at_hour(hour: i64) -> Timestamp {
    Timestamp::new(20_000 * 86_400 + hour * 3_600 + 125, 0)
}

fn tasks(total: usize, completed: usize, high_open: usize, overdue: usize, now: Timestamp) -> Vec<Task> {
    let mut list = Vec::new();
    for i in 0..total {
        let open_index = i.wrapping_sub(completed);
        let is_done = i < completed;
        list.push(Task {
            id: format!("t{}", i),
            title: format!("task {}", i),
            description: None,
            priority: if !is_done && open_index < high_open { Priority::High } else { Priority::Low },
            status: if is_done { TaskStatus::Completed } else { TaskStatus::Pending },
            category: "work".to_string(),
            estimated_time: 10,
            actual_time: None,
            due_date: if !is_done && open_index < overdue {
                Some(Timestamp::new(now.secs - 1, 0))
            } else {
                None
            },
            created_at: Timestamp::new(0, 0),
            updated_at: Timestamp::new(0, 0),
            completed_at: None,
        });
    }
    list
}

#[test]
fn eight_of_ten_done_one_overdue_at_ten_gives_three_insights() {
    let now = at_hour(10);
    let list = tasks(10, 8, 0, 1, now);
    let insights = fallback_insights(&list, now);
    assert_eq!(
        insights,
        vec![
            "Excellent progress! You've completed 80% of your tasks. \u{1F389}".to_string(),
            "1 tasks are overdue. Prioritize these to get back on track.".to_string(),
            PEAK.to_string(),
        ]
    );
    assert_eq!(fallback_insights(&list, now), insights);
}

#[test]
fn no_tasks_give_the_start_message() {
    assert_eq!(
        fallback_insights(&[], at_hour(3)),
        vec!["Start by adding your daily tasks to track progress effectively.".to_string()]
    );
    assert_eq!(
        fallback_insights(&[], at_hour(15)),
        vec![
            "Start by adding your daily tasks to track progress effectively.".to_string(),
            POST_LUNCH.to_string(),
        ]
    );
}

#[test]
fn ladder_takes_the_first_rung_that_applies() {
    let now = at_hour(0);
    assert_eq!(
        fallback_insights(&tasks(10, 5, 3, 0, now), now),
        vec!["Good momentum! Focus on completing the remaining 5 tasks.".to_string()]
    );
    assert_eq!(
        fallback_insights(&tasks(10, 7, 3, 0, now), now),
        vec!["Good momentum! Focus on completing the remaining 3 tasks.".to_string()]
    );
    assert_eq!(
        fallback_insights(&tasks(10, 4, 2, 0, now), now),
        vec!["2 high-priority tasks need attention. Consider tackling these first.".to_string()]
    );
    assert_eq!(
        fallback_insights(&tasks(10, 4, 0, 0, now), now),
        vec!["Break down large tasks into smaller, manageable chunks for better progress."
            .to_string()]
    );
    assert_eq!(
        fallback_insights(&tasks(1, 0, 0, 0, now), now),
        vec!["Break down large tasks into smaller, manageable chunks for better progress."
            .to_string()]
    );
}

#[test]
fn completion_percentage_is_rounded() {
    let now = at_hour(0);
    let first = |total: usize, completed: usize| -> String {
        fallback_insights(&tasks(total, completed, 0, 0, now), now)[0].clone()
    };
    assert_eq!(first(4, 4), "Excellent progress! You've completed 100% of your tasks. \u{1F389}");
    assert_eq!(first(11, 9), "Excellent progress! You've completed 82% of your tasks. \u{1F389}");
    assert_eq!(first(6, 5), "Excellent progress! You've completed 83% of your tasks. \u{1F389}");
    assert_eq!(first(200, 161), "Excellent progress! You've completed 80% of your tasks. \u{1F389}");
    assert_eq!(first(200, 163), "Excellent progress! You've completed 82% of your tasks. \u{1F389}");
    assert_eq!(first(5, 4), "Excellent progress! You've completed 80% of your tasks. \u{1F389}");
    assert_eq!(first(100, 79), "Good momentum! Focus on completing the remaining 21 tasks.");
    assert_eq!(first(2, 1), "Good momentum! Focus on completing the remaining 1 tasks.");
    assert_eq!(
        first(100, 49),
        "Break down large tasks into smaller, manageable chunks for better progress."
    );
}

#[test]
fn hour_buckets_pick_the_tip() {
    let tip = |hour: i64| -> Option<String> {
        let insights = fallback_insights(&[], at_hour(hour));
        insights.get(1).cloned()
    };
    for hour in [0, 1, 8, 12, 13, 20, 23] {
        assert_eq!(tip(hour), None);
    }
    for hour in [9, 10, 11] {
        assert_eq!(tip(hour).as_deref(), Some(PEAK));
    }
    for hour in [14, 15, 16] {
        assert_eq!(tip(hour).as_deref(), Some(POST_LUNCH));
    }
    for hour in [17, 18, 19] {
        assert_eq!(tip(hour).as_deref(), Some(END_OF_DAY));
    }
}

#[test]
fn overdue_message_counts_the_overdue() {
    let now = at_hour(18);
    assert_eq!(
        fallback_insights(&tasks(10, 2, 4, 3, now), now),
        vec![
            "4 high-priority tasks need attention. Consider tackling these first.".to_string(),
            "3 tasks are overdue. Prioritize these to get back on track.".to_string(),
            END_OF_DAY.to_string(),
        ]
    );
}

#[test]
fn fallback_always_gives_one_to_three_insights() {
    for total in 0..6usize {
        for completed in 0..=total {
            for hour in 0..24 {
                let now = at_hour(hour);
                let n = fallback_insights(&tasks(total, completed, 1, 1, now), now).len();
                assert!((1..=3).contains(&n));
            }
        }
    }
}

#[test]
fn presentable_lists_are_never_empty_nor_longer_than_three() {
    assert_eq!(
        make_presentable(Vec::new()),
        vec!["Stay focused on your goals. Small consistent progress leads to big results!"
            .to_string()]
    );
    let four: Vec<String> = ["a", "b", "c", "d"].iter().map(|s| s.to_string()).collect();
    assert_eq!(make_presentable(four), vec!["a".to_string(), "b".to_string(), "c".to_string()]);
    let two: Vec<String> = ["a", "b"].iter().map(|s| s.to_string()).collect();
    assert_eq!(make_presentable(two.clone()), two);
}

#[test]
fn remote_content_gives_its_first_three_nonblank_lines_trimmed() {
    assert_eq!(
        insights_from_content("  1. Do the hard thing first \n\n   \n2. Take breaks\n3. Review\n4. More\n"),
        vec!["1. Do the hard thing first".to_string(), "2. Take breaks".to_string(), "3. Review".to_string()]
    );
    assert_eq!(insights_from_content("only one"), vec!["only one".to_string()]);
    assert_eq!(insights_from_content("a\r\nb"), vec!["a".to_string(), "b".to_string()]);
}

#[test]
fn blank_remote_content_gives_no_insight() {
    assert!(insights_from_content("").is_empty());
    assert!(insights_from_content(" \n\t\n  ").is_empty());
}
