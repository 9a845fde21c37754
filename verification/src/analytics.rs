//! Aggregates over a snapshot of tasks: counts, completion rate, mean
//! recorded time, and the patterns read off them.

use crate::models::{overdue_at, Fraction, Priority, ProductivityStats, Task, TaskStatus};
use crate::text::{decimal, decimal_string, digit_char, views};
use crate::time::Timestamp;
use vstd::prelude::*;
use vstd::string::*;

verus! {

/// A test on a single task.
#[derive(Debug)]
pub enum TaskFilter {
    /// The task has this status.
    Status(TaskStatus),
    /// The task is overdue at this instant.
    OverdueAt(Timestamp),
    /// The task's priority is `High` or `Critical`.
    HighPriority,
    /// The task's priority is `High` or `Critical` and it is not completed.
    HighPriorityOpen,
    /// The task is completed and has recorded the time it took.
    CompletedWithTime,
    /// The task's category reads like this text.
    Category(String),
}

/// Whether the priority of `task` is `High` or `Critical`.
pub open spec fn is_high_priority(task: Task) -> bool {
    task.priority == Priority::High || task.priority == Priority::Critical
}

/// Whether `task` passes `filter`.
pub open spec fn passes(task: Task, filter: TaskFilter) -> bool {
    match filter {
        TaskFilter::Status(status) => task.status == status,
        TaskFilter::OverdueAt(now) => overdue_at(task, now),
        TaskFilter::HighPriority => is_high_priority(task),
        TaskFilter::HighPriorityOpen => is_high_priority(task) && task.status
            != TaskStatus::Completed,
        TaskFilter::CompletedWithTime => task.status == TaskStatus::Completed
            && task.actual_time is Some,
        TaskFilter::Category(name) => task.category@ == name@,
    }
}

/// How many of `tasks` pass `filter`.
pub open spec fn count_passing(tasks: Seq<Task>, filter: TaskFilter) -> nat
    decreases tasks.len(),
{
    if tasks.len() == 0 {
        0
    } else {
        count_passing(tasks.drop_last(), filter) + if passes(tasks.last(), filter) {
            1nat
        } else {
            0nat
        }
    }
}

/// The recorded minutes of the completed tasks among `tasks`, added up.
pub open spec fn recorded_minutes(tasks: Seq<Task>) -> int
    decreases tasks.len(),
{
    if tasks.len() == 0 {
        0
    } else {
        recorded_minutes(tasks.drop_last()) + if passes(
            tasks.last(),
            TaskFilter::CompletedWithTime,
        ) {
            tasks.last().actual_time->0 as int
        } else {
            0
        }
    }
}

/// No more tasks pass a filter than there are tasks.
pub proof fn lemma_count_bounded(tasks: Seq<Task>, filter: TaskFilter)
    ensures
        count_passing(tasks, filter) <= tasks.len(),
    decreases tasks.len(),
{
    if tasks.len() > 0 {
        lemma_count_bounded(tasks.drop_last(), filter);
    }
}

/// Tasks counted under two different statuses are different tasks.
pub proof fn lemma_statuses_disjoint(tasks: Seq<Task>, a: TaskStatus, b: TaskStatus)
    requires
        a != b,
    ensures
        count_passing(tasks, TaskFilter::Status(a)) + count_passing(tasks, TaskFilter::Status(b))
            <= tasks.len(),
    decreases tasks.len(),
{
    if tasks.len() > 0 {
        lemma_statuses_disjoint(tasks.drop_last(), a, b);
    }
}

/// Each recorded time is a 32-bit number, so the sum stays within 2^31 times
/// the number of tasks.
pub proof fn lemma_recorded_minutes_bounded(tasks: Seq<Task>)
    ensures
        -0x8000_0000 * tasks.len() <= recorded_minutes(tasks) <= 0x8000_0000 * tasks.len(),
    decreases tasks.len(),
{
    if tasks.len() > 0 {
        lemma_recorded_minutes_bounded(tasks.drop_last());
    }
}

/// The statistics of `tasks` at the instant `now`.
pub open spec fn stats_of(tasks: Seq<Task>, now: Timestamp) -> ProductivityStatsView {
    let completed = count_passing(tasks, TaskFilter::Status(TaskStatus::Completed));
    let timed = count_passing(tasks, TaskFilter::CompletedWithTime);
    ProductivityStatsView {
        total_tasks: tasks.len(),
        completed_tasks: completed,
        pending_tasks: count_passing(tasks, TaskFilter::Status(TaskStatus::Pending)),
        overdue_tasks: count_passing(tasks, TaskFilter::OverdueAt(now)),
        completion_rate: if tasks.len() == 0 {
            (0, 1)
        } else {
            ((100 * completed) as int, tasks.len() as int)
        },
        average_completion_time: if timed == 0 {
            None
        } else {
            Some((recorded_minutes(tasks), timed as int))
        },
    }
}

/// Statistics over mathematical integers; a fraction is the pair of its
/// numerator and its denominator.
pub struct ProductivityStatsView {
    pub total_tasks: nat,
    pub completed_tasks: nat,
    pub pending_tasks: nat,
    pub overdue_tasks: nat,
    pub completion_rate: (int, int),
    pub average_completion_time: Option<(int, int)>,
}

/// A fraction as the pair of its numerator and its denominator.
pub open spec fn fraction_view(f: Fraction) -> (int, int) {
    (f.numerator as int, f.denominator as int)
}

impl View for ProductivityStats {
    type V = ProductivityStatsView;

    open spec fn view(&self) -> ProductivityStatsView {
        ProductivityStatsView {
            total_tasks: self.total_tasks as nat,
            completed_tasks: self.completed_tasks as nat,
            pending_tasks: self.pending_tasks as nat,
            overdue_tasks: self.overdue_tasks as nat,
            completion_rate: fraction_view(self.completion_rate),
            average_completion_time: match self.average_completion_time {
                Some(f) => Some(fraction_view(f)),
                None => None,
            },
        }
    }
}

/// Whether `task` passes `filter`.
pub fn task_passes(task: &Task, filter: &TaskFilter) -> (b: bool)
    ensures
        b == passes(*task, *filter),
{
    match filter {
        TaskFilter::Status(status) => task.status == *status,
        TaskFilter::OverdueAt(now) => task.is_overdue_at(now),
        TaskFilter::HighPriority => task.priority == Priority::High || task.priority
            == Priority::Critical,
        TaskFilter::HighPriorityOpen => (task.priority == Priority::High || task.priority
            == Priority::Critical) && task.status != TaskStatus::Completed,
        TaskFilter::CompletedWithTime => task.status == TaskStatus::Completed
            && task.actual_time.is_some(),
        TaskFilter::Category(name) => task.category == *name,
    }
}

/// Counts the tasks that pass `filter`.
pub fn count_tasks(tasks: &[Task], filter: &TaskFilter) -> (n: usize)
    ensures
        n == count_passing(tasks@, *filter),
{
    let mut n: usize = 0;
    let mut i: usize = 0;
    while i < tasks.len()
        invariant
            i <= tasks.len(),
            n <= i,
            n == count_passing(tasks@.take(i as int), *filter),
        decreases tasks.len() - i,
    {
        assert(tasks@.take(i as int + 1).drop_last() =~= tasks@.take(i as int));
        if task_passes(&tasks[i], filter) {
            n += 1;
        }
        i += 1;
    }
    assert(tasks@.take(tasks.len() as int) =~= tasks@);
    n
}

/// Adds up the recorded minutes of the completed tasks.
pub fn sum_recorded_minutes(tasks: &[Task]) -> (sum: i128)
    ensures
        sum == recorded_minutes(tasks@),
{
    let mut sum: i128 = 0;
    let mut i: usize = 0;
    while i < tasks.len()
        invariant
            i <= tasks.len(),
            sum == recorded_minutes(tasks@.take(i as int)),
            -0x8000_0000 * i <= sum <= 0x8000_0000 * i,
        decreases tasks.len() - i,
    {
        assert(tasks@.take(i as int + 1).drop_last() =~= tasks@.take(i as int));
        if tasks[i].status == TaskStatus::Completed {
            if let Some(minutes) = tasks[i].actual_time {
                sum = sum + minutes as i128;
            }
        }
        i += 1;
    }
    assert(tasks@.take(tasks.len() as int) =~= tasks@);
    sum
}

/// Computes the statistics of `tasks` at the instant `now`. The three lists
/// of the result stay empty.
pub fn compute_stats(tasks: &[Task], now: Timestamp) -> (stats: ProductivityStats)
    ensures
        stats@ == stats_of(tasks@, now),
        stats.most_productive_hours@.len() == 0,
        stats.common_categories@.len() == 0,
        stats.weekly_progress@.len() == 0,
{
    let total = tasks.len();
    let completed = count_tasks(tasks, &TaskFilter::Status(TaskStatus::Completed));
    let pending = count_tasks(tasks, &TaskFilter::Status(TaskStatus::Pending));
    let overdue = count_tasks(tasks, &TaskFilter::OverdueAt(now));
    let timed = count_tasks(tasks, &TaskFilter::CompletedWithTime);
    proof {
        lemma_count_bounded(tasks@, TaskFilter::Status(TaskStatus::Completed));
    }
    let completion_rate = if total == 0 {
        Fraction { numerator: 0, denominator: 1 }
    } else {
        Fraction { numerator: 100 * (completed as i128), denominator: total as u64 }
    };
    let average_completion_time = if timed == 0 {
        None
    } else {
        Some(Fraction { numerator: sum_recorded_minutes(tasks), denominator: timed as u64 })
    };
    ProductivityStats {
        total_tasks: total,
        completed_tasks: completed,
        pending_tasks: pending,
        overdue_tasks: overdue,
        completion_rate,
        average_completion_time,
        most_productive_hours: Vec::new(),
        common_categories: Vec::new(),
        weekly_progress: Vec::new(),
    }
}

/// `num / den` rounded to the nearest whole number; a quotient that lies
/// exactly between two whole numbers goes to the even one.
pub open spec fn round_half_even(num: nat, den: nat) -> nat {
    let q = num / den;
    let r = num % den;
    if 2 * r < den || (2 * r == den && q % 2 == 0) {
        q
    } else {
        q + 1
    }
}

/// `num / den` written with one digit after the point, rounded as
/// `round_half_even` rounds. A negative quotient that rounds to zero is
/// written without a sign.
pub open spec fn one_decimal(num: int, den: nat) -> Seq<char> {
    let magnitude = if num < 0 {
        -num
    } else {
        num
    };
    let tenths = round_half_even((10 * magnitude) as nat, den);
    let sign = if num < 0 && tenths > 0 {
        seq!['-']
    } else {
        Seq::empty()
    };
    sign + decimal(tenths / 10) + seq!['.', digit_char((tenths % 10) as int)]
}

/// How many of `tasks` share the category of the task at `index`.
pub open spec fn category_count_at(tasks: Seq<Task>, index: int) -> nat {
    count_passing(tasks, TaskFilter::Category(tasks[index].category))
}

/// The task at `index` is the first whose category no other category
/// outnumbers: of several categories with the highest count, the one that
/// appears first among the tasks wins.
pub open spec fn is_most_frequent_at(tasks: Seq<Task>, index: int) -> bool {
    &&& 0 <= index < tasks.len()
    &&& forall|j: int|
        0 <= j < tasks.len() ==> #[trigger] category_count_at(tasks, j) <= category_count_at(
            tasks,
            index,
        )
    &&& forall|j: int|
        0 <= j < index ==> #[trigger] category_count_at(tasks, j) < category_count_at(
            tasks,
            index,
        )
}

/// The index that `is_most_frequent_at` singles out.
pub open spec fn most_frequent_index(tasks: Seq<Task>) -> int {
    choose|index: int| is_most_frequent_at(tasks, index)
}

/// At most one index is the most frequent one.
pub proof fn lemma_most_frequent_unique(tasks: Seq<Task>, a: int, b: int)
    requires
        is_most_frequent_at(tasks, a),
        is_most_frequent_at(tasks, b),
    ensures
        a == b,
{
    if a < b {
        assert(category_count_at(tasks, a) < category_count_at(tasks, b));
        assert(category_count_at(tasks, b) <= category_count_at(tasks, a));
    } else if b < a {
        assert(category_count_at(tasks, b) < category_count_at(tasks, a));
        assert(category_count_at(tasks, a) <= category_count_at(tasks, b));
    }
}

/// The finding that `count` tasks have the category `name`, more than any other.
pub open spec fn category_pattern(name: Seq<char>, count: nat) -> Seq<char> {
    "Most frequent category: "@ + name + " ("@ + decimal(count) + " tasks)"@
}

/// The finding that `count` completed tasks recorded `minutes` minutes in all.
pub open spec fn average_pattern(minutes: int, count: nat) -> Seq<char> {
    "Average completion time: "@ + one_decimal(minutes, count) + " minutes"@
}

/// The finding that `high` of `total` tasks have high or critical priority.
pub open spec fn priority_pattern(high: nat, total: nat) -> Seq<char> {
    decimal(round_half_even(100 * high, total)) + "% of tasks are high priority"@
}

/// The findings about `tasks`, in the order in which they are looked for:
/// the most frequent category, unless there is no task; the mean recorded
/// time of the completed tasks, unless none recorded any; the share of tasks
/// with high or critical priority, unless there is none.
pub open spec fn patterns_of(tasks: Seq<Task>) -> Seq<Seq<char>> {
    let timed = count_passing(tasks, TaskFilter::CompletedWithTime);
    let high = count_passing(tasks, TaskFilter::HighPriority);
    let category = if tasks.len() > 0 {
        seq![
            category_pattern(
                tasks[most_frequent_index(tasks)].category@,
                category_count_at(tasks, most_frequent_index(tasks)),
            ),
        ]
    } else {
        Seq::empty()
    };
    let average = if timed > 0 {
        seq![average_pattern(recorded_minutes(tasks), timed)]
    } else {
        Seq::empty()
    };
    let priority = if high > 0 {
        seq![priority_pattern(high, tasks.len())]
    } else {
        Seq::empty()
    };
    category + average + priority
}

/// Rounds `num / den` to the nearest whole number, ties to the even one.
pub(crate) fn rounded_quotient(num: u128, den: u64) -> (rounded: u128)
    requires
        den > 0,
        num < u128::MAX,
    ensures
        rounded == round_half_even(num as nat, den as nat),
{
    let q: u128 = num / (den as u128);
    let r: u128 = num % (den as u128);
    if 2 * r < den as u128 || (2 * r == den as u128 && q % 2 == 0) {
        q
    } else {
        q + 1
    }
}

/// Writes `num / den` with one digit after the point.
pub(crate) fn one_decimal_string(num: i128, den: u64) -> (s: String)
    requires
        den > 0,
        -0x1_0000_0000_0000_0000_0000_0000 <= num <= 0x1_0000_0000_0000_0000_0000_0000,
    ensures
        s@ == one_decimal(num as int, den as nat),
{
    let magnitude: u128 = if num < 0 {
        (-num) as u128
    } else {
        num as u128
    };
    let tenths = rounded_quotient(10 * magnitude, den);
    let mut s = String::new();
    if num < 0 && tenths > 0 {
        s.append("-");
    }
    let whole = decimal_string(tenths / 10);
    let tenth = decimal_string(tenths % 10);
    s.append(whole.as_str());
    s.append(".");
    s.append(tenth.as_str());
    proof {
        reveal_strlit("-");
        reveal_strlit(".");
        assert(decimal((tenths % 10) as nat) =~= seq![digit_char((tenths % 10) as int)]);
        assert(s@ =~= one_decimal(num as int, den as nat));
    }
    s
}

/// Finds the most frequent category: the index of the first task that has
/// it, and the number of tasks that have it. `None` when there is no task.
pub fn most_frequent_category(tasks: &[Task]) -> (found: Option<(usize, usize)>)
    ensures
        found is None <==> tasks@.len() == 0,
        found matches Some((index, count)) ==> is_most_frequent_at(tasks@, index as int) && count
            == category_count_at(tasks@, index as int),
{
    if tasks.len() == 0 {
        return None;
    }
    let mut best: usize = 0;
    let mut best_count: usize = count_tasks(tasks, &TaskFilter::Category(tasks[0].category.clone()));
    let mut i: usize = 1;
    while i < tasks.len()
        invariant
            1 <= i <= tasks.len(),
            best < i,
            best_count == category_count_at(tasks@, best as int),
            forall|j: int|
                0 <= j < i ==> #[trigger] category_count_at(tasks@, j) <= category_count_at(
                    tasks@,
                    best as int,
                ),
            forall|j: int|
                0 <= j < best ==> #[trigger] category_count_at(tasks@, j) < category_count_at(
                    tasks@,
                    best as int,
                ),
        decreases tasks.len() - i,
    {
        let count = count_tasks(tasks, &TaskFilter::Category(tasks[i].category.clone()));
        if count > best_count {
            best = i;
            best_count = count;
        }
        i += 1;
    }
    Some((best, best_count))
}

/// Reads the patterns off `tasks`.
pub fn analyze_patterns(tasks: &[Task]) -> (patterns: Vec<String>)
    ensures
        views(patterns@) == patterns_of(tasks@),
{
    let mut patterns: Vec<String> = Vec::new();
    if let Some((index, count)) = most_frequent_category(tasks) {
        proof {
            lemma_most_frequent_unique(tasks@, index as int, most_frequent_index(tasks@));
        }
        let mut line = String::from_str("Most frequent category: ");
        line.append(tasks[index].category.as_str());
        line.append(" (");
        line.append(decimal_string(count as u128).as_str());
        line.append(" tasks)");
        patterns.push(line);
    }
    let ghost category = views(patterns@);
    let timed = count_tasks(tasks, &TaskFilter::CompletedWithTime);
    if timed > 0 {
        let minutes = sum_recorded_minutes(tasks);
        proof {
            lemma_recorded_minutes_bounded(tasks@);
        }
        let mut line = String::from_str("Average completion time: ");
        line.append(one_decimal_string(minutes, timed as u64).as_str());
        line.append(" minutes");
        patterns.push(line);
    }
    let ghost average = views(patterns@);
    let high = count_tasks(tasks, &TaskFilter::HighPriority);
    if high > 0 {
        proof {
            lemma_count_bounded(tasks@, TaskFilter::HighPriority);
        }
        let percent = rounded_quotient(100 * (high as u128), tasks.len() as u64);
        let mut line = decimal_string(percent);
        line.append("% of tasks are high priority");
        patterns.push(line);
    }
    proof {
        assert(views(patterns@) =~= patterns_of(tasks@));
    }
    patterns
}

} // verus!
