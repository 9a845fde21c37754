//! Insights: short pieces of guidance, either read off a model's reply or
//! derived from the task list by fixed rules.

use crate::analytics::{count_passing, count_tasks, lemma_count_bounded, round_half_even, rounded_quotient, TaskFilter};
use crate::models::{Task, TaskStatus};
use crate::text::{decimal, decimal_string, lines, split_lines, trim, trimmed, views};
use crate::time::{hour_of_day, Timestamp};
use vstd::prelude::*;
use vstd::string::*;

verus! {

/// The advice for an empty task list.
pub open spec fn start_insight() -> Seq<char> {
    "Start by adding your daily tasks to track progress effectively."@
}

fn start_insight_text() -> (s: String)
    ensures
        s@ == start_insight(),
{
    let s = String::from_str("Start by adding your daily tasks to track progress effectively.");
    s
}

/// The praise for a completion rate of `percent` per cent.
pub open spec fn excellent_insight(percent: nat) -> Seq<char> {
    "Excellent progress! You've completed "@ + decimal(percent) + "% of your tasks. 🎉"@
}

fn excellent_insight_text(percent: u128) -> (s: String)
    ensures
        s@ == excellent_insight(percent as nat),
{
    let mut s = String::from_str("Excellent progress! You've completed ");
    s.append(decimal_string(percent as u128).as_str());
    s.append("% of your tasks. 🎉");
    s
}

/// The advice when `remaining` tasks are left of a list that is at least half done.
pub open spec fn momentum_insight(remaining: nat) -> Seq<char> {
    "Good momentum! Focus on completing the remaining "@ + decimal(remaining) + " tasks."@
}

fn momentum_insight_text(remaining: u128) -> (s: String)
    ensures
        s@ == momentum_insight(remaining as nat),
{
    let mut s = String::from_str("Good momentum! Focus on completing the remaining ");
    s.append(decimal_string(remaining as u128).as_str());
    s.append(" tasks.");
    s
}

/// The advice when `count` tasks of high priority are open.
pub open spec fn attention_insight(count: nat) -> Seq<char> {
    decimal(count) + " high-priority tasks need attention. Consider tackling these first."@
}

fn attention_insight_text(count: u128) -> (s: String)
    ensures
        s@ == attention_insight(count as nat),
{
    let mut s = decimal_string(count as u128);
    s.append(" high-priority tasks need attention. Consider tackling these first.");
    s
}

/// The advice when nothing else applies.
pub open spec fn breakdown_insight() -> Seq<char> {
    "Break down large tasks into smaller, manageable chunks for better progress."@
}

fn breakdown_insight_text() -> (s: String)
    ensures
        s@ == breakdown_insight(),
{
    let s = String::from_str("Break down large tasks into smaller, manageable chunks for better progress.");
    s
}

/// The warning about `count` overdue tasks.
pub open spec fn overdue_insight(count: nat) -> Seq<char> {
    decimal(count) + " tasks are overdue. Prioritize these to get back on track."@
}

fn overdue_insight_text(count: u128) -> (s: String)
    ensures
        s@ == overdue_insight(count as nat),
{
    let mut s = decimal_string(count as u128);
    s.append(" tasks are overdue. Prioritize these to get back on track.");
    s
}

/// The tip for the hours 9 to 11.
pub open spec fn peak_hours_tip() -> Seq<char> {
    "Peak productivity hours: 9-11 AM. Use this time for challenging tasks."@
}

fn peak_hours_tip_text() -> (s: String)
    ensures
        s@ == peak_hours_tip(),
{
    let s = String::from_str("Peak productivity hours: 9-11 AM. Use this time for challenging tasks.");
    s
}

/// The tip for the hours 14 to 16.
pub open spec fn post_lunch_tip() -> Seq<char> {
    "Post-lunch dip is normal. Consider lighter tasks or a short break."@
}

fn post_lunch_tip_text() -> (s: String)
    ensures
        s@ == post_lunch_tip(),
{
    let s = String::from_str("Post-lunch dip is normal. Consider lighter tasks or a short break.");
    s
}

/// The tip for the hours 17 to 19.
pub open spec fn end_of_day_tip() -> Seq<char> {
    "End of workday approaching. Review what you've accomplished today."@
}

fn end_of_day_tip_text() -> (s: String)
    ensures
        s@ == end_of_day_tip(),
{
    let s = String::from_str("End of workday approaching. Review what you've accomplished today.");
    s
}

/// The line that stands in for an empty list of insights.
pub open spec fn encouragement() -> Seq<char> {
    "Stay focused on your goals. Small consistent progress leads to big results!"@
}

fn encouragement_text() -> (s: String)
    ensures
        s@ == encouragement(),
{
    let s = String::from_str("Stay focused on your goals. Small consistent progress leads to big results!");
    s
}

/// The first rung of the ladder that applies gives the leading insight: no
/// task at all; at least 80 per cent completed; at least 50 per cent
/// completed; an open task of high priority; none of these.
pub open spec fn leading_insight(total: nat, completed: nat, high_open: nat) -> Seq<char> {
    if total == 0 {
        start_insight()
    } else if 100 * completed >= 80 * total {
        excellent_insight(round_half_even(100 * completed, total))
    } else if 100 * completed >= 50 * total {
        momentum_insight((total - completed) as nat)
    } else if high_open > 0 {
        attention_insight(high_open)
    } else {
        breakdown_insight()
    }
}

/// The warning that follows when tasks are overdue.
pub open spec fn overdue_insights(overdue: nat) -> Seq<Seq<char>> {
    if overdue > 0 {
        seq![overdue_insight(overdue)]
    } else {
        Seq::empty()
    }
}

/// The tip for the hour of the day, where there is one.
pub open spec fn hour_insights(hour: int) -> Seq<Seq<char>> {
    if 9 <= hour <= 11 {
        seq![peak_hours_tip()]
    } else if 14 <= hour <= 16 {
        seq![post_lunch_tip()]
    } else if 17 <= hour <= 19 {
        seq![end_of_day_tip()]
    } else {
        Seq::empty()
    }
}

/// `list` cut to its first three entries.
pub open spec fn first_three(list: Seq<Seq<char>>) -> Seq<Seq<char>> {
    if list.len() > 3 {
        list.take(3)
    } else {
        list
    }
}

/// A list of insights made presentable: an empty list gives way to one line
/// of encouragement, a longer one is cut to three entries.
pub open spec fn presentable(list: Seq<Seq<char>>) -> Seq<Seq<char>> {
    if list.len() == 0 {
        seq![encouragement()]
    } else {
        first_three(list)
    }
}

/// The insights that the rules derive from `tasks` at the instant `now`.
pub open spec fn fallback_insights_of(tasks: Seq<Task>, now: Timestamp) -> Seq<Seq<char>> {
    presentable(
        seq![
            leading_insight(
                tasks.len(),
                count_passing(tasks, TaskFilter::Status(TaskStatus::Completed)),
                count_passing(tasks, TaskFilter::HighPriorityOpen),
            ),
        ] + overdue_insights(count_passing(tasks, TaskFilter::OverdueAt(now))) + hour_insights(
            hour_of_day(now),
        ),
    )
}

/// The lines of `all` that hold more than whitespace, each trimmed.
pub open spec fn nonblank_trimmed(all: Seq<Seq<char>>) -> Seq<Seq<char>>
    decreases all.len(),
{
    if all.len() == 0 {
        all
    } else if trimmed(all.last()).len() > 0 {
        nonblank_trimmed(all.drop_last()).push(trimmed(all.last()))
    } else {
        nonblank_trimmed(all.drop_last())
    }
}

/// The insights read off a model's answer: the answer is trimmed and split
/// into lines, blank lines are dropped, and the first three of the others
/// are taken, each trimmed. An answer without such a line gives none.
pub open spec fn remote_insights(content: Seq<char>) -> Seq<Seq<char>> {
    first_three(nonblank_trimmed(lines(trimmed(content))))
}

fn leading_insight_text(total: usize, completed: usize, high_open: usize) -> (s: String)
    requires
        completed <= total,
    ensures
        s@ == leading_insight(total as nat, completed as nat, high_open as nat),
{
    if total == 0 {
        start_insight_text()
    } else if 100 * (completed as u128) >= 80 * (total as u128) {
        excellent_insight_text(rounded_quotient(100 * (completed as u128), total as u64))
    } else if 100 * (completed as u128) >= 50 * (total as u128) {
        momentum_insight_text((total - completed) as u128)
    } else if high_open > 0 {
        attention_insight_text(high_open as u128)
    } else {
        breakdown_insight_text()
    }
}

/// Makes a list of insights presentable.
pub fn make_presentable(list: Vec<String>) -> (out: Vec<String>)
    ensures
        views(out@) == presentable(views(list@)),
        1 <= out@.len() <= 3,
{
    let mut out = list;
    if out.len() == 0 {
        out.push(encouragement_text());
        assert(views(out@) =~= seq![encouragement()]);
    } else {
        out.truncate(3);
        assert(views(out@) =~= first_three(views(list@)));
    }
    out
}

/// Derives insights from `tasks` by the fixed rules, at the instant `now`.
/// The result depends on nothing else, and holds one to three entries.
pub fn fallback_insights(tasks: &[Task], now: Timestamp) -> (insights: Vec<String>)
    ensures
        views(insights@) == fallback_insights_of(tasks@, now),
        1 <= insights@.len() <= 3,
{
    let completed = count_tasks(tasks, &TaskFilter::Status(TaskStatus::Completed));
    let total = tasks.len();
    let high_open = count_tasks(tasks, &TaskFilter::HighPriorityOpen);
    let overdue = count_tasks(tasks, &TaskFilter::OverdueAt(now));
    proof {
        lemma_count_bounded(tasks@, TaskFilter::Status(TaskStatus::Completed));
    }
    let mut insights: Vec<String> = Vec::new();
    insights.push(leading_insight_text(total, completed, high_open));
    let ghost leading = views(insights@);
    if overdue > 0 {
        insights.push(overdue_insight_text(overdue as u128));
    }
    let ghost with_overdue = views(insights@);
    assert(with_overdue =~= leading + overdue_insights(overdue as nat));
    let hour = now.hour();
    if 9 <= hour && hour <= 11 {
        insights.push(peak_hours_tip_text());
    } else if 14 <= hour && hour <= 16 {
        insights.push(post_lunch_tip_text());
    } else if 17 <= hour && hour <= 19 {
        insights.push(end_of_day_tip_text());
    }
    assert(views(insights@) =~= with_overdue + hour_insights(hour as int));
    assert(leading =~= seq![
        leading_insight(total as nat, completed as nat, high_open as nat),
    ]);
    make_presentable(insights)
}

/// Reads up to three insights off a model's answer.
pub fn insights_from_content(content: &str) -> (insights: Vec<String>)
    ensures
        views(insights@) == remote_insights(content@),
        insights@.len() <= 3,
{
    let all = split_lines(trim(content));
    let mut insights: Vec<String> = Vec::new();
    let mut i: usize = 0;
    while i < all.len()
        invariant
            i <= all.len(),
            views(insights@) == first_three(nonblank_trimmed(views(all@).take(i as int))),
        decreases all.len() - i,
    {
        let ghost before = views(all@).take(i as int);
        let ghost kept = nonblank_trimmed(before);
        assert(views(all@).take(i as int + 1).drop_last() =~= before);
        assert(views(all@).take(i as int + 1).last() == all@[i as int]@);
        let line = trim(all[i].as_str());
        if !line.is_empty() {
            if insights.len() < 3 {
                let ghost old_views = views(insights@);
                insights.push(String::from_str(line));
                assert(views(insights@) =~= old_views.push(line@));
            } else {
                assert(kept.push(line@).take(3) =~= kept.take(3));
            }
        }
        i += 1;
    }
    assert(views(all@).take(all.len() as int) =~= views(all@));
    insights
}

} // verus!
