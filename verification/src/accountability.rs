//! The accountability check-in: a short message that nudges towards the
//! next task, picked from five templates by the clock.

use crate::text::{decimal, decimal_string};
use crate::time::Timestamp;
use vstd::prelude::*;
use vstd::string::*;

verus! {

/// Accountability template 0.
pub open spec fn great_job_message(completed: nat, pending: nat) -> Seq<char> {
    "Great job completing "@ + decimal(completed) + " tasks! "@ + decimal(pending) + " more to go - you've got this! 💪"@
}

fn great_job_message_text(completed: u128, pending: u128) -> (s: String)
    ensures
        s@ == great_job_message(completed as nat, pending as nat),
{
    let mut s = String::from_str("Great job completing ");
    s.append(decimal_string(completed as u128).as_str());
    s.append(" tasks! ");
    s.append(decimal_string(pending as u128).as_str());
    s.append(" more to go - you've got this! 💪");
    s
}

/// Accountability template 1.
pub open spec fn time_check_message(completed: nat) -> Seq<char> {
    "Time check! You've finished "@ + decimal(completed) + " tasks. Which one will you tackle next?"@
}

fn time_check_message_text(completed: u128) -> (s: String)
    ensures
        s@ == time_check_message(completed as nat),
{
    let mut s = String::from_str("Time check! You've finished ");
    s.append(decimal_string(completed as u128).as_str());
    s.append(" tasks. Which one will you tackle next?");
    s
}

/// Accountability template 2.
pub open spec fn progress_message(completed: nat, total: nat) -> Seq<char> {
    "Progress update: "@ + decimal(completed) + "/"@ + decimal(total) + " tasks done. Keep up the momentum! 🚀"@
}

fn progress_message_text(completed: u128, total: u128) -> (s: String)
    ensures
        s@ == progress_message(completed as nat, total as nat),
{
    let mut s = String::from_str("Progress update: ");
    s.append(decimal_string(completed as u128).as_str());
    s.append("/");
    s.append(decimal_string(total as u128).as_str());
    s.append(" tasks done. Keep up the momentum! 🚀");
    s
}

/// Accountability template 3.
pub open spec fn priority_focus_message() -> Seq<char> {
    "Accountability moment: Focus on your next priority task. You're making solid progress! ✨"@
}

fn priority_focus_message_text() -> (s: String)
    ensures
        s@ == priority_focus_message(),
{
    let s = String::from_str("Accountability moment: Focus on your next priority task. You're making solid progress! ✨");
    s
}

/// Accountability template 4.
pub open spec fn closer_message(completed: nat) -> Seq<char> {
    "You're "@ + decimal(completed) + " tasks closer to your goals! Stay focused and keep pushing forward."@
}

fn closer_message_text(completed: u128) -> (s: String)
    ensures
        s@ == closer_message(completed as nat),
{
    let mut s = String::from_str("You're ");
    s.append(decimal_string(completed as u128).as_str());
    s.append(" tasks closer to your goals! Stay focused and keep pushing forward.");
    s
}

/// The template that falls to the second in which `now` lies: the seconds
/// since the epoch modulo five. The choice changes every second and comes
/// round again after five.
pub open spec fn template_index(now: Timestamp) -> int {
    (now.secs % 5) as int
}

/// The check-in message for `completed` finished and `pending` unfinished
/// tasks at the instant `now`.
pub open spec fn fallback_accountability(completed: nat, pending: nat, now: Timestamp) -> Seq<
    char,
> {
    let index = template_index(now);
    if index == 0 {
        great_job_message(completed, pending)
    } else if index == 1 {
        time_check_message(completed)
    } else if index == 2 {
        progress_message(completed, completed + pending)
    } else if index == 3 {
        priority_focus_message()
    } else {
        closer_message(completed)
    }
}

/// Picks and fills the check-in template for the instant `now`.
pub fn fallback_accountability_message(completed: usize, pending: usize, now: Timestamp) -> (message:
    String)
    ensures
        message@ == fallback_accountability(completed as nat, pending as nat, now),
{
    let index: i64 = match now.secs.checked_rem_euclid(5) {
        Some(r) => r,
        None => 0,
    };
    if index == 0 {
        great_job_message_text(completed as u128, pending as u128)
    } else if index == 1 {
        time_check_message_text(completed as u128)
    } else if index == 2 {
        progress_message_text(completed as u128, completed as u128 + pending as u128)
    } else if index == 3 {
        priority_focus_message_text()
    } else {
        closer_message_text(completed as u128)
    }
}

} // verus!
