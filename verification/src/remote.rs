//! The exchange with the remote language model, as plain values: the
//! request to send and the reply that came back.

use crate::text::{decimal, decimal_string, digit_char, text_view};
use crate::time::{hour_of_day, minute_of_hour, Timestamp};
use vstd::prelude::*;
use vstd::string::*;

verus! {

/// A chat-completion request: a system message and a user message for the
/// named model, sent under a bearer token.
#[derive(Debug)]
pub struct RemoteRequest {
    pub api_key: String,
    pub model: String,
    pub system_message: String,
    pub user_message: String,
    pub max_tokens: u32,
    /// The sampling temperature in tenths: 7 stands for 0.7.
    pub temperature_tenths: u32,
}

/// What came of a request.
#[derive(Debug)]
pub enum RemoteReply {
    /// No request was sent.
    NotAsked,
    /// The request was sent and no response arrived.
    Failed,
    /// A response arrived, with this HTTP status and this body.
    Answered { status: u16, body: String },
}

/// What the body of a response holds.
#[derive(Debug)]
pub enum ReplyBody {
    /// The body is no JSON document.
    Malformed,
    /// The body is a JSON document without a string at the place looked up.
    NoText,
    /// The string at the place looked up.
    Text(String),
}

/// What `serde_json` reads out of `body`: `None` where the body is no JSON
/// document, else the string that stands in the document under the key
/// `list`, there at the position `index`, there under the key `object`, and
/// there under the key `field`, if there is one.
pub uninterp spec fn reply_text(
    body: Seq<char>,
    list: Seq<char>,
    index: int,
    object: Seq<char>,
    field: Seq<char>,
) -> Option<Option<Seq<char>>>;

/// What a response body holds as the model's text: the string at
/// `choices[0].message.content`.
pub open spec fn completion_text(body: Seq<char>) -> Option<Option<Seq<char>>> {
    reply_text(body, "choices"@, 0, "message"@, "content"@)
}

/// A parsed body as nested options: none for a body that is no JSON
/// document, else the text if the document has it.
pub open spec fn reply_body_view(parsed: ReplyBody) -> Option<Option<Seq<char>>> {
    match parsed {
        ReplyBody::Malformed => None,
        ReplyBody::NoText => Some(None),
        ReplyBody::Text(text) => Some(Some(text@)),
    }
}

/// Parses `body` with `serde_json::from_str` into a `serde_json::Value` and
/// looks up `list`, element `index`, `object` and `field` in turn with the
/// value's index operator, which yields null wherever a step does not exist;
/// `as_str` then tells a string from anything else. The outcome depends on
/// the five arguments alone and is given the name `reply_text`; nothing more
/// is claimed of it.
#[verifier::external_body]
pub(crate) fn read_reply(body: &str, list: &str, index: usize, object: &str, field: &str) -> (parsed:
    ReplyBody)
    ensures
        reply_body_view(parsed) == reply_text(body@, list@, index as int, object@, field@),
{
    match serde_json::from_str::<serde_json::Value>(body) {
        Ok(value) => match value[list][index][object][field].as_str() {
            Some(text) => ReplyBody::Text(text.to_string()),
            None => ReplyBody::NoText,
        },
        Err(_) => ReplyBody::Malformed,
    }
}

/// A status from 200 to 299 reports success.
pub open spec fn is_success(status: u16) -> bool {
    200 <= status < 300
}

/// The model's answer in a response: there is none unless the status reports
/// success and the body is a JSON document; a document without the text
/// counts as an empty answer.
pub open spec fn answer_in(status: u16, parsed: Option<Option<Seq<char>>>) -> Option<Seq<char>> {
    if !is_success(status) {
        None
    } else {
        match parsed {
            None => None,
            Some(None) => Some(Seq::empty()),
            Some(Some(text)) => Some(text),
        }
    }
}

/// The model's answer that `reply` carries, if it carries one: the text at
/// `choices[0].message.content` of a response that reports success.
pub open spec fn answer_of(reply: RemoteReply) -> Option<Seq<char>> {
    match reply {
        RemoteReply::Answered { status, body } => answer_in(status, completion_text(body@)),
        _ => None,
    }
}

/// Takes the model's answer out of a response with the given status and
/// parsed body.
pub fn answer_from(status: u16, parsed: ReplyBody) -> (answer: Option<String>)
    ensures
        text_view(answer) == answer_in(status, reply_body_view(parsed)),
{
    if !(200 <= status && status < 300) {
        return None;
    }
    match parsed {
        ReplyBody::Malformed => None,
        ReplyBody::NoText => {
            let empty = String::new();
            Some(empty)
        },
        ReplyBody::Text(text) => Some(text),
    }
}

/// Takes the model's answer out of `reply`, if it carries one.
pub fn read_answer(reply: &RemoteReply) -> (answer: Option<String>)
    ensures
        text_view(answer) == answer_of(*reply),
{
    match reply {
        RemoteReply::Answered { status, body } => answer_from(
            *status,
            read_reply(body.as_str(), "choices", 0, "message", "content"),
        ),
        _ => None,
    }
}

/// `n` written with two digits, for `0 <= n <= 99`.
pub open spec fn two_digits(n: int) -> Seq<char> {
    seq![digit_char(n / 10), digit_char(n % 10)]
}

/// The time of day of `now`, as hours and minutes with a colon between.
pub open spec fn clock_text(now: Timestamp) -> Seq<char> {
    two_digits(hour_of_day(now)) + seq![':'] + two_digits(minute_of_hour(now))
}

/// Writes the time of day of `now` as `HH:MM`.
pub fn clock_string(now: Timestamp) -> (s: String)
    ensures
        s@ == clock_text(now),
{
    let hour = now.hour();
    let minute = now.minute();
    let mut s = decimal_string((hour / 10) as u128);
    s.append(decimal_string((hour % 10) as u128).as_str());
    s.append(":");
    s.append(decimal_string((minute / 10) as u128).as_str());
    s.append(decimal_string((minute % 10) as u128).as_str());
    proof {
        reveal_strlit(":");
        assert(s@ =~= clock_text(now));
    }
    s
}

/// The system message that goes with a request for insights.
pub open spec fn insights_system_message() -> Seq<char> {
    "You are an AI productivity coach that provides brief, actionable insights. Each insight should be under 100 characters and actionable."@
}

fn insights_system_message_text() -> (s: String)
    ensures
        s@ == insights_system_message(),
{
    let s = String::from_str("You are an AI productivity coach that provides brief, actionable insights. Each insight should be under 100 characters and actionable.");
    s
}

/// The user message of a request for insights: the four counts of the task list in a fixed frame.
pub open spec fn insights_prompt(total: nat, completed: nat, high_open: nat, overdue: nat) -> Seq<char> {
    "Analyze this productivity data and provide 3 brief, actionable insights (each under 100 characters):\n            \n            Tasks Status:\n            - Total tasks: "@ + decimal(total) + "\n            - Completed: "@ + decimal(completed) + "\n            - High priority pending: "@ + decimal(high_open) + "\n            - Overdue: "@ + decimal(overdue) + "\n            \n            Focus on task completion strategies, time management, and motivation. Keep responses concise and encouraging."@
}

fn insights_prompt_text(total: u128, completed: u128, high_open: u128, overdue: u128) -> (s: String)
    ensures
        s@ == insights_prompt(total as nat, completed as nat, high_open as nat, overdue as nat),
{
    let mut s = String::from_str("Analyze this productivity data and provide 3 brief, actionable insights (each under 100 characters):\n            \n            Tasks Status:\n            - Total tasks: ");
    s.append(decimal_string(total as u128).as_str());
    s.append("\n            - Completed: ");
    s.append(decimal_string(completed as u128).as_str());
    s.append("\n            - High priority pending: ");
    s.append(decimal_string(high_open as u128).as_str());
    s.append("\n            - Overdue: ");
    s.append(decimal_string(overdue as u128).as_str());
    s.append("\n            \n            Focus on task completion strategies, time management, and motivation. Keep responses concise and encouraging.");
    s
}

/// The system message that goes with a request for a check-in message.
pub open spec fn accountability_system_message() -> Seq<char> {
    "You are a supportive productivity coach. Create brief, encouraging check-in messages under 150 characters."@
}

fn accountability_system_message_text() -> (s: String)
    ensures
        s@ == accountability_system_message(),
{
    let s = String::from_str("You are a supportive productivity coach. Create brief, encouraging check-in messages under 150 characters.");
    s
}

/// The user message of a request for a check-in message: two counts and the time of day.
pub open spec fn accountability_prompt(completed: nat, pending: nat, clock: Seq<char>) -> Seq<char> {
    "Generate a brief, encouraging accountability check-in message (under 150 characters) based on:\n            - "@ + decimal(completed) + " completed tasks\n            - "@ + decimal(pending) + " pending tasks\n            - Current time: "@ + clock + "\n            \n            Keep it motivating, specific, and actionable."@
}

fn accountability_prompt_text(completed: u128, pending: u128, clock: &str) -> (s: String)
    ensures
        s@ == accountability_prompt(completed as nat, pending as nat, clock@),
{
    let mut s = String::from_str("Generate a brief, encouraging accountability check-in message (under 150 characters) based on:\n            - ");
    s.append(decimal_string(completed as u128).as_str());
    s.append(" completed tasks\n            - ");
    s.append(decimal_string(pending as u128).as_str());
    s.append(" pending tasks\n            - Current time: ");
    s.append(clock);
    s.append("\n            \n            Keep it motivating, specific, and actionable.");
    s
}

/// Whether `request` is the request for insights on a task list with these
/// four counts, under the token `api_key`.
pub open spec fn is_insights_request(
    request: RemoteRequest,
    api_key: String,
    total: nat,
    completed: nat,
    high_open: nat,
    overdue: nat,
) -> bool {
    &&& request.api_key == api_key
    &&& request.model@ == "gpt-3.5-turbo"@
    &&& request.system_message@ == insights_system_message()
    &&& request.user_message@ == insights_prompt(total, completed, high_open, overdue)
    &&& request.max_tokens == 300
    &&& request.temperature_tenths == 7
}

/// Whether `request` is the request for a check-in message on `completed`
/// finished and `pending` unfinished tasks at `now`, under the token
/// `api_key`.
pub open spec fn is_accountability_request(
    request: RemoteRequest,
    api_key: String,
    completed: nat,
    pending: nat,
    now: Timestamp,
) -> bool {
    &&& request.api_key == api_key
    &&& request.model@ == "gpt-3.5-turbo"@
    &&& request.system_message@ == accountability_system_message()
    &&& request.user_message@ == accountability_prompt(completed, pending, clock_text(now))
    &&& request.max_tokens == 100
    &&& request.temperature_tenths == 8
}

/// Builds the request for insights on a task list with these four counts.
pub fn insights_request(
    api_key: &String,
    total: usize,
    completed: usize,
    high_open: usize,
    overdue: usize,
) -> (request: RemoteRequest)
    ensures
        is_insights_request(
            request,
            *api_key,
            total as nat,
            completed as nat,
            high_open as nat,
            overdue as nat,
        ),
{
    RemoteRequest {
        api_key: api_key.clone(),
        model: String::from_str("gpt-3.5-turbo"),
        system_message: insights_system_message_text(),
        user_message: insights_prompt_text(
            total as u128,
            completed as u128,
            high_open as u128,
            overdue as u128,
        ),
        max_tokens: 300,
        temperature_tenths: 7,
    }
}

/// Builds the request for a check-in message on `completed` finished and
/// `pending` unfinished tasks at the instant `now`.
pub fn accountability_request(
    api_key: &String,
    completed: usize,
    pending: usize,
    now: Timestamp,
) -> (request: RemoteRequest)
    ensures
        is_accountability_request(request, *api_key, completed as nat, pending as nat, now),
{
    let clock = clock_string(now);
    RemoteRequest {
        api_key: api_key.clone(),
        model: String::from_str("gpt-3.5-turbo"),
        system_message: accountability_system_message_text(),
        user_message: accountability_prompt_text(
            completed as u128,
            pending as u128,
            clock.as_str(),
        ),
        max_tokens: 100,
        temperature_tenths: 8,
    }
}

} // verus!
