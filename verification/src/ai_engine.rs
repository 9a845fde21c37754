//! The generator of insights and check-in messages. Each of the two is
//! made on one of two paths: from the answer of a remote model, where a
//! credential is configured and the model answered, else by fixed rules from
//! the task list. The caller sends the request and hands the reply back.

use crate::accountability::{fallback_accountability, fallback_accountability_message};
use crate::analytics::{analyze_patterns, count_passing, count_tasks, lemma_count_bounded, patterns_of, TaskFilter};
use crate::insights::{fallback_insights, fallback_insights_of, insights_from_content, remote_insights};
use crate::models::{Task, TaskStatus};
use crate::remote::{
    accountability_request, answer_of, insights_request, is_accountability_request,
    is_insights_request, read_answer, RemoteReply, RemoteRequest,
};
use crate::text::{text_view, trim, trimmed, views};
use crate::time::Timestamp;
use vstd::prelude::*;
use vstd::string::*;

verus! {

/// The generator. It holds the credential for the remote model, if one is
/// configured.
pub struct AIEngine {
    openai_api_key: Option<String>,
}

/// Whether the remote path gives the insights: a credential is configured,
/// an answer came, and the answer holds a line that is not blank.
pub open spec fn remote_path_gives_insights(configured: bool, answer: Option<Seq<char>>) -> bool {
    configured && answer is Some && remote_insights(answer->0).len() > 0
}

/// The insights for `tasks` at `now`: read off the model's answer where the
/// remote path gives any, else derived by the rules. An answer without a
/// line to show counts like no answer.
pub open spec fn insights_of(
    configured: bool,
    answer: Option<Seq<char>>,
    tasks: Seq<Task>,
    now: Timestamp,
) -> Seq<Seq<char>> {
    if remote_path_gives_insights(configured, answer) {
        remote_insights(answer->0)
    } else {
        fallback_insights_of(tasks, now)
    }
}

/// The number of `tasks` that are completed.
pub open spec fn completed_count(tasks: Seq<Task>) -> nat {
    count_passing(tasks, TaskFilter::Status(TaskStatus::Completed))
}

/// The check-in message for `tasks` at `now`: the model's answer, trimmed,
/// where a credential is configured and an answer came, else the template
/// that the clock picks, filled with the numbers of completed and of other
/// tasks.
pub open spec fn accountability_message_of(
    configured: bool,
    answer: Option<Seq<char>>,
    tasks: Seq<Task>,
    now: Timestamp,
) -> Seq<char> {
    if configured && answer is Some {
        trimmed(answer->0)
    } else {
        fallback_accountability(
            completed_count(tasks),
            (tasks.len() - completed_count(tasks)) as nat,
            now,
        )
    }
}

/// Chooses between the two paths for insights, given whether a credential is
/// configured and what answer came of the request.
pub fn choose_insights(
    configured: bool,
    answer: Option<String>,
    tasks: &[Task],
    now: Timestamp,
) -> (insights: Vec<String>)
    ensures
        views(insights@) == insights_of(configured, text_view(answer), tasks@, now),
        1 <= insights@.len() <= 3,
{
    if configured {
        if let Some(content) = answer {
            let remote = insights_from_content(content.as_str());
            if remote.len() > 0 {
                return remote;
            }
        }
    }
    fallback_insights(tasks, now)
}

/// Chooses between the two paths for the check-in message, given whether a
/// credential is configured and what answer came of the request.
pub fn choose_accountability_message(
    configured: bool,
    answer: Option<String>,
    tasks: &[Task],
    now: Timestamp,
) -> (message: String)
    ensures
        message@ == accountability_message_of(configured, text_view(answer), tasks@, now),
{
    if configured {
        if let Some(content) = answer {
            return String::from_str(trim(content.as_str()));
        }
    }
    let completed = count_tasks(tasks, &TaskFilter::Status(TaskStatus::Completed));
    proof {
        lemma_count_bounded(tasks@, TaskFilter::Status(TaskStatus::Completed));
    }
    fallback_accountability_message(completed, tasks.len() - completed, now)
}

impl AIEngine {
    /// The credential for the remote model, if one is configured.
    pub closed spec fn api_key(&self) -> Option<String> {
        self.openai_api_key
    }

    /// Whether the remote path is open: a credential is configured.
    pub open spec fn is_configured(&self) -> bool {
        self.api_key() is Some
    }

    /// An engine with the given credential; without one it keeps to the rules.
    pub fn new(openai_api_key: Option<String>) -> (engine: Self)
        ensures
            engine.api_key() == openai_api_key,
    {
        AIEngine { openai_api_key }
    }

    /// Whether a credential is configured.
    pub fn has_credential(&self) -> (configured: bool)
        ensures
            configured == self.is_configured(),
    {
        self.openai_api_key.is_some()
    }

    /// The first step towards insights: the request to send to the remote
    /// model, or `None` where no credential is configured and the rules
    /// apply at once.
    pub fn plan_insights(&self, tasks: &[Task], now: Timestamp) -> (request: Option<RemoteRequest>)
        ensures
            request is Some == self.is_configured(),
            request matches Some(r) ==> is_insights_request(
                r,
                self.api_key()->0,
                tasks@.len(),
                completed_count(tasks@),
                count_passing(tasks@, TaskFilter::HighPriorityOpen),
                count_passing(tasks@, TaskFilter::OverdueAt(now)),
            ),
    {
        match &self.openai_api_key {
            Some(api_key) => {
                let completed = count_tasks(tasks, &TaskFilter::Status(TaskStatus::Completed));
                let high_open = count_tasks(tasks, &TaskFilter::HighPriorityOpen);
                let overdue = count_tasks(tasks, &TaskFilter::OverdueAt(now));
                Some(insights_request(api_key, tasks.len(), completed, high_open, overdue))
            },
            None => None,
        }
    }

    /// The last step towards insights, once `reply` tells what came of the
    /// request. A reply that carries no answer (none was asked for, none
    /// arrived, the status reports no success, the body is no JSON document)
    /// leads to the rules; so does an answer without a line to show, and so
    /// does any reply where no credential is configured. There is no failure,
    /// and there are always one to three insights.
    pub fn generate_insights(&self, tasks: &[Task], now: Timestamp, reply: &RemoteReply) -> (insights:
        Vec<String>)
        ensures
            views(insights@) == insights_of(self.is_configured(), answer_of(*reply), tasks@, now),
            1 <= insights@.len() <= 3,
    {
        let configured = self.has_credential();
        let answer = if configured {
            read_answer(reply)
        } else {
            None
        };
        choose_insights(configured, answer, tasks, now)
    }

    /// The first step towards a check-in message: the request to send to the
    /// remote model, or `None` where no credential is configured.
    pub fn plan_accountability_message(&self, tasks: &[Task], now: Timestamp) -> (request: Option<
        RemoteRequest,
    >)
        ensures
            request is Some == self.is_configured(),
            request matches Some(r) ==> is_accountability_request(
                r,
                self.api_key()->0,
                completed_count(tasks@),
                (tasks@.len() - completed_count(tasks@)) as nat,
                now,
            ),
    {
        match &self.openai_api_key {
            Some(api_key) => {
                let completed = count_tasks(tasks, &TaskFilter::Status(TaskStatus::Completed));
                proof {
                    lemma_count_bounded(tasks@, TaskFilter::Status(TaskStatus::Completed));
                }
                Some(accountability_request(api_key, completed, tasks.len() - completed, now))
            },
            None => None,
        }
    }

    /// The last step towards a check-in message, once `reply` tells what came
    /// of the request. A reply that carries no answer leads to the templates.
    /// There is no failure.
    pub fn generate_accountability_message(
        &self,
        tasks: &[Task],
        now: Timestamp,
        reply: &RemoteReply,
    ) -> (message: String)
        ensures
            message@ == accountability_message_of(
                self.is_configured(),
                answer_of(*reply),
                tasks@,
                now,
            ),
    {
        let configured = self.has_credential();
        let answer = if configured {
            read_answer(reply)
        } else {
            None
        };
        choose_accountability_message(configured, answer, tasks, now)
    }

    /// Reads the patterns off `tasks`.
    pub fn analyze_productivity_patterns(&self, tasks: &[Task]) -> (patterns: Vec<String>)
        ensures
            views(patterns@) == patterns_of(tasks@),
    {
        analyze_patterns(tasks)
    }
}

} // verus!
