//! The background jobs: when each one is due, and what a tick of each one
//! asks the host to do. The host sleeps, sends, shows, stores and publishes.

use crate::ai_engine::{accountability_message_of, insights_of, AIEngine};
use crate::models::{CommunicationActivity, NotificationItem, Task};
use crate::notifications::{freshly_stamped, is_accountability_dispatch, DesktopAlert, Dispatch, NotificationManager};
use crate::remote::{answer_of, RemoteReply};
use crate::text::views;
use crate::time::Timestamp;
use vstd::prelude::*;
use vstd::string::*;

verus! {

/// A background job.
#[derive(Clone, Copy, Debug, PartialEq, Eq, Structural)]
pub enum Job {
    AccountabilityCheck,
    InsightsRefresh,
    CommunicationSync,
}

/// The seconds between two ticks of `job`: an hour, half an hour, a quarter
/// of an hour.
pub open spec fn period_of(job: Job) -> int {
    match job {
        Job::AccountabilityCheck => 3600,
        Job::InsightsRefresh => 1800,
        Job::CommunicationSync => 900,
    }
}

/// The first instant of the schedule `started`, `started + period`,
/// `started + 2 * period`, ... that lies after `now`; `started` itself while
/// `now` lies before it. All in seconds.
pub open spec fn next_slot(started: int, period: int, now: int) -> int {
    if now < started {
        started
    } else {
        started + period * ((now - started) / period + 1)
    }
}

/// `x`, or the largest 64-bit second where `x` lies beyond it.
pub open spec fn capped(x: int) -> int {
    if x > i64::MAX {
        i64::MAX as int
    } else {
        x
    }
}

/// The timer of one job. Its ticks are due at fixed instants, counted from
/// its start.
#[derive(Debug)]
pub struct Timer {
    job: Job,
    started: i64,
    next_due: i64,
}

/// Something published to the presentation layer.
#[derive(Debug)]
pub enum Event {
    AccountabilityCheck(String),
    InsightsUpdated(Vec<String>),
    CommunicationSynced(Vec<CommunicationActivity>),
    Notification(NotificationItem),
}

/// Something for the host to do at the end of a tick.
#[derive(Debug)]
pub enum Effect {
    /// Show the alert on the desktop. A failure is logged and the tick goes on.
    Show(DesktopAlert),
    /// Store the record. A failure is logged and the tick goes on.
    SaveNotification(NotificationItem),
    /// Publish the event. A failure ends the tick.
    Publish(Event),
}

/// The name under which an event is published.
pub open spec fn event_name(event: Event) -> Seq<char> {
    match event {
        Event::AccountabilityCheck(_) => "accountability_check"@,
        Event::InsightsUpdated(_) => "insights_updated"@,
        Event::CommunicationSynced(_) => "communication_synced"@,
        Event::Notification(_) => "notification"@,
    }
}

/// Whether a failure of `effect` ends the tick that asked for it.
pub open spec fn ends_tick_on_failure(effect: Effect) -> bool {
    effect is Publish
}

/// Whether `effects` is what an accountability check with the message
/// `message` asks for: with alerts switched on, the alert is shown, its
/// record stored and published, and then the message is published; with
/// alerts switched off, only the message is published.
pub open spec fn is_accountability_tick(effects: Seq<Effect>, message: Seq<char>, alerts: bool) -> bool {
    if alerts {
        &&& effects.len() == 4
        &&& effects[0] matches Effect::Show(alert)
        &&& effects[1] matches Effect::SaveNotification(record)
        &&& effects[2] matches Effect::Publish(Event::Notification(published))
        &&& effects[3] matches Effect::Publish(Event::AccountabilityCheck(text))
        &&& published == record
        &&& text@ == message
        &&& freshly_stamped(record)
        &&& is_accountability_dispatch(
            Dispatch { alert, record },
            message,
            record.id,
            record.created_at,
        )
    } else {
        &&& effects.len() == 1
        &&& effects[0] matches Effect::Publish(Event::AccountabilityCheck(text))
        &&& text@ == message
    }
}

impl Event {
    /// The name under which the event is published.
    pub fn name(&self) -> (name: &'static str)
        ensures
            name@ == event_name(*self),
    {
        match self {
            Event::AccountabilityCheck(_) => "accountability_check",
            Event::InsightsUpdated(_) => "insights_updated",
            Event::CommunicationSynced(_) => "communication_synced",
            Event::Notification(_) => "notification",
        }
    }
}

impl Effect {
    /// Whether a failure of the effect ends the tick.
    pub fn ends_tick_on_failure(&self) -> (ends: bool)
        ensures
            ends == ends_tick_on_failure(*self),
    {
        match self {
            Effect::Publish(_) => true,
            _ => false,
        }
    }
}

impl Job {
    /// The seconds between two ticks of the job.
    pub fn period_secs(&self) -> (period: i64)
        ensures
            period == period_of(*self),
    {
        match self {
            Job::AccountabilityCheck => 3600,
            Job::InsightsRefresh => 1800,
            Job::CommunicationSync => 900,
        }
    }
}

impl Timer {
    /// The job that the timer belongs to.
    pub closed spec fn job(&self) -> Job {
        self.job
    }

    /// The second at which the timer was started.
    pub closed spec fn started(&self) -> int {
        self.started as int
    }

    /// The second at which the next tick is due.
    pub closed spec fn next_due(&self) -> int {
        self.next_due as int
    }

    /// Starts the timer of `job` at `now`. Its first tick is due at once.
    pub fn start(job: Job, now: Timestamp) -> (timer: Timer)
        ensures
            timer.job() == job,
            timer.started() == now.secs,
            timer.next_due() == now.secs,
    {
        Timer { job, started: now.secs, next_due: now.secs }
    }

    /// Whether a tick is due at `now`.
    pub fn is_due(&self, now: Timestamp) -> (due: bool)
        ensures
            due == (now.secs >= self.next_due()),
    {
        now.secs >= self.next_due
    }

    /// The seconds from `now` until the next tick is due; zero once it is.
    pub fn secs_until_due(&self, now: Timestamp) -> (wait: u64)
        ensures
            wait == if now.secs >= self.next_due() {
                0
            } else {
                self.next_due() - now.secs
            },
    {
        if now.secs >= self.next_due {
            0
        } else {
            (self.next_due as i128 - now.secs as i128) as u64
        }
    }

    /// Records that the tick which was due has run at `now`. Whether it
    /// succeeded makes no difference: the next tick is due at the next
    /// instant of the schedule after `now`. A tick that failed is not made up
    /// for, and ticks that were missed are not caught up on.
    pub fn tick_done(&mut self, now: Timestamp, succeeded: bool)
        ensures
            final(self).job() == old(self).job(),
            final(self).started() == old(self).started(),
            final(self).next_due() == capped(
                next_slot(old(self).started(), period_of(old(self).job()), now.secs as int),
            ),
    {
        let period = self.job.period_secs() as i128;
        let started = self.started as i128;
        let at = now.secs as i128;
        let next: i128 = if at < started {
            started
        } else {
            let elapsed: i128 = at - started;
            let ticks: i128 = elapsed / period + 1;
            assert(ticks <= elapsed + 1) by (nonlinear_arith)
                requires
                    ticks == elapsed / period + 1,
                    elapsed >= 0,
                    period >= 1,
            ;
            assert(0 <= period * ticks <= 3600 * (elapsed + 1)) by (nonlinear_arith)
                requires
                    1 <= ticks <= elapsed + 1,
                    0 < period <= 3600,
            ;
            started + period * ticks
        };
        self.next_due = if next > i64::MAX as i128 {
            i64::MAX
        } else {
            next as i64
        };
    }
}

/// Runs the end of an accountability check: makes the check-in message for
/// `tasks` from what came of the remote request, and says what the host is
/// to do with it. The message is handed back beside the effects.
pub fn accountability_check(
    tasks: &[Task],
    engine: &AIEngine,
    manager: &NotificationManager,
    now: Timestamp,
    reply: &RemoteReply,
) -> (tick: (String, Vec<Effect>))
    ensures
        tick.0@ == accountability_message_of(
            engine.is_configured(),
            answer_of(*reply),
            tasks@,
            now,
        ),
        is_accountability_tick(tick.1@, tick.0@, manager.enabled()),
{
    let message = engine.generate_accountability_message(tasks, now, reply);
    let mut effects: Vec<Effect> = Vec::new();
    match manager.send_accountability_notification(message.as_str()) {
        Some(dispatch) => {
            let published = dispatch.record.clone();
            effects.push(Effect::Show(dispatch.alert));
            effects.push(Effect::SaveNotification(dispatch.record));
            effects.push(Effect::Publish(Event::Notification(published)));
        },
        None => {},
    }
    effects.push(Effect::Publish(Event::AccountabilityCheck(message.clone())));
    (message, effects)
}

/// Runs the end of an insights refresh: makes the insights for `tasks` from
/// what came of the remote request, and asks the host to publish them.
pub fn insights_refresh(tasks: &[Task], engine: &AIEngine, now: Timestamp, reply: &RemoteReply) -> (effects:
    Vec<Effect>)
    ensures
        effects@.len() == 1,
        effects@[0] matches Effect::Publish(Event::InsightsUpdated(insights)) && views(insights@)
            == insights_of(engine.is_configured(), answer_of(*reply), tasks@, now) && 1
            <= insights@.len() <= 3,
{
    let insights = engine.generate_insights(tasks, now, reply);
    let mut effects: Vec<Effect> = Vec::new();
    effects.push(Effect::Publish(Event::InsightsUpdated(insights)));
    effects
}

/// Runs the end of a communication sync: asks the host to publish the
/// snapshots that the connectors delivered.
pub fn communication_sync(activities: Vec<CommunicationActivity>) -> (effects: Vec<Effect>)
    ensures
        effects@.len() == 1,
        effects@[0] matches Effect::Publish(Event::CommunicationSynced(synced)) && synced
            == activities,
{
    let mut effects: Vec<Effect> = Vec::new();
    effects.push(Effect::Publish(Event::CommunicationSynced(activities)));
    effects
}

} // verus!
