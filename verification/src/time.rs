//! Instants on the UTC time line, as plain integers.

use vstd::prelude::*;

verus! {

/// Nanoseconds in a second.
pub const NANOS_PER_SEC: u32 = 1_000_000_000;

/// Seconds in a day.
pub const SECS_PER_DAY: i64 = 86_400;

/// Seconds in an hour.
pub const SECS_PER_HOUR: i64 = 3_600;

/// An instant: whole non-leap seconds since 1970-01-01T00:00:00Z, and the
/// nanoseconds that have passed since that second began.
#[derive(Clone, Copy, Debug, PartialEq, Eq, Structural)]
pub struct Timestamp {
    pub secs: i64,
    pub nanos: u32,
}

/// Instants are ordered by their seconds, then by their nanoseconds.
pub open spec fn is_before(a: Timestamp, b: Timestamp) -> bool {
    a.secs < b.secs || (a.secs == b.secs && a.nanos < b.nanos)
}

/// The distance from `from` to `to` in nanoseconds; negative when `to` is earlier.
pub open spec fn nanos_between(from: Timestamp, to: Timestamp) -> int {
    (to.secs - from.secs) * 1_000_000_000 + (to.nanos - from.nanos)
}

/// `num / den` with the fraction cut off, for a positive `den`.
pub open spec fn truncating_div(num: int, den: int) -> int {
    if num >= 0 {
        num / den
    } else {
        -((-num) / den)
    }
}

/// Whole days from `from` to `to`: the distance is first cut to whole seconds,
/// then to whole days, each time towards zero.
pub open spec fn whole_days_between(from: Timestamp, to: Timestamp) -> int {
    truncating_div(truncating_div(nanos_between(from, to), 1_000_000_000), 86_400)
}

/// The hour of the UTC day, 0 to 23, in which the instant lies.
pub open spec fn hour_of_day(t: Timestamp) -> int {
    (t.secs % 86_400) / 3_600
}

/// The minute of the hour, 0 to 59, in which the instant lies.
pub open spec fn minute_of_hour(t: Timestamp) -> int {
    (t.secs % 3_600) / 60
}

impl Timestamp {
    /// The instant `nanos` nanoseconds after the second `secs`.
    pub fn new(secs: i64, nanos: u32) -> (t: Timestamp)
        ensures
            t.secs == secs,
            t.nanos == nanos,
    {
        Timestamp { secs, nanos }
    }

    /// Whether `self` lies strictly before `other`.
    pub fn before(&self, other: &Timestamp) -> (b: bool)
        ensures
            b == is_before(*self, *other),
    {
        self.secs < other.secs || (self.secs == other.secs && self.nanos < other.nanos)
    }

    /// Whether `self` lies strictly after `other`.
    pub fn after(&self, other: &Timestamp) -> (b: bool)
        ensures
            b == is_before(*other, *self),
    {
        other.before(self)
    }

    /// The hour of the UTC day in which the instant lies.
    pub fn hour(&self) -> (h: u32)
        ensures
            h == hour_of_day(*self),
            h < 24,
    {
        let in_day: i64 = match self.secs.checked_rem_euclid(SECS_PER_DAY) {
            Some(r) => r,
            None => 0,
        };
        let h: i64 = in_day / SECS_PER_HOUR;
        h as u32
    }

    /// The minute of the hour in which the instant lies.
    pub fn minute(&self) -> (m: u32)
        ensures
            m == minute_of_hour(*self),
            m < 60,
    {
        let in_hour: i64 = match self.secs.checked_rem_euclid(SECS_PER_HOUR) {
            Some(r) => r,
            None => 0,
        };
        let m: i64 = in_hour / 60;
        m as u32
    }

    /// Whole days from `now` until `self`; negative once `self` has passed.
    pub fn days_since(&self, now: &Timestamp) -> (d: i64)
        ensures
            d == whole_days_between(*now, *self),
    {
        let dsecs: i128 = self.secs as i128 - now.secs as i128;
        let dnanos: i128 = self.nanos as i128 - now.nanos as i128;
        let total: i128 = dsecs * 1_000_000_000 + dnanos;
        let days: i128 = if total >= 0 {
            (total / 1_000_000_000) / 86_400
        } else {
            -(((-total) / 1_000_000_000) / 86_400)
        };
        days as i64
    }
}

/// Reads the system clock through `chrono::Utc::now` and hands the instant
/// back as seconds and nanoseconds. Nothing is proved of the call. The clock
/// is read as a duration since the epoch, so the seconds are never negative
/// and the nanoseconds stay below one second; `chrono` panics where the
/// system clock stands before 1970.
#[verifier::external_body]
pub(crate) fn current_time() -> (t: Timestamp)
    ensures
        t.secs >= 0,
        t.nanos < NANOS_PER_SEC,
{
    let now = chrono::Utc::now();
    Timestamp { secs: now.timestamp(), nanos: now.timestamp_subsec_nanos() }
}

} // verus!
