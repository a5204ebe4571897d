//! Points in time and the spans between them.

use vstd::prelude::*;

verus! {

/// Nanoseconds in a second.
pub const NANOS_PER_SEC: u32 = 1_000_000_000;

/// First second that a [`DateTime`] can be in: the start of the year 262144 BCE.
pub const MIN_SECS: i64 = -8_334_601_228_800;

/// Last second that a [`DateTime`] can be in: the end of the year 262142 CE.
pub const MAX_SECS: i64 = 8_210_266_876_799;

/// Point in time, in UTC.
#[derive(Clone, Copy, Debug, PartialEq, Eq, PartialOrd, Ord, Structural)]
pub struct DateTime {
    /// Seconds since the Unix epoch, leap seconds not counted.
    pub secs: i64,
    /// Nanoseconds since the start of the second. In a leap second, which is told as
    /// part of the second before, there are more of them than a second has.
    pub nanos: u32,
}

/// Span of time, forward or backward.
#[derive(Clone, Copy, Debug, PartialEq, Eq, Structural)]
pub struct Duration {
    /// Whole seconds, rounded down.
    pub secs: i64,
    /// Nanoseconds on top of the whole seconds.
    pub nanos: u32,
}

impl View for DateTime {
    type V = DateTime;

    open spec fn view(&self) -> DateTime {
        *self
    }
}

/// Tells whether seconds and nanoseconds make a point in time: the seconds are within
/// the range of the calendar, and there are more nanoseconds than a second has in the
/// last second of a minute only.
pub open spec fn is_timestamp(secs: int, nanos: int) -> bool {
    &&& MIN_SECS <= secs <= MAX_SECS
    &&& 0 <= nanos < 2 * NANOS_PER_SEC
    &&& nanos >= NANOS_PER_SEC ==> secs % 60 == 59
}

impl Duration {
    /// Tells whether the span is one that can be represented: it has at most as many
    /// milliseconds as an `i64` can count.
    pub open spec fn valid(self) -> bool {
        &&& self.nanos < NANOS_PER_SEC
        &&& -(i64::MAX * 1_000_000) <= self.nanoseconds() <= i64::MAX * 1_000_000
    }

    /// Length of the span in nanoseconds.
    pub open spec fn nanoseconds(self) -> int {
        self.secs * NANOS_PER_SEC + self.nanos
    }

    /// Makes a span of whole seconds.
    pub fn seconds(secs: i64) -> (duration: Duration)
        requires
            -9_223_372_036_854_775 <= secs <= 9_223_372_036_854_775,
        ensures
            duration.valid(),
            duration.nanoseconds() == secs * NANOS_PER_SEC,
    {
        Duration { secs, nanos: 0 }
    }
}

impl DateTime {
    /// Tells whether the value is a point in time.
    pub open spec fn valid(self) -> bool {
        is_timestamp(self.secs as int, self.nanos as int)
    }

    /// Tells whether the point in time is within a leap second.
    pub open spec fn is_leap(self) -> bool {
        self.nanos >= NANOS_PER_SEC
    }

    /// Place of the point in time among all others: the later it is, the larger.
    pub open spec fn instant(self) -> int {
        self.secs * 0x1_0000_0000 + self.nanos
    }

    /// Seconds and nanoseconds of the sum of a point in time and a span. Leap seconds
    /// do not count, but for the one in which the sum starts: a span that is shorter
    /// than a second may end within it or before it.
    pub open spec fn sum(self, duration: Duration) -> (int, int) {
        let span = duration.nanoseconds();
        if self.is_leap() && -NANOS_PER_SEC < span < NANOS_PER_SEC && self.nanos + span < 2
            * NANOS_PER_SEC {
            (self.secs as int, self.nanos + span)
        } else {
            let start = self.secs * NANOS_PER_SEC + self.nanos - if self.is_leap() && span > 0 {
                NANOS_PER_SEC as int
            } else {
                0
            };
            ((start + span) / NANOS_PER_SEC as int, (start + span) % NANOS_PER_SEC as int)
        }
    }

    /// The sum of a point in time and a span, if the calendar has it.
    pub open spec fn plus(self, duration: Duration) -> Option<DateTime> {
        let (secs, nanos) = self.sum(duration);
        if MIN_SECS <= secs <= MAX_SECS {
            Some(DateTime { secs: secs as i64, nanos: nanos as u32 })
        } else {
            None
        }
    }

    /// Makes a point in time of seconds and nanoseconds since the Unix epoch.
    pub fn from_timestamp(secs: i64, nanos: u32) -> (time: Option<DateTime>)
        ensures
            time == (if is_timestamp(secs as int, nanos as int) {
                Some(DateTime { secs, nanos })
            } else {
                None::<DateTime>
            }),
    {
        utc_timestamp(secs, nanos)
    }

    /// Start of the Unix epoch.
    pub fn epoch() -> (time: DateTime)
        ensures
            time == (DateTime { secs: 0, nanos: 0 }),
            time.valid(),
    {
        Self::from_timestamp(0, 0).unwrap()
    }

    /// Adds a span to a point in time. `None` if the calendar does not have the sum.
    pub fn checked_add_signed(self, duration: Duration) -> (time: Option<DateTime>)
        requires
            self.valid(),
            duration.valid(),
        ensures
            time == self.plus(duration),
            time is Some ==> time->0.valid(),
    {
        proof {
            sums_are_points_in_time(self, duration);
        }
        add_signed(self, duration)
    }

    /// Tells whether this point in time is at the other one or after it.
    pub fn at_or_after(&self, other: &DateTime) -> (reached: bool)
        ensures
            reached == (self.instant() >= other.instant()),
    {
        self.secs > other.secs || (self.secs == other.secs && self.nanos >= other.nanos)
    }
}

/// The sum of a point in time and a span, where the calendar has it, is a point in time.
pub proof fn sums_are_points_in_time(time: DateTime, duration: Duration)
    requires
        time.valid(),
        duration.valid(),
    ensures
        time.plus(duration) is Some ==> time.plus(duration)->0.valid(),
{
}

/// Different points in time have different places, and later seconds come later.
pub proof fn instants_are_in_order(a: DateTime, b: DateTime)
    ensures
        a.instant() == b.instant() ==> a == b,
        a.secs < b.secs ==> a.instant() < b.instant(),
        a.secs == b.secs && a.nanos < b.nanos ==> a.instant() < b.instant(),
{
}

/// A span forward leads later, a span backward earlier, and none nowhere.
pub proof fn spans_lead_where_they_point(time: DateTime, duration: Duration)
    requires
        time.valid(),
        duration.valid(),
        time.plus(duration) is Some,
    ensures
        duration.nanoseconds() > 0 ==> time.plus(duration)->0.instant() > time.instant(),
        duration.nanoseconds() < 0 ==> time.plus(duration)->0.instant() < time.instant(),
        duration.nanoseconds() == 0 ==> time.plus(duration)->0 == time,
{
}

/// Calls `chrono::Utc.timestamp_opt`, which is taken to have a result just where
/// [`is_timestamp`] holds, and to keep the seconds and the nanoseconds that it is given.
#[verifier::external_body]
fn utc_timestamp(secs: i64, nanos: u32) -> (time: Option<DateTime>)
    ensures
        time == (if is_timestamp(secs as int, nanos as int) {
            Some(DateTime { secs, nanos })
        } else {
            None::<DateTime>
        }),
{
    let time = chrono::TimeZone::timestamp_opt(&chrono::Utc, secs, nanos).single()?;
    Some(DateTime { secs: time.timestamp(), nanos: time.timestamp_subsec_nanos() })
}

/// Calls `chrono::DateTime::checked_add_signed` and takes its result to be the sum as
/// [`DateTime::plus`] has it: nanoseconds added up, leap seconds not counted but for the
/// one in which the sum starts, and nothing if the calendar of the crate ends before.
#[verifier::external_body]
fn add_signed(time: DateTime, duration: Duration) -> (sum: Option<DateTime>)
    requires
        time.valid(),
        duration.valid(),
    ensures
        sum == time.plus(duration),
{
    let start = chrono::DateTime::<chrono::Utc>::from_timestamp(time.secs, time.nanos)?;
    let sum = start.checked_add_signed(chrono::TimeDelta::new(duration.secs, duration.nanos)?)?;
    Some(DateTime { secs: sum.timestamp(), nanos: sum.timestamp_subsec_nanos() })
}

/// Calls `chrono::Utc::now`, of which it is known only that it is a point in time at or
/// after the start of the Unix epoch, outside of any leap second. The call panics where
/// the clock of the machine is set to an earlier time.
#[verifier::external_body]
pub(crate) fn utc_now() -> (now: DateTime)
    ensures
        now.valid(),
        now.secs >= 0,
        !now.is_leap(),
{
    let now = chrono::Utc::now();
    DateTime { secs: now.timestamp(), nanos: now.timestamp_subsec_nanos() }
}

/// Seconds and nanoseconds make a point in time just where the calendar has the second, and
/// there are no more nanoseconds than it has: a billion, or two of them in the last second of
/// a minute.
pub proof fn timestamps_are_in_the_calendar(time: DateTime)
    ensures
        time@ == time,
        time.valid() <==> {
            &&& -8_334_601_228_800 <= time.secs <= 8_210_266_876_799
            &&& time.nanos < 1_000_000_000 || (time.nanos < 2_000_000_000 && time.secs as int % 60
                == 59)
        },
        time.is_leap() <==> time.nanos >= 1_000_000_000,
{
}

/// A span has as many nanoseconds as its seconds and its nanoseconds tell, and counts no more
/// milliseconds than an `i64` can.
pub proof fn spans_have_their_length(duration: Duration)
    ensures
        duration.nanoseconds() == duration.secs * 1_000_000_000 + duration.nanos,
        duration.valid() <==> {
            let length = duration.secs * 1_000_000_000 + duration.nanos;
            &&& duration.nanos < 1_000_000_000
            &&& -9_223_372_036_854_775_807_000_000 <= length
            &&& length <= 9_223_372_036_854_775_807_000_000
        },
{
}

/// Outside of leap seconds, the sum of a point in time and a span is as many nanoseconds away
/// from the start of the epoch as both together, and is there just where the calendar has it.
pub proof fn sums_are_as_far_away(time: DateTime, duration: Duration)
    requires
        time.valid(),
        duration.valid(),
        time.nanos < 1_000_000_000,
    ensures
        ({
            let far = time.secs * 1_000_000_000 + time.nanos + duration.secs * 1_000_000_000
                + duration.nanos;
            match time.plus(duration) {
                Some(sum) => {
                    &&& sum.secs * 1_000_000_000 + sum.nanos == far
                    &&& sum.nanos < 1_000_000_000
                },
                None => {
                    ||| far < -8_334_601_228_800 * 1_000_000_000
                    ||| far >= 8_210_266_876_800 * 1_000_000_000
                },
            }
        }),
{
}

/// From within a leap second, a span that ends within it or the second that it is told with
/// moves the nanoseconds alone. A longer span forward starts where the leap second is told to
/// start a second time, and a longer span backward counts the leap second as one.
pub proof fn sums_from_leap_seconds(time: DateTime, duration: Duration)
    requires
        time.valid(),
        duration.valid(),
        time.nanos >= 1_000_000_000,
    ensures
        ({
            let span = duration.secs * 1_000_000_000 + duration.nanos;
            let within = -1_000_000_000 < span < 1_000_000_000 && time.nanos + span
                < 2_000_000_000;
            let start = time.secs * 1_000_000_000 + time.nanos;
            match time.plus(duration) {
                Some(sum) => {
                    &&& within ==> sum.secs == time.secs && sum.nanos == time.nanos + span
                    &&& !within ==> sum.nanos < 1_000_000_000
                    &&& !within && span > 0 ==> sum.secs * 1_000_000_000 + sum.nanos == start
                        - 1_000_000_000 + span
                    &&& !within && span < 0 ==> sum.secs * 1_000_000_000 + sum.nanos == start
                        + span
                },
                None => {
                    ||| start + span < -8_334_601_228_800 * 1_000_000_000
                    ||| start - 1_000_000_000 + span >= 8_210_266_876_800 * 1_000_000_000
                },
            }
        }),
{
}

/// Outside of leap seconds, two spans one after the other lead where both together lead.
pub proof fn spans_add_up(time: DateTime, a: Duration, b: Duration, both: Duration)
    requires
        time.valid(),
        a.valid(),
        b.valid(),
        both.valid(),
        time.nanos < 1_000_000_000,
        both.secs * 1_000_000_000 + both.nanos == a.secs * 1_000_000_000 + a.nanos + b.secs
            * 1_000_000_000 + b.nanos,
        time.plus(a) is Some,
    ensures
        time.plus(a)->0.plus(b) == time.plus(both),
{
    sums_are_points_in_time(time, a);
    sums_are_as_far_away(time, a);
    sums_are_as_far_away(time.plus(a)->0, b);
    sums_are_as_far_away(time, both);
}

} // verus!
