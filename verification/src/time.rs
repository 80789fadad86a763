//! Time as the scheduler sees it: instants and positive intervals on one civil
//! timeline, counted in whole nanoseconds.

use vstd::prelude::*;

verus! {

/// Largest magnitude, in nanoseconds, of a signed duration that holds its
/// seconds in an `i64` and its sub-second part in less than a second.
pub const DURATION_LIMIT: i128 = 9_223_372_036_854_775_808_999_999_999;

/// Largest interval a task can be given, in nanoseconds.
pub const INTERVAL_MAX: i128 = 9_223_372_036_854_775_807_999_999_999;

/// Nanoseconds in one second.
pub const NANOS_PER_SEC: i128 = 1_000_000_000;

/// An instant of civil time: nanoseconds since 1970-01-01T00:00:00 on the
/// local calendar. Earlier instants are negative.
#[derive(Clone, Copy, Debug, PartialEq, Eq, Structural)]
pub struct Timestamp {
    nanos: i128,
}

impl View for Timestamp {
    type V = int;

    closed spec fn view(&self) -> int {
        self.nanos as int
    }
}

impl Timestamp {
    /// The instant `nanos` nanoseconds after the epoch.
    pub fn from_nanos(nanos: i128) -> (t: Timestamp)
        ensures
            t@ == nanos,
    {
        Timestamp { nanos }
    }

    /// The instant `secs` whole seconds after the epoch.
    pub fn from_secs(secs: i64) -> (t: Timestamp)
        ensures
            t@ == secs * NANOS_PER_SEC,
    {
        let wide: i128 = secs as i128;
        Timestamp { nanos: wide * NANOS_PER_SEC }
    }

    /// Nanoseconds since the epoch.
    pub fn as_nanos(&self) -> (nanos: i128)
        ensures
            nanos == self@,
    {
        self.nanos
    }

    /// Whether this instant has been reached once the clock shows `now`.
    pub fn is_due(&self, now: Timestamp) -> (due: bool)
        ensures
            due == (self@ <= now@),
    {
        self.nanos <= now.nanos
    }

    /// Whether this instant comes strictly before `other`.
    pub fn is_before(&self, other: Timestamp) -> (before: bool)
        ensures
            before == (self@ < other@),
    {
        self.nanos < other.nanos
    }

    /// The instant `interval` after this one, as long as it can be counted
    /// in an `i128`.
    pub closed spec fn spec_plus(self, interval: Interval) -> Timestamp {
        Timestamp { nanos: (self.nanos + interval.nanos) as i128 }
    }

    /// The instant `interval` after this one.
    pub fn plus(&self, interval: Interval) -> (later: Timestamp)
        requires
            self@ + interval@ <= i128::MAX,
        ensures
            later == self.spec_plus(interval),
            later@ == self@ + interval@,
    {
        proof {
            use_type_invariant(&interval);
        }
        Timestamp { nanos: self.nanos + interval.nanos }
    }
}

/// Adding an interval moves an instant by exactly that many nanoseconds,
/// wherever the sum can be counted in an `i128`.
pub proof fn lemma_plus_adds(at: Timestamp, interval: Interval)
    requires
        i128::MIN <= at@ + interval@ <= i128::MAX,
    ensures
        at.spec_plus(interval)@ == at@ + interval@,
{
}

/// The time between two executions of a task: always more than nothing.
#[derive(Clone, Copy, Debug, PartialEq, Eq, Structural)]
pub struct Interval {
    nanos: i128,
}

impl View for Interval {
    type V = int;

    closed spec fn view(&self) -> int {
        self.nanos as int
    }
}

impl Interval {
    #[verifier::type_invariant]
    spec fn positive_and_bounded(self) -> bool {
        0 < self.nanos <= INTERVAL_MAX
    }

    /// An interval of `secs` whole seconds, if that is more than nothing.
    pub fn from_secs(secs: i64) -> (interval: Option<Interval>)
        ensures
            interval is Some <==> secs > 0,
            interval matches Some(i) ==> i@ == secs * NANOS_PER_SEC,
    {
        if secs > 0 {
            let wide: i128 = secs as i128;
            Some(Interval { nanos: wide * NANOS_PER_SEC })
        } else {
            None
        }
    }

    /// An interval of `nanos` nanoseconds, if that is more than nothing and
    /// no more than `INTERVAL_MAX`.
    pub fn from_nanos(nanos: i128) -> (interval: Option<Interval>)
        ensures
            interval is Some <==> 0 < nanos <= INTERVAL_MAX,
            interval matches Some(i) ==> i@ == nanos,
    {
        if 0 < nanos && nanos <= INTERVAL_MAX {
            Some(Interval { nanos })
        } else {
            None
        }
    }

    /// The interval in nanoseconds.
    pub fn as_nanos(&self) -> (nanos: i128)
        ensures
            nanos == self@,
            0 < nanos <= INTERVAL_MAX,
    {
        proof {
            use_type_invariant(self);
        }
        self.nanos
    }
}

/// A day of the civil calendar, as the system time zone counts it.
#[derive(Clone, Copy, Debug, PartialEq, Eq, Structural)]
pub struct Date {
    pub year: i16,
    pub month: i8,
    pub day: i8,
}

/// Reads the system clock through `jiff::Zoned::now` and takes the year,
/// month and day of its civil date. jiff keeps the year between -9999 and
/// 9999, the month between 1 and 12 and the day between 1 and 31; nothing
/// else is claimed. `Zoned::now` panics where the system clock is set
/// outside those years.
#[verifier::external_body]
pub(crate) fn clock_today() -> (today: Date)
    ensures
        -9999 <= today.year <= 9999,
        1 <= today.month <= 12,
        1 <= today.day <= 31,
{
    let date = jiff::Zoned::now().date();
    Date { year: date.year(), month: date.month(), day: date.day() }
}

/// Reads the system clock through `jiff::Zoned::now` and writes its civil
/// datetime as `Display` of `jiff::civil::DateTime` does. Nothing is
/// claimed of the text. `Zoned::now` panics where the system clock is set
/// outside the years -9999 to 9999.
#[verifier::external_body]
pub(crate) fn clock_stamp() -> (stamp: String)
{
    jiff::Zoned::now().datetime().to_string()
}

/// Reads the system clock through `jiff::Zoned::now`, takes its civil
/// datetime in the system time zone, and counts the nanoseconds that
/// `jiff::civil::DateTime::duration_since` finds between 1970-01-01T00:00:00
/// and it. Nothing is claimed of the instant but that it is a signed duration
/// of jiff's, whose seconds fit in an `i64`. Two readings need not agree, nor
/// come in order. `Zoned::now` panics where the system clock is set outside
/// the years -9999 to 9999.
#[verifier::external_body]
pub(crate) fn clock_now() -> (now: Timestamp)
    ensures
        -DURATION_LIMIT <= now@ <= DURATION_LIMIT,
{
    let civil = jiff::Zoned::now().datetime();
    let epoch = jiff::civil::DateTime::constant(1970, 1, 1, 0, 0, 0, 0);
    Timestamp { nanos: civil.duration_since(epoch).as_nanos() }
}

} // verus!
