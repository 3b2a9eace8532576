//! The time intervals over which data can be aggregated.

use vstd::prelude::*;

verus! {

/// The supported aggregation intervals, from 100 milliseconds to one week.
#[derive(Debug, Clone, Copy, PartialEq, Eq, Hash, Structural)]
pub enum Interval {
    OneHundredMillisecond,
    OneSecond,
    FiveSeconds,
    TenSeconds,
    OneMinute,
    FiveMinutes,
    FifteenMinutes,
    OneHour,
    /// This is the default.
    TwoHours,
    OneDay,
    OneWeek,
}

impl Interval {
    /// The name of the interval as the service spells it.
    pub open spec fn name(self) -> Seq<char> {
        match self {
            Interval::OneHundredMillisecond => "100ms"@,
            Interval::OneSecond => "1s"@,
            Interval::FiveSeconds => "5s"@,
            Interval::TenSeconds => "10s"@,
            Interval::OneMinute => "1min"@,
            Interval::FiveMinutes => "5min"@,
            Interval::FifteenMinutes => "15min"@,
            Interval::OneHour => "1h"@,
            Interval::TwoHours => "2h"@,
            Interval::OneDay => "1d"@,
            Interval::OneWeek => "1w"@,
        }
    }

    /// The length of the interval in milliseconds.
    pub open spec fn millis(self) -> int {
        match self {
            Interval::OneHundredMillisecond => 100,
            Interval::OneSecond => 1_000,
            Interval::FiveSeconds => 5_000,
            Interval::TenSeconds => 10_000,
            Interval::OneMinute => 60_000,
            Interval::FiveMinutes => 300_000,
            Interval::FifteenMinutes => 900_000,
            Interval::OneHour => 3_600_000,
            Interval::TwoHours => 7_200_000,
            Interval::OneDay => 86_400_000,
            Interval::OneWeek => 604_800_000,
        }
    }

    /// Returns the name of the interval as the service expects it.
    pub fn as_str(&self) -> (s: &'static str)
        ensures
            s@ == self.name(),
    {
        match self {
            Interval::OneHundredMillisecond => "100ms",
            Interval::OneSecond => "1s",
            Interval::FiveSeconds => "5s",
            Interval::TenSeconds => "10s",
            Interval::OneMinute => "1min",
            Interval::FiveMinutes => "5min",
            Interval::FifteenMinutes => "15min",
            Interval::OneHour => "1h",
            Interval::TwoHours => "2h",
            Interval::OneDay => "1d",
            Interval::OneWeek => "1w",
        }
    }

    /// Converts the interval to whole minutes: 0 for an interval shorter
    /// than a minute.
    pub fn to_minutes(&self) -> (minutes: i64)
        ensures
            minutes == self.millis() / 60_000,
    {
        match self {
            Interval::OneHundredMillisecond
            | Interval::OneSecond
            | Interval::FiveSeconds
            | Interval::TenSeconds => 0,
            Interval::OneMinute => 1,
            Interval::FiveMinutes => 5,
            Interval::FifteenMinutes => 15,
            Interval::OneHour => 60,
            Interval::TwoHours => 120,
            Interval::OneDay => 1440,
            Interval::OneWeek => 10080,
        }
    }

    /// Converts the interval to whole seconds: 0 for an interval shorter
    /// than a second.
    pub fn to_seconds(&self) -> (seconds: i64)
        ensures
            seconds == self.millis() / 1_000,
    {
        match self {
            Interval::OneHundredMillisecond => 0,
            Interval::OneSecond => 1,
            Interval::FiveSeconds => 5,
            Interval::TenSeconds => 10,
            _ => self.to_minutes() * 60,
        }
    }

    /// Converts the interval to milliseconds.
    pub fn to_millis(&self) -> (millis: u64)
        ensures
            millis == self.millis(),
    {
        match self {
            Interval::OneHundredMillisecond => 100,
            _ => (self.to_seconds() * 1000) as u64,
        }
    }
}

impl Default for Interval {
    fn default() -> (interval: Self)
        ensures
            interval == Interval::TwoHours,
    {
        Interval::TwoHours
    }
}

/// The conversions agree with each other: from a second on, the
/// milliseconds are a thousand times the seconds, and from a minute on,
/// the seconds are sixty times the minutes.
pub proof fn lemma_interval_units(interval: Interval)
    ensures
        interval.millis() >= 1_000 ==> interval.millis() == (interval.millis() / 1_000) * 1_000,
        interval.millis() >= 60_000 ==> interval.millis() / 1_000 == (interval.millis() / 60_000)
            * 60,
{
}

} // verus!
