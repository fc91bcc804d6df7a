//! Points in local time as the library sees them: a weekday and a time of
//! day, whole seconds and no finer. The machine's clock and the parser of
//! written times are reached from here.

use vstd::prelude::*;
use crate::text::two_digits;

verus! {

/// The format in which an alarm's time of day is written: hour and minute.
pub const TIME_FORMAT: &'static str = "%H:%M";

/// A day of the week.
#[derive(Clone, Copy, Debug, PartialEq, Eq, Structural)]
pub enum Weekday {
    Mon,
    Tue,
    Wed,
    Thu,
    Fri,
    Sat,
    Sun,
}

/// A time of day as three numbers: what a `TimeOfDay` stands for.
pub struct Clock {
    pub hour: int,
    pub minute: int,
    pub second: int,
}

impl Clock {
    /// The hour is in 0..=23, the minute and the second in 0..=59.
    pub open spec fn valid(self) -> bool {
        &&& 0 <= self.hour < 24
        &&& 0 <= self.minute < 60
        &&& 0 <= self.second < 60
    }

    /// The seconds that have passed since midnight.
    pub open spec fn seconds_of_day(self) -> int {
        self.hour * 3600 + self.minute * 60 + self.second
    }

    /// The hour and the minute as `HH:MM`, each in two digits.
    pub open spec fn hhmm(self) -> Seq<char> {
        two_digits(self.hour) + seq![':'] + two_digits(self.minute)
    }
}

/// A time of day. Every value is a time that a clock can show.
#[derive(Clone, Copy, Debug, PartialEq, Eq, Structural)]
pub struct TimeOfDay {
    hour: u32,
    minute: u32,
    second: u32,
}

impl View for TimeOfDay {
    type V = Clock;

    closed spec fn view(&self) -> Clock {
        Clock { hour: self.hour as int, minute: self.minute as int, second: self.second as int }
    }
}

impl TimeOfDay {
    /// What holds of every time of day: its numbers are those of a clock.
    #[verifier::type_invariant]
    pub open spec fn wf(self) -> bool {
        self@.valid()
    }

    /// The time of day with these numbers, where there is one.
    pub fn new(hour: u32, minute: u32, second: u32) -> (time: Option<TimeOfDay>)
        ensures
            time is Some <==> hour < 24 && minute < 60 && second < 60,
            time matches Some(t) ==> t@ == (Clock {
                hour: hour as int,
                minute: minute as int,
                second: second as int,
            }),
    {
        if hour < 24 && minute < 60 && second < 60 {
            Some(TimeOfDay { hour, minute, second })
        } else {
            None
        }
    }

    /// The hour, from 0 to 23.
    pub fn hour(&self) -> (hour: u32)
        ensures
            hour == self@.hour,
            hour < 24,
    {
        proof {
            use_type_invariant(self);
        }
        self.hour
    }

    /// The minute, from 0 to 59.
    pub fn minute(&self) -> (minute: u32)
        ensures
            minute == self@.minute,
            minute < 60,
    {
        proof {
            use_type_invariant(self);
        }
        self.minute
    }

    /// The second, from 0 to 59.
    pub fn second(&self) -> (second: u32)
        ensures
            second == self@.second,
            second < 60,
    {
        proof {
            use_type_invariant(self);
        }
        self.second
    }

    /// The seconds that have passed since midnight.
    pub fn seconds_of_day(&self) -> (seconds: u32)
        ensures
            seconds == self@.seconds_of_day(),
            seconds < 86400,
    {
        proof {
            use_type_invariant(self);
        }
        self.hour * 3600 + self.minute * 60 + self.second
    }
}

/// A point in local time: the day of the week and the time of day.
#[derive(Clone, Copy, Debug, PartialEq, Eq, Structural)]
pub struct Moment {
    pub weekday: Weekday,
    pub time: TimeOfDay,
}

/// What `chrono::NaiveTime::parse_from_str` makes of a text under a format:
/// the hour, minute and second of the time it returns, or `None` where it
/// returns an error.
pub uninterp spec fn naive_time_parsed(text: Seq<char>, format: Seq<char>) -> Option<Clock>;

/// The numbers of a time of day that may be missing.
pub open spec fn clock_of(time: Option<TimeOfDay>) -> Option<Clock> {
    match time {
        Some(t) => Some(t@),
        None => None,
    }
}

/// Parses a written time with `chrono::NaiveTime::parse_from_str`. The
/// contract names what chrono returns for this text and format and adds,
/// from chrono's documentation of `NaiveTime`, that the hour is below 24 and
/// the minute and the second below 60. Which texts chrono accepts is not
/// stated here.
#[verifier::external_body]
pub(crate) fn parse_time(text: &str, format: &str) -> (parsed: Option<TimeOfDay>)
    ensures
        clock_of(parsed) == naive_time_parsed(text@, format@),
        parsed matches Some(t) ==> t@.valid(),
{
    match chrono::NaiveTime::parse_from_str(text, format) {
        Ok(t) => Some(TimeOfDay {
            hour: chrono::Timelike::hour(&t),
            minute: chrono::Timelike::minute(&t),
            second: chrono::Timelike::second(&t),
        }),
        Err(_) => None,
    }
}

/// Reads the machine's clock with `chrono::Local::now` and takes from it the
/// weekday, hour, minute and second in local time. Two calls may differ; the
/// contract states only the ranges that chrono documents for `Timelike`.
#[verifier::external_body]
pub(crate) fn local_now() -> (now: Moment)
    ensures
        now.time@.valid(),
{
    let t = chrono::Local::now();
    let weekday = match chrono::Datelike::weekday(&t) {
        chrono::Weekday::Mon => Weekday::Mon,
        chrono::Weekday::Tue => Weekday::Tue,
        chrono::Weekday::Wed => Weekday::Wed,
        chrono::Weekday::Thu => Weekday::Thu,
        chrono::Weekday::Fri => Weekday::Fri,
        chrono::Weekday::Sat => Weekday::Sat,
        chrono::Weekday::Sun => Weekday::Sun,
    };
    let hour = chrono::Timelike::hour(&t);
    let minute = chrono::Timelike::minute(&t);
    let second = chrono::Timelike::second(&t);
    Moment { weekday, time: TimeOfDay { hour, minute, second } }
}

} // verus!
