//! When an alarm rings: the names of the days, the rule that says whether an
//! alarm is due at a moment, the time left until it rings, and how that time
//! is shown.

use vstd::prelude::*;
use vstd::string::*;
use crate::clock::{
    clock_of, local_now, naive_time_parsed, parse_time, Clock, Moment, TimeOfDay, Weekday,
    TIME_FORMAT,
};
use crate::entry::{labels_of, AlarmEntry, AlarmView};
use crate::error::ErrorKind;
use crate::text::{
    decimal, decimal_string, digit_text, same_text, signed_decimal, signed_decimal_string,
};

verus! {

/// The name of a day.
pub open spec fn label_of(day: Weekday) -> Seq<char> {
    match day {
        Weekday::Mon => "Monday"@,
        Weekday::Tue => "Tuesday"@,
        Weekday::Wed => "Wednesday"@,
        Weekday::Thu => "Thursday"@,
        Weekday::Fri => "Friday"@,
        Weekday::Sat => "Saturday"@,
        Weekday::Sun => "Sunday"@,
    }
}

/// The day that a name stands for, where it is the name of a day.
pub open spec fn weekday_of_label(label: Seq<char>) -> Option<Weekday> {
    if label == "Monday"@ {
        Some(Weekday::Mon)
    } else if label == "Tuesday"@ {
        Some(Weekday::Tue)
    } else if label == "Wednesday"@ {
        Some(Weekday::Wed)
    } else if label == "Thursday"@ {
        Some(Weekday::Thu)
    } else if label == "Friday"@ {
        Some(Weekday::Fri)
    } else if label == "Saturday"@ {
        Some(Weekday::Sat)
    } else if label == "Sunday"@ {
        Some(Weekday::Sun)
    } else {
        None
    }
}

/// The days of the week in order, Monday first.
pub open spec fn week() -> Seq<Weekday> {
    seq![
        Weekday::Mon,
        Weekday::Tue,
        Weekday::Wed,
        Weekday::Thu,
        Weekday::Fri,
        Weekday::Sat,
        Weekday::Sun,
    ]
}

/// Monday to Friday.
pub open spec fn is_workday(day: Weekday) -> bool {
    day != Weekday::Sat && day != Weekday::Sun
}

/// Whether a text names one of the days Monday to Friday.
pub open spec fn names_workday(label: Seq<char>) -> bool {
    weekday_of_label(label) matches Some(day) && is_workday(day)
}

/// Whether a text names Saturday or Sunday.
pub open spec fn names_weekend_day(label: Seq<char>) -> bool {
    weekday_of_label(label) matches Some(day) && !is_workday(day)
}

/// The names of the seven days are seven different texts.
pub proof fn lemma_labels_differ(a: Weekday, b: Weekday)
    ensures
        label_of(a) == label_of(b) <==> a == b,
{
    reveal_strlit("Monday");
    reveal_strlit("Tuesday");
    reveal_strlit("Wednesday");
    reveal_strlit("Thursday");
    reveal_strlit("Friday");
    reveal_strlit("Saturday");
    reveal_strlit("Sunday");
    if a != b && label_of(a) == label_of(b) {
        assert(label_of(a).len() == label_of(b).len());
        assert(label_of(a)[0] == label_of(b)[0]);
        assert(label_of(a)[1] == label_of(b)[1]);
    }
}

/// A day's name stands for that day and for no other: reading the name that
/// was written for a day gives the day back, and a text that is read as a day
/// is that day's name.
pub proof fn law_label_round_trip(day: Weekday, label: Seq<char>)
    ensures
        weekday_of_label(label_of(day)) == Some(day),
        weekday_of_label(label) == Some(day) <==> label == label_of(day),
{
    lemma_labels_differ(day, Weekday::Mon);
    lemma_labels_differ(day, Weekday::Tue);
    lemma_labels_differ(day, Weekday::Wed);
    lemma_labels_differ(day, Weekday::Thu);
    lemma_labels_differ(day, Weekday::Fri);
    lemma_labels_differ(day, Weekday::Sat);
    lemma_labels_differ(day, Weekday::Sun);
}

/// The name of a day.
pub fn weekday_to_string(day: Weekday) -> (label: &'static str)
    ensures
        label@ == label_of(day),
{
    match day {
        Weekday::Mon => "Monday",
        Weekday::Tue => "Tuesday",
        Weekday::Wed => "Wednesday",
        Weekday::Thu => "Thursday",
        Weekday::Fri => "Friday",
        Weekday::Sat => "Saturday",
        Weekday::Sun => "Sunday",
    }
}

/// The day that a text names, or `None` where it names no day.
pub fn string_to_weekday(s: &str) -> (day: Option<Weekday>)
    ensures
        day == weekday_of_label(s@),
{
    if same_text(s, "Monday") {
        Some(Weekday::Mon)
    } else if same_text(s, "Tuesday") {
        Some(Weekday::Tue)
    } else if same_text(s, "Wednesday") {
        Some(Weekday::Wed)
    } else if same_text(s, "Thursday") {
        Some(Weekday::Thu)
    } else if same_text(s, "Friday") {
        Some(Weekday::Fri)
    } else if same_text(s, "Saturday") {
        Some(Weekday::Sat)
    } else if same_text(s, "Sunday") {
        Some(Weekday::Sun)
    } else {
        None
    }
}

/// The names of the seven days, Monday first.
pub fn get_weekdays() -> (names: Vec<&'static str>)
    ensures
        names@.len() == 7,
        forall|i: int| 0 <= i < 7 ==> (#[trigger] names@[i])@ == label_of(week()[i]),
{
    let mut names: Vec<&'static str> = Vec::new();
    names.push("Monday");
    names.push("Tuesday");
    names.push("Wednesday");
    names.push("Thursday");
    names.push("Friday");
    names.push("Saturday");
    names.push("Sunday");
    names
}

/// Whether every text names a day of the wanted kind: Monday to Friday where
/// `workdays` holds, Saturday or Sunday where it does not.
spec fn all_of_kind(days: Seq<Seq<char>>, workdays: bool) -> bool {
    forall|i: int|
        0 <= i < days.len() ==> if workdays {
            names_workday(#[trigger] days[i])
        } else {
            names_weekend_day(days[i])
        }
}

/// Five names, each of them one of Monday to Friday.
pub open spec fn weekdays_only(days: Seq<Seq<char>>) -> bool {
    days.len() == 5 && forall|i: int| 0 <= i < days.len() ==> names_workday(#[trigger] days[i])
}

/// Two names, each of them Saturday or Sunday.
pub open spec fn weekend_only(days: Seq<Seq<char>>) -> bool {
    days.len() == 2 && forall|i: int| 0 <= i < days.len() ==> names_weekend_day(#[trigger] days[i])
}

/// Five names of days from Monday to Friday, none of them twice, are the
/// names of all five; two names of Saturday or Sunday, none of them twice,
/// are the names of both.
pub proof fn law_days_without_repetition(days: Seq<Seq<char>>, day: Weekday)
    requires
        days.no_duplicates(),
    ensures
        weekdays_only(days) && is_workday(day) ==> days.contains(label_of(day)),
        weekend_only(days) && !is_workday(day) ==> days.contains(label_of(day)),
{
    if weekdays_only(days) && is_workday(day) {
        assert(names_workday(days[0]) && names_workday(days[1]) && names_workday(days[2])
            && names_workday(days[3]) && names_workday(days[4]));
        let d0 = weekday_of_label(days[0])->0;
        let d1 = weekday_of_label(days[1])->0;
        let d2 = weekday_of_label(days[2])->0;
        let d3 = weekday_of_label(days[3])->0;
        let d4 = weekday_of_label(days[4])->0;
        law_label_round_trip(d0, days[0]);
        law_label_round_trip(d1, days[1]);
        law_label_round_trip(d2, days[2]);
        law_label_round_trip(d3, days[3]);
        law_label_round_trip(d4, days[4]);
        assert(d0 != d1 && d0 != d2 && d0 != d3 && d0 != d4 && d1 != d2 && d1 != d3 && d1 != d4
            && d2 != d3 && d2 != d4 && d3 != d4);
        assert(d0 == day || d1 == day || d2 == day || d3 == day || d4 == day);
    }
    if weekend_only(days) && !is_workday(day) {
        assert(names_weekend_day(days[0]) && names_weekend_day(days[1]));
        let d0 = weekday_of_label(days[0])->0;
        let d1 = weekday_of_label(days[1])->0;
        law_label_round_trip(d0, days[0]);
        law_label_round_trip(d1, days[1]);
        assert(d0 != d1);
        assert(d0 == day || d1 == day);
    }
}

fn every_day_of_kind(days: &[String], workdays: bool) -> (all: bool)
    ensures
        all == all_of_kind(labels_of(days@), workdays),
{
    let mut i: usize = 0;
    while i < days.len()
        invariant
            i <= days.len(),
            all_of_kind(labels_of(days@.take(i as int)), workdays),
        decreases days.len() - i,
    {
        let of_kind = match string_to_weekday(days[i].as_str()) {
            Some(Weekday::Sat) => !workdays,
            Some(Weekday::Sun) => !workdays,
            Some(_) => workdays,
            None => false,
        };
        if !of_kind {
            assert(labels_of(days@)[i as int] == days@[i as int]@);
            return false;
        }
        assert forall|j: int| 0 <= j < i + 1 implies if workdays {
            names_workday(#[trigger] labels_of(days@.take(i + 1))[j])
        } else {
            names_weekend_day(labels_of(days@.take(i + 1))[j])
        } by {
            if j < i {
                assert(labels_of(days@.take(i + 1))[j] == labels_of(days@.take(i as int))[j]);
            }
        }
        i += 1;
    }
    assert(days@.take(days.len() as int) =~= days@);
    true
}

/// Whether the days are five names, each of them one of Monday to Friday.
pub fn is_weekday_only(days: &[String]) -> (only: bool)
    ensures
        only == weekdays_only(labels_of(days@)),
{
    every_day_of_kind(days, true) && days.len() == 5
}

/// Whether the days are two names, each of them Saturday or Sunday.
pub fn is_weekend_only(days: &[String]) -> (only: bool)
    ensures
        only == weekend_only(labels_of(days@)),
{
    every_day_of_kind(days, false) && days.len() == 2
}

/// Whether an alarm with these days rings on `day`: it names no day at all,
/// or it names `day`.
pub open spec fn rings_on(days: Seq<Seq<char>>, day: Weekday) -> bool {
    days.len() == 0 || days.contains(label_of(day))
}

/// Whether an alarm is due at a moment: it is active, its time is the
/// moment's hour and minute, and it rings on the moment's day.
pub open spec fn is_due(alarm: AlarmView, now: Moment) -> bool {
    &&& alarm.active
    &&& alarm.time == now.time@.hhmm()
    &&& rings_on(alarm.days, now.weekday)
}

/// The hour and minute of a moment as `HH:MM`; the seconds are left out.
pub fn current_hhmm(now: &Moment) -> (text: String)
    ensures
        text@ == now.time@.hhmm(),
{
    let hour = now.time.hour() as u64;
    let minute = now.time.minute() as u64;
    let mut text = String::from_str(digit_text(hour / 10));
    text.append(digit_text(hour % 10));
    text.append(":");
    text.append(digit_text(minute / 10));
    text.append(digit_text(minute % 10));
    proof {
        reveal_strlit(":");
        assert(text@ =~= now.time@.hhmm());
    }
    text
}

/// The text `HH:MM` tells the hour and the minute: two times of day are
/// written alike exactly where they are in the same minute.
pub proof fn law_hhmm_tells_the_minute(a: Clock, b: Clock)
    requires
        a.valid(),
        b.valid(),
    ensures
        a.hhmm().len() == 5,
        a.hhmm() == b.hhmm() <==> a.hour == b.hour && a.minute == b.minute,
{
    if a.hhmm() == b.hhmm() {
        assert(a.hhmm()[0] == b.hhmm()[0]);
        assert(a.hhmm()[1] == b.hhmm()[1]);
        assert(a.hhmm()[3] == b.hhmm()[3]);
        assert(a.hhmm()[4] == b.hhmm()[4]);
    }
}

/// An alarm is due in one minute of the day and in no other: two moments at
/// which it is due show the same hour and minute.
pub proof fn law_due_in_one_minute(alarm: AlarmView, a: Moment, b: Moment)
    requires
        a.time@.valid(),
        b.time@.valid(),
        is_due(alarm, a),
        is_due(alarm, b),
    ensures
        a.time@.hour == b.time@.hour,
        a.time@.minute == b.time@.minute,
{
    law_hhmm_tells_the_minute(a.time@, b.time@);
}

/// Whether one of the texts is `wanted`.
pub fn has_text(texts: &Vec<String>, wanted: &String) -> (found: bool)
    ensures
        found == labels_of(texts@).contains(wanted@),
{
    let mut i: usize = 0;
    while i < texts.len()
        invariant
            i <= texts.len(),
            forall|j: int| 0 <= j < i ==> labels_of(texts@)[j] != wanted@,
        decreases texts.len() - i,
    {
        if texts[i] == *wanted {
            assert(labels_of(texts@)[i as int] == wanted@);
            return true;
        }
        i += 1;
    }
    false
}

/// Whether an alarm is due when the clock shows `hhmm` on the day named `today`.
pub fn is_due_at(alarm: &AlarmEntry, hhmm: &String, today: &String) -> (due: bool)
    ensures
        due == (alarm@.active && alarm@.time == hhmm@ && (alarm@.days.len() == 0
            || alarm@.days.contains(today@))),
{
    if !alarm.active {
        return false;
    }
    if alarm.time != *hhmm {
        return false;
    }
    alarm.days.len() == 0 || has_text(&alarm.days, today)
}

/// Whether an alarm is due at the given moment.
pub fn should_trigger_at(alarm: &AlarmEntry, now: &Moment) -> (due: bool)
    ensures
        due == is_due(alarm@, *now),
{
    let hhmm = current_hhmm(now);
    let today = String::from_str(weekday_to_string(now.weekday));
    is_due_at(alarm, &hhmm, &today)
}

/// Whether an alarm is due now, by the machine's local clock. The answer is
/// that of `should_trigger_at` for the moment that the clock gave.
pub fn should_trigger(alarm: &AlarmEntry) -> (due: bool)
    ensures
        exists|now: Moment| now.time@.valid() && due == is_due(alarm@, now),
{
    let now = local_now();
    should_trigger_at(alarm, &now)
}

/// The seconds from `now` to the next time the clock shows `target`: today
/// where that time is still to come or is this very second, tomorrow where it
/// has passed.
pub open spec fn wait_seconds(target: Clock, now: Clock) -> int {
    if target.seconds_of_day() >= now.seconds_of_day() {
        target.seconds_of_day() - now.seconds_of_day()
    } else {
        86400 + target.seconds_of_day() - now.seconds_of_day()
    }
}

/// The wait for an alarm whose written time was parsed to `parsed`: an error
/// where the text was no time of day.
pub open spec fn wait_result(parsed: Option<Clock>, now: Clock) -> Result<i64, ErrorKind> {
    match parsed {
        Some(target) => Ok(wait_seconds(target, now) as i64),
        None => Err(ErrorKind::InvalidTimeFormat),
    }
}

/// The wait is never negative and always shorter than a day.
pub proof fn law_wait_within_a_day(target: Clock, now: Clock)
    requires
        target.valid(),
        now.valid(),
    ensures
        0 <= wait_seconds(target, now) < 86400,
{
}

/// An alarm set to the minute that the clock shows, at a second that the
/// clock has not passed, rings within that minute.
pub proof fn law_wait_within_the_minute(target: Clock, now: Clock)
    requires
        target.valid(),
        now.valid(),
        target.hour == now.hour,
        target.minute == now.minute,
        now.second <= target.second,
    ensures
        0 <= wait_seconds(target, now) <= 59,
{
}

/// The seconds from `now` until the clock next shows the time that was
/// parsed, or `InvalidTimeFormat` where nothing was parsed.
pub fn seconds_from(parsed: Option<TimeOfDay>, now: &Moment) -> (wait: Result<i64, ErrorKind>)
    ensures
        wait == wait_result(clock_of(parsed), now.time@),
        wait matches Ok(seconds) ==> 0 <= seconds < 86400,
{
    match parsed {
        Some(target) => {
            let at = target.seconds_of_day() as i64;
            let current = now.time.seconds_of_day() as i64;
            if at >= current {
                Ok(at - current)
            } else {
                Ok(86400 + at - current)
            }
        },
        None => Err(ErrorKind::InvalidTimeFormat),
    }
}

/// The seconds from `now` until the alarm's time of day next comes; the days
/// on which the alarm rings are not looked at. Fails with `InvalidTimeFormat`
/// where the alarm's time is not a time of day.
pub fn seconds_until(alarm: &AlarmEntry, now: &Moment) -> (wait: Result<i64, ErrorKind>)
    ensures
        wait == wait_result(naive_time_parsed(alarm@.time, TIME_FORMAT@), now.time@),
        wait matches Ok(seconds) ==> 0 <= seconds < 86400,
{
    let parsed = parse_time(alarm.time.as_str(), TIME_FORMAT);
    seconds_from(parsed, now)
}

/// The seconds from now, by the machine's local clock, until the alarm's time
/// of day next comes. The answer is that of `seconds_until` for the moment
/// that the clock gave.
pub fn time_until_alarm(alarm: &AlarmEntry) -> (wait: Result<i64, ErrorKind>)
    ensures
        exists|now: Clock|
            now.valid() && wait == wait_result(
                naive_time_parsed(alarm@.time, TIME_FORMAT@),
                now,
            ),
        wait matches Ok(seconds) ==> 0 <= seconds < 86400,
{
    let now = local_now();
    let wait = seconds_until(alarm, &now);
    assert(now.time@.valid() && wait == wait_result(
        naive_time_parsed(alarm@.time, TIME_FORMAT@),
        now.time@,
    ));
    wait
}

/// The mark of the plural: an `s` for more than one.
pub open spec fn plural_mark(count: int) -> Seq<char> {
    if count > 1 {
        "s"@
    } else {
        Seq::empty()
    }
}

/// A length of time in words. Under a minute it is given in seconds, under an
/// hour in whole minutes, from an hour on in whole hours, with the minutes
/// that are left over where there are any.
pub open spec fn duration_text(seconds: int) -> Seq<char> {
    if seconds < 60 {
        signed_decimal(seconds) + " seconde"@ + plural_mark(seconds)
    } else if seconds < 3600 {
        decimal((seconds / 60) as nat) + " minute"@ + plural_mark(seconds / 60)
    } else if (seconds % 3600) / 60 > 0 {
        decimal((seconds / 3600) as nat) + "h "@ + decimal(((seconds % 3600) / 60) as nat) + "m"@
    } else {
        decimal((seconds / 3600) as nat) + " heure"@ + plural_mark(seconds / 3600)
    }
}

/// Writes a length of time, given in seconds, in words.
pub fn format_time_until(seconds: i64) -> (text: String)
    ensures
        text@ == duration_text(seconds as int),
{
    if seconds < 60 {
        let mut text = signed_decimal_string(seconds);
        text.append(" seconde");
        if seconds > 1 {
            text.append("s");
        }
        assert(text@ =~= duration_text(seconds as int));
        text
    } else if seconds < 3600 {
        let minutes = (seconds / 60) as u64;
        let mut text = decimal_string(minutes);
        text.append(" minute");
        if minutes > 1 {
            text.append("s");
        }
        assert(text@ =~= duration_text(seconds as int));
        text
    } else {
        let hours = (seconds / 3600) as u64;
        let minutes = ((seconds % 3600) / 60) as u64;
        let mut text = decimal_string(hours);
        if minutes > 0 {
            text.append("h ");
            let rest = decimal_string(minutes);
            text.append(rest.as_str());
            text.append("m");
        } else {
            text.append(" heure");
            if hours > 1 {
                text.append("s");
            }
        }
        assert(text@ =~= duration_text(seconds as int));
        text
    }
}

} // verus!
