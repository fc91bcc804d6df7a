use charmed::alarm::{
    current_hhmm, format_time_until, get_weekdays, has_text, is_due_at, is_weekday_only,
    is_weekend_only, seconds_from, seconds_until, should_trigger, should_trigger_at,
    string_to_weekday, time_until_alarm, weekday_to_string,
};
use charmed::clock::{Moment, TimeOfDay, Weekday, TIME_FORMAT};
use charmed::error::ErrorKind;
use charmed::AlarmEntry;

fn alarm(time: &str, active: bool, days: &[&str]) -> AlarmEntry {
    AlarmEntry {
        id: "a-1".to_string(),
        time: time.to_string(),
        playlist_name: "Morning".to_string(),
        playlist_uri: "spotify:playlist:abc".to_string(),
        volume: 70,
        active,
        days: days.iter().map(|d| d.to_string()).collect(),
        fade_in: false,
        fade_in_duration: 0,
    }
}

fn moment(weekday: Weekday, hour: u32, minute: u32, second: u32) -> Moment {
    Moment { weekday, time: TimeOfDay::new(hour, minute, second).unwrap() }
}

#[test]
fn test_weekday_conversion() {
    assert_eq!(weekday_to_string(Weekday::Mon), "Monday");
    assert_eq!(weekday_to_string(Weekday::Sun), "Sunday");

    assert_eq!(string_to_weekday("Monday"), Some(Weekday::Mon));
    assert_eq!(string_to_weekday("Invalid"), None);
}

#[test]
fn test_time_format() {
    assert_eq!(format_time_until(30), "30 secondes");
    assert_eq!(format_time_until(1), "1 seconde");
    assert_eq!(format_time_until(90), "1 minute");
    assert_eq!(format_time_until(180), "3 minutes");
    assert_eq!(format_time_until(3600), "1 heure");
    assert_eq!(format_time_until(7200), "2 heures");
    assert_eq!(format_time_until(3661), "1h 1m");
}

#[test]
fn test_weekday_checks() {
    let weekdays = vec![
        "Monday".to_string(),
        "Tuesday".to_string(),
        "Wednesday".to_string(),
        "Thursday".to_string(),
        "Friday".to_string(),
    ];
    assert!(is_weekday_only(&weekdays));
    assert!(!is_weekend_only(&weekdays));

    let weekend = vec!["Saturday".to_string(), "Sunday".to_string()];
    assert!(is_weekend_only(&weekend));
    assert!(!is_weekday_only(&weekend));
}

#[test]
fn every_weekday_has_its_name_and_is_read_back() {
    let days = [
        (Weekday::Mon, "Monday"),
        (Weekday::Tue, "Tuesday"),
        (Weekday::Wed, "Wednesday"),
        (Weekday::Thu, "Thursday"),
        (Weekday::Fri, "Friday"),
        (Weekday::Sat, "Saturday"),
        (Weekday::Sun, "Sunday"),
    ];
    for (day, name) in days {
        assert_eq!(weekday_to_string(day), name);
        assert_eq!(string_to_weekday(name), Some(day));
        assert_eq!(string_to_weekday(weekday_to_string(day)), Some(day));
    }
}

#[test]
fn texts_that_name_no_day_are_not_read_as_one() {
    assert_eq!(string_to_weekday(""), None);
    assert_eq!(string_to_weekday("monday"), None);
    assert_eq!(string_to_weekday("Monday "), None);
    assert_eq!(string_to_weekday("Mon"), None);
    assert_eq!(string_to_weekday("Lundi"), None);
}

#[test]
fn the_week_starts_on_monday() {
    assert_eq!(
        get_weekdays(),
        vec!["Monday", "Tuesday", "Wednesday", "Thursday", "Friday", "Saturday", "Sunday"]
    );
}

#[test]
fn weekday_only_asks_for_five_names_of_workdays() {
    let four: Vec<String> =
        ["Monday", "Tuesday", "Wednesday", "Thursday"].iter().map(|d| d.to_string()).collect();
    assert!(!is_weekday_only(&four));
    let with_saturday: Vec<String> = ["Monday", "Tuesday", "Wednesday", "Thursday", "Saturday"]
        .iter()
        .map(|d| d.to_string())
        .collect();
    assert!(!is_weekday_only(&with_saturday));
    let with_stranger: Vec<String> = ["Monday", "Tuesday", "Wednesday", "Thursday", "Funday"]
        .iter()
        .map(|d| d.to_string())
        .collect();
    assert!(!is_weekday_only(&with_stranger));
    let repeated: Vec<String> = vec!["Monday".to_string(); 5];
    assert!(is_weekday_only(&repeated));
    let none: Vec<String> = Vec::new();
    assert!(!is_weekday_only(&none));
    assert!(!is_weekend_only(&none));
}

#[test]
fn weekend_only_asks_for_two_names_of_weekend_days() {
    let one = vec!["Saturday".to_string()];
    assert!(!is_weekend_only(&one));
    let reversed = vec!["Sunday".to_string(), "Saturday".to_string()];
    assert!(is_weekend_only(&reversed));
    let repeated = vec!["Sunday".to_string(), "Sunday".to_string()];
    assert!(is_weekend_only(&repeated));
    let mixed = vec!["Sunday".to_string(), "Monday".to_string()];
    assert!(!is_weekend_only(&mixed));
    let three = vec!["Saturday".to_string(), "Sunday".to_string(), "Sunday".to_string()];
    assert!(!is_weekend_only(&three));
}

#[test]
fn durations_under_a_minute_are_given_in_seconds() {
    assert_eq!(format_time_until(0), "0 seconde");
    assert_eq!(format_time_until(2), "2 secondes");
    assert_eq!(format_time_until(59), "59 secondes");
    assert_eq!(format_time_until(-1), "-1 seconde");
    assert_eq!(format_time_until(-75), "-75 seconde");
    assert_eq!(format_time_until(i64::MIN), "-9223372036854775808 seconde");
}

#[test]
fn durations_under_an_hour_are_given_in_whole_minutes() {
    assert_eq!(format_time_until(60), "1 minute");
    assert_eq!(format_time_until(119), "1 minute");
    assert_eq!(format_time_until(120), "2 minutes");
    assert_eq!(format_time_until(600), "10 minutes");
    assert_eq!(format_time_until(3599), "59 minutes");
}

#[test]
fn durations_from_an_hour_on_are_given_in_hours() {
    assert_eq!(format_time_until(3659), "1 heure");
    assert_eq!(format_time_until(3660), "1h 1m");
    assert_eq!(format_time_until(7260), "2h 1m");
    assert_eq!(format_time_until(36000), "10 heures");
    assert_eq!(format_time_until(86399), "23h 59m");
    assert_eq!(format_time_until(86400), "24 heures");
    assert_eq!(format_time_until(i64::MAX), "2562047788015215h 30m");
}

#[test]
fn a_time_of_day_is_made_of_numbers_in_range_only() {
    assert!(TimeOfDay::new(0, 0, 0).is_some());
    assert!(TimeOfDay::new(23, 59, 59).is_some());
    assert!(TimeOfDay::new(24, 0, 0).is_none());
    assert!(TimeOfDay::new(0, 60, 0).is_none());
    assert!(TimeOfDay::new(0, 0, 60).is_none());
    let t = TimeOfDay::new(7, 30, 15).unwrap();
    assert_eq!(t.hour(), 7);
    assert_eq!(t.minute(), 30);
    assert_eq!(t.second(), 15);
    assert_eq!(t.seconds_of_day(), 7 * 3600 + 30 * 60 + 15);
    assert_eq!(TimeOfDay::new(23, 59, 59).unwrap().seconds_of_day(), 86399);
}

#[test]
fn the_clock_is_written_in_two_digits_each() {
    assert_eq!(current_hhmm(&moment(Weekday::Mon, 7, 5, 59)), "07:05");
    assert_eq!(current_hhmm(&moment(Weekday::Mon, 0, 0, 0)), "00:00");
    assert_eq!(current_hhmm(&moment(Weekday::Sun, 23, 59, 1)), "23:59");
    assert_eq!(current_hhmm(&moment(Weekday::Wed, 12, 30, 0)), "12:30");
}

#[test]
fn a_daily_alarm_is_due_at_its_minute_on_every_day() {
    let a = alarm("07:30", true, &[]);
    for day in [
        Weekday::Mon,
        Weekday::Tue,
        Weekday::Wed,
        Weekday::Thu,
        Weekday::Fri,
        Weekday::Sat,
        Weekday::Sun,
    ] {
        assert!(should_trigger_at(&a, &moment(day, 7, 30, 0)));
        assert!(should_trigger_at(&a, &moment(day, 7, 30, 59)));
        assert!(!should_trigger_at(&a, &moment(day, 7, 31, 0)));
        assert!(!should_trigger_at(&a, &moment(day, 7, 29, 59)));
        assert!(!should_trigger_at(&a, &moment(day, 19, 30, 0)));
    }
}

#[test]
fn an_alarm_that_is_switched_off_is_never_due() {
    let a = alarm("07:30", false, &[]);
    assert!(!should_trigger_at(&a, &moment(Weekday::Mon, 7, 30, 0)));
    let b = alarm("07:30", false, &["Monday"]);
    assert!(!should_trigger_at(&b, &moment(Weekday::Mon, 7, 30, 0)));
    assert!(!should_trigger(&a));
}

#[test]
fn a_monday_alarm_is_due_on_mondays_only() {
    let a = alarm("07:30", true, &["Monday"]);
    assert!(should_trigger_at(&a, &moment(Weekday::Mon, 7, 30, 0)));
    for day in
        [Weekday::Tue, Weekday::Wed, Weekday::Thu, Weekday::Fri, Weekday::Sat, Weekday::Sun]
    {
        assert!(!should_trigger_at(&a, &moment(day, 7, 30, 0)));
    }
    assert!(!should_trigger_at(&a, &moment(Weekday::Mon, 7, 31, 0)));
}

#[test]
fn an_alarm_with_several_days_is_due_on_each_of_them() {
    let a = alarm("06:00", true, &["Saturday", "Sunday"]);
    assert!(should_trigger_at(&a, &moment(Weekday::Sat, 6, 0, 0)));
    assert!(should_trigger_at(&a, &moment(Weekday::Sun, 6, 0, 0)));
    assert!(!should_trigger_at(&a, &moment(Weekday::Fri, 6, 0, 0)));
}

#[test]
fn an_alarm_whose_days_name_no_day_is_never_due() {
    let a = alarm("06:00", true, &["Funday"]);
    assert!(!should_trigger_at(&a, &moment(Weekday::Sat, 6, 0, 0)));
    assert!(!should_trigger_at(&a, &moment(Weekday::Mon, 6, 0, 0)));
}

#[test]
fn an_alarm_is_matched_by_the_text_of_its_time() {
    let short = alarm("7:05", true, &[]);
    assert!(!should_trigger_at(&short, &moment(Weekday::Mon, 7, 5, 0)));
    let padded = alarm("07:05", true, &[]);
    assert!(should_trigger_at(&padded, &moment(Weekday::Mon, 7, 5, 0)));
}

#[test]
fn an_alarm_with_a_time_that_no_clock_shows_is_not_due_now() {
    let a = alarm("99:99", true, &[]);
    assert!(!should_trigger(&a));
}

#[test]
fn due_at_compares_the_clock_text_and_the_day_name() {
    let a = alarm("07:30", true, &["Monday", "Friday"]);
    assert!(is_due_at(&a, &"07:30".to_string(), &"Friday".to_string()));
    assert!(!is_due_at(&a, &"07:30".to_string(), &"Sunday".to_string()));
    assert!(!is_due_at(&a, &"07:31".to_string(), &"Friday".to_string()));
    assert!(has_text(&a.days, &"Monday".to_string()));
    assert!(!has_text(&a.days, &"Tuesday".to_string()));
    assert!(!has_text(&Vec::new(), &"Monday".to_string()));
}

#[test]
fn the_wait_runs_to_the_next_time_the_clock_shows_the_alarm() {
    let a = alarm("07:30", true, &[]);
    assert_eq!(seconds_until(&a, &moment(Weekday::Mon, 7, 29, 30)), Ok(30));
    assert_eq!(seconds_until(&a, &moment(Weekday::Mon, 7, 30, 0)), Ok(0));
    assert_eq!(seconds_until(&a, &moment(Weekday::Mon, 7, 30, 15)), Ok(86385));
    assert_eq!(seconds_until(&a, &moment(Weekday::Mon, 7, 30, 59)), Ok(86341));
    assert_eq!(seconds_until(&a, &moment(Weekday::Mon, 0, 0, 0)), Ok(27000));
    assert_eq!(seconds_until(&a, &moment(Weekday::Mon, 8, 30, 0)), Ok(82800));
    let midnight = alarm("00:00", true, &[]);
    assert_eq!(seconds_until(&midnight, &moment(Weekday::Sun, 23, 59, 59)), Ok(1));
    assert_eq!(seconds_until(&midnight, &moment(Weekday::Sun, 0, 0, 1)), Ok(86399));
    let last = alarm("23:59", true, &[]);
    assert_eq!(seconds_until(&last, &moment(Weekday::Sun, 0, 0, 0)), Ok(86340));
}

#[test]
fn the_wait_does_not_look_at_the_days() {
    let a = alarm("07:30", true, &["Friday"]);
    assert_eq!(seconds_until(&a, &moment(Weekday::Mon, 7, 0, 0)), Ok(1800));
    let off = alarm("07:30", false, &[]);
    assert_eq!(seconds_until(&off, &moment(Weekday::Mon, 7, 0, 0)), Ok(1800));
}

#[test]
fn the_wait_fails_for_a_text_that_is_no_time_of_day() {
    let now = moment(Weekday::Mon, 7, 0, 0);
    for text in ["", "abc", "25:00", "24:00", "17:60", "12", "07:30:00", "07-30", "7h30"] {
        assert_eq!(seconds_until(&alarm(text, true, &[]), &now), Err(ErrorKind::InvalidTimeFormat));
    }
}

#[test]
fn a_time_with_a_single_digit_is_read_as_the_parser_reads_it() {
    let now = moment(Weekday::Mon, 7, 0, 0);
    assert_eq!(seconds_until(&alarm("7:15", true, &[]), &now), Ok(900));
    assert_eq!(seconds_until(&alarm("7:5", true, &[]), &now), Ok(300));
}

#[test]
fn the_wait_from_a_parsed_time() {
    let now = moment(Weekday::Thu, 12, 0, 0);
    assert_eq!(seconds_from(TimeOfDay::new(12, 0, 30), &now), Ok(30));
    assert_eq!(seconds_from(TimeOfDay::new(12, 0, 0), &now), Ok(0));
    assert_eq!(seconds_from(TimeOfDay::new(11, 59, 59), &now), Ok(86399));
    assert_eq!(seconds_from(None, &now), Err(ErrorKind::InvalidTimeFormat));
}

#[test]
fn the_wait_by_the_clock_is_within_a_day() {
    for text in ["00:00", "07:30", "12:00", "23:59"] {
        let wait = time_until_alarm(&alarm(text, true, &[])).unwrap();
        assert!((0..86400).contains(&wait));
    }
    assert_eq!(time_until_alarm(&alarm("soon", true, &[])), Err(ErrorKind::InvalidTimeFormat));
}

#[test]
fn the_waits_for_two_times_by_the_clock_differ_as_the_times_do() {
    let first = time_until_alarm(&alarm("06:00", true, &[])).unwrap();
    let second = time_until_alarm(&alarm("18:00", true, &[])).unwrap();
    let apart = (second - first).rem_euclid(86400);
    assert!((43190..=43200).contains(&apart));
}

#[test]
fn the_time_format_is_hour_and_minute() {
    assert_eq!(TIME_FORMAT, "%H:%M");
}
