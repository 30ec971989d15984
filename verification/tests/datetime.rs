use g3_ui::{CalendarDate, HourCycle, ParseDateTimeError, TimeOfDay};

fn date(text: &str) -> CalendarDate {
    text.parse().unwrap()
}

#[test]
fn dates_round_trip_through_day_counts() {
    for text in [
        "1970-01-01",
        "2000-02-29",
        "1600-03-01",
        "2026-09-19",
        "0001-01-01",
    ] {
        let parsed = date(text);
        assert_eq!(
            CalendarDate::from_days_since_epoch(parsed.days_since_epoch()),
            parsed
        );
        assert_eq!(parsed.to_string(), text);
    }
    assert_eq!(date("1970-01-01").days_since_epoch(), 0);
}

#[test]
fn weekdays_and_day_arithmetic() {
    assert_eq!(date("1970-01-01").weekday(), 4);
    assert_eq!(date("2026-09-19").weekday(), 6);
    assert_eq!(date("2024-02-28").add_days(1), date("2024-02-29"));
    assert_eq!(date("2024-03-01").add_days(-1), date("2024-02-29"));
    assert_eq!(date("2026-12-31").add_days(1), date("2027-01-01"));
}

#[test]
fn months_clamp_to_their_length() {
    assert_eq!(date("2026-01-31").add_months(1), date("2026-02-28"));
    assert_eq!(date("2024-01-31").add_months(1), date("2024-02-29"));
    assert_eq!(date("2026-01-15").add_months(-1), date("2025-12-15"));
    assert_eq!(date("2026-11-30").add_months(14), date("2028-01-30"));
}

#[test]
fn invalid_dates_and_times_are_rejected() {
    assert!(CalendarDate::new(2026, 2, 29).is_none());
    assert!(CalendarDate::new(2026, 13, 1).is_none());
    assert!("2026-9".parse::<CalendarDate>().is_err());
    assert!("24:00".parse::<TimeOfDay>().is_err());
    assert!("7:60".parse::<TimeOfDay>().is_err());
}

#[test]
fn twelve_hour_clock_readings() {
    assert_eq!(TimeOfDay::new(0, 5).unwrap().hour12(), (12, false));
    assert_eq!(TimeOfDay::new(12, 0).unwrap().hour12(), (12, true));
    assert_eq!(TimeOfDay::new(23, 59).unwrap().hour12(), (11, true));
    assert_eq!(TimeOfDay::from_hour12(12, 0, false), TimeOfDay::new(0, 0));
    assert_eq!(TimeOfDay::from_hour12(12, 30, true), TimeOfDay::new(12, 30));
    assert_eq!(TimeOfDay::from_hour12(7, 15, true), TimeOfDay::new(19, 15));
    assert_eq!("09:07".parse::<TimeOfDay>().unwrap().to_string(), "09:07");
}

#[test]
fn clamping_respects_open_bounds() {
    let min = date("2026-01-01");
    let max = date("2026-12-31");
    assert_eq!(date("2025-05-05").clamp_to(Some(min), Some(max)), min);
    assert_eq!(date("2027-05-05").clamp_to(None, Some(max)), max);
    assert_eq!(
        date("2027-05-05").clamp_to(Some(min), None),
        date("2027-05-05")
    );
}

#[test]
fn the_documented_example_holds() {
    let date: CalendarDate = "2026-09-19".parse().unwrap();
    assert_eq!(date.add_days(13).to_string(), "2026-10-02");
    assert_eq!(date.weekday(), 6);
    let time: TimeOfDay = "14:05".parse().unwrap();
    assert_eq!(time.hour12(), (2, true));
}
