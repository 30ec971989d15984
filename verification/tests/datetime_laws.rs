use g3_ui::avatar::initials_of;
use g3_ui::text::white_space;
use g3_ui::{CalendarDate, Color, HourCycle, ParseDateTimeError, TimeOfDay};

fn date(text: &str) -> CalendarDate {
    text.parse().unwrap()
}

/// Days since 1970-01-01 by walking whole years and months.
fn reference_days(year: i32, month: u8, day: u8) -> i64 {
    let leap = |y: i64| (y % 4 == 0 && y % 100 != 0) || y % 400 == 0;
    let mut days: i64 = 0;
    let y = i64::from(year);
    if y >= 1970 {
        for year in 1970..y {
            days += if leap(year) { 366 } else { 365 };
        }
    } else {
        for year in y..1970 {
            days -= if leap(year) { 366 } else { 365 };
        }
    }
    let lengths = [31, if leap(y) { 29 } else { 28 }, 31, 30, 31, 30, 31, 31, 30, 31, 30, 31];
    for m in 0..usize::from(month - 1) {
        days += lengths[m];
    }
    days + i64::from(day) - 1
}

#[test]
fn day_counts_match_walking_the_calendar() {
    for year in [-401, -1, 0, 1, 1600, 1899, 1900, 1969, 1970, 2000, 2024, 2100, 2400] {
        for month in 1..=12u8 {
            let length = g3_ui::datetime::days_in_month(year, month);
            for day in [1, 15, length] {
                let d = CalendarDate::new(year, month, day).unwrap();
                assert_eq!(d.days_since_epoch(), reference_days(year, month, day));
                assert_eq!(CalendarDate::from_days_since_epoch(d.days_since_epoch()), d);
            }
        }
    }
}

#[test]
fn every_day_of_four_centuries_round_trips() {
    let start = date("1600-03-01").days_since_epoch();
    let mut previous = CalendarDate::from_days_since_epoch(start - 1);
    for days in start..start + 146_097 {
        let d = CalendarDate::from_days_since_epoch(days);
        assert_eq!(d.days_since_epoch(), days);
        assert!(previous < d);
        assert_eq!(u32::from(d.weekday()), (u32::from(previous.weekday()) + 1) % 7);
        previous = d;
    }
}

#[test]
fn the_ends_of_the_range_are_reachable() {
    let first = CalendarDate::new(i32::MIN, 1, 1).unwrap();
    let last = CalendarDate::new(i32::MAX, 12, 31).unwrap();
    assert_eq!(CalendarDate::from_days_since_epoch(first.days_since_epoch()), first);
    assert_eq!(CalendarDate::from_days_since_epoch(last.days_since_epoch()), last);
    assert_eq!(first.days_since_epoch(), -784_353_015_833);
    assert_eq!(last.days_since_epoch(), 784_351_576_776);
}

#[test]
fn day_arithmetic_composes() {
    let d = date("2026-09-19");
    assert_eq!(d.add_days(100).add_days(-37), d.add_days(63));
    assert_eq!(d.add_days(0), d);
    assert_eq!(d.add_days(7).weekday(), d.weekday());
    assert_eq!(d.add_days(1).weekday(), (d.weekday() + 1) % 7);
    assert_eq!(d.add_days(-146_097), date("1626-09-19"));
}

#[test]
fn months_move_by_their_index() {
    let d = date("2024-03-31");
    assert_eq!(d.add_months(0), d);
    assert_eq!(d.add_months(-1), date("2024-02-29"));
    assert_eq!(d.add_months(-13), date("2023-02-28"));
    assert_eq!(d.add_months(-2025 * 12), CalendarDate::new(-1, 3, 31).unwrap());
    assert_eq!(d.first_of_month(), date("2024-03-01"));
}

#[test]
fn clamping_is_a_no_op_inside_the_bounds() {
    let min = date("2026-01-01");
    let max = date("2026-12-31");
    let inside = date("2026-06-15");
    assert_eq!(inside.clamp_to(Some(min), Some(max)), inside);
    assert_eq!(inside.clamp_to(None, None), inside);
    assert_eq!(date("2025-12-31").clamp_to(Some(min), None), min);
}

#[test]
fn text_forms_round_trip_and_tolerate_white_space() {
    assert_eq!(date("  2026-09-19\n"), date("2026-09-19"));
    assert_eq!(date("+2026-+9-+19"), date("2026-09-19"));
    assert_eq!(date("0000-02-29").to_string(), "0000-02-29");
    assert_eq!(CalendarDate::new(12345, 1, 2).unwrap().to_string(), "12345-01-02");
    assert_eq!(CalendarDate::new(-1, 1, 1).unwrap().to_string(), "-001-01-01");
    assert_eq!(date("-0001-01-01"), CalendarDate::new(-1, 1, 1).unwrap());
    assert_eq!(date("-001-01-01"), CalendarDate::new(-1, 1, 1).unwrap());
    for year in [i32::MIN, -12345, -1000, -1, 0, 1, 2026, i32::MAX] {
        let d = CalendarDate::new(year, 2, 28).unwrap();
        assert_eq!(d.to_string().parse::<CalendarDate>(), Ok(d));
    }
    assert!("--1-01-01".parse::<CalendarDate>().is_err());
    assert!("-".parse::<CalendarDate>().is_err());
    assert!("-2026".parse::<CalendarDate>().is_err());
    assert!("2026-09-19-01".parse::<CalendarDate>().is_err());
    assert!("2026-09-".parse::<CalendarDate>().is_err());
    assert!("2026-256-01".parse::<CalendarDate>().is_err());
    assert!("2026-9-x".parse::<CalendarDate>().is_err());
    assert!("99999999999-01-01".parse::<CalendarDate>().is_err());
    assert_eq!(CalendarDate::parse("2026-02-29"), Err(ParseDateTimeError));
}

#[test]
fn times_parse_their_first_two_parts() {
    assert_eq!("7:30:45".parse::<TimeOfDay>(), Ok(TimeOfDay::new(7, 30).unwrap()));
    assert_eq!(" 12:5 ".parse::<TimeOfDay>(), Ok(TimeOfDay::new(12, 5).unwrap()));
    assert!("12".parse::<TimeOfDay>().is_err());
    assert!(":30".parse::<TimeOfDay>().is_err());
    assert!("-1:30".parse::<TimeOfDay>().is_err());
    for hour in 0..24 {
        for minute in 0..60 {
            let t = TimeOfDay::new(hour, minute).unwrap();
            assert_eq!(t.to_string().parse::<TimeOfDay>(), Ok(t));
            let (h, pm) = t.hour12();
            assert_eq!(TimeOfDay::from_hour12(h, minute, pm), Some(t));
        }
    }
    assert!(TimeOfDay::from_hour12(0, 0, false).is_none());
    assert!(TimeOfDay::from_hour12(13, 0, true).is_none());
}

#[test]
fn clock_readings_from_seconds() {
    assert_eq!(TimeOfDay::from_unix_seconds(0), TimeOfDay::new(0, 0).unwrap());
    assert_eq!(TimeOfDay::from_unix_seconds(86_399), TimeOfDay::new(23, 59).unwrap());
    assert_eq!(TimeOfDay::from_unix_seconds(90_061), TimeOfDay::new(1, 1).unwrap());
    assert_eq!(CalendarDate::from_unix_seconds(-1), date("1969-12-31"));
    assert_eq!(CalendarDate::from_unix_seconds(1_789_776_000), date("2026-09-19"));
}

#[test]
fn defaults_and_messages() {
    assert_eq!(HourCycle::default(), HourCycle::H12);
    assert_eq!(Color::default(), Color::Accent);
    assert_eq!(
        ParseDateTimeError.to_string(),
        "expected an ISO 8601 date (YYYY-MM-DD) or time (HH:MM)"
    );
}

#[test]
fn white_space_is_unicode_white_space() {
    for code in 0..=0x10ffffu32 {
        if let Some(c) = char::from_u32(code) {
            assert_eq!(white_space(c), c.is_whitespace(), "{code:x}");
        }
    }
}

#[test]
fn initials_are_uppercased() {
    assert_eq!(initials_of("a b"), "AB");
    assert_eq!(initials_of("Zed"), "Z");
    assert_eq!(initials_of("7 up"), "7U");
    assert_eq!(initials_of("élan"), "É");
}
