use chrono::{NaiveDate, NaiveTime};
use wttrbar::clock::{
    astronomy_time, format_ampm_time, format_date, parse_astronomy_time, parse_payload_date,
    parse_plain_time, CalendarDate, ClockTime,
};

fn date(year: i32, month: u32, day: u32) -> CalendarDate {
    CalendarDate { year, month, day }
}

#[test]
fn a_time_of_day_has_an_hour_and_a_minute_in_range() {
    let time = ClockTime::new(18, 5).unwrap();
    assert_eq!(time.hour(), 18);
    assert_eq!(time.minute(), 5);
    assert!(ClockTime::new(0, 0).is_some());
    assert!(ClockTime::new(23, 59).is_some());
    assert_eq!(ClockTime::new(24, 0), None);
    assert_eq!(ClockTime::new(0, 60), None);
    assert_eq!(ClockTime::new(255, 255), None);
}

#[test]
fn times_on_the_24_hour_clock() {
    assert_eq!(format_ampm_time(ClockTime::new(6, 12).unwrap(), false), "06:12");
    assert_eq!(format_ampm_time(ClockTime::new(0, 0).unwrap(), false), "00:00");
    assert_eq!(format_ampm_time(ClockTime::new(20, 47).unwrap(), false), "20:47");
}

#[test]
fn times_on_the_12_hour_clock() {
    assert_eq!(format_ampm_time(ClockTime::new(6, 12).unwrap(), true), "06:12 AM");
    assert_eq!(format_ampm_time(ClockTime::new(0, 0).unwrap(), true), "12:00 AM");
    assert_eq!(format_ampm_time(ClockTime::new(12, 0).unwrap(), true), "12:00 PM");
    assert_eq!(format_ampm_time(ClockTime::new(20, 47).unwrap(), true), "08:47 PM");
    assert_eq!(format_ampm_time(ClockTime::new(23, 59).unwrap(), true), "11:59 PM");
}

#[test]
fn every_time_is_written_as_stated() {
    for hour in 0u8..24 {
        for minute in 0u8..60 {
            let time = ClockTime::new(hour, minute).unwrap();
            assert_eq!(format_ampm_time(time, false), format!("{:02}:{:02}", hour, minute));
            let on_dial = if hour % 12 == 0 { 12 } else { hour % 12 };
            let half = if hour >= 12 { "PM" } else { "AM" };
            assert_eq!(format_ampm_time(time, true), format!("{:02}:{:02} {}", on_dial, minute, half));
        }
    }
}

#[test]
fn sun_times_are_read_on_the_12_hour_clock() {
    let morning = parse_astronomy_time("06:12 AM").unwrap();
    assert_eq!((morning.hour(), morning.minute()), (6, 12));
    let evening = parse_astronomy_time("08:47 PM").unwrap();
    assert_eq!((evening.hour(), evening.minute()), (20, 47));
    let midnight = parse_astronomy_time("12:00 AM").unwrap();
    assert_eq!((midnight.hour(), midnight.minute()), (0, 0));
    let noon = parse_astronomy_time("12:30 PM").unwrap();
    assert_eq!((noon.hour(), noon.minute()), (12, 30));
    assert_eq!(parse_astronomy_time("No sunrise"), None);
    assert_eq!(parse_astronomy_time(""), None);
    assert_eq!(parse_astronomy_time("13:00 PM"), None);
    assert_eq!(parse_astronomy_time("06:60 AM"), None);
    assert_eq!(parse_astronomy_time("06:12"), None);
}

#[test]
fn reading_times_agrees_with_chrono() {
    for raw in ["06:12 AM", "6:12 am", "11:59 PM", "00:10 AM", "12:00 PM", "7:5 PM", " 07:05 PM", "07:05 PM "] {
        let expected = NaiveTime::parse_from_str(raw, "%I:%M %p").ok();
        let found = parse_astronomy_time(raw)
            .map(|t| NaiveTime::from_hms_opt(t.hour() as u32, t.minute() as u32, 0).unwrap());
        assert_eq!(found, expected, "for {:?}", raw);
    }
}

#[test]
fn plain_times_are_read() {
    let seven = parse_plain_time("7:00").unwrap();
    assert_eq!((seven.hour(), seven.minute()), (7, 0));
    let late = parse_plain_time("23:00").unwrap();
    assert_eq!((late.hour(), late.minute()), (23, 0));
    assert_eq!(parse_plain_time("24:00"), None);
    assert_eq!(parse_plain_time("7"), None);
}

#[test]
fn sun_times_are_shown_by_the_clock_asked_for() {
    assert_eq!(astronomy_time("06:12 AM", false), Some("06:12".to_string()));
    assert_eq!(astronomy_time("08:47 PM", false), Some("20:47".to_string()));
    assert_eq!(astronomy_time("12:00 AM", false), Some("00:00".to_string()));
    assert_eq!(astronomy_time("06:12 AM", true), Some("06:12 AM".to_string()));
    assert_eq!(astronomy_time("08:47 PM", true), Some("08:47 PM".to_string()));
}

#[test]
fn a_sun_time_that_is_no_time_is_passed_on_or_refused() {
    assert_eq!(astronomy_time("No sunset", true), Some("No sunset".to_string()));
    assert_eq!(astronomy_time("No sunset", false), None);
    assert_eq!(astronomy_time("", false), None);
}

#[test]
fn payload_dates_are_read() {
    assert_eq!(parse_payload_date("2024-03-09"), Some(date(2024, 3, 9)));
    assert_eq!(parse_payload_date("2023-12-31"), Some(date(2023, 12, 31)));
    assert_eq!(parse_payload_date("2024-02-29"), Some(date(2024, 2, 29)));
    assert_eq!(parse_payload_date("2023-02-29"), None);
    assert_eq!(parse_payload_date("2024-13-01"), None);
    assert_eq!(parse_payload_date("09/03/2024"), None);
    assert_eq!(parse_payload_date(""), None);
    assert_eq!(parse_payload_date("2024-03-09T10:00"), None);
}

#[test]
fn dates_are_written_under_a_pattern() {
    let day = date(2024, 3, 9);
    assert_eq!(format_date(&day, "%Y-%m-%d"), Some("2024-03-09".to_string()));
    assert_eq!(format_date(&day, "%d.%m.%Y"), Some("09.03.2024".to_string()));
    assert_eq!(format_date(&day, "%a, %e %b"), Some("Sat,  9 Mar".to_string()));
    assert_eq!(format_date(&day, "%A"), Some("Saturday".to_string()));
    assert_eq!(format_date(&day, "day"), Some("day".to_string()));
    assert_eq!(format_date(&day, ""), Some("".to_string()));
}

#[test]
fn writing_dates_agrees_with_chrono() {
    for (year, month, day) in [(2024, 3, 9), (1999, 12, 31), (2024, 2, 29), (1, 1, 1)] {
        for pattern in ["%Y-%m-%d", "%d/%m/%y", "%B %-d, %Y", "%j", "%U %u"] {
            let expected = NaiveDate::from_ymd_opt(year, month, day).unwrap().format(pattern).to_string();
            assert_eq!(format_date(&date(year, month, day), pattern), Some(expected));
        }
    }
}

#[test]
fn a_date_that_cannot_be_written_gives_nothing() {
    let day = date(2024, 3, 9);
    assert_eq!(format_date(&day, "%Q"), None);
    assert_eq!(format_date(&day, "%"), None);
    assert_eq!(format_date(&day, "%H:%M"), None);
    assert_eq!(format_date(&date(2023, 2, 29), "%Y-%m-%d"), None);
    assert_eq!(format_date(&date(2024, 0, 1), "%Y-%m-%d"), None);
    assert_eq!(format_date(&date(2024, 1, 0), "%Y-%m-%d"), None);
    assert_eq!(format_date(&date(2024, 13, 1), "%Y-%m-%d"), None);
}

#[test]
fn days_are_ordered_by_year_month_and_day() {
    let today = date(2024, 3, 9);
    assert!(today.on_or_after(&today));
    assert!(date(2024, 3, 10).on_or_after(&today));
    assert!(date(2024, 4, 1).on_or_after(&today));
    assert!(date(2025, 1, 1).on_or_after(&today));
    assert!(!date(2024, 3, 8).on_or_after(&today));
    assert!(!date(2024, 2, 29).on_or_after(&today));
    assert!(!date(2023, 12, 31).on_or_after(&today));
    assert!(!date(-1, 12, 31).on_or_after(&date(1, 1, 1)));
}
