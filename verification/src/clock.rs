//! Times of day and calendar dates as plain numbers, and the calls that
//! read and write them. Reading and writing follow the `strftime` patterns
//! of the crate `chrono`, which does that work; what is stated of it here is
//! believed, not proved.

use vstd::prelude::*;
use chrono::{Datelike, Timelike};
use std::fmt::Write;
use crate::text::two_digits;

verus! {

/// Pattern of the times of sunrise and sunset in the payload, such as
/// "06:12 AM".
pub open spec fn twelve_hour_pattern() -> Seq<char> {
    "%I:%M %p"@
}

/// Pattern of a time on the 24-hour clock, such as "18:05".
pub open spec fn full_day_pattern() -> Seq<char> {
    "%H:%M"@
}

/// Pattern of an hour and a minute where the hour may have one digit.
pub open spec fn plain_hour_pattern() -> Seq<char> {
    "%k:%M"@
}

/// Pattern of the dates in the payload, such as "2024-03-09".
pub open spec fn payload_date_pattern() -> Seq<char> {
    "%Y-%m-%d"@
}

/// A time of day, to the minute.
#[derive(Debug, Clone, Copy, PartialEq, Eq)]
pub struct ClockTime {
    hour: u8,
    minute: u8,
}

impl ClockTime {
    #[verifier::type_invariant]
    spec fn in_range(self) -> bool {
        self.hour < 24 && self.minute < 60
    }

    /// The hour, from 0 to 23.
    pub closed spec fn hour_of(self) -> nat {
        self.hour as nat
    }

    /// The minute, from 0 to 59.
    pub closed spec fn minute_of(self) -> nat {
        self.minute as nat
    }

    /// The time with the given hour and minute, if there is such a time.
    pub fn new(hour: u8, minute: u8) -> (r: Option<ClockTime>)
        ensures
            r is Some == (hour < 24 && minute < 60),
            r matches Some(t) ==> t.hour_of() == hour && t.minute_of() == minute,
    {
        if hour < 24 && minute < 60 {
            Some(ClockTime { hour, minute })
        } else {
            None
        }
    }

    /// The hour, from 0 to 23.
    pub fn hour(&self) -> (h: u8)
        ensures
            h == self.hour_of(),
            h < 24,
    {
        proof {
            use_type_invariant(self);
        }
        self.hour
    }

    /// The minute, from 0 to 59.
    pub fn minute(&self) -> (m: u8)
        ensures
            m == self.minute_of(),
            m < 60,
    {
        proof {
            use_type_invariant(self);
        }
        self.minute
    }
}

/// A day of the calendar: year, month from 1 and day of the month from 1.
#[derive(Debug, Clone, Copy, PartialEq, Eq, Structural)]
pub struct CalendarDate {
    pub year: i32,
    pub month: u32,
    pub day: u32,
}

impl CalendarDate {
    /// Whether this day comes before `other`.
    pub open spec fn precedes(self, other: CalendarDate) -> bool {
        ||| self.year < other.year
        ||| self.year == other.year && self.month < other.month
        ||| self.year == other.year && self.month == other.month && self.day < other.day
    }

    /// Whether this day is `other` or a later day.
    pub fn on_or_after(&self, other: &CalendarDate) -> (r: bool)
        ensures
            r == !self.precedes(*other),
    {
        if self.year != other.year {
            self.year > other.year
        } else if self.month != other.month {
            self.month > other.month
        } else {
            self.day >= other.day
        }
    }
}

/// Hour and minute that `chrono` reads from a text under a pattern, or
/// `None` where it reads no time from it.
pub uninterp spec fn time_reading(raw: Seq<char>, pattern: Seq<char>) -> Option<(nat, nat)>;

/// The day that `chrono` reads from a text under a pattern, or `None` where
/// it reads no day from it.
pub uninterp spec fn date_reading(raw: Seq<char>, pattern: Seq<char>) -> Option<CalendarDate>;

/// The text that `chrono` writes for a day under a pattern, or `None` where
/// there is no such day in its calendar or the pattern cannot be followed.
pub uninterp spec fn date_text(date: CalendarDate, pattern: Seq<char>) -> Option<Seq<char>>;

/// A string that may be there, as characters.
pub open spec fn optional_string(held: Option<String>) -> Option<Seq<char>> {
    match held {
        Some(text) => Some(text@),
        None => None,
    }
}

/// A time of day that may be there, as hour and minute.
pub open spec fn optional_time(held: Option<ClockTime>) -> Option<(nat, nat)> {
    match held {
        Some(time) => Some((time.hour_of(), time.minute_of())),
        None => None,
    }
}

/// An hour and a minute that may be there, as numbers without bounds.
pub open spec fn optional_pair(held: Option<(u8, u8)>) -> Option<(nat, nat)> {
    match held {
        Some((hour, minute)) => Some((hour as nat, minute as nat)),
        None => None,
    }
}

/// A time on the 24-hour clock: two digits each for hour and minute.
pub open spec fn full_day_text(hour: nat, minute: nat) -> Seq<char> {
    two_digits(hour) + seq![':'] + two_digits(minute)
}

/// The hour as the 12-hour clock counts it: from 1 to 12.
pub open spec fn hour_on_dial(hour: nat) -> nat {
    if hour % 12 == 0 {
        12
    } else {
        hour % 12
    }
}

/// A time on the 12-hour clock: two digits each for hour and minute, then
/// "AM" before noon and "PM" from noon on.
pub open spec fn twelve_hour_text(hour: nat, minute: nat) -> Seq<char> {
    two_digits(hour_on_dial(hour)) + seq![':'] + two_digits(minute) + seq![' '] + (if hour >= 12 {
        seq!['P', 'M']
    } else {
        seq!['A', 'M']
    })
}

/// `chrono::NaiveTime::parse_from_str`: a text is read under a pattern. The
/// result is a function of the two texts alone, which `time_reading` names.
/// Of the time read, the hour and the minute are kept, which `chrono` gives
/// from 0 to 23 and from 0 to 59.
#[verifier::external_body]
fn read_time(raw: &str, pattern: &str) -> (r: Option<(u8, u8)>)
    ensures
        optional_pair(r) == time_reading(raw@, pattern@),
        r matches Some((hour, minute)) ==> hour < 24 && minute < 60,
{
    match chrono::NaiveTime::parse_from_str(raw, pattern) {
        Ok(t) => Some((t.hour() as u8, t.minute() as u8)),
        Err(_) => None,
    }
}

/// `chrono::NaiveTime::format`, for the two patterns that the tooltip uses.
/// Under "%H:%M" the hour and the minute come out with two digits each and
/// a colon between them. Under "%I:%M %p" the hour is counted from 1 to 12,
/// and a space and "AM" or "PM" follow the minute.
#[verifier::external_body]
fn write_time(hour: u8, minute: u8, pattern: &str) -> (s: String)
    requires
        hour < 24,
        minute < 60,
        pattern@ == full_day_pattern() || pattern@ == twelve_hour_pattern(),
    ensures
        pattern@ == full_day_pattern() ==> s@ == full_day_text(hour as nat, minute as nat),
        pattern@ == twelve_hour_pattern() ==> s@ == twelve_hour_text(hour as nat, minute as nat),
{
    let time = chrono::NaiveTime::from_hms_opt(hour as u32, minute as u32, 0).unwrap();
    time.format(pattern).to_string()
}

/// `chrono::NaiveDate::parse_from_str`: a text is read under a pattern. The
/// result is a function of the two texts alone, which `date_reading` names.
#[verifier::external_body]
fn read_date(raw: &str, pattern: &str) -> (r: Option<CalendarDate>)
    ensures
        r == date_reading(raw@, pattern@),
{
    match chrono::NaiveDate::parse_from_str(raw, pattern) {
        Ok(d) => Some(CalendarDate { year: d.year(), month: d.month(), day: d.day() }),
        Err(_) => None,
    }
}

/// `chrono::NaiveDate::format`: a day is written under a pattern. The text
/// is a function of the day and the pattern alone, which `date_text` names.
/// There is no text where `chrono::NaiveDate::from_ymd_opt` finds no such
/// day, nor where the pattern asks for what a day does not have.
#[verifier::external_body]
fn write_date(date: &CalendarDate, pattern: &str) -> (r: Option<String>)
    ensures
        optional_string(r) == date_text(*date, pattern@),
{
    let day = chrono::NaiveDate::from_ymd_opt(date.year, date.month, date.day)?;
    let mut out = String::new();
    match write!(out, "{}", day.format(pattern)) {
        Ok(()) => Some(out),
        Err(_) => None,
    }
}

/// Reads a time of sunrise or sunset as the payload writes it.
pub fn parse_astronomy_time(raw: &str) -> (r: Option<ClockTime>)
    ensures
        optional_time(r) == time_reading(raw@, twelve_hour_pattern()),
{
    match read_time(raw, "%I:%M %p") {
        Some((hour, minute)) => ClockTime::new(hour, minute),
        None => None,
    }
}

/// Reads an hour and a minute, such as "7:00".
pub fn parse_plain_time(raw: &str) -> (r: Option<ClockTime>)
    ensures
        optional_time(r) == time_reading(raw@, plain_hour_pattern()),
{
    match read_time(raw, "%k:%M") {
        Some((hour, minute)) => ClockTime::new(hour, minute),
        None => None,
    }
}

/// Reads a date as the payload writes it.
pub fn parse_payload_date(raw: &str) -> (r: Option<CalendarDate>)
    ensures
        r == date_reading(raw@, payload_date_pattern()),
{
    read_date(raw, "%Y-%m-%d")
}

/// Writes a day under the pattern that the configuration gives.
pub fn format_date(date: &CalendarDate, pattern: &str) -> (r: Option<String>)
    ensures
        optional_string(r) == date_text(*date, pattern@),
{
    write_date(date, pattern)
}

/// Writes a time of day: on the 12-hour clock where `ampm` is set, on the
/// 24-hour clock otherwise.
pub fn format_ampm_time(time: ClockTime, ampm: bool) -> (s: String)
    ensures
        ampm ==> s@ == twelve_hour_text(time.hour_of(), time.minute_of()),
        !ampm ==> s@ == full_day_text(time.hour_of(), time.minute_of()),
{
    if ampm {
        write_time(time.hour(), time.minute(), "%I:%M %p")
    } else {
        write_time(time.hour(), time.minute(), "%H:%M")
    }
}

/// How a time of sunrise, sunset or observation is shown. The payload
/// writes such a time on the 12-hour clock. On that clock it is shown as it
/// is written; on the 24-hour clock it is read and written anew, and a text
/// that does not read as a time is shown as nothing.
pub open spec fn astronomy_text(raw: Seq<char>, ampm: bool) -> Option<Seq<char>> {
    if ampm {
        Some(raw)
    } else {
        match time_reading(raw, twelve_hour_pattern()) {
            Some((hour, minute)) => Some(full_day_text(hour, minute)),
            None => None,
        }
    }
}

/// Shows a time of sunrise, sunset or observation.
pub fn astronomy_time(raw: &str, ampm: bool) -> (r: Option<String>)
    ensures
        optional_string(r) == astronomy_text(raw@, ampm),
{
    if ampm {
        Some(raw.to_string())
    } else {
        match parse_astronomy_time(raw) {
            Some(time) => Some(format_ampm_time(time, false)),
            None => None,
        }
    }
}

} // verus!
