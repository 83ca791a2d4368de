//! The weather of one place at one moment, as the tooltip needs it: the
//! current condition, the place, and the forecast by day and hour.
//!
//! A snapshot is a typed reading of a payload. `WeatherSnapshot::decode`
//! makes it, and is the one place that decides which fields a payload must
//! have: a payload that lacks one is refused with the path of that field.

use vstd::prelude::*;
use crate::clock::{date_reading, parse_payload_date, payload_date_pattern, CalendarDate};
use crate::lang::Lang;
use crate::payload::{optional_text, Json, Tree};

verus! {

/// The likelihood of eight kinds of weather within one hour, each as the
/// payload writes it: a percentage in decimal digits, where it is there.
#[derive(Debug, Clone, Copy)]
pub struct Chances<'a> {
    pub fog: Option<&'a str>,
    pub frost: Option<&'a str>,
    pub overcast: Option<&'a str>,
    pub rain: Option<&'a str>,
    pub snow: Option<&'a str>,
    pub sunshine: Option<&'a str>,
    pub thunder: Option<&'a str>,
    pub windy: Option<&'a str>,
}

/// The forecast for one hour of a day.
#[derive(Debug, Clone, Copy)]
pub struct HourRecord<'a> {
    /// Hour of the day times one hundred, in decimal digits: "0", "300", "2100".
    pub time: &'a str,
    pub weather_code: &'a str,
    pub feels_like_c: &'a str,
    pub feels_like_f: &'a str,
    /// The weather in words, in the language that was asked for.
    pub description: &'a str,
    pub chances: Chances<'a>,
}

/// The forecast for one day.
#[derive(Debug, Clone)]
pub struct DayForecast<'a> {
    pub date: CalendarDate,
    pub max_temp_c: &'a str,
    pub max_temp_f: &'a str,
    pub min_temp_c: &'a str,
    pub min_temp_f: &'a str,
    /// Time of sunrise on the 12-hour clock, such as "06:12 AM".
    pub sunrise: &'a str,
    /// Time of sunset on the 12-hour clock, such as "08:47 PM".
    pub sunset: &'a str,
    /// The hours of the day, in the order of the payload.
    pub hourly: Vec<HourRecord<'a>>,
}

/// The weather as it was last observed.
#[derive(Debug, Clone, Copy)]
pub struct CurrentCondition<'a> {
    pub temp_c: &'a str,
    pub temp_f: &'a str,
    pub feels_like_c: &'a str,
    pub feels_like_f: &'a str,
    pub humidity: &'a str,
    pub wind_speed_kmph: &'a str,
    pub wind_speed_miles: &'a str,
    pub weather_code: &'a str,
    /// The weather in words, in the language that was asked for.
    pub description: &'a str,
    /// Time of the observation on the 12-hour clock, where the payload has it.
    pub observation_time: Option<&'a str>,
    /// The whole record as the payload gives it, for the placeholders of an
    /// indicator template.
    pub fields: &'a Json,
}

/// The place that the weather is for.
#[derive(Debug, Clone, Copy)]
pub struct NearestArea<'a> {
    pub area_name: &'a str,
    pub region: &'a str,
    pub country: &'a str,
    /// The whole record as the payload gives it, for the placeholders of an
    /// indicator template.
    pub fields: &'a Json,
}

/// One answer of the forecast service for one place.
#[derive(Debug, Clone)]
pub struct WeatherSnapshot<'a> {
    pub current_condition: CurrentCondition<'a>,
    pub nearest_area: NearestArea<'a>,
    /// The days of the forecast, in the order of the payload.
    pub forecast_days: Vec<DayForecast<'a>>,
}

/// The likelihoods of an hour as plain values.
pub struct ChancesView {
    pub fog: Option<Seq<char>>,
    pub frost: Option<Seq<char>>,
    pub overcast: Option<Seq<char>>,
    pub rain: Option<Seq<char>>,
    pub snow: Option<Seq<char>>,
    pub sunshine: Option<Seq<char>>,
    pub thunder: Option<Seq<char>>,
    pub windy: Option<Seq<char>>,
}

/// The forecast for one hour as plain values.
pub struct HourView {
    pub time: Seq<char>,
    pub weather_code: Seq<char>,
    pub feels_like_c: Seq<char>,
    pub feels_like_f: Seq<char>,
    pub description: Seq<char>,
    pub chances: ChancesView,
}

/// The forecast for one day as plain values.
pub struct DayView {
    pub date: CalendarDate,
    pub max_temp_c: Seq<char>,
    pub max_temp_f: Seq<char>,
    pub min_temp_c: Seq<char>,
    pub min_temp_f: Seq<char>,
    pub sunrise: Seq<char>,
    pub sunset: Seq<char>,
    pub hourly: Seq<HourView>,
}

/// The current condition as plain values.
pub struct ConditionView {
    pub temp_c: Seq<char>,
    pub temp_f: Seq<char>,
    pub feels_like_c: Seq<char>,
    pub feels_like_f: Seq<char>,
    pub humidity: Seq<char>,
    pub wind_speed_kmph: Seq<char>,
    pub wind_speed_miles: Seq<char>,
    pub weather_code: Seq<char>,
    pub description: Seq<char>,
    pub observation_time: Option<Seq<char>>,
    pub fields: Tree,
}

/// The place as plain values.
pub struct AreaView {
    pub area_name: Seq<char>,
    pub region: Seq<char>,
    pub country: Seq<char>,
    pub fields: Tree,
}

/// A snapshot as plain values.
pub struct SnapshotView {
    pub current_condition: ConditionView,
    pub nearest_area: AreaView,
    pub forecast_days: Seq<DayView>,
}

impl<'a> View for Chances<'a> {
    type V = ChancesView;

    open spec fn view(&self) -> ChancesView {
        ChancesView {
            fog: optional_text(self.fog),
            frost: optional_text(self.frost),
            overcast: optional_text(self.overcast),
            rain: optional_text(self.rain),
            snow: optional_text(self.snow),
            sunshine: optional_text(self.sunshine),
            thunder: optional_text(self.thunder),
            windy: optional_text(self.windy),
        }
    }
}

impl<'a> View for HourRecord<'a> {
    type V = HourView;

    open spec fn view(&self) -> HourView {
        HourView {
            time: self.time@,
            weather_code: self.weather_code@,
            feels_like_c: self.feels_like_c@,
            feels_like_f: self.feels_like_f@,
            description: self.description@,
            chances: self.chances@,
        }
    }
}

/// The hours of a list as plain values.
pub open spec fn hour_views(hours: Seq<HourRecord>) -> Seq<HourView> {
    hours.map_values(|hour: HourRecord| hour@)
}

impl<'a> View for DayForecast<'a> {
    type V = DayView;

    open spec fn view(&self) -> DayView {
        DayView {
            date: self.date,
            max_temp_c: self.max_temp_c@,
            max_temp_f: self.max_temp_f@,
            min_temp_c: self.min_temp_c@,
            min_temp_f: self.min_temp_f@,
            sunrise: self.sunrise@,
            sunset: self.sunset@,
            hourly: hour_views(self.hourly@),
        }
    }
}

/// The days of a list as plain values.
pub open spec fn day_views(days: Seq<DayForecast>) -> Seq<DayView> {
    days.map_values(|day: DayForecast| day@)
}

impl<'a> View for CurrentCondition<'a> {
    type V = ConditionView;

    open spec fn view(&self) -> ConditionView {
        ConditionView {
            temp_c: self.temp_c@,
            temp_f: self.temp_f@,
            feels_like_c: self.feels_like_c@,
            feels_like_f: self.feels_like_f@,
            humidity: self.humidity@,
            wind_speed_kmph: self.wind_speed_kmph@,
            wind_speed_miles: self.wind_speed_miles@,
            weather_code: self.weather_code@,
            description: self.description@,
            observation_time: optional_text(self.observation_time),
            fields: self.fields@,
        }
    }
}

impl<'a> View for NearestArea<'a> {
    type V = AreaView;

    open spec fn view(&self) -> AreaView {
        AreaView {
            area_name: self.area_name@,
            region: self.region@,
            country: self.country@,
            fields: self.fields@,
        }
    }
}

impl<'a> View for WeatherSnapshot<'a> {
    type V = SnapshotView;

    open spec fn view(&self) -> SnapshotView {
        SnapshotView {
            current_condition: self.current_condition@,
            nearest_area: self.nearest_area@,
            forecast_days: day_views(self.forecast_days@),
        }
    }
}

/// The part of a payload in which a field stands.
#[derive(Debug, Clone, Copy, PartialEq, Eq, Structural)]
pub enum Section {
    /// The payload itself.
    Payload,
    /// The record of the current condition.
    CurrentCondition,
    /// The record of the place.
    NearestArea,
    /// The record of a forecast day, counted from 0.
    Day(usize),
    /// The record of an hour, by day and hour, each counted from 0.
    Hour(usize, usize),
}

/// Why no tooltip was made.
#[derive(Debug, Clone)]
pub enum RenderError {
    /// A field that the tooltip needs is not in the payload, or is there in
    /// a shape from which it cannot be read.
    MissingField { section: Section, key: String },
    /// The date of a forecast day, counted from 0, cannot be written under
    /// the configured pattern.
    DateFormat { day: usize },
}

/// A reason for which no tooltip is made, as a plain value.
pub enum Failure {
    Missing { section: Section, key: Seq<char> },
    DateFormat { day: usize },
}

impl View for RenderError {
    type V = Failure;

    open spec fn view(&self) -> Failure {
        match self {
            RenderError::MissingField { section, key } => Failure::Missing {
                section: *section,
                key: key@,
            },
            RenderError::DateFormat { day } => Failure::DateFormat { day: *day },
        }
    }
}

/// What came of an attempt, as plain values.
pub open spec fn outcome<T: View>(result: Result<T, RenderError>) -> Result<T::V, Failure> {
    match result {
        Ok(value) => Ok(value@),
        Err(error) => Err(error@),
    }
}

/// The failure for a field that is missing.
pub open spec fn missing_field(section: Section, key: Seq<char>) -> Failure {
    Failure::Missing { section, key }
}

/// The key of the first of the texts that an hour must have and that the
/// record `record` does not have.
pub open spec fn hour_gap(record: Tree, lang: Lang) -> Option<Seq<char>> {
    if record.text_at("time"@) is None {
        Some("time"@)
    } else if record.text_at("weatherCode"@) is None {
        Some("weatherCode"@)
    } else if record.text_at("FeelsLikeC"@) is None {
        Some("FeelsLikeC"@)
    } else if record.text_at("FeelsLikeF"@) is None {
        Some("FeelsLikeF"@)
    } else if record.described_at(lang.description_key()) is None {
        Some(lang.description_key())
    } else {
        None
    }
}

/// The likelihoods that the record of an hour gives.
pub open spec fn chances_of(record: Tree) -> ChancesView {
    ChancesView {
        fog: record.text_at("chanceoffog"@),
        frost: record.text_at("chanceoffrost"@),
        overcast: record.text_at("chanceofovercast"@),
        rain: record.text_at("chanceofrain"@),
        snow: record.text_at("chanceofsnow"@),
        sunshine: record.text_at("chanceofsunshine"@),
        thunder: record.text_at("chanceofthunder"@),
        windy: record.text_at("chanceofwindy"@),
    }
}

/// The hour that a record gives, where the record lacks nothing.
pub open spec fn hour_of(record: Tree, lang: Lang) -> HourView {
    HourView {
        time: record.text_at("time"@).unwrap(),
        weather_code: record.text_at("weatherCode"@).unwrap(),
        feels_like_c: record.text_at("FeelsLikeC"@).unwrap(),
        feels_like_f: record.text_at("FeelsLikeF"@).unwrap(),
        description: record.described_at(lang.description_key()).unwrap(),
        chances: chances_of(record),
    }
}

/// What reading the record of an hour gives: the hour, or the failure for
/// the first text that the record lacks. `day` and `hour` say where the
/// record stands.
pub open spec fn hour_decoded(record: Tree, day: usize, hour: usize, lang: Lang) -> Result<
    HourView,
    Failure,
> {
    match hour_gap(record, lang) {
        Some(key) => Err(missing_field(Section::Hour(day, hour), key)),
        None => Ok(hour_of(record, lang)),
    }
}

/// What the first `count` of the hour records of day `day` lack: the
/// failure of the first record among them that lacks a field.
pub open spec fn hours_gap(records: Seq<Tree>, day: usize, lang: Lang, count: int) -> Option<
    Failure,
>
    decreases count,
{
    if count <= 0 {
        None
    } else {
        match hours_gap(records, day, lang, count - 1) {
            Some(failure) => Some(failure),
            None => match hour_gap(records[count - 1], lang) {
                Some(key) => Some(missing_field(Section::Hour(day, (count - 1) as usize), key)),
                None => None,
            },
        }
    }
}

/// The hours that a list of records gives, where no record lacks anything.
pub open spec fn hours_of(records: Seq<Tree>, lang: Lang) -> Seq<HourView> {
    records.map_values(|record: Tree| hour_of(record, lang))
}

/// Whether the record of a day gives its hours as a list.
pub open spec fn has_hour_list(record: Tree) -> bool {
    record.get("hourly"@) matches Some(list) && list is List
}

/// The hour records of a day.
pub open spec fn hour_records(record: Tree) -> Seq<Tree> {
    match record.get("hourly"@) {
        Some(list) => list.items(),
        None => Seq::empty(),
    }
}

/// What the record of day `index` lacks: the failure for the first field
/// that it must have and does not have, the fields taken in the order
/// date, highest and lowest temperature in both units, sunrise and sunset,
/// and the hours one by one. A date that does not read as a day counts as
/// missing.
pub open spec fn day_gap(record: Tree, index: usize, lang: Lang) -> Option<Failure> {
    let section = Section::Day(index);
    if record.text_at("date"@) is None || date_reading(
        record.text_at("date"@).unwrap(),
        payload_date_pattern(),
    ) is None {
        Some(missing_field(section, "date"@))
    } else if record.text_at("maxtempC"@) is None {
        Some(missing_field(section, "maxtempC"@))
    } else if record.text_at("maxtempF"@) is None {
        Some(missing_field(section, "maxtempF"@))
    } else if record.text_at("mintempC"@) is None {
        Some(missing_field(section, "mintempC"@))
    } else if record.text_at("mintempF"@) is None {
        Some(missing_field(section, "mintempF"@))
    } else if record.first_at("astronomy"@) is None {
        Some(missing_field(section, "astronomy"@))
    } else if record.first_at("astronomy"@).unwrap().text_at("sunrise"@) is None {
        Some(missing_field(section, "sunrise"@))
    } else if record.first_at("astronomy"@).unwrap().text_at("sunset"@) is None {
        Some(missing_field(section, "sunset"@))
    } else if !has_hour_list(record) {
        Some(missing_field(section, "hourly"@))
    } else {
        hours_gap(hour_records(record), index, lang, hour_records(record).len() as int)
    }
}

/// The day that a record gives, where the record lacks nothing.
pub open spec fn day_of(record: Tree, lang: Lang) -> DayView {
    DayView {
        date: date_reading(record.text_at("date"@).unwrap(), payload_date_pattern()).unwrap(),
        max_temp_c: record.text_at("maxtempC"@).unwrap(),
        max_temp_f: record.text_at("maxtempF"@).unwrap(),
        min_temp_c: record.text_at("mintempC"@).unwrap(),
        min_temp_f: record.text_at("mintempF"@).unwrap(),
        sunrise: record.first_at("astronomy"@).unwrap().text_at("sunrise"@).unwrap(),
        sunset: record.first_at("astronomy"@).unwrap().text_at("sunset"@).unwrap(),
        hourly: hours_of(hour_records(record), lang),
    }
}

/// What reading the record of day `index` gives: the day, or the failure
/// for the first field that the record lacks.
pub open spec fn day_decoded(record: Tree, index: usize, lang: Lang) -> Result<DayView, Failure> {
    match day_gap(record, index, lang) {
        Some(failure) => Err(failure),
        None => Ok(day_of(record, lang)),
    }
}

/// What the first `count` of the day records lack: the failure of the
/// first record among them that lacks a field.
pub open spec fn days_gap(records: Seq<Tree>, lang: Lang, count: int) -> Option<Failure>
    decreases count,
{
    if count <= 0 {
        None
    } else {
        match days_gap(records, lang, count - 1) {
            Some(failure) => Some(failure),
            None => day_gap(records[count - 1], (count - 1) as usize, lang),
        }
    }
}

/// The days that a list of records gives, where no record lacks anything.
pub open spec fn days_of(records: Seq<Tree>, lang: Lang) -> Seq<DayView> {
    records.map_values(|record: Tree| day_of(record, lang))
}

/// The key of the first of the fields that a current condition must have
/// and that the record `record` does not have.
pub open spec fn condition_gap(record: Tree, lang: Lang) -> Option<Seq<char>> {
    if record.text_at("temp_C"@) is None {
        Some("temp_C"@)
    } else if record.text_at("temp_F"@) is None {
        Some("temp_F"@)
    } else if record.text_at("FeelsLikeC"@) is None {
        Some("FeelsLikeC"@)
    } else if record.text_at("FeelsLikeF"@) is None {
        Some("FeelsLikeF"@)
    } else if record.text_at("humidity"@) is None {
        Some("humidity"@)
    } else if record.text_at("windspeedKmph"@) is None {
        Some("windspeedKmph"@)
    } else if record.text_at("windspeedMiles"@) is None {
        Some("windspeedMiles"@)
    } else if record.text_at("weatherCode"@) is None {
        Some("weatherCode"@)
    } else if record.described_at(lang.description_key()) is None {
        Some(lang.description_key())
    } else {
        None
    }
}

/// The current condition that a record gives, where the record lacks
/// nothing. The time of the observation is taken where it is there.
pub open spec fn condition_of(record: Tree, lang: Lang) -> ConditionView {
    ConditionView {
        temp_c: record.text_at("temp_C"@).unwrap(),
        temp_f: record.text_at("temp_F"@).unwrap(),
        feels_like_c: record.text_at("FeelsLikeC"@).unwrap(),
        feels_like_f: record.text_at("FeelsLikeF"@).unwrap(),
        humidity: record.text_at("humidity"@).unwrap(),
        wind_speed_kmph: record.text_at("windspeedKmph"@).unwrap(),
        wind_speed_miles: record.text_at("windspeedMiles"@).unwrap(),
        weather_code: record.text_at("weatherCode"@).unwrap(),
        description: record.described_at(lang.description_key()).unwrap(),
        observation_time: record.text_at("observation_time"@),
        fields: record,
    }
}

/// What reading the record of the current condition gives: the condition,
/// or the failure for the first field that the record lacks.
pub open spec fn condition_decoded(record: Tree, lang: Lang) -> Result<ConditionView, Failure> {
    match condition_gap(record, lang) {
        Some(key) => Err(missing_field(Section::CurrentCondition, key)),
        None => Ok(condition_of(record, lang)),
    }
}

/// The key of the first of the fields that a place must have and that the
/// record `record` does not have.
pub open spec fn area_gap(record: Tree) -> Option<Seq<char>> {
    if record.described_at("areaName"@) is None {
        Some("areaName"@)
    } else if record.described_at("region"@) is None {
        Some("region"@)
    } else if record.described_at("country"@) is None {
        Some("country"@)
    } else {
        None
    }
}

/// The place that a record gives, where the record lacks nothing.
pub open spec fn area_of(record: Tree) -> AreaView {
    AreaView {
        area_name: record.described_at("areaName"@).unwrap(),
        region: record.described_at("region"@).unwrap(),
        country: record.described_at("country"@).unwrap(),
        fields: record,
    }
}

/// What reading the record of the place gives: the place, or the failure
/// for the first field that the record lacks.
pub open spec fn area_decoded(record: Tree) -> Result<AreaView, Failure> {
    match area_gap(record) {
        Some(key) => Err(missing_field(Section::NearestArea, key)),
        None => Ok(area_of(record)),
    }
}

/// Whether the payload gives the days of the forecast as a list.
pub open spec fn has_day_list(payload: Tree) -> bool {
    payload.get("weather"@) matches Some(list) && list is List
}

/// The day records of a payload.
pub open spec fn day_records(payload: Tree) -> Seq<Tree> {
    match payload.get("weather"@) {
        Some(list) => list.items(),
        None => Seq::empty(),
    }
}

/// What the payload lacks: the failure for the first field that it must
/// have and does not have. The current condition is looked at first, then
/// the place, then the days in their order.
pub open spec fn payload_gap(payload: Tree, lang: Lang) -> Option<Failure> {
    if payload.first_at("current_condition"@) is None {
        Some(missing_field(Section::Payload, "current_condition"@))
    } else if condition_gap(payload.first_at("current_condition"@).unwrap(), lang) is Some {
        Some(
            missing_field(
                Section::CurrentCondition,
                condition_gap(payload.first_at("current_condition"@).unwrap(), lang).unwrap(),
            ),
        )
    } else if payload.first_at("nearest_area"@) is None {
        Some(missing_field(Section::Payload, "nearest_area"@))
    } else if area_gap(payload.first_at("nearest_area"@).unwrap()) is Some {
        Some(
            missing_field(
                Section::NearestArea,
                area_gap(payload.first_at("nearest_area"@).unwrap()).unwrap(),
            ),
        )
    } else if !has_day_list(payload) {
        Some(missing_field(Section::Payload, "weather"@))
    } else {
        days_gap(day_records(payload), lang, day_records(payload).len() as int)
    }
}

/// The snapshot that a payload gives, where the payload lacks nothing: the
/// first record of its current condition, the first record of its place,
/// and its days in their order.
pub open spec fn snapshot_of(payload: Tree, lang: Lang) -> SnapshotView {
    SnapshotView {
        current_condition: condition_of(payload.first_at("current_condition"@).unwrap(), lang),
        nearest_area: area_of(payload.first_at("nearest_area"@).unwrap()),
        forecast_days: days_of(day_records(payload), lang),
    }
}

/// What reading a payload gives: the snapshot, or the failure for the
/// first field that the payload lacks.
pub open spec fn decoded(payload: Tree, lang: Lang) -> Result<SnapshotView, Failure> {
    match payload_gap(payload, lang) {
        Some(failure) => Err(failure),
        None => Ok(snapshot_of(payload, lang)),
    }
}

/// A failure among the first hours stays the failure of the whole list.
proof fn lemma_hours_gap_stays(records: Seq<Tree>, day: usize, lang: Lang, count: int, more: int)
    requires
        count <= more,
        hours_gap(records, day, lang, count) is Some,
    ensures
        hours_gap(records, day, lang, more) == hours_gap(records, day, lang, count),
    decreases more - count,
{
    if count < more {
        lemma_hours_gap_stays(records, day, lang, count, more - 1);
    }
}

/// A failure among the first days stays the failure of the whole list.
proof fn lemma_days_gap_stays(records: Seq<Tree>, lang: Lang, count: int, more: int)
    requires
        count <= more,
        days_gap(records, lang, count) is Some,
    ensures
        days_gap(records, lang, more) == days_gap(records, lang, count),
    decreases more - count,
{
    if count < more {
        lemma_days_gap_stays(records, lang, count, more - 1);
    }
}

/// Makes the failure for a field that is missing.
pub fn missing(section: Section, key: &str) -> (e: RenderError)
    ensures
        e@ == missing_field(section, key@),
{
    RenderError::MissingField { section, key: key.to_string() }
}

fn need_text<'a>(record: &'a Json, key: &str, section: Section) -> (r: Result<&'a str, RenderError>)
    ensures
        match record@.text_at(key@) {
            Some(t) => r is Ok && r.unwrap()@ == t,
            None => r is Err && r.unwrap_err()@ == missing_field(section, key@),
        },
{
    match record.member_text(key) {
        Some(t) => Ok(t),
        None => Err(missing(section, key)),
    }
}

fn need_described<'a>(record: &'a Json, key: &str, section: Section) -> (r: Result<
    &'a str,
    RenderError,
>)
    ensures
        match record@.described_at(key@) {
            Some(t) => r is Ok && r.unwrap()@ == t,
            None => r is Err && r.unwrap_err()@ == missing_field(section, key@),
        },
{
    match record.member_described(key) {
        Some(t) => Ok(t),
        None => Err(missing(section, key)),
    }
}

impl<'a> HourRecord<'a> {
    /// Reads the record of one hour. `day` and `hour` say where the record
    /// stands, for the failure.
    pub fn decode(record: &'a Json, day: usize, hour: usize, lang: Lang) -> (r: Result<
        HourRecord<'a>,
        RenderError,
    >)
        ensures
            outcome(r) == hour_decoded(record@, day, hour, lang),
    {
        let section = Section::Hour(day, hour);
        let time = need_text(record, "time", section)?;
        let weather_code = need_text(record, "weatherCode", section)?;
        let feels_like_c = need_text(record, "FeelsLikeC", section)?;
        let feels_like_f = need_text(record, "FeelsLikeF", section)?;
        let description_key = lang.weather_desc();
        let description = need_described(record, description_key.as_str(), section)?;
        let chances = Chances {
            fog: record.member_text("chanceoffog"),
            frost: record.member_text("chanceoffrost"),
            overcast: record.member_text("chanceofovercast"),
            rain: record.member_text("chanceofrain"),
            snow: record.member_text("chanceofsnow"),
            sunshine: record.member_text("chanceofsunshine"),
            thunder: record.member_text("chanceofthunder"),
            windy: record.member_text("chanceofwindy"),
        };
        Ok(HourRecord { time, weather_code, feels_like_c, feels_like_f, description, chances })
    }
}

fn decode_hours<'a>(list: &'a Json, day: usize, lang: Lang) -> (r: Result<
    Vec<HourRecord<'a>>,
    RenderError,
>)
    ensures
        match hours_gap(list@.items(), day, lang, list@.items().len() as int) {
            None => r is Ok && hour_views(r.unwrap()@) == hours_of(list@.items(), lang),
            Some(failure) => r is Err && r.unwrap_err()@ == failure,
        },
{
    let count = list.item_count();
    let mut hours: Vec<HourRecord<'a>> = Vec::new();
    let mut i: usize = 0;
    while i < count
        invariant
            i <= count,
            count == list@.items().len(),
            hours@.len() == i,
            hours_gap(list@.items(), day, lang, i as int) is None,
            forall|k: int|
                0 <= k < i ==> (#[trigger] hours@[k])@ == hour_of(list@.items()[k], lang),
        decreases count - i,
    {
        let record = match list.item(i) {
            Some(record) => record,
            None => {
                assert(false);
                return Ok(hours);
            },
        };
        match HourRecord::decode(record, day, i, lang) {
            Ok(hour) => {
                hours.push(hour);
            },
            Err(e) => {
                proof {
                    lemma_hours_gap_stays(list@.items(), day, lang, i + 1, count as int);
                }
                return Err(e);
            },
        }
        i += 1;
    }
    assert(hour_views(hours@) =~= hours_of(list@.items(), lang));
    Ok(hours)
}

impl<'a> DayForecast<'a> {
    /// Reads the record of one day. `index` says where the record stands,
    /// for the failure.
    pub fn decode(record: &'a Json, index: usize, lang: Lang) -> (r: Result<
        DayForecast<'a>,
        RenderError,
    >)
        ensures
            outcome(r) == day_decoded(record@, index, lang),
    {
        let section = Section::Day(index);
        let raw_date = need_text(record, "date", section)?;
        let date = match parse_payload_date(raw_date) {
            Some(date) => date,
            None => {
                return Err(missing(section, "date"));
            },
        };
        let max_temp_c = need_text(record, "maxtempC", section)?;
        let max_temp_f = need_text(record, "maxtempF", section)?;
        let min_temp_c = need_text(record, "mintempC", section)?;
        let min_temp_f = need_text(record, "mintempF", section)?;
        let astronomy = match record.member_first("astronomy") {
            Some(astronomy) => astronomy,
            None => {
                return Err(missing(section, "astronomy"));
            },
        };
        let sunrise = need_text(astronomy, "sunrise", section)?;
        let sunset = need_text(astronomy, "sunset", section)?;
        let list = match record.member("hourly") {
            Some(list) => list,
            None => {
                return Err(missing(section, "hourly"));
            },
        };
        match list {
            Json::List(_) => {},
            _ => {
                return Err(missing(section, "hourly"));
            },
        }
        let hourly = decode_hours(list, index, lang)?;
        Ok(
            DayForecast {
                date,
                max_temp_c,
                max_temp_f,
                min_temp_c,
                min_temp_f,
                sunrise,
                sunset,
                hourly,
            },
        )
    }
}

impl<'a> CurrentCondition<'a> {
    /// Reads the record of the current condition.
    pub fn decode(record: &'a Json, lang: Lang) -> (r: Result<CurrentCondition<'a>, RenderError>)
        ensures
            outcome(r) == condition_decoded(record@, lang),
    {
        let section = Section::CurrentCondition;
        let temp_c = need_text(record, "temp_C", section)?;
        let temp_f = need_text(record, "temp_F", section)?;
        let feels_like_c = need_text(record, "FeelsLikeC", section)?;
        let feels_like_f = need_text(record, "FeelsLikeF", section)?;
        let humidity = need_text(record, "humidity", section)?;
        let wind_speed_kmph = need_text(record, "windspeedKmph", section)?;
        let wind_speed_miles = need_text(record, "windspeedMiles", section)?;
        let weather_code = need_text(record, "weatherCode", section)?;
        let description_key = lang.weather_desc();
        let description = need_described(record, description_key.as_str(), section)?;
        let observation_time = record.member_text("observation_time");
        Ok(
            CurrentCondition {
                temp_c,
                temp_f,
                feels_like_c,
                feels_like_f,
                humidity,
                wind_speed_kmph,
                wind_speed_miles,
                weather_code,
                description,
                observation_time,
                fields: record,
            },
        )
    }
}

impl<'a> NearestArea<'a> {
    /// Reads the record of the place.
    pub fn decode(record: &'a Json) -> (r: Result<NearestArea<'a>, RenderError>)
        ensures
            outcome(r) == area_decoded(record@),
    {
        let section = Section::NearestArea;
        let area_name = need_described(record, "areaName", section)?;
        let region = need_described(record, "region", section)?;
        let country = need_described(record, "country", section)?;
        Ok(NearestArea { area_name, region, country, fields: record })
    }
}

fn decode_days<'a>(list: &'a Json, lang: Lang) -> (r: Result<Vec<DayForecast<'a>>, RenderError>)
    ensures
        match days_gap(list@.items(), lang, list@.items().len() as int) {
            None => r is Ok && day_views(r.unwrap()@) == days_of(list@.items(), lang),
            Some(failure) => r is Err && r.unwrap_err()@ == failure,
        },
{
    let count = list.item_count();
    let mut days: Vec<DayForecast<'a>> = Vec::new();
    let mut i: usize = 0;
    while i < count
        invariant
            i <= count,
            count == list@.items().len(),
            days@.len() == i,
            days_gap(list@.items(), lang, i as int) is None,
            forall|k: int| 0 <= k < i ==> (#[trigger] days@[k])@ == day_of(list@.items()[k], lang),
        decreases count - i,
    {
        let record = match list.item(i) {
            Some(record) => record,
            None => {
                assert(false);
                return Ok(days);
            },
        };
        match DayForecast::decode(record, i, lang) {
            Ok(day) => {
                days.push(day);
            },
            Err(e) => {
                proof {
                    lemma_days_gap_stays(list@.items(), lang, i + 1, count as int);
                }
                return Err(e);
            },
        }
        i += 1;
    }
    assert(day_views(days@) =~= days_of(list@.items(), lang));
    Ok(days)
}

impl<'a> WeatherSnapshot<'a> {
    /// Reads a payload.
    ///
    /// The result is a snapshot exactly when the payload has every field
    /// that the tooltip needs: then each field of the snapshot holds what
    /// the payload has under the key of that field. Otherwise the result is
    /// the failure for the first field that is not there, in the order in
    /// which `payload_gap` takes them.
    pub fn decode(payload: &'a Json, lang: Lang) -> (r: Result<WeatherSnapshot<'a>, RenderError>)
        ensures
            outcome(r) == decoded(payload@, lang),
    {
        let condition_record = match payload.member_first("current_condition") {
            Some(record) => record,
            None => {
                return Err(missing(Section::Payload, "current_condition"));
            },
        };
        let current_condition = CurrentCondition::decode(condition_record, lang)?;
        let area_record = match payload.member_first("nearest_area") {
            Some(record) => record,
            None => {
                return Err(missing(Section::Payload, "nearest_area"));
            },
        };
        let nearest_area = NearestArea::decode(area_record)?;
        let list = match payload.member("weather") {
            Some(list) => list,
            None => {
                return Err(missing(Section::Payload, "weather"));
            },
        };
        match list {
            Json::List(_) => {},
            _ => {
                return Err(missing(Section::Payload, "weather"));
            },
        }
        let forecast_days = decode_days(list, lang)?;
        Ok(WeatherSnapshot { current_condition, nearest_area, forecast_days })
    }
}

} // verus!
