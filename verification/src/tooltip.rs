//! The tooltip: the current weather in five or six lines, and then one
//! section for each day of the forecast that has not passed.
//!
//! The tooltip is first a list of lines, in the order in which they are
//! read; only the last step puts them under one another as one text.

use vstd::prelude::*;
use crate::clock::{astronomy_text, astronomy_time, date_text, format_date, optional_string};
use crate::config::{Configuration, RenderConfiguration, RenderMoment, UnitSystem};
use crate::format::{
    chances_text, clock_hour, clock_label, format_chances, format_temp, hour_of_code,
    parse_hour_code, temperature_text,
};
use crate::icons::{resolve_text, resolved_glyph_of_text};
use crate::lang::Lang;
use crate::snapshot::{
    day_views, hour_views, missing, missing_field, outcome, AreaView, ConditionView,
    CurrentCondition, DayForecast, DayView, Failure, HourRecord, HourView, NearestArea,
    RenderError, Section, SnapshotView, WeatherSnapshot,
};

verus! {

/// The texts of a list of strings.
pub open spec fn texts(lines: Seq<String>) -> Seq<Seq<char>> {
    lines.map_values(|line: String| line@)
}

/// The temperature now, in the units asked for.
pub open spec fn temperature_now(condition: ConditionView, units: UnitSystem) -> Seq<char> {
    match units {
        UnitSystem::Metric => condition.temp_c,
        UnitSystem::Imperial => condition.temp_f,
    }
}

/// The apparent temperature now, in the units asked for.
pub open spec fn feels_like_now(condition: ConditionView, units: UnitSystem) -> Seq<char> {
    match units {
        UnitSystem::Metric => condition.feels_like_c,
        UnitSystem::Imperial => condition.feels_like_f,
    }
}

/// The speed of the wind now with its unit: kilometres per hour for metric
/// units, miles per hour for imperial ones.
pub open spec fn wind_now(condition: ConditionView, units: UnitSystem) -> Seq<char> {
    match units {
        UnitSystem::Metric => condition.wind_speed_kmph + " km/h"@,
        UnitSystem::Imperial => condition.wind_speed_miles + " mph"@,
    }
}

/// First line: the weather in words, in bold, and the temperature.
pub open spec fn header_line(condition: ConditionView, config: Configuration) -> Seq<char> {
    "<b>"@ + condition.description + "</b> "@ + temperature_now(condition, config.units) + "°"@
}

/// Second line: the apparent temperature.
pub open spec fn feels_like_line(condition: ConditionView, config: Configuration) -> Seq<char> {
    config.lang.feels_like_label() + ": "@ + feels_like_now(condition, config.units) + "°"@
}

/// Third line: the wind.
pub open spec fn wind_line(condition: ConditionView, config: Configuration) -> Seq<char> {
    config.lang.wind_label() + ": "@ + wind_now(condition, config.units)
}

/// Fourth line: the humidity.
pub open spec fn humidity_line(condition: ConditionView, config: Configuration) -> Seq<char> {
    config.lang.humidity_label() + ": "@ + condition.humidity + "%"@
}

/// Fifth line: the place, as area, region and country.
pub open spec fn location_line(area: AreaView, config: Configuration) -> Seq<char> {
    config.lang.location_label() + ": "@ + area.area_name + ", "@ + area.region + ", "@
        + area.country
}

/// The time of the observation as it is shown: there is one where the
/// configuration asks for it, the payload has it, and it reads as a time.
pub open spec fn observation_shown(condition: ConditionView, config: Configuration)
    -> Option<Seq<char>> {
    if config.observation_time {
        match condition.observation_time {
            Some(raw) => if astronomy_text(raw, false) is Some {
                astronomy_text(raw, config.ampm)
            } else {
                None
            },
            None => None,
        }
    } else {
        None
    }
}

/// Sixth line, where the time of the observation is shown: that time.
pub open spec fn observation_line(condition: ConditionView, config: Configuration) -> Option<
    Seq<char>,
> {
    match observation_shown(condition, config) {
        Some(time) => Some(config.lang.observation_time_label() + ": "@ + time),
        None => None,
    }
}

/// The lines on the weather now: header, apparent temperature, wind,
/// humidity and place, and the time of the observation where it is shown.
pub open spec fn current_lines(snapshot: SnapshotView, config: Configuration) -> Seq<
    Seq<char>,
> {
    let condition = snapshot.current_condition;
    let fixed = seq![
        header_line(condition, config),
        feels_like_line(condition, config),
        wind_line(condition, config),
        humidity_line(condition, config),
        location_line(snapshot.nearest_area, config),
    ];
    match observation_line(condition, config) {
        Some(line) => fixed.push(line),
        None => fixed,
    }
}

/// Whether the line of an hour is shown in the section at `position`. An
/// hour whose code stands for no hour is never shown. In the first section
/// the hours that lie more than two hours back are left out, unless it is
/// not yet two o'clock.
pub open spec fn hour_is_shown(hour: HourView, position: nat, moment: RenderMoment) -> bool {
    match hour_of_code(hour.time) {
        Some(h) => !(position == 0 && moment.hour >= 2 && h < moment.hour - 2),
        None => false,
    }
}

/// Hours are left out of the first section only, and only from two
/// o'clock on: in every other section, and before two o'clock, every hour
/// whose code stands for an hour is shown.
pub proof fn lemma_hours_that_are_always_shown(hour: HourView, position: nat, moment: RenderMoment)
    requires
        position > 0 || moment.hour < 2,
    ensures
        hour_is_shown(hour, position, moment) == (hour_of_code(hour.time) is Some),
{
}

/// In the first section, from two o'clock on, an hour is shown exactly when
/// it lies no more than two hours back.
pub proof fn lemma_hours_shown_today(hour: HourView, moment: RenderMoment)
    requires
        moment.hour >= 2,
        hour_of_code(hour.time) is Some,
    ensures
        hour_is_shown(hour, 0, moment) == (hour_of_code(hour.time)->Some_0 + 2 >= moment.hour),
{
}

/// The apparent temperature of an hour, in the units asked for.
pub open spec fn feels_like_then(hour: HourView, units: UnitSystem) -> Seq<char> {
    match units {
        UnitSystem::Metric => hour.feels_like_c,
        UnitSystem::Imperial => hour.feels_like_f,
    }
}

/// The line of an hour: the hour, the icon, the apparent temperature in
/// its column, the weather in words and, unless they are hidden, a comma
/// and the likelihoods.
pub open spec fn hour_line(hour: HourView, config: Configuration) -> Seq<char> {
    let line = clock_label(hour_of_code(hour.time).unwrap(), config.ampm) + " "@
        + resolved_glyph_of_text(hour.weather_code, config.icon_style) + " "@ + temperature_text(
        feels_like_then(hour, config.units),
        3,
    ) + " "@ + hour.description;
    if config.hide_conditions {
        line
    } else {
        line + ", "@ + chances_text(hour.chances, config.lang)
    }
}

/// The lines of the hours of a day that are shown, in the order of the day.
pub open spec fn hour_lines(
    hours: Seq<HourView>,
    position: nat,
    config: Configuration,
    moment: RenderMoment,
) -> Seq<Seq<char>> {
    hours.filter(|hour: HourView| hour_is_shown(hour, position, moment)).map_values(
        |hour: HourView| hour_line(hour, config),
    )
}

/// What goes before the date of a day: the word for today in the first
/// section, the word for tomorrow in the second, each with a comma, and
/// nothing in the others.
pub open spec fn day_name(lang: Lang, position: nat) -> Seq<char> {
    if position == 0 {
        lang.today_label() + ", "@
    } else if position == 1 {
        lang.tomorrow_label() + ", "@
    } else {
        Seq::empty()
    }
}

/// Head of a section: name and date of the day, in bold.
pub open spec fn day_header(written_date: Seq<char>, position: nat, lang: Lang) -> Seq<char> {
    "<b>"@ + day_name(lang, position) + written_date + "</b>"@
}

/// The highest temperature of a day, in the units asked for.
pub open spec fn highest(day: DayView, units: UnitSystem) -> Seq<char> {
    match units {
        UnitSystem::Metric => day.max_temp_c,
        UnitSystem::Imperial => day.max_temp_f,
    }
}

/// The lowest temperature of a day, in the units asked for.
pub open spec fn lowest(day: DayView, units: UnitSystem) -> Seq<char> {
    match units {
        UnitSystem::Metric => day.min_temp_c,
        UnitSystem::Imperial => day.min_temp_f,
    }
}

/// Second line of a section: highest and lowest temperature, sunrise and
/// sunset, each behind its sign.
pub open spec fn extremes_line(
    day: DayView,
    sunrise: Seq<char>,
    sunset: Seq<char>,
    config: Configuration,
) -> Seq<char> {
    config.icon_style.high_sign() + " "@ + highest(day, config.units) + "° "@
        + config.icon_style.low_sign() + " "@ + lowest(day, config.units) + "° "@
        + config.icon_style.sunrise_sign() + " "@ + sunrise + " "@ + config.icon_style.sunset_sign()
        + " "@ + sunset
}

/// The section of a day: an empty line, the head, the line of the extremes
/// and the lines of the hours. `index` counts the day in the snapshot and
/// `position` counts the section in the tooltip. There is no section, but a
/// failure, where the date cannot be written or a time of the sun cannot be
/// shown.
pub open spec fn day_section(
    day: DayView,
    index: usize,
    position: nat,
    config: Configuration,
    moment: RenderMoment,
) -> Result<Seq<Seq<char>>, Failure> {
    match date_text(day.date, config.date_format) {
        None => Err(Failure::DateFormat { day: index }),
        Some(written) => match astronomy_text(day.sunrise, config.ampm) {
            None => Err(missing_field(Section::Day(index), "sunrise"@)),
            Some(sunrise) => match astronomy_text(day.sunset, config.ampm) {
                None => Err(missing_field(Section::Day(index), "sunset"@)),
                Some(sunset) => Ok(
                    seq![
                        Seq::empty(),
                        day_header(written, position, config.lang),
                        extremes_line(day, sunrise, sunset, config),
                    ] + hour_lines(day.hourly, position, config, moment),
                ),
            },
        },
    }
}

/// The sections of the first `count` days of the forecast, and how many
/// sections they are. A day before today has no section; every other day
/// has one, in the order of the forecast. The first day that has a failure
/// in place of its section makes the whole a failure.
pub open spec fn forecast_lines(
    days: Seq<DayView>,
    count: int,
    config: Configuration,
    moment: RenderMoment,
) -> Result<(Seq<Seq<char>>, nat), Failure>
    decreases count,
{
    if count <= 0 {
        Ok((Seq::empty(), 0nat))
    } else {
        match forecast_lines(days, count - 1, config, moment) {
            Err(failure) => Err(failure),
            Ok((lines, sections)) => {
                let day = days[count - 1];
                if day.date.precedes(moment.today) {
                    Ok((lines, sections))
                } else {
                    match day_section(day, (count - 1) as usize, sections, config, moment) {
                        Err(failure) => Err(failure),
                        Ok(section) => Ok((lines + section, sections + 1)),
                    }
                }
            },
        }
    }
}

/// The lines of the tooltip, or the failure for which there is none.
pub open spec fn tooltip_lines(
    snapshot: SnapshotView,
    config: Configuration,
    moment: RenderMoment,
) -> Result<Seq<Seq<char>>, Failure> {
    match forecast_lines(
        snapshot.forecast_days,
        snapshot.forecast_days.len() as int,
        config,
        moment,
    ) {
        Err(failure) => Err(failure),
        Ok((lines, _)) => Ok(current_lines(snapshot, config) + lines),
    }
}

/// The lines under one another: each line with a line feed after it.
pub open spec fn stacked(lines: Seq<Seq<char>>) -> Seq<char>
    decreases lines.len(),
{
    if lines.len() == 0 {
        Seq::empty()
    } else {
        stacked(lines.drop_last()) + lines.last() + "\n"@
    }
}

/// The tooltip as one text, or the failure for which there is none.
pub open spec fn tooltip_text(
    snapshot: SnapshotView,
    config: Configuration,
    moment: RenderMoment,
) -> Result<Seq<char>, Failure> {
    match tooltip_lines(snapshot, config, moment) {
        Err(failure) => Err(failure),
        Ok(lines) => Ok(stacked(lines)),
    }
}

/// Whether a day has a section in the tooltip: it is today or a later day.
pub open spec fn is_to_come(day: DayView, moment: RenderMoment) -> bool {
    !day.date.precedes(moment.today)
}

/// The tooltip has one section for each day of the forecast that is today
/// or later, and none for any other day.
pub proof fn lemma_one_section_for_each_day_to_come(
    days: Seq<DayView>,
    count: int,
    config: Configuration,
    moment: RenderMoment,
)
    requires
        0 <= count <= days.len(),
        forecast_lines(days, count, config, moment) is Ok,
    ensures
        forecast_lines(days, count, config, moment)->Ok_0.1 == days.take(count).filter(
            |day: DayView| is_to_come(day, moment),
        ).len(),
    decreases count,
{
    reveal(Seq::filter);
    let to_come = |day: DayView| is_to_come(day, moment);
    if count > 0 {
        lemma_one_section_for_each_day_to_come(days, count - 1, config, moment);
        assert(days.take(count).drop_last() == days.take(count - 1));
        assert(days.take(count).last() == days[count - 1]);
    } else {
        assert(days.take(0).filter(to_come).len() == 0);
    }
}

/// A section begins with an empty line, and then come its head and the
/// line of the extremes. The head of the first section names the day as
/// today and that of the second as tomorrow; the others give the date alone.
pub proof fn lemma_section_head(
    day: DayView,
    index: usize,
    position: nat,
    config: Configuration,
    moment: RenderMoment,
)
    requires
        day_section(day, index, position, config, moment) is Ok,
    ensures
        ({
            let section = day_section(day, index, position, config, moment)->Ok_0;
            let written = date_text(day.date, config.date_format)->Some_0;
            &&& section.len() >= 3
            &&& section[0] == Seq::<char>::empty()
            &&& position == 0 ==> section[1] == "<b>"@ + (config.lang.today_label() + ", "@)
                + written + "</b>"@
            &&& position == 1 ==> section[1] == "<b>"@ + (config.lang.tomorrow_label() + ", "@)
                + written + "</b>"@
            &&& position >= 2 ==> section[1] == "<b>"@ + written + "</b>"@
        }),
{
    let written = date_text(day.date, config.date_format)->Some_0;
    if position >= 2 {
        assert("<b>"@ + Seq::<char>::empty() =~= "<b>"@);
    }
}

/// A failure among the first days stays the failure of the whole forecast.
proof fn lemma_forecast_failure_stays(
    days: Seq<DayView>,
    count: int,
    more: int,
    config: Configuration,
    moment: RenderMoment,
)
    requires
        count <= more,
        forecast_lines(days, count, config, moment) is Err,
    ensures
        forecast_lines(days, more, config, moment) == forecast_lines(days, count, config, moment),
    decreases more - count,
{
    if count < more {
        lemma_forecast_failure_stays(days, count, more - 1, config, moment);
    }
}

fn pick<'a>(units: UnitSystem, metric: &'a str, imperial: &'a str) -> (r: &'a str)
    ensures
        r@ == (match units {
            UnitSystem::Metric => metric@,
            UnitSystem::Imperial => imperial@,
        }),
{
    match units {
        UnitSystem::Metric => metric,
        UnitSystem::Imperial => imperial,
    }
}

fn write_header(condition: &CurrentCondition, config: &RenderConfiguration) -> (s: String)
    ensures
        s@ == header_line(condition@, config@),
{
    let mut s = "<b>".to_string();
    s.append(condition.description);
    s.append("</b> ");
    s.append(pick(config.units, condition.temp_c, condition.temp_f));
    s.append("°");
    s
}

fn write_feels_like(condition: &CurrentCondition, config: &RenderConfiguration) -> (s: String)
    ensures
        s@ == feels_like_line(condition@, config@),
{
    let mut s = config.lang.feels_like();
    s.append(": ");
    s.append(pick(config.units, condition.feels_like_c, condition.feels_like_f));
    s.append("°");
    s
}

fn write_wind(condition: &CurrentCondition, config: &RenderConfiguration) -> (s: String)
    ensures
        s@ == wind_line(condition@, config@),
{
    let mut s = config.lang.wind();
    s.append(": ");
    let ghost label = s@;
    match config.units {
        UnitSystem::Metric => {
            s.append(condition.wind_speed_kmph);
            s.append(" km/h");
            assert(s@ =~= label + (condition.wind_speed_kmph@ + " km/h"@));
        },
        UnitSystem::Imperial => {
            s.append(condition.wind_speed_miles);
            s.append(" mph");
            assert(s@ =~= label + (condition.wind_speed_miles@ + " mph"@));
        },
    }
    s
}

fn write_humidity(condition: &CurrentCondition, config: &RenderConfiguration) -> (s: String)
    ensures
        s@ == humidity_line(condition@, config@),
{
    let mut s = config.lang.humidity();
    s.append(": ");
    s.append(condition.humidity);
    s.append("%");
    s
}

fn write_location(area: &NearestArea, config: &RenderConfiguration) -> (s: String)
    ensures
        s@ == location_line(area@, config@),
{
    let mut s = config.lang.location();
    s.append(": ");
    s.append(area.area_name);
    s.append(", ");
    s.append(area.region);
    s.append(", ");
    s.append(area.country);
    s
}

fn write_observation(condition: &CurrentCondition, config: &RenderConfiguration) -> (r: Option<
    String,
>)
    ensures
        optional_string(r) == observation_line(condition@, config@),
{
    if !config.observation_time {
        return None;
    }
    let raw = match condition.observation_time {
        Some(raw) => raw,
        None => {
            return None;
        },
    };
    if astronomy_time(raw, false).is_none() {
        return None;
    }
    match astronomy_time(raw, config.ampm) {
        Some(time) => {
            let mut s = config.lang.observation_time();
            s.append(": ");
            s.append(time.as_str());
            Some(s)
        },
        None => None,
    }
}

fn write_current(snapshot: &WeatherSnapshot, config: &RenderConfiguration) -> (lines: Vec<String>)
    ensures
        texts(lines@) == current_lines(snapshot@, config@),
{
    let condition = &snapshot.current_condition;
    let mut lines: Vec<String> = Vec::new();
    lines.push(write_header(condition, config));
    lines.push(write_feels_like(condition, config));
    lines.push(write_wind(condition, config));
    lines.push(write_humidity(condition, config));
    lines.push(write_location(&snapshot.nearest_area, config));
    match write_observation(condition, config) {
        Some(line) => {
            lines.push(line);
        },
        None => {},
    }
    assert(texts(lines@) =~= current_lines(snapshot@, config@));
    lines
}

fn write_hour(hour: &HourRecord, shown_hour: u8, config: &RenderConfiguration) -> (s: String)
    requires
        hour_of_code(hour.time@) == Some(shown_hour as nat),
        shown_hour < 24,
    ensures
        s@ == hour_line(hour@, config@),
{
    let mut s = clock_hour(shown_hour, config.ampm);
    s.append(" ");
    s.append(resolve_text(hour.weather_code, config.icon_style));
    s.append(" ");
    let feels_like = format_temp(pick(config.units, hour.feels_like_c, hour.feels_like_f));
    s.append(feels_like.as_str());
    s.append(" ");
    s.append(hour.description);
    if !config.hide_conditions {
        s.append(", ");
        let chances = format_chances(hour, &config.lang);
        s.append(chances.as_str());
    }
    s
}

fn write_hours(
    hours: &Vec<HourRecord>,
    position: usize,
    config: &RenderConfiguration,
    moment: &RenderMoment,
    lines: &mut Vec<String>,
)
    ensures
        texts(final(lines)@) == texts(old(lines)@) + hour_lines(
            hour_views(hours@),
            position as nat,
            config@,
            *moment,
        ),
{
    let ghost start = texts(lines@);
    let ghost all = hour_views(hours@);
    let ghost shown = |hour: HourView| hour_is_shown(hour, position as nat, *moment);
    let ghost line_of = |hour: HourView| hour_line(hour, config@);
    let mut i: usize = 0;
    proof {
        reveal(Seq::filter);
        assert(all.take(0).filter(shown).map_values(line_of) =~= Seq::<Seq<char>>::empty());
        assert(texts(lines@) =~= start + Seq::<Seq<char>>::empty());
    }
    while i < hours.len()
        invariant
            i <= hours.len(),
            all == hour_views(hours@),
            shown == (|hour: HourView| hour_is_shown(hour, position as nat, *moment)),
            line_of == (|hour: HourView| hour_line(hour, config@)),
            texts(lines@) == start + all.take(i as int).filter(shown).map_values(line_of),
        decreases hours.len() - i,
    {
        let hour = &hours[i];
        let ghost seen = all.take(i as int);
        let ghost next = all.take(i + 1);
        proof {
            reveal(Seq::filter);
            assert(next.drop_last() == seen);
            assert(next.last() == hour@);
            assert(next.filter(shown) == if shown(next.last()) {
                seen.filter(shown).push(next.last())
            } else {
                seen.filter(shown)
            });
        }
        match parse_hour_code(hour.time) {
            Some(shown_hour) => {
                let is_past = position == 0 && moment.hour >= 2 && (shown_hour as u32) < moment.hour
                    - 2;
                if !is_past {
                    let ghost before = texts(lines@);
                    let line = write_hour(hour, shown_hour, config);
                    lines.push(line);
                    proof {
                        assert(shown(hour@));
                        assert(texts(lines@) =~= before.push(line_of(hour@)));
                        assert(next.filter(shown).map_values(line_of) =~= seen.filter(
                            shown,
                        ).map_values(line_of).push(line_of(hour@)));
                        assert(texts(lines@) =~= start + next.filter(shown).map_values(line_of));
                    }
                } else {
                    assert(!shown(hour@));
                }
            },
            None => {
                assert(!shown(hour@));
            },
        }
        i += 1;
    }
    assert(all.take(hours.len() as int) == all);
}

fn write_day_header(written_date: &str, position: usize, lang: &Lang) -> (s: String)
    ensures
        s@ == day_header(written_date@, position as nat, *lang),
{
    let mut s = "<b>".to_string();
    if position == 0 {
        let name = lang.today();
        s.append(name.as_str());
        s.append(", ");
        assert(s@ =~= "<b>"@ + (lang.today_label() + ", "@));
    } else if position == 1 {
        let name = lang.tomorrow();
        s.append(name.as_str());
        s.append(", ");
        assert(s@ =~= "<b>"@ + (lang.tomorrow_label() + ", "@));
    } else {
        assert(s@ =~= "<b>"@ + Seq::<char>::empty());
    }
    s.append(written_date);
    s.append("</b>");
    s
}

fn write_extremes(
    day: &DayForecast,
    sunrise: &str,
    sunset: &str,
    config: &RenderConfiguration,
) -> (s: String)
    ensures
        s@ == extremes_line(day@, sunrise@, sunset@, config@),
{
    let mut s = config.icon_style.high().to_string();
    s.append(" ");
    s.append(pick(config.units, day.max_temp_c, day.max_temp_f));
    s.append("° ");
    s.append(config.icon_style.low());
    s.append(" ");
    s.append(pick(config.units, day.min_temp_c, day.min_temp_f));
    s.append("° ");
    s.append(config.icon_style.sunrise());
    s.append(" ");
    s.append(sunrise);
    s.append(" ");
    s.append(config.icon_style.sunset());
    s.append(" ");
    s.append(sunset);
    s
}

fn write_day(
    day: &DayForecast,
    index: usize,
    position: usize,
    config: &RenderConfiguration,
    moment: &RenderMoment,
    lines: &mut Vec<String>,
) -> (r: Result<(), RenderError>)
    ensures
        match day_section(day@, index, position as nat, config@, *moment) {
            Ok(section) => r is Ok && texts(final(lines)@) == texts(old(lines)@) + section,
            Err(failure) => r is Err && r.unwrap_err()@ == failure,
        },
{
    let written = match format_date(&day.date, config.date_format.as_str()) {
        Some(written) => written,
        None => {
            return Err(RenderError::DateFormat { day: index });
        },
    };
    let sunrise = match astronomy_time(day.sunrise, config.ampm) {
        Some(sunrise) => sunrise,
        None => {
            return Err(missing(Section::Day(index), "sunrise"));
        },
    };
    let sunset = match astronomy_time(day.sunset, config.ampm) {
        Some(sunset) => sunset,
        None => {
            return Err(missing(Section::Day(index), "sunset"));
        },
    };
    let ghost start = texts(lines@);
    let ghost head = seq![
        Seq::<char>::empty(),
        day_header(written@, position as nat, config.lang),
        extremes_line(day@, sunrise@, sunset@, config@),
    ];
    lines.push(String::new());
    lines.push(write_day_header(written.as_str(), position, &config.lang));
    lines.push(write_extremes(day, sunrise.as_str(), sunset.as_str(), config));
    assert(texts(lines@) =~= start + head);
    write_hours(&day.hourly, position, config, moment, lines);
    proof {
        let hours = hour_lines(hour_views(day.hourly@), position as nat, config@, *moment);
        assert((start + head) + hours =~= start + (head + hours));
    }
    Ok(())
}

/// What came of writing lines, as plain values.
pub open spec fn lines_outcome(result: Result<Vec<String>, RenderError>) -> Result<
    Seq<Seq<char>>,
    Failure,
> {
    match result {
        Ok(lines) => Ok(texts(lines@)),
        Err(error) => Err(error@),
    }
}

/// Writes the lines of the tooltip, in the order in which they are read.
///
/// The lines on the weather now come first. After them comes one section
/// for each day of the forecast that is today or later, in the order of the
/// snapshot; the section of the first such day is named for today and that
/// of the second for tomorrow. There are no lines, but a failure, where the
/// date of such a day cannot be written under the configured pattern, or
/// where the 24-hour clock is asked for and a time of sunrise or sunset
/// does not read as a time; the failure is that of the first such day.
pub fn assemble_lines(
    snapshot: &WeatherSnapshot,
    config: &RenderConfiguration,
    moment: &RenderMoment,
) -> (r: Result<Vec<String>, RenderError>)
    ensures
        lines_outcome(r) == tooltip_lines(snapshot@, config@, *moment),
{
    let mut lines = write_current(snapshot, config);
    let days = &snapshot.forecast_days;
    let ghost all = day_views(days@);
    let ghost current = texts(lines@);
    let mut position: usize = 0;
    let mut i: usize = 0;
    assert(texts(lines@) =~= current + Seq::<Seq<char>>::empty());
    while i < days.len()
        invariant
            i <= days.len(),
            position <= i,
            current == current_lines(snapshot@, config@),
            days == &snapshot.forecast_days,
            all == day_views(days@),
            forecast_lines(all, i as int, config@, *moment) matches Ok((done, sections))
                && sections == position && texts(lines@) == current + done,
        decreases days.len() - i,
    {
        let day = &days[i];
        assert(all[i as int] == day@);
        let ghost before = forecast_lines(all, i as int, config@, *moment)->Ok_0.0;
        if day.date.on_or_after(&moment.today) {
            match write_day(day, i, position, config, moment, &mut lines) {
                Ok(()) => {
                    proof {
                        let section = day_section(day@, i, position as nat, config@, *moment)->Ok_0;
                        assert((current + before) + section =~= current + (before + section));
                    }
                    position += 1;
                },
                Err(e) => {
                    proof {
                        let length = all.len() as int;
                        lemma_forecast_failure_stays(all, i + 1, length, config@, *moment);
                    }
                    return Err(e);
                },
            }
        }
        i += 1;
    }
    Ok(lines)
}

/// Puts lines under one another: each line with a line feed after it.
pub fn stack(lines: &Vec<String>) -> (s: String)
    ensures
        s@ == stacked(texts(lines@)),
{
    let mut s = String::new();
    let mut i: usize = 0;
    while i < lines.len()
        invariant
            i <= lines.len(),
            s@ == stacked(texts(lines@).take(i as int)),
        decreases lines.len() - i,
    {
        proof {
            let next = texts(lines@).take(i + 1);
            assert(next.drop_last() == texts(lines@).take(i as int));
            assert(next.last() == lines@[i as int]@);
        }
        s.append(lines[i].as_str());
        s.append("\n");
        i += 1;
    }
    assert(texts(lines@).take(lines.len() as int) == texts(lines@));
    s
}

/// Writes the tooltip: the lines of `assemble_lines`, each with a line feed
/// after it.
pub fn assemble(
    snapshot: &WeatherSnapshot,
    config: &RenderConfiguration,
    moment: &RenderMoment,
) -> (r: Result<String, RenderError>)
    ensures
        outcome(r) == tooltip_text(snapshot@, config@, *moment),
{
    match assemble_lines(snapshot, config, moment) {
        Ok(lines) => Ok(stack(&lines)),
        Err(e) => Err(e),
    }
}

} // verus!
