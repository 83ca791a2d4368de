use wttrbar::clock::CalendarDate;
use wttrbar::config::{RenderConfiguration, RenderMoment, UnitSystem};
use wttrbar::icons::IconStyle;
use wttrbar::lang::Lang;
use wttrbar::payload::{Json, Member};
use wttrbar::snapshot::{
    Chances, CurrentCondition, DayForecast, HourRecord, NearestArea, RenderError, Section,
    WeatherSnapshot,
};
use wttrbar::tooltip::{assemble, assemble_lines, stack};

fn no_chances() -> Chances<'static> {
    Chances {
        fog: None,
        frost: None,
        overcast: None,
        rain: None,
        snow: None,
        sunshine: None,
        thunder: None,
        windy: None,
    }
}

fn hour(time: &'static str, code: &'static str, description: &'static str) -> HourRecord<'static> {
    HourRecord {
        time,
        weather_code: code,
        feels_like_c: "7",
        feels_like_f: "45",
        description,
        chances: no_chances(),
    }
}

fn day(date: (i32, u32, u32), hourly: Vec<HourRecord<'static>>) -> DayForecast<'static> {
    DayForecast {
        date: CalendarDate { year: date.0, month: date.1, day: date.2 },
        max_temp_c: "12",
        max_temp_f: "54",
        min_temp_c: "3",
        min_temp_f: "37",
        sunrise: "06:12 AM",
        sunset: "06:03 PM",
        hourly,
    }
}

fn snapshot_of<'a>(fields: &'a Json, days: Vec<DayForecast<'a>>) -> WeatherSnapshot<'a> {
    WeatherSnapshot {
        current_condition: CurrentCondition {
            temp_c: "21",
            temp_f: "70",
            feels_like_c: "19",
            feels_like_f: "66",
            humidity: "40",
            wind_speed_kmph: "11",
            wind_speed_miles: "7",
            weather_code: "113",
            description: "Sunny",
            observation_time: Some("09:31 PM"),
            fields,
        },
        nearest_area: NearestArea { area_name: "Oslo", region: "Oslo County", country: "Norway", fields },
        forecast_days: days,
    }
}

fn empty_record() -> Json {
    Json::Record(Vec::<Member>::new())
}

fn at(hour: u32) -> RenderMoment {
    RenderMoment { today: CalendarDate { year: 2024, month: 3, day: 9 }, hour }
}

fn all_hours() -> Vec<HourRecord<'static>> {
    vec![
        hour("0", "113", "Clear"),
        hour("300", "116", "Partly cloudy"),
        hour("600", "119", "Cloudy"),
        hour("900", "122", "Overcast"),
        hour("1200", "176", "Patchy rain"),
        hour("1500", "200", "Thunder"),
        hour("1800", "227", "Blowing snow"),
        hour("2100", "143", "Mist"),
    ]
}

fn shown_hours(lines: &[String]) -> Vec<String> {
    lines.iter().filter(|line| line.chars().next().map_or(false, |c| c.is_ascii_digit())).cloned().collect()
}

#[test]
fn the_whole_tooltip_in_metric_units_on_the_24_hour_clock() {
    let fields = empty_record();
    let mut first = hour("900", "113", "Sunny");
    first.chances = Chances { sunshine: Some("90"), rain: Some("0"), ..no_chances() };
    let mut second = hour("0", "116", "Partly cloudy");
    second.feels_like_c = "-2";
    second.chances = Chances { rain: Some("80"), snow: Some("0"), sunshine: Some("20"), ..no_chances() };
    let snapshot = snapshot_of(
        &fields,
        vec![day((2024, 3, 9), vec![hour("300", "113", "Night"), first]), day((2024, 3, 10), vec![second])],
    );
    let tooltip = assemble(&snapshot, &RenderConfiguration::default(), &at(10)).unwrap();
    let expected = [
        "<b>Sunny</b> 21°",
        "Feels Like: 19°",
        "Wind: 11 km/h",
        "Humidity: 40%",
        "Location: Oslo, Oslo County, Norway",
        "",
        "<b>Today, 2024-03-09</b>",
        "⬆️ 12° ⬇️ 3° 🌅 06:12 🌇 18:03",
        "09 ☀️   7° Sunny, Sunshine 90%",
        "",
        "<b>Tomorrow, 2024-03-10</b>",
        "⬆️ 12° ⬇️ 3° 🌅 06:12 🌇 18:03",
        "00 🌤️  -2° Partly cloudy, Rain 80%, Sunshine 20%",
        "",
    ]
    .join("\n");
    assert_eq!(tooltip, expected);
}

#[test]
fn the_whole_tooltip_in_imperial_units_on_the_12_hour_clock() {
    let fields = empty_record();
    let snapshot = snapshot_of(&fields, vec![day((2024, 3, 9), vec![hour("1800", "999", "Odd")])]);
    let config = RenderConfiguration {
        units: UnitSystem::Imperial,
        ampm: true,
        icon_style: IconStyle::Nerd,
        lang: Lang::DE,
        date_format: "%d.%m.".to_string(),
        hide_conditions: true,
        observation_time: true,
        ..RenderConfiguration::default()
    };
    let lines = assemble_lines(&snapshot, &config, &at(1)).unwrap();
    assert_eq!(
        lines,
        vec![
            "<b>Sunny</b> 70°",
            "Gefühlt wie: 66°",
            "Wind: 7 mph",
            "Luftfeuchtigkeit: 40%",
            "Standort: Oslo, Oslo County, Norway",
            "Beobachtet um: 09:31 PM",
            "",
            "<b>Heute, 09.03.</b>",
            "\u{f0ce1} 54° \u{f0cdb} 37° \u{f059c} 06:12 AM \u{f059b} 06:03 PM",
            "6pm  ?  45° Odd",
        ]
    );
}

#[test]
fn days_before_today_have_no_section() {
    let fields = empty_record();
    let snapshot = snapshot_of(
        &fields,
        vec![day((2024, 3, 8), vec![]), day((2024, 3, 9), vec![]), day((2024, 3, 10), vec![])],
    );
    let lines = assemble_lines(&snapshot, &RenderConfiguration::default(), &at(10)).unwrap();
    let heads: Vec<&String> = lines.iter().filter(|line| line.starts_with("<b>") && line.ends_with("</b>")).collect();
    assert_eq!(heads, vec!["<b>Today, 2024-03-09</b>", "<b>Tomorrow, 2024-03-10</b>"]);
    assert_eq!(lines.iter().filter(|line| line.is_empty()).count(), 2);
    assert_eq!(lines.len(), 5 + 2 * 3);
}

#[test]
fn only_the_first_two_sections_are_named() {
    let fields = empty_record();
    let snapshot = snapshot_of(
        &fields,
        vec![
            day((2024, 3, 12), vec![]),
            day((2024, 3, 7), vec![]),
            day((2024, 3, 10), vec![]),
            day((2024, 3, 11), vec![]),
        ],
    );
    let lines = assemble_lines(&snapshot, &RenderConfiguration::default(), &at(10)).unwrap();
    let heads: Vec<&String> = lines.iter().filter(|line| line.starts_with("<b>") && line.ends_with("</b>")).collect();
    assert_eq!(heads, vec!["<b>Today, 2024-03-12</b>", "<b>Tomorrow, 2024-03-10</b>", "<b>2024-03-11</b>"]);
}

#[test]
fn a_forecast_without_days_has_no_section() {
    let fields = empty_record();
    let snapshot = snapshot_of(&fields, vec![]);
    let lines = assemble_lines(&snapshot, &RenderConfiguration::default(), &at(10)).unwrap();
    assert_eq!(lines.len(), 5);
    let past = snapshot_of(&fields, vec![day((2024, 3, 8), all_hours()), day((2020, 1, 1), all_hours())]);
    assert_eq!(assemble_lines(&past, &RenderConfiguration::default(), &at(10)).unwrap().len(), 5);
}

#[test]
fn hours_that_lie_back_are_left_out_of_todays_section() {
    let fields = empty_record();
    let snapshot = snapshot_of(&fields, vec![day((2024, 3, 9), all_hours()), day((2024, 3, 10), all_hours())]);
    let config = RenderConfiguration { hide_conditions: true, ..RenderConfiguration::default() };
    let lines = assemble_lines(&snapshot, &config, &at(14)).unwrap();
    let hours = shown_hours(&lines);
    let shown: Vec<&str> = hours.iter().map(|line| &line[..2]).collect();
    assert_eq!(shown, vec!["12", "15", "18", "21", "00", "03", "06", "09", "12", "15", "18", "21"]);
    let at_eleven = shown_hours(&assemble_lines(&snapshot, &config, &at(11)).unwrap());
    assert_eq!(at_eleven.len(), 5 + 8);
    assert!(at_eleven[0].starts_with("09 "));
    let late = shown_hours(&assemble_lines(&snapshot, &config, &at(23)).unwrap());
    assert_eq!(late.len(), 1 + 8);
    assert!(late[0].starts_with("21 "));
}

#[test]
fn before_two_oclock_no_hour_is_left_out() {
    let fields = empty_record();
    let snapshot = snapshot_of(&fields, vec![day((2024, 3, 9), all_hours())]);
    for now in [0, 1, 2] {
        let lines = assemble_lines(&snapshot, &RenderConfiguration::default(), &at(now)).unwrap();
        assert_eq!(shown_hours(&lines).len(), 8, "at {}", now);
    }
    let lines = assemble_lines(&snapshot, &RenderConfiguration::default(), &at(3)).unwrap();
    assert_eq!(shown_hours(&lines).len(), 7);
    let lines = assemble_lines(&snapshot, &RenderConfiguration::default(), &at(5)).unwrap();
    assert_eq!(shown_hours(&lines).len(), 7);
    let lines = assemble_lines(&snapshot, &RenderConfiguration::default(), &at(6)).unwrap();
    assert_eq!(shown_hours(&lines).len(), 6);
}

#[test]
fn an_hour_without_an_hour_code_is_left_out() {
    let fields = empty_record();
    let snapshot = snapshot_of(
        &fields,
        vec![day((2024, 3, 10), vec![hour("noon", "113", "a"), hour("1200", "113", "b"), hour("2400", "113", "c"), hour("", "113", "d")])],
    );
    let lines = assemble_lines(&snapshot, &RenderConfiguration::default(), &at(10)).unwrap();
    assert_eq!(shown_hours(&lines), vec!["12 ☀️   7° b, "]);
}

#[test]
fn likelihoods_follow_a_comma_unless_hidden() {
    let fields = empty_record();
    let mut wet = hour("1200", "296", "Light rain");
    wet.chances = Chances { rain: Some("70"), ..no_chances() };
    let snapshot = snapshot_of(&fields, vec![day((2024, 3, 10), vec![wet, hour("1500", "113", "Sunny")])]);
    let shown = assemble_lines(&snapshot, &RenderConfiguration::default(), &at(10)).unwrap();
    assert_eq!(shown_hours(&shown), vec!["12 🌧️   7° Light rain, Rain 70%", "15 ☀️   7° Sunny, "]);
    let config = RenderConfiguration { hide_conditions: true, ..RenderConfiguration::default() };
    let hidden = assemble_lines(&snapshot, &config, &at(10)).unwrap();
    assert_eq!(shown_hours(&hidden), vec!["12 🌧️   7° Light rain", "15 ☀️   7° Sunny"]);
}

#[test]
fn the_time_of_observation_is_shown_on_request() {
    let fields = empty_record();
    let snapshot = snapshot_of(&fields, vec![]);
    let asked = RenderConfiguration { observation_time: true, ..RenderConfiguration::default() };
    let lines = assemble_lines(&snapshot, &asked, &at(10)).unwrap();
    assert_eq!(lines.len(), 6);
    assert_eq!(lines[5], "Observed at: 21:31");
    let on_dial = RenderConfiguration { ampm: true, ..asked.clone() };
    assert_eq!(assemble_lines(&snapshot, &on_dial, &at(10)).unwrap()[5], "Observed at: 09:31 PM");
    let mut unreadable = snapshot_of(&fields, vec![]);
    unreadable.current_condition.observation_time = Some("just now");
    assert_eq!(assemble_lines(&unreadable, &asked, &at(10)).unwrap().len(), 5);
    assert_eq!(assemble_lines(&unreadable, &on_dial, &at(10)).unwrap().len(), 5);
    let mut absent = snapshot_of(&fields, vec![]);
    absent.current_condition.observation_time = None;
    assert_eq!(assemble_lines(&absent, &asked, &at(10)).unwrap().len(), 5);
}

#[test]
fn a_date_pattern_that_cannot_be_followed_is_a_failure() {
    let fields = empty_record();
    let snapshot = snapshot_of(&fields, vec![day((2024, 3, 8), vec![]), day((2024, 3, 9), vec![])]);
    let config = RenderConfiguration { date_format: "%Q".to_string(), ..RenderConfiguration::default() };
    match assemble(&snapshot, &config, &at(10)) {
        Err(RenderError::DateFormat { day }) => assert_eq!(day, 1),
        other => panic!("unexpected result {:?}", other),
    }
    let past_only = snapshot_of(&fields, vec![day((2024, 3, 8), vec![])]);
    assert!(assemble(&past_only, &config, &at(10)).is_ok());
}

#[test]
fn a_day_that_is_not_in_the_calendar_is_a_failure() {
    let fields = empty_record();
    let snapshot = snapshot_of(&fields, vec![day((2024, 3, 9), vec![]), day((2024, 13, 40), vec![])]);
    match assemble(&snapshot, &RenderConfiguration::default(), &at(10)) {
        Err(RenderError::DateFormat { day }) => assert_eq!(day, 1),
        other => panic!("unexpected result {:?}", other),
    }
}

#[test]
fn a_sun_time_that_is_no_time_is_a_failure_on_the_24_hour_clock() {
    let fields = empty_record();
    let mut polar = day((2024, 3, 9), vec![]);
    polar.sunset = "No sunset";
    let snapshot = snapshot_of(&fields, vec![polar]);
    match assemble(&snapshot, &RenderConfiguration::default(), &at(10)) {
        Err(RenderError::MissingField { section, key }) => {
            assert_eq!(section, Section::Day(0));
            assert_eq!(key, "sunset");
        },
        other => panic!("unexpected result {:?}", other),
    }
    let on_dial = RenderConfiguration { ampm: true, ..RenderConfiguration::default() };
    let lines = assemble_lines(&snapshot, &on_dial, &at(10)).unwrap();
    assert_eq!(lines[7], "⬆️ 12° ⬇️ 3° 🌅 06:12 AM 🌇 No sunset");
    let mut dark = day((2024, 3, 9), vec![]);
    dark.sunrise = "No sunrise";
    dark.sunset = "No sunset";
    let snapshot = snapshot_of(&fields, vec![dark]);
    match assemble(&snapshot, &RenderConfiguration::default(), &at(10)) {
        Err(RenderError::MissingField { section, key }) => {
            assert_eq!(section, Section::Day(0));
            assert_eq!(key, "sunrise");
        },
        other => panic!("unexpected result {:?}", other),
    }
}

#[test]
fn lines_are_stacked_with_a_line_feed_after_each() {
    assert_eq!(stack(&vec![]), "");
    assert_eq!(stack(&vec!["a".to_string()]), "a\n");
    assert_eq!(stack(&vec!["a".to_string(), "".to_string(), "b".to_string()]), "a\n\nb\n");
}
