use wttrbar::clock::CalendarDate;
use wttrbar::lang::Lang;
use wttrbar::payload::{Json, Member};
use wttrbar::snapshot::{
    CurrentCondition, DayForecast, HourRecord, NearestArea, RenderError, Section, WeatherSnapshot,
};

const PAYLOAD: &str = r#"{
  "current_condition": [{
    "FeelsLikeC": "19", "FeelsLikeF": "66", "cloudcover": "0", "humidity": "40",
    "localObsDateTime": "2024-03-09 10:31 AM", "observation_time": "09:31 AM",
    "temp_C": "21", "temp_F": "70", "weatherCode": "113",
    "weatherDesc": [{"value": "Sunny"}], "lang_de": [{"value": "Sonnig"}],
    "windspeedKmph": "11", "windspeedMiles": "7"
  }],
  "nearest_area": [{
    "areaName": [{"value": "Oslo"}], "country": [{"value": "Norway"}],
    "region": [{"value": "Oslo County"}], "latitude": "59.917"
  }],
  "weather": [
    {
      "date": "2024-03-09", "maxtempC": "12", "maxtempF": "54", "mintempC": "3", "mintempF": "37",
      "astronomy": [{"sunrise": "06:12 AM", "sunset": "06:03 PM"}],
      "hourly": [
        {"time": "0", "weatherCode": "116", "FeelsLikeC": "2", "FeelsLikeF": "36",
         "weatherDesc": [{"value": "Partly cloudy"}], "lang_de": [{"value": "Teilweise bewölkt"}],
         "chanceoffog": "0", "chanceofrain": "80", "chanceofsnow": "0", "chanceofsunshine": "20"},
        {"time": "300", "weatherCode": "999", "FeelsLikeC": "-1", "FeelsLikeF": "30",
         "weatherDesc": [{"value": "Odd"}], "lang_de": [{"value": "Seltsam"}]}
      ]
    },
    {
      "date": "2024-03-10", "maxtempC": "10", "maxtempF": "50", "mintempC": "1", "mintempF": "34",
      "astronomy": [{"sunrise": "06:09 AM", "sunset": "06:05 PM"}],
      "hourly": []
    }
  ]
}"#;

fn lift(value: &serde_json::Value) -> Json {
    match value {
        serde_json::Value::Null => Json::Null,
        serde_json::Value::Bool(b) => Json::Bool(*b),
        serde_json::Value::Number(n) => Json::Number(n.to_string()),
        serde_json::Value::String(s) => Json::Text(s.clone()),
        serde_json::Value::Array(items) => Json::List(items.iter().map(lift).collect()),
        serde_json::Value::Object(members) => Json::Record(
            members.iter().map(|(key, value)| Member { key: key.clone(), value: lift(value) }).collect(),
        ),
    }
}

fn payload() -> serde_json::Value {
    serde_json::from_str(PAYLOAD).unwrap()
}

fn missing(section: Section, key: &str) -> (Section, String) {
    (section, key.to_string())
}

fn gap_of(value: &serde_json::Value, lang: Lang) -> Option<(Section, String)> {
    match WeatherSnapshot::decode(&lift(value), lang) {
        Ok(_) => None,
        Err(RenderError::MissingField { section, key }) => Some((section, key)),
        Err(other) => panic!("unexpected failure {:?}", other),
    }
}

#[test]
fn a_full_payload_is_read() {
    let tree = lift(&payload());
    let snapshot = WeatherSnapshot::decode(&tree, Lang::EN).unwrap();
    let now = &snapshot.current_condition;
    assert_eq!(now.temp_c, "21");
    assert_eq!(now.temp_f, "70");
    assert_eq!(now.feels_like_c, "19");
    assert_eq!(now.feels_like_f, "66");
    assert_eq!(now.humidity, "40");
    assert_eq!(now.wind_speed_kmph, "11");
    assert_eq!(now.wind_speed_miles, "7");
    assert_eq!(now.weather_code, "113");
    assert_eq!(now.description, "Sunny");
    assert_eq!(now.observation_time, Some("09:31 AM"));
    assert_eq!(now.fields.member_text("cloudcover"), Some("0"));
    let place = &snapshot.nearest_area;
    assert_eq!(place.area_name, "Oslo");
    assert_eq!(place.region, "Oslo County");
    assert_eq!(place.country, "Norway");
    assert_eq!(place.fields.member_text("latitude"), Some("59.917"));
    assert_eq!(snapshot.forecast_days.len(), 2);
    let first = &snapshot.forecast_days[0];
    assert_eq!(first.date, CalendarDate { year: 2024, month: 3, day: 9 });
    assert_eq!(first.max_temp_c, "12");
    assert_eq!(first.max_temp_f, "54");
    assert_eq!(first.min_temp_c, "3");
    assert_eq!(first.min_temp_f, "37");
    assert_eq!(first.sunrise, "06:12 AM");
    assert_eq!(first.sunset, "06:03 PM");
    assert_eq!(first.hourly.len(), 2);
    let midnight = &first.hourly[0];
    assert_eq!(midnight.time, "0");
    assert_eq!(midnight.weather_code, "116");
    assert_eq!(midnight.feels_like_c, "2");
    assert_eq!(midnight.feels_like_f, "36");
    assert_eq!(midnight.description, "Partly cloudy");
    assert_eq!(midnight.chances.fog, Some("0"));
    assert_eq!(midnight.chances.rain, Some("80"));
    assert_eq!(midnight.chances.snow, Some("0"));
    assert_eq!(midnight.chances.sunshine, Some("20"));
    assert_eq!(midnight.chances.frost, None);
    assert_eq!(midnight.chances.overcast, None);
    assert_eq!(midnight.chances.thunder, None);
    assert_eq!(midnight.chances.windy, None);
    assert_eq!(first.hourly[1].time, "300");
    let second = &snapshot.forecast_days[1];
    assert_eq!(second.date, CalendarDate { year: 2024, month: 3, day: 10 });
    assert!(second.hourly.is_empty());
}

#[test]
fn descriptions_are_read_in_the_language_asked_for() {
    let tree = lift(&payload());
    let snapshot = WeatherSnapshot::decode(&tree, Lang::DE).unwrap();
    assert_eq!(snapshot.current_condition.description, "Sonnig");
    assert_eq!(snapshot.forecast_days[0].hourly[0].description, "Teilweise bewölkt");
    assert_eq!(gap_of(&payload(), Lang::FR), Some(missing(Section::CurrentCondition, "lang_fr")));
}

#[test]
fn the_time_of_observation_is_optional() {
    let mut value = payload();
    value["current_condition"][0].as_object_mut().unwrap().remove("observation_time");
    let tree = lift(&value);
    let snapshot = WeatherSnapshot::decode(&tree, Lang::EN).unwrap();
    assert_eq!(snapshot.current_condition.observation_time, None);
}

#[test]
fn each_field_of_the_condition_is_needed() {
    for key in [
        "temp_C", "temp_F", "FeelsLikeC", "FeelsLikeF", "humidity", "windspeedKmph",
        "windspeedMiles", "weatherCode", "weatherDesc",
    ] {
        let mut value = payload();
        value["current_condition"][0].as_object_mut().unwrap().remove(key);
        assert_eq!(gap_of(&value, Lang::EN), Some(missing(Section::CurrentCondition, key)));
    }
}

#[test]
fn a_field_of_the_wrong_shape_counts_as_missing() {
    let mut value = payload();
    value["current_condition"][0]["temp_C"] = serde_json::Value::from(21);
    assert_eq!(gap_of(&value, Lang::EN), Some(missing(Section::CurrentCondition, "temp_C")));
    let mut value = payload();
    value["current_condition"][0]["weatherDesc"] = serde_json::Value::from("Sunny");
    assert_eq!(gap_of(&value, Lang::EN), Some(missing(Section::CurrentCondition, "weatherDesc")));
    let mut value = payload();
    value["nearest_area"][0]["region"] = serde_json::Value::Array(vec![]);
    assert_eq!(gap_of(&value, Lang::EN), Some(missing(Section::NearestArea, "region")));
}

#[test]
fn each_field_of_the_place_is_needed() {
    for key in ["areaName", "region", "country"] {
        let mut value = payload();
        value["nearest_area"][0].as_object_mut().unwrap().remove(key);
        assert_eq!(gap_of(&value, Lang::EN), Some(missing(Section::NearestArea, key)));
    }
}

#[test]
fn each_part_of_the_payload_is_needed() {
    for key in ["current_condition", "nearest_area", "weather"] {
        let mut value = payload();
        value.as_object_mut().unwrap().remove(key);
        assert_eq!(gap_of(&value, Lang::EN), Some(missing(Section::Payload, key)));
    }
    let mut value = payload();
    value["current_condition"] = serde_json::Value::Array(vec![]);
    assert_eq!(gap_of(&value, Lang::EN), Some(missing(Section::Payload, "current_condition")));
    let mut value = payload();
    value["weather"] = serde_json::Value::from("none");
    assert_eq!(gap_of(&value, Lang::EN), Some(missing(Section::Payload, "weather")));
    assert_eq!(gap_of(&serde_json::Value::Null, Lang::EN), Some(missing(Section::Payload, "current_condition")));
}

#[test]
fn each_field_of_a_day_is_needed() {
    for key in ["date", "maxtempC", "maxtempF", "mintempC", "mintempF", "astronomy", "hourly"] {
        let mut value = payload();
        value["weather"][1].as_object_mut().unwrap().remove(key);
        assert_eq!(gap_of(&value, Lang::EN), Some(missing(Section::Day(1), key)));
    }
    for key in ["sunrise", "sunset"] {
        let mut value = payload();
        value["weather"][0]["astronomy"][0].as_object_mut().unwrap().remove(key);
        assert_eq!(gap_of(&value, Lang::EN), Some(missing(Section::Day(0), key)));
    }
    let mut value = payload();
    value["weather"][0]["hourly"] = serde_json::Value::Null;
    assert_eq!(gap_of(&value, Lang::EN), Some(missing(Section::Day(0), "hourly")));
}

#[test]
fn a_date_that_is_no_date_counts_as_missing() {
    for raw in ["", "tomorrow", "2024-02-30", "09.03.2024"] {
        let mut value = payload();
        value["weather"][1]["date"] = serde_json::Value::from(raw);
        assert_eq!(gap_of(&value, Lang::EN), Some(missing(Section::Day(1), "date")));
    }
}

#[test]
fn each_field_of_an_hour_is_needed() {
    for key in ["time", "weatherCode", "FeelsLikeC", "FeelsLikeF", "weatherDesc"] {
        let mut value = payload();
        value["weather"][0]["hourly"][1].as_object_mut().unwrap().remove(key);
        assert_eq!(gap_of(&value, Lang::EN), Some(missing(Section::Hour(0, 1), key)));
    }
}

#[test]
fn the_first_gap_is_the_one_reported() {
    let mut value = payload();
    value["current_condition"][0].as_object_mut().unwrap().remove("humidity");
    value["current_condition"][0].as_object_mut().unwrap().remove("temp_F");
    value["nearest_area"][0].as_object_mut().unwrap().remove("areaName");
    assert_eq!(gap_of(&value, Lang::EN), Some(missing(Section::CurrentCondition, "temp_F")));
    let mut value = payload();
    value["weather"][1].as_object_mut().unwrap().remove("date");
    value["weather"][0]["hourly"][1].as_object_mut().unwrap().remove("time");
    value["weather"][0]["hourly"][0].as_object_mut().unwrap().remove("FeelsLikeF");
    assert_eq!(gap_of(&value, Lang::EN), Some(missing(Section::Hour(0, 0), "FeelsLikeF")));
    let mut value = payload();
    value["nearest_area"][0].as_object_mut().unwrap().remove("country");
    value.as_object_mut().unwrap().remove("weather");
    assert_eq!(gap_of(&value, Lang::EN), Some(missing(Section::NearestArea, "country")));
}

#[test]
fn the_parts_are_read_on_their_own() {
    let tree = lift(&payload());
    let now = CurrentCondition::decode(tree.member_first("current_condition").unwrap(), Lang::EN).unwrap();
    assert_eq!(now.description, "Sunny");
    let place = NearestArea::decode(tree.member_first("nearest_area").unwrap()).unwrap();
    assert_eq!(place.country, "Norway");
    let days = tree.member("weather").unwrap();
    let day = DayForecast::decode(days.item(1).unwrap(), 1, Lang::EN).unwrap();
    assert_eq!(day.max_temp_c, "10");
    let hours = days.item(0).unwrap().member("hourly").unwrap();
    let hour = HourRecord::decode(hours.item(1).unwrap(), 0, 1, Lang::EN).unwrap();
    assert_eq!(hour.description, "Odd");
    assert!(HourRecord::decode(&Json::Null, 4, 5, Lang::EN).is_err());
}
