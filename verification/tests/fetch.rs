use wttrbar::config::{RenderConfiguration, UnitSystem};
use wttrbar::fetch::{
    after_failure, cache_path, invalid_notice, is_fresh, unavailable_notice, unreachable_notice,
    weather_url, BACKOFF_MILLIS, FRESH_SECONDS, MAX_FAILURES,
};
use wttrbar::icons::IconStyle;
use wttrbar::lang::Lang;

const LANGS: [Lang; 12] = [
    Lang::EN, Lang::DE, Lang::PL, Lang::RU, Lang::TR, Lang::FR, Lang::BE, Lang::ZH, Lang::ES,
    Lang::PT, Lang::IT, Lang::JA,
];

#[test]
fn the_address_names_host_place_and_format() {
    assert_eq!(weather_url(&Lang::EN, ""), "https://wttr.in/?format=j1");
    assert_eq!(weather_url(&Lang::EN, "Oslo"), "https://wttr.in/Oslo?format=j1");
    assert_eq!(weather_url(&Lang::DE, "Berlin"), "https://de.wttr.in/Berlin?format=j1");
    assert_eq!(weather_url(&Lang::JA, "東京"), "https://ja.wttr.in/東京?format=j1");
}

#[test]
fn the_kept_file_is_named_for_place_and_host() {
    assert_eq!(cache_path(&Lang::EN, ""), "/tmp/wttrbar--wttr.in.json");
    assert_eq!(cache_path(&Lang::EN, "Oslo"), "/tmp/wttrbar-Oslo-wttr.in.json");
    assert_eq!(cache_path(&Lang::PL, "Kraków"), "/tmp/wttrbar-Kraków-pl.wttr.in.json");
}

#[test]
fn address_and_file_follow_the_language() {
    for lang in LANGS {
        let host = lang.wttr_in_subdomain();
        assert_eq!(weather_url(&lang, "x"), format!("https://{}/{}?format=j1", host, "x"));
        assert_eq!(cache_path(&lang, "x"), format!("/tmp/wttrbar-{}-{}.json", "x", host));
    }
}

#[test]
fn a_kept_payload_does_for_ten_minutes() {
    assert_eq!(FRESH_SECONDS, 600);
    assert!(is_fresh(0));
    assert!(is_fresh(1));
    assert!(is_fresh(599));
    assert!(!is_fresh(600));
    assert!(!is_fresh(601));
    assert!(!is_fresh(u64::MAX));
}

#[test]
fn the_wait_grows_with_each_failure_and_ends_after_twenty() {
    assert_eq!(MAX_FAILURES, 20);
    assert_eq!(BACKOFF_MILLIS, 500);
    let first = after_failure(1);
    assert_eq!((first.wait_millis, first.give_up), (500, false));
    let second = after_failure(2);
    assert_eq!((second.wait_millis, second.give_up), (1000, false));
    let before_last = after_failure(19);
    assert_eq!((before_last.wait_millis, before_last.give_up), (9500, false));
    let last = after_failure(20);
    assert_eq!((last.wait_millis, last.give_up), (10000, true));
    assert!(after_failure(21).give_up);
    let none = after_failure(0);
    assert_eq!((none.wait_millis, none.give_up), (0, false));
    let most = after_failure(u32::MAX);
    assert_eq!((most.wait_millis, most.give_up), (500 * u32::MAX as u64, true));
}

#[test]
fn the_notices() {
    let unreachable = unreachable_notice();
    assert_eq!(unreachable.text, "\u{26d3}\u{fe0f}\u{200d}\u{1f4a5}");
    assert_eq!(unreachable.tooltip, "cannot access wttr.in");
    assert_eq!(unreachable.class, None);
    let invalid = invalid_notice();
    assert_eq!(invalid.text, "\u{26d3}\u{fe0f}\u{200d}\u{1f4a5}");
    assert_eq!(invalid.tooltip, "invalid wttr.in response");
    assert_eq!(invalid.class, None);
    let unavailable = unavailable_notice();
    assert_eq!(unavailable.text, "N/A");
    assert_eq!(unavailable.tooltip, "N/A");
    assert_eq!(unavailable.entries(), vec![("text", "N/A"), ("tooltip", "N/A")]);
}

#[test]
fn the_configuration_without_wishes() {
    let config = RenderConfiguration::default();
    assert_eq!(config.units, UnitSystem::Metric);
    assert!(!config.ampm);
    assert_eq!(config.icon_style, IconStyle::Emoji);
    assert_eq!(config.lang, Lang::EN);
    assert_eq!(config.main_indicator, "temp_C");
    assert_eq!(config.custom_indicator, None);
    assert_eq!(config.date_format, "%Y-%m-%d");
    assert!(!config.hide_conditions);
    assert!(!config.vertical_view);
    assert!(!config.observation_time);
    assert!(config.css_class);
}

#[test]
fn either_wish_for_imperial_units_gives_imperial_units() {
    assert_eq!(UnitSystem::from_wishes(false, false), UnitSystem::Metric);
    assert_eq!(UnitSystem::from_wishes(true, false), UnitSystem::Imperial);
    assert_eq!(UnitSystem::from_wishes(false, true), UnitSystem::Imperial);
    assert_eq!(UnitSystem::from_wishes(true, true), UnitSystem::Imperial);
}
