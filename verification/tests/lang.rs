use wttrbar::lang::Lang;

const LANGS: [Lang; 12] = [
    Lang::EN, Lang::DE, Lang::PL, Lang::RU, Lang::TR, Lang::FR, Lang::BE, Lang::ZH, Lang::ES,
    Lang::PT, Lang::IT, Lang::JA,
];

fn all(label: fn(&Lang) -> String) -> Vec<String> {
    LANGS.iter().map(label).collect()
}

#[test]
fn hosts_of_the_languages() {
    assert_eq!(
        all(Lang::wttr_in_subdomain),
        vec![
            "wttr.in", "de.wttr.in", "pl.wttr.in", "ru.wttr.in", "tr.wttr.in", "fr.wttr.in",
            "be.wttr.in", "zh.wttr.in", "es.wttr.in", "pt.wttr.in", "it.wttr.in", "ja.wttr.in",
        ]
    );
}

#[test]
fn keys_of_the_descriptions() {
    assert_eq!(
        all(Lang::weather_desc),
        vec![
            "weatherDesc", "lang_de", "lang_pl", "lang_ru", "lang_tr", "lang_fr", "lang_be",
            "lang_zh", "lang_es", "lang_pt", "lang_it", "lang_ja",
        ]
    );
}

#[test]
fn labels_of_the_tooltip_lines() {
    assert_eq!(
        all(Lang::feels_like),
        vec![
            "Feels Like", "Gefühlt wie", "Temperatura odczuwalna", "Ощущается как", "Hissedilen",
            "Ressenti", "Адчуваецца як", "体感温度", "Sensación térmica", "Sensação térmica",
            "Sensazione Termica", "体感温度",
        ]
    );
    assert_eq!(
        all(Lang::humidity),
        vec![
            "Humidity", "Luftfeuchtigkeit", "Wilgotność", "Влажность", "Nem", "Humidité",
            "Вільготнасць", "湿度", "Humedad", "Umidade", "Umidità", "湿度",
        ]
    );
    assert_eq!(
        all(Lang::location),
        vec![
            "Location", "Standort", "Lokalizacja", "Местоположение", "Konum", "Lieu",
            "Месцазнаходжанне", "地区", "Ubicación", "Localização", "Posizione", "地点",
        ]
    );
    assert_eq!(
        all(Lang::wind),
        vec![
            "Wind", "Wind", "Wiatr", "Ветер", "Rüzgar", "Vent", "Вецер", "风速", "Viento",
            "Vento", "Vento", "風速",
        ]
    );
}

#[test]
fn names_of_the_days() {
    assert_eq!(
        all(Lang::today),
        vec![
            "Today", "Heute", "Dzisiaj", "Сегодня", "Bugün", "Aujourd'hui", "Сёння", "今日天气",
            "Hoy", "Hoje", "Oggi", "今日",
        ]
    );
    assert_eq!(
        all(Lang::tomorrow),
        vec![
            "Tomorrow", "Morgen", "Jutro", "Завтра", "Yarın", "Demain", "Заўтра", "明日天气",
            "Mañana", "Amanhã", "Domani", "明日",
        ]
    );
}

#[test]
fn names_of_the_events() {
    assert_eq!(
        all(Lang::fog),
        vec![
            "Fog", "Nebel", "Mgła", "Туман", "Sis", "Brouillard", "Туман", "雾", "Niebla",
            "Nevoeiro", "Nebbia", "霧",
        ]
    );
    assert_eq!(
        all(Lang::frost),
        vec![
            "Frost", "Frost", "Mróz", "Мороз", "Don", "Gel", "Мароз", "霜", "Escarcha", "Geada",
            "Gelo", "霜",
        ]
    );
    assert_eq!(
        all(Lang::overcast),
        vec![
            "Overcast", "Bewölkung", "Zachmurzenie", "Пасмурно", "Bulutlu", "Couvert", "Хмурна",
            "多云", "Nublado", "Nublado", "Nuvoloso", "曇り",
        ]
    );
    assert_eq!(
        all(Lang::rain),
        vec![
            "Rain", "Regen", "Deszcz", "Дождь", "Yağmur", "Pluie", "Дождж", "雨", "Lluvia",
            "Chuva", "Pioggia", "雨",
        ]
    );
    assert_eq!(
        all(Lang::snow),
        vec![
            "Snow", "Schnee", "Śnieg", "Снег", "Kar", "Neige", "Снег", "雪", "Nieve", "Neve",
            "Neve", "雪",
        ]
    );
    assert_eq!(
        all(Lang::sunshine),
        vec![
            "Sunshine", "Sonnenschein", "Nasłonecznienie", "Солнечно", "Güneş ışığı",
            "Ensoleillé", "Сонечна", "晴", "Soleado", "Sol", "Sole", "晴れ",
        ]
    );
    assert_eq!(
        all(Lang::thunder),
        vec![
            "Thunder", "Donner", "Burza", "Гроза", "Gök gürültüsü", "Orages", "Навальніца",
            "雷暴", "Tormenta", "Trovão", "Tuono", "雷",
        ]
    );
}

#[test]
fn every_language_has_every_label() {
    for lang in LANGS {
        for label in [
            lang.wttr_in_subdomain(), lang.feels_like(), lang.humidity(), lang.location(),
            lang.today(), lang.tomorrow(), lang.fog(), lang.frost(), lang.overcast(), lang.rain(),
            lang.snow(), lang.sunshine(), lang.thunder(), lang.wind(), lang.observation_time(),
            lang.weather_desc(),
        ] {
            assert!(!label.is_empty(), "{:?}", lang);
        }
    }
    assert_eq!(Lang::EN.observation_time(), "Observed at");
}
