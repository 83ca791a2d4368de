//! The languages of the tooltip, and the fixed texts of each.

use vstd::prelude::*;

verus! {

/// A language in which the forecast service describes the weather and in
/// which the tooltip is labelled.
#[derive(Debug, Clone, Copy, PartialEq, Eq, Structural)]
pub enum Lang {
    EN,
    DE,
    PL,
    RU,
    TR,
    FR,
    BE,
    ZH,
    ES,
    PT,
    IT,
    JA,
}

impl Lang {
    /// Host name under which the forecast service answers in this language.
    pub open spec fn subdomain(self) -> Seq<char> {
        match self {
            Lang::EN => "wttr.in"@,
            Lang::DE => "de.wttr.in"@,
            Lang::PL => "pl.wttr.in"@,
            Lang::RU => "ru.wttr.in"@,
            Lang::TR => "tr.wttr.in"@,
            Lang::FR => "fr.wttr.in"@,
            Lang::BE => "be.wttr.in"@,
            Lang::ZH => "zh.wttr.in"@,
            Lang::ES => "es.wttr.in"@,
            Lang::PT => "pt.wttr.in"@,
            Lang::IT => "it.wttr.in"@,
            Lang::JA => "ja.wttr.in"@,
        }
    }

    /// Host name under which the forecast service answers in this language.
    pub fn wttr_in_subdomain(&self) -> (label: String)
        ensures
            label@ == self.subdomain(),
    {
        match self {
            Lang::EN => "wttr.in".to_string(),
            Lang::DE => "de.wttr.in".to_string(),
            Lang::PL => "pl.wttr.in".to_string(),
            Lang::RU => "ru.wttr.in".to_string(),
            Lang::TR => "tr.wttr.in".to_string(),
            Lang::FR => "fr.wttr.in".to_string(),
            Lang::BE => "be.wttr.in".to_string(),
            Lang::ZH => "zh.wttr.in".to_string(),
            Lang::ES => "es.wttr.in".to_string(),
            Lang::PT => "pt.wttr.in".to_string(),
            Lang::IT => "it.wttr.in".to_string(),
            Lang::JA => "ja.wttr.in".to_string(),
        }
    }

    /// Label of the line that gives the apparent temperature.
    pub open spec fn feels_like_label(self) -> Seq<char> {
        match self {
            Lang::EN => "Feels Like"@,
            Lang::DE => "Gefühlt wie"@,
            Lang::PL => "Temperatura odczuwalna"@,
            Lang::RU => "Ощущается как"@,
            Lang::TR => "Hissedilen"@,
            Lang::FR => "Ressenti"@,
            Lang::BE => "Адчуваецца як"@,
            Lang::ZH => "体感温度"@,
            Lang::ES => "Sensación térmica"@,
            Lang::PT => "Sensação térmica"@,
            Lang::IT => "Sensazione Termica"@,
            Lang::JA => "体感温度"@,
        }
    }

    /// Label of the line that gives the apparent temperature.
    pub fn feels_like(&self) -> (label: String)
        ensures
            label@ == self.feels_like_label(),
    {
        match self {
            Lang::EN => "Feels Like".to_string(),
            Lang::DE => "Gefühlt wie".to_string(),
            Lang::PL => "Temperatura odczuwalna".to_string(),
            Lang::RU => "Ощущается как".to_string(),
            Lang::TR => "Hissedilen".to_string(),
            Lang::FR => "Ressenti".to_string(),
            Lang::BE => "Адчуваецца як".to_string(),
            Lang::ZH => "体感温度".to_string(),
            Lang::ES => "Sensación térmica".to_string(),
            Lang::PT => "Sensação térmica".to_string(),
            Lang::IT => "Sensazione Termica".to_string(),
            Lang::JA => "体感温度".to_string(),
        }
    }

    /// Label of the humidity line.
    pub open spec fn humidity_label(self) -> Seq<char> {
        match self {
            Lang::EN => "Humidity"@,
            Lang::DE => "Luftfeuchtigkeit"@,
            Lang::PL => "Wilgotność"@,
            Lang::RU => "Влажность"@,
            Lang::TR => "Nem"@,
            Lang::FR => "Humidité"@,
            Lang::BE => "Вільготнасць"@,
            Lang::ZH => "湿度"@,
            Lang::ES => "Humedad"@,
            Lang::PT => "Umidade"@,
            Lang::IT => "Umidità"@,
            Lang::JA => "湿度"@,
        }
    }

    /// Label of the humidity line.
    pub fn humidity(&self) -> (label: String)
        ensures
            label@ == self.humidity_label(),
    {
        match self {
            Lang::EN => "Humidity".to_string(),
            Lang::DE => "Luftfeuchtigkeit".to_string(),
            Lang::PL => "Wilgotność".to_string(),
            Lang::RU => "Влажность".to_string(),
            Lang::TR => "Nem".to_string(),
            Lang::FR => "Humidité".to_string(),
            Lang::BE => "Вільготнасць".to_string(),
            Lang::ZH => "湿度".to_string(),
            Lang::ES => "Humedad".to_string(),
            Lang::PT => "Umidade".to_string(),
            Lang::IT => "Umidità".to_string(),
            Lang::JA => "湿度".to_string(),
        }
    }

    /// Label of the location line.
    pub open spec fn location_label(self) -> Seq<char> {
        match self {
            Lang::EN => "Location"@,
            Lang::DE => "Standort"@,
            Lang::PL => "Lokalizacja"@,
            Lang::RU => "Местоположение"@,
            Lang::TR => "Konum"@,
            Lang::FR => "Lieu"@,
            Lang::BE => "Месцазнаходжанне"@,
            Lang::ZH => "地区"@,
            Lang::ES => "Ubicación"@,
            Lang::PT => "Localização"@,
            Lang::IT => "Posizione"@,
            Lang::JA => "地点"@,
        }
    }

    /// Label of the location line.
    pub fn location(&self) -> (label: String)
        ensures
            label@ == self.location_label(),
    {
        match self {
            Lang::EN => "Location".to_string(),
            Lang::DE => "Standort".to_string(),
            Lang::PL => "Lokalizacja".to_string(),
            Lang::RU => "Местоположение".to_string(),
            Lang::TR => "Konum".to_string(),
            Lang::FR => "Lieu".to_string(),
            Lang::BE => "Месцазнаходжанне".to_string(),
            Lang::ZH => "地区".to_string(),
            Lang::ES => "Ubicación".to_string(),
            Lang::PT => "Localização".to_string(),
            Lang::IT => "Posizione".to_string(),
            Lang::JA => "地点".to_string(),
        }
    }

    /// Name of the first forecast day.
    pub open spec fn today_label(self) -> Seq<char> {
        match self {
            Lang::EN => "Today"@,
            Lang::DE => "Heute"@,
            Lang::PL => "Dzisiaj"@,
            Lang::RU => "Сегодня"@,
            Lang::TR => "Bugün"@,
            Lang::FR => "Aujourd'hui"@,
            Lang::BE => "Сёння"@,
            Lang::ZH => "今日天气"@,
            Lang::ES => "Hoy"@,
            Lang::PT => "Hoje"@,
            Lang::IT => "Oggi"@,
            Lang::JA => "今日"@,
        }
    }

    /// Name of the first forecast day.
    pub fn today(&self) -> (label: String)
        ensures
            label@ == self.today_label(),
    {
        match self {
            Lang::EN => "Today".to_string(),
            Lang::DE => "Heute".to_string(),
            Lang::PL => "Dzisiaj".to_string(),
            Lang::RU => "Сегодня".to_string(),
            Lang::TR => "Bugün".to_string(),
            Lang::FR => "Aujourd'hui".to_string(),
            Lang::BE => "Сёння".to_string(),
            Lang::ZH => "今日天气".to_string(),
            Lang::ES => "Hoy".to_string(),
            Lang::PT => "Hoje".to_string(),
            Lang::IT => "Oggi".to_string(),
            Lang::JA => "今日".to_string(),
        }
    }

    /// Name of the second forecast day.
    pub open spec fn tomorrow_label(self) -> Seq<char> {
        match self {
            Lang::EN => "Tomorrow"@,
            Lang::DE => "Morgen"@,
            Lang::PL => "Jutro"@,
            Lang::RU => "Завтра"@,
            Lang::TR => "Yarın"@,
            Lang::FR => "Demain"@,
            Lang::BE => "Заўтра"@,
            Lang::ZH => "明日天气"@,
            Lang::ES => "Mañana"@,
            Lang::PT => "Amanhã"@,
            Lang::IT => "Domani"@,
            Lang::JA => "明日"@,
        }
    }

    /// Name of the second forecast day.
    pub fn tomorrow(&self) -> (label: String)
        ensures
            label@ == self.tomorrow_label(),
    {
        match self {
            Lang::EN => "Tomorrow".to_string(),
            Lang::DE => "Morgen".to_string(),
            Lang::PL => "Jutro".to_string(),
            Lang::RU => "Завтра".to_string(),
            Lang::TR => "Yarın".to_string(),
            Lang::FR => "Demain".to_string(),
            Lang::BE => "Заўтра".to_string(),
            Lang::ZH => "明日天气".to_string(),
            Lang::ES => "Mañana".to_string(),
            Lang::PT => "Amanhã".to_string(),
            Lang::IT => "Domani".to_string(),
            Lang::JA => "明日".to_string(),
        }
    }

    /// Name of the event "fog".
    pub open spec fn fog_label(self) -> Seq<char> {
        match self {
            Lang::EN => "Fog"@,
            Lang::DE => "Nebel"@,
            Lang::PL => "Mgła"@,
            Lang::RU => "Туман"@,
            Lang::TR => "Sis"@,
            Lang::FR => "Brouillard"@,
            Lang::BE => "Туман"@,
            Lang::ZH => "雾"@,
            Lang::ES => "Niebla"@,
            Lang::PT => "Nevoeiro"@,
            Lang::IT => "Nebbia"@,
            Lang::JA => "霧"@,
        }
    }

    /// Name of the event "fog".
    pub fn fog(&self) -> (label: String)
        ensures
            label@ == self.fog_label(),
    {
        match self {
            Lang::EN => "Fog".to_string(),
            Lang::DE => "Nebel".to_string(),
            Lang::PL => "Mgła".to_string(),
            Lang::RU => "Туман".to_string(),
            Lang::TR => "Sis".to_string(),
            Lang::FR => "Brouillard".to_string(),
            Lang::BE => "Туман".to_string(),
            Lang::ZH => "雾".to_string(),
            Lang::ES => "Niebla".to_string(),
            Lang::PT => "Nevoeiro".to_string(),
            Lang::IT => "Nebbia".to_string(),
            Lang::JA => "霧".to_string(),
        }
    }

    /// Name of the event "frost".
    pub open spec fn frost_label(self) -> Seq<char> {
        match self {
            Lang::EN => "Frost"@,
            Lang::DE => "Frost"@,
            Lang::PL => "Mróz"@,
            Lang::RU => "Мороз"@,
            Lang::TR => "Don"@,
            Lang::FR => "Gel"@,
            Lang::BE => "Мароз"@,
            Lang::ZH => "霜"@,
            Lang::ES => "Escarcha"@,
            Lang::PT => "Geada"@,
            Lang::IT => "Gelo"@,
            Lang::JA => "霜"@,
        }
    }

    /// Name of the event "frost".
    pub fn frost(&self) -> (label: String)
        ensures
            label@ == self.frost_label(),
    {
        match self {
            Lang::EN => "Frost".to_string(),
            Lang::DE => "Frost".to_string(),
            Lang::PL => "Mróz".to_string(),
            Lang::RU => "Мороз".to_string(),
            Lang::TR => "Don".to_string(),
            Lang::FR => "Gel".to_string(),
            Lang::BE => "Мароз".to_string(),
            Lang::ZH => "霜".to_string(),
            Lang::ES => "Escarcha".to_string(),
            Lang::PT => "Geada".to_string(),
            Lang::IT => "Gelo".to_string(),
            Lang::JA => "霜".to_string(),
        }
    }

    /// Name of the event "overcast".
    pub open spec fn overcast_label(self) -> Seq<char> {
        match self {
            Lang::EN => "Overcast"@,
            Lang::DE => "Bewölkung"@,
            Lang::PL => "Zachmurzenie"@,
            Lang::RU => "Пасмурно"@,
            Lang::TR => "Bulutlu"@,
            Lang::FR => "Couvert"@,
            Lang::BE => "Хмурна"@,
            Lang::ZH => "多云"@,
            Lang::ES => "Nublado"@,
            Lang::PT => "Nublado"@,
            Lang::IT => "Nuvoloso"@,
            Lang::JA => "曇り"@,
        }
    }

    /// Name of the event "overcast".
    pub fn overcast(&self) -> (label: String)
        ensures
            label@ == self.overcast_label(),
    {
        match self {
            Lang::EN => "Overcast".to_string(),
            Lang::DE => "Bewölkung".to_string(),
            Lang::PL => "Zachmurzenie".to_string(),
            Lang::RU => "Пасмурно".to_string(),
            Lang::TR => "Bulutlu".to_string(),
            Lang::FR => "Couvert".to_string(),
            Lang::BE => "Хмурна".to_string(),
            Lang::ZH => "多云".to_string(),
            Lang::ES => "Nublado".to_string(),
            Lang::PT => "Nublado".to_string(),
            Lang::IT => "Nuvoloso".to_string(),
            Lang::JA => "曇り".to_string(),
        }
    }

    /// Name of the event "rain".
    pub open spec fn rain_label(self) -> Seq<char> {
        match self {
            Lang::EN => "Rain"@,
            Lang::DE => "Regen"@,
            Lang::PL => "Deszcz"@,
            Lang::RU => "Дождь"@,
            Lang::TR => "Yağmur"@,
            Lang::FR => "Pluie"@,
            Lang::BE => "Дождж"@,
            Lang::ZH => "雨"@,
            Lang::ES => "Lluvia"@,
            Lang::PT => "Chuva"@,
            Lang::IT => "Pioggia"@,
            Lang::JA => "雨"@,
        }
    }

    /// Name of the event "rain".
    pub fn rain(&self) -> (label: String)
        ensures
            label@ == self.rain_label(),
    {
        match self {
            Lang::EN => "Rain".to_string(),
            Lang::DE => "Regen".to_string(),
            Lang::PL => "Deszcz".to_string(),
            Lang::RU => "Дождь".to_string(),
            Lang::TR => "Yağmur".to_string(),
            Lang::FR => "Pluie".to_string(),
            Lang::BE => "Дождж".to_string(),
            Lang::ZH => "雨".to_string(),
            Lang::ES => "Lluvia".to_string(),
            Lang::PT => "Chuva".to_string(),
            Lang::IT => "Pioggia".to_string(),
            Lang::JA => "雨".to_string(),
        }
    }

    /// Name of the event "snow".
    pub open spec fn snow_label(self) -> Seq<char> {
        match self {
            Lang::EN => "Snow"@,
            Lang::DE => "Schnee"@,
            Lang::PL => "Śnieg"@,
            Lang::RU => "Снег"@,
            Lang::TR => "Kar"@,
            Lang::FR => "Neige"@,
            Lang::BE => "Снег"@,
            Lang::ZH => "雪"@,
            Lang::ES => "Nieve"@,
            Lang::PT => "Neve"@,
            Lang::IT => "Neve"@,
            Lang::JA => "雪"@,
        }
    }

    /// Name of the event "snow".
    pub fn snow(&self) -> (label: String)
        ensures
            label@ == self.snow_label(),
    {
        match self {
            Lang::EN => "Snow".to_string(),
            Lang::DE => "Schnee".to_string(),
            Lang::PL => "Śnieg".to_string(),
            Lang::RU => "Снег".to_string(),
            Lang::TR => "Kar".to_string(),
            Lang::FR => "Neige".to_string(),
            Lang::BE => "Снег".to_string(),
            Lang::ZH => "雪".to_string(),
            Lang::ES => "Nieve".to_string(),
            Lang::PT => "Neve".to_string(),
            Lang::IT => "Neve".to_string(),
            Lang::JA => "雪".to_string(),
        }
    }

    /// Name of the event "sunshine".
    pub open spec fn sunshine_label(self) -> Seq<char> {
        match self {
            Lang::EN => "Sunshine"@,
            Lang::DE => "Sonnenschein"@,
            Lang::PL => "Nasłonecznienie"@,
            Lang::RU => "Солнечно"@,
            Lang::TR => "Güneş ışığı"@,
            Lang::FR => "Ensoleillé"@,
            Lang::BE => "Сонечна"@,
            Lang::ZH => "晴"@,
            Lang::ES => "Soleado"@,
            Lang::PT => "Sol"@,
            Lang::IT => "Sole"@,
            Lang::JA => "晴れ"@,
        }
    }

    /// Name of the event "sunshine".
    pub fn sunshine(&self) -> (label: String)
        ensures
            label@ == self.sunshine_label(),
    {
        match self {
            Lang::EN => "Sunshine".to_string(),
            Lang::DE => "Sonnenschein".to_string(),
            Lang::PL => "Nasłonecznienie".to_string(),
            Lang::RU => "Солнечно".to_string(),
            Lang::TR => "Güneş ışığı".to_string(),
            Lang::FR => "Ensoleillé".to_string(),
            Lang::BE => "Сонечна".to_string(),
            Lang::ZH => "晴".to_string(),
            Lang::ES => "Soleado".to_string(),
            Lang::PT => "Sol".to_string(),
            Lang::IT => "Sole".to_string(),
            Lang::JA => "晴れ".to_string(),
        }
    }

    /// Name of the event "thunder".
    pub open spec fn thunder_label(self) -> Seq<char> {
        match self {
            Lang::EN => "Thunder"@,
            Lang::DE => "Donner"@,
            Lang::PL => "Burza"@,
            Lang::RU => "Гроза"@,
            Lang::TR => "Gök gürültüsü"@,
            Lang::FR => "Orages"@,
            Lang::BE => "Навальніца"@,
            Lang::ZH => "雷暴"@,
            Lang::ES => "Tormenta"@,
            Lang::PT => "Trovão"@,
            Lang::IT => "Tuono"@,
            Lang::JA => "雷"@,
        }
    }

    /// Name of the event "thunder".
    pub fn thunder(&self) -> (label: String)
        ensures
            label@ == self.thunder_label(),
    {
        match self {
            Lang::EN => "Thunder".to_string(),
            Lang::DE => "Donner".to_string(),
            Lang::PL => "Burza".to_string(),
            Lang::RU => "Гроза".to_string(),
            Lang::TR => "Gök gürültüsü".to_string(),
            Lang::FR => "Orages".to_string(),
            Lang::BE => "Навальніца".to_string(),
            Lang::ZH => "雷暴".to_string(),
            Lang::ES => "Tormenta".to_string(),
            Lang::PT => "Trovão".to_string(),
            Lang::IT => "Tuono".to_string(),
            Lang::JA => "雷".to_string(),
        }
    }

    /// Label of the wind line, and name of the event "windy".
    pub open spec fn wind_label(self) -> Seq<char> {
        match self {
            Lang::EN => "Wind"@,
            Lang::DE => "Wind"@,
            Lang::PL => "Wiatr"@,
            Lang::RU => "Ветер"@,
            Lang::TR => "Rüzgar"@,
            Lang::FR => "Vent"@,
            Lang::BE => "Вецер"@,
            Lang::ZH => "风速"@,
            Lang::ES => "Viento"@,
            Lang::PT => "Vento"@,
            Lang::IT => "Vento"@,
            Lang::JA => "風速"@,
        }
    }

    /// Label of the wind line, and name of the event "windy".
    pub fn wind(&self) -> (label: String)
        ensures
            label@ == self.wind_label(),
    {
        match self {
            Lang::EN => "Wind".to_string(),
            Lang::DE => "Wind".to_string(),
            Lang::PL => "Wiatr".to_string(),
            Lang::RU => "Ветер".to_string(),
            Lang::TR => "Rüzgar".to_string(),
            Lang::FR => "Vent".to_string(),
            Lang::BE => "Вецер".to_string(),
            Lang::ZH => "风速".to_string(),
            Lang::ES => "Viento".to_string(),
            Lang::PT => "Vento".to_string(),
            Lang::IT => "Vento".to_string(),
            Lang::JA => "風速".to_string(),
        }
    }

    /// Label of the line that gives the time of the observation.
    pub open spec fn observation_time_label(self) -> Seq<char> {
        match self {
            Lang::EN => "Observed at"@,
            Lang::DE => "Beobachtet um"@,
            Lang::PL => "Zaobserwowano o"@,
            Lang::RU => "Наблюдение в"@,
            Lang::TR => "Gözlem zamanı"@,
            Lang::FR => "Observé à"@,
            Lang::BE => "Назіранне ў"@,
            Lang::ZH => "观测时间"@,
            Lang::ES => "Observado a las"@,
            Lang::PT => "Observado às"@,
            Lang::IT => "Osservato alle"@,
            Lang::JA => "観測時刻"@,
        }
    }

    /// Label of the line that gives the time of the observation.
    pub fn observation_time(&self) -> (label: String)
        ensures
            label@ == self.observation_time_label(),
    {
        match self {
            Lang::EN => "Observed at".to_string(),
            Lang::DE => "Beobachtet um".to_string(),
            Lang::PL => "Zaobserwowano o".to_string(),
            Lang::RU => "Наблюдение в".to_string(),
            Lang::TR => "Gözlem zamanı".to_string(),
            Lang::FR => "Observé à".to_string(),
            Lang::BE => "Назіранне ў".to_string(),
            Lang::ZH => "观测时间".to_string(),
            Lang::ES => "Observado a las".to_string(),
            Lang::PT => "Observado às".to_string(),
            Lang::IT => "Osservato alle".to_string(),
            Lang::JA => "観測時刻".to_string(),
        }
    }

    /// Key under which a record of the payload holds the weather description in this language.
    pub open spec fn description_key(self) -> Seq<char> {
        match self {
            Lang::EN => "weatherDesc"@,
            Lang::DE => "lang_de"@,
            Lang::PL => "lang_pl"@,
            Lang::RU => "lang_ru"@,
            Lang::TR => "lang_tr"@,
            Lang::FR => "lang_fr"@,
            Lang::BE => "lang_be"@,
            Lang::ZH => "lang_zh"@,
            Lang::ES => "lang_es"@,
            Lang::PT => "lang_pt"@,
            Lang::IT => "lang_it"@,
            Lang::JA => "lang_ja"@,
        }
    }

    /// Key under which a record of the payload holds the weather description in this language.
    pub fn weather_desc(&self) -> (label: String)
        ensures
            label@ == self.description_key(),
    {
        match self {
            Lang::EN => "weatherDesc".to_string(),
            Lang::DE => "lang_de".to_string(),
            Lang::PL => "lang_pl".to_string(),
            Lang::RU => "lang_ru".to_string(),
            Lang::TR => "lang_tr".to_string(),
            Lang::FR => "lang_fr".to_string(),
            Lang::BE => "lang_be".to_string(),
            Lang::ZH => "lang_zh".to_string(),
            Lang::ES => "lang_es".to_string(),
            Lang::PT => "lang_pt".to_string(),
            Lang::IT => "lang_it".to_string(),
            Lang::JA => "lang_ja".to_string(),
        }
    }

}

} // verus!
