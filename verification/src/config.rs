//! What the reader asked for: units, clock, icons, language and layout.

use vstd::prelude::*;
use crate::clock::CalendarDate;
use crate::icons::IconStyle;
use crate::lang::Lang;

verus! {

/// The units in which temperature and wind speed are shown.
#[derive(Debug, Clone, Copy, PartialEq, Eq, Structural)]
pub enum UnitSystem {
    /// Degrees Celsius and kilometres per hour.
    Metric,
    /// Degrees Fahrenheit and miles per hour.
    Imperial,
}

impl UnitSystem {
    /// The units that two wishes of the reader give: imperial units where
    /// the reader asks for degrees Fahrenheit or for miles per hour, metric
    /// units otherwise. Temperature and wind speed never differ in their
    /// system of units.
    pub fn from_wishes(fahrenheit: bool, miles: bool) -> (units: UnitSystem)
        ensures
            units == (if fahrenheit || miles {
                UnitSystem::Imperial
            } else {
                UnitSystem::Metric
            }),
    {
        if fahrenheit || miles {
            UnitSystem::Imperial
        } else {
            UnitSystem::Metric
        }
    }
}

/// How one tooltip and its indicator are to be made.
#[derive(Debug, Clone)]
pub struct RenderConfiguration {
    pub units: UnitSystem,
    /// Times on the 12-hour clock where set, on the 24-hour clock otherwise.
    pub ampm: bool,
    pub icon_style: IconStyle,
    pub lang: Lang,
    /// Key of the field of the current condition that the indicator shows
    /// beside the icon, where no template is given.
    pub main_indicator: String,
    /// Template of the indicator, where one is given.
    pub custom_indicator: Option<String>,
    /// Pattern under which the date of a forecast day is written.
    pub date_format: String,
    /// Leaves the likelihoods out of the forecast lines.
    pub hide_conditions: bool,
    /// Puts the icon of the indicator on a line of its own.
    pub vertical_view: bool,
    /// Adds the time of the observation to the tooltip.
    pub observation_time: bool,
    /// Adds the class to the output.
    pub css_class: bool,
}

/// A configuration as plain values.
pub struct Configuration {
    pub units: UnitSystem,
    pub ampm: bool,
    pub icon_style: IconStyle,
    pub lang: Lang,
    pub main_indicator: Seq<char>,
    pub custom_indicator: Option<Seq<char>>,
    pub date_format: Seq<char>,
    pub hide_conditions: bool,
    pub vertical_view: bool,
    pub observation_time: bool,
    pub css_class: bool,
}

impl View for RenderConfiguration {
    type V = Configuration;

    open spec fn view(&self) -> Configuration {
        Configuration {
            units: self.units,
            ampm: self.ampm,
            icon_style: self.icon_style,
            lang: self.lang,
            main_indicator: self.main_indicator@,
            custom_indicator: match self.custom_indicator {
                Some(template) => Some(template@),
                None => None,
            },
            date_format: self.date_format@,
            hide_conditions: self.hide_conditions,
            vertical_view: self.vertical_view,
            observation_time: self.observation_time,
            css_class: self.css_class,
        }
    }
}

/// The configuration that is used where nothing else is asked for: metric
/// units, the 24-hour clock, the coloured icons, English, the temperature
/// beside the icon, dates as year, month and day, and a class in the output.
pub open spec fn default_configuration() -> Configuration {
    Configuration {
        units: UnitSystem::Metric,
        ampm: false,
        icon_style: IconStyle::Emoji,
        lang: Lang::EN,
        main_indicator: "temp_C"@,
        custom_indicator: None,
        date_format: "%Y-%m-%d"@,
        hide_conditions: false,
        vertical_view: false,
        observation_time: false,
        css_class: true,
    }
}

/// The moment for which a tooltip is made: the reader's day and the hour of
/// that day, from 0 to 23. It is taken once, before rendering begins.
#[derive(Debug, Clone, Copy, PartialEq, Eq, Structural)]
pub struct RenderMoment {
    pub today: CalendarDate,
    pub hour: u32,
}

impl Default for RenderConfiguration {
    /// The configuration that is used where nothing else is asked for.
    fn default() -> (config: RenderConfiguration)
        ensures
            config@ == default_configuration(),
    {
        RenderConfiguration {
            units: UnitSystem::Metric,
            ampm: false,
            icon_style: IconStyle::Emoji,
            lang: Lang::EN,
            main_indicator: "temp_C".to_string(),
            custom_indicator: None,
            date_format: "%Y-%m-%d".to_string(),
            hide_conditions: false,
            vertical_view: false,
            observation_time: false,
            css_class: true,
        }
    }
}

} // verus!
