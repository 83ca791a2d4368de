//! One rendering: the indicator, the tooltip and the class, from a
//! snapshot, a configuration and a moment.

use vstd::prelude::*;
use crate::class::{class_text, css_class};
use crate::config::{Configuration, RenderConfiguration, RenderMoment, UnitSystem};
use crate::icons::{is_known, is_known_code_text, resolve_text, resolved_glyph_of_text};
use crate::indicator::{format_indicator, rendered};
use crate::payload::{Json, Tree};
use crate::snapshot::{
    day_views, decoded, hour_views, missing, missing_field, outcome, DayView, Failure, HourView,
    RenderError, Section, SnapshotView, WeatherSnapshot,
};
use crate::text::same_text;
use crate::tooltip::{assemble, tooltip_text};

verus! {

/// What one rendering gives to the status bar.
#[derive(Debug, Clone)]
pub struct RenderedOutput {
    /// The indicator: what the bar itself shows.
    pub text: String,
    /// The tooltip: what the bar shows on demand.
    pub tooltip: String,
    /// A name for the weather by which the bar can be styled, where the
    /// configuration asks for one.
    pub class: Option<String>,
}

/// A rendering as plain values.
pub struct Rendering {
    pub text: Seq<char>,
    pub tooltip: Seq<char>,
    pub class: Option<Seq<char>>,
}

impl View for RenderedOutput {
    type V = Rendering;

    open spec fn view(&self) -> Rendering {
        Rendering {
            text: self.text@,
            tooltip: self.tooltip@,
            class: match self.class {
                Some(class) => Some(class@),
                None => None,
            },
        }
    }
}

/// The keys under which a rendering is handed on, in their order.
pub open spec fn output_keys(with_class: bool) -> Seq<Seq<char>> {
    if with_class {
        seq!["text"@, "tooltip"@, "class"@]
    } else {
        seq!["text"@, "tooltip"@]
    }
}

/// A rendering as keys and values: the indicator under `text`, the tooltip
/// under `tooltip` and, where there is a class, the class under `class`.
pub open spec fn entries_of(rendering: Rendering) -> Seq<(Seq<char>, Seq<char>)> {
    let fixed = seq![("text"@, rendering.text), ("tooltip"@, rendering.tooltip)];
    match rendering.class {
        Some(class) => fixed.push(("class"@, class)),
        None => fixed,
    }
}

/// Keys and values as plain values.
pub open spec fn entry_texts(pairs: Seq<(&str, &str)>) -> Seq<(Seq<char>, Seq<char>)> {
    pairs.map_values(|pair: (&str, &str)| (pair.0@, pair.1@))
}

/// The keys of a rendering are `text`, `tooltip` and, where there is a
/// class, `class`: these and no others, and no two of them the same.
pub proof fn lemma_keys_of_entries(rendering: Rendering)
    ensures
        entries_of(rendering).map_values(|entry: (Seq<char>, Seq<char>)| entry.0) == output_keys(
            rendering.class is Some,
        ),
        forall|i: int, j: int|
            0 <= i < j < entries_of(rendering).len() ==> entries_of(rendering)[i].0
                != entries_of(rendering)[j].0,
{
    reveal_strlit("text");
    reveal_strlit("tooltip");
    reveal_strlit("class");
    let keys = entries_of(rendering).map_values(|entry: (Seq<char>, Seq<char>)| entry.0);
    assert(keys =~= output_keys(rendering.class is Some));
    assert("text"@.len() != "tooltip"@.len());
    assert("class"@.len() != "tooltip"@.len());
    assert("text"@.len() != "class"@.len());
}

impl RenderedOutput {
    /// The rendering as keys and values.
    pub fn entries(&self) -> (pairs: Vec<(&'static str, &str)>)
        ensures
            entry_texts(pairs@) == entries_of(self@),
    {
        let mut pairs: Vec<(&'static str, &str)> = Vec::new();
        pairs.push(("text", self.text.as_str()));
        pairs.push(("tooltip", self.tooltip.as_str()));
        match &self.class {
            Some(class) => {
                pairs.push(("class", class.as_str()));
            },
            None => {},
        }
        assert(entry_texts(pairs@) =~= entries_of(self@));
        pairs
    }
}

/// The key of the field that the indicator shows where no template is
/// given: the configured key, but the temperature in Fahrenheit where the
/// units are imperial and the key is that of the temperature in Celsius.
pub open spec fn indicator_key(config: Configuration) -> Seq<char> {
    if config.units == UnitSystem::Imperial && config.main_indicator == "temp_C"@ {
        "temp_F"@
    } else {
        config.main_indicator
    }
}

/// What stands between the icon and the value of the indicator: a line
/// feed in the vertical layout, a space otherwise.
pub open spec fn indicator_gap(config: Configuration) -> Seq<char> {
    if config.vertical_view {
        "\n"@
    } else {
        " "@
    }
}

/// The indicator. With a template, it is what the template gives over the
/// records of the condition and the place. Without one, it is the icon and
/// the text of the field that `indicator_key` names; where the condition
/// has no such text, there is no indicator but a failure.
pub open spec fn indicator_text(snapshot: SnapshotView, config: Configuration) -> Result<
    Seq<char>,
    Failure,
> {
    let condition = snapshot.current_condition;
    let icon = resolved_glyph_of_text(condition.weather_code, config.icon_style);
    match config.custom_indicator {
        Some(template) => Ok(
            rendered(template, condition.fields, snapshot.nearest_area.fields, icon),
        ),
        None => match condition.fields.text_at(indicator_key(config)) {
            Some(value) => Ok(icon + indicator_gap(config) + value),
            None => Err(missing_field(Section::CurrentCondition, indicator_key(config))),
        },
    }
}

/// The class of a rendering: that of the description of the current
/// weather, where the configuration asks for a class.
pub open spec fn class_of(snapshot: SnapshotView, config: Configuration) -> Option<Seq<char>> {
    if config.css_class {
        Some(class_text(snapshot.current_condition.description))
    } else {
        None
    }
}

/// What a snapshot, a configuration and a moment render to: indicator,
/// tooltip and class, or the failure of the indicator, or else that of the
/// tooltip.
pub open spec fn rendering(snapshot: SnapshotView, config: Configuration, moment: RenderMoment)
    -> Result<Rendering, Failure> {
    match indicator_text(snapshot, config) {
        Err(failure) => Err(failure),
        Ok(text) => match tooltip_text(snapshot, config, moment) {
            Err(failure) => Err(failure),
            Ok(tooltip) => Ok(Rendering { text, tooltip, class: class_of(snapshot, config) }),
        },
    }
}

/// What a payload, a configuration and a moment render to: the failure
/// for what the payload lacks, or else what its snapshot renders to.
pub open spec fn rendering_of_payload(payload: Tree, config: Configuration, moment: RenderMoment)
    -> Result<Rendering, Failure> {
    match decoded(payload, config.lang) {
        Err(failure) => Err(failure),
        Ok(snapshot) => rendering(snapshot, config, moment),
    }
}

/// Writes the indicator.
pub fn indicator(snapshot: &WeatherSnapshot, config: &RenderConfiguration) -> (r: Result<
    String,
    RenderError,
>)
    ensures
        outcome(r) == indicator_text(snapshot@, config@),
{
    let condition = &snapshot.current_condition;
    let icon = resolve_text(condition.weather_code, config.icon_style);
    match &config.custom_indicator {
        Some(template) => {
            let area = snapshot.nearest_area.fields;
            Ok(format_indicator(condition.fields, area, template.clone(), icon))
        },
        None => {
            let imperial = match config.units {
                UnitSystem::Imperial => true,
                UnitSystem::Metric => false,
            };
            let key = if imperial && same_text(config.main_indicator.as_str(), "temp_C") {
                "temp_F"
            } else {
                config.main_indicator.as_str()
            };
            match condition.fields.member_text(key) {
                Some(value) => {
                    let mut text = icon.to_string();
                    if config.vertical_view {
                        text.append("\n");
                    } else {
                        text.append(" ");
                    }
                    text.append(value);
                    Ok(text)
                },
                None => Err(missing(Section::CurrentCondition, key)),
            }
        },
    }
}

/// Renders a snapshot: the indicator, the tooltip and the class.
///
/// The result depends on nothing but the three arguments: the moment holds
/// the only day and hour that rendering looks at.
pub fn render(
    snapshot: &WeatherSnapshot,
    config: &RenderConfiguration,
    moment: &RenderMoment,
) -> (r: Result<RenderedOutput, RenderError>)
    ensures
        outcome(r) == rendering(snapshot@, config@, *moment),
{
    let text = match indicator(snapshot, config) {
        Ok(text) => text,
        Err(e) => {
            return Err(e);
        },
    };
    let tooltip = match assemble(snapshot, config, moment) {
        Ok(tooltip) => tooltip,
        Err(e) => {
            return Err(e);
        },
    };
    let class = if config.css_class {
        Some(css_class(snapshot.current_condition.description))
    } else {
        None
    };
    Ok(RenderedOutput { text, tooltip, class })
}

/// Reads a payload and renders it.
pub fn render_payload(
    payload: &Json,
    config: &RenderConfiguration,
    moment: &RenderMoment,
) -> (r: Result<RenderedOutput, RenderError>)
    ensures
        outcome(r) == rendering_of_payload(payload@, config@, *moment),
{
    match WeatherSnapshot::decode(payload, config.lang) {
        Ok(snapshot) => render(&snapshot, config, moment),
        Err(e) => Err(e),
    }
}

/// The texts of a list of borrowed texts.
pub open spec fn borrowed_texts(list: Seq<&str>) -> Seq<Seq<char>> {
    list.map_values(|text: &str| text@)
}

/// The condition codes of the hours of a day, in the order of the day.
pub open spec fn hour_codes(hours: Seq<HourView>) -> Seq<Seq<char>> {
    hours.map_values(|hour: HourView| hour.weather_code)
}

/// The condition codes of the hours of the first `count` days.
pub open spec fn day_codes(days: Seq<DayView>, count: int) -> Seq<Seq<char>>
    decreases count,
{
    if count <= 0 {
        Seq::empty()
    } else {
        day_codes(days, count - 1) + hour_codes(days[count - 1].hourly)
    }
}

/// Every condition code of a snapshot: that of the current condition, and
/// then those of the hours of the forecast, day by day.
pub open spec fn snapshot_codes(snapshot: SnapshotView) -> Seq<Seq<char>> {
    seq![snapshot.current_condition.weather_code] + day_codes(
        snapshot.forecast_days,
        snapshot.forecast_days.len() as int,
    )
}

/// The condition codes of a snapshot for which the tables have no glyph, in
/// the order of the snapshot, each as often as it occurs.
pub open spec fn unknown_codes_of(snapshot: SnapshotView) -> Seq<Seq<char>> {
    snapshot_codes(snapshot).filter(|code: Seq<char>| !is_known_code_text(code))
}

/// Lists the condition codes of a snapshot for which the tables have no
/// glyph. Each of them is shown as the fallback glyph, and is worth a
/// word of warning to the reader.
pub fn unknown_codes<'a>(snapshot: &WeatherSnapshot<'a>) -> (codes: Vec<&'a str>)
    ensures
        borrowed_texts(codes@) == unknown_codes_of(snapshot@),
{
    let ghost unknown = |code: Seq<char>| !is_known_code_text(code);
    let ghost first = seq![snapshot.current_condition.weather_code@];
    let days = &snapshot.forecast_days;
    let ghost all = day_views(days@);
    let mut codes: Vec<&'a str> = Vec::new();
    proof {
        reveal(Seq::filter);
        assert(first.drop_last() =~= Seq::<Seq<char>>::empty());
        assert(Seq::<Seq<char>>::empty().filter(unknown) =~= Seq::<Seq<char>>::empty());
    }
    if !is_known(snapshot.current_condition.weather_code) {
        codes.push(snapshot.current_condition.weather_code);
    }
    assert(borrowed_texts(codes@) =~= first.filter(unknown));
    assert(first + day_codes(all, 0) =~= first);
    let mut i: usize = 0;
    while i < days.len()
        invariant
            i <= days.len(),
            days == &snapshot.forecast_days,
            all == day_views(days@),
            first == seq![snapshot.current_condition.weather_code@],
            unknown == (|code: Seq<char>| !is_known_code_text(code)),
            borrowed_texts(codes@) == (first + day_codes(all, i as int)).filter(unknown),
        decreases days.len() - i,
    {
        let hours = &days[i].hourly;
        let ghost hours_all = hour_views(hours@);
        let ghost before = first + day_codes(all, i as int);
        let mut j: usize = 0;
        assert(all[i as int].hourly == hours_all);
        assert(before + hour_codes(hours_all.take(0)) =~= before);
        while j < hours.len()
            invariant
                j <= hours.len(),
                hours_all == hour_views(hours@),
                unknown == (|code: Seq<char>| !is_known_code_text(code)),
                borrowed_texts(codes@) == (before + hour_codes(hours_all.take(j as int))).filter(
                    unknown,
                ),
            decreases hours.len() - j,
        {
            let code = hours[j].weather_code;
            let ghost seen = before + hour_codes(hours_all.take(j as int));
            let ghost held = borrowed_texts(codes@);
            proof {
                reveal(Seq::filter);
                let next = before + hour_codes(hours_all.take(j + 1));
                assert(next =~= seen.push(code@));
                assert(next.drop_last() =~= seen);
            }
            if !is_known(code) {
                codes.push(code);
                assert(borrowed_texts(codes@) =~= held.push(code@));
            }
            j += 1;
        }
        proof {
            assert(hours_all.take(hours.len() as int) == hours_all);
            assert(before + hour_codes(hours_all) =~= first + day_codes(all, i + 1));
        }
        i += 1;
    }
    codes
}

/// Rendering the same snapshot under the same configuration at the same
/// moment gives the same output, whenever and however often it is done:
/// an output depends on nothing but what the three stand for.
pub proof fn lemma_rendering_repeats(
    first_snapshot: WeatherSnapshot,
    second_snapshot: WeatherSnapshot,
    first_config: RenderConfiguration,
    second_config: RenderConfiguration,
    moment: RenderMoment,
    first: Result<RenderedOutput, RenderError>,
    second: Result<RenderedOutput, RenderError>,
)
    requires
        first_snapshot@ == second_snapshot@,
        first_config@ == second_config@,
        outcome(first) == rendering(first_snapshot@, first_config@, moment),
        outcome(second) == rendering(second_snapshot@, second_config@, moment),
    ensures
        outcome(first) == outcome(second),
        first matches Ok(a) ==> second matches Ok(b) && a.text@ == b.text@ && a.tooltip@
            == b.tooltip@ && a@.class == b@.class,
        first matches Err(e) ==> second matches Err(f) && e@ == f@,
{
}

} // verus!
