//! The indicator template: a text with placeholders in braces, each of
//! which is replaced by a field of the payload or by the weather icon.

use vstd::prelude::*;
use crate::payload::{Json, Tree};
use crate::text::{from_chars, same_chars, to_chars};

verus! {

/// Name of the placeholder that stands for the weather icon.
pub open spec fn icon_name() -> Seq<char> {
    "ICON"@
}

/// Where the first brace at or after `from` stands in `template`; the
/// length of `template` where there is none.
pub open spec fn next_brace(template: Seq<char>, from: int) -> int
    decreases template.len() - from,
{
    if from < 0 || from >= template.len() {
        template.len() as int
    } else if template[from] == '{' || template[from] == '}' {
        from
    } else {
        next_brace(template, from + 1)
    }
}

/// Where the placeholder that begins at `at` ends. A placeholder is an
/// opening brace, a name without braces in it, and a closing brace; the
/// result is the place of the closing brace, or `None` where no placeholder
/// begins at `at`.
pub open spec fn placeholder_end(template: Seq<char>, at: int) -> Option<int> {
    if 0 <= at < template.len() && template[at] == '{' {
        let close = next_brace(template, at + 1);
        if close < template.len() && template[close] == '}' {
            Some(close)
        } else {
            None
        }
    } else {
        None
    }
}

/// What the field `name` shows: the member of the area record with that
/// key or else the member of the condition record with that key, as a
/// placeholder shows it; `None` where neither record has the key.
pub open spec fn field_shown(conditions: Tree, area: Tree, name: Seq<char>) -> Option<Seq<char>> {
    match area.get(name) {
        Some(v) => Some(v.shown()),
        None => match conditions.get(name) {
            Some(v) => Some(v.shown()),
            None => None,
        },
    }
}

/// What takes the place of the placeholder `name`: the field of that name
/// where there is one; else the icon for the name of the icon; else nothing.
pub open spec fn replacement(conditions: Tree, area: Tree, icon: Seq<char>, name: Seq<char>) -> Seq<
    char,
> {
    match field_shown(conditions, area, name) {
        Some(text) => text,
        None => if name == icon_name() {
            icon
        } else {
            Seq::empty()
        },
    }
}

/// The first brace at or after `from` is at or after `from`.
pub proof fn lemma_next_brace_bounds(template: Seq<char>, from: int)
    requires
        0 <= from <= template.len(),
    ensures
        from <= next_brace(template, from) <= template.len(),
        forall|k: int|
            from <= k < next_brace(template, from) ==> template[k] != '{' && template[k] != '}',
    decreases template.len() - from,
{
    if from < template.len() && !(template[from] == '{' || template[from] == '}') {
        lemma_next_brace_bounds(template, from + 1);
    }
}

/// The template from `at` on with every placeholder replaced, in one pass
/// from left to right: what comes in for a placeholder is not read again.
pub open spec fn rendered_from(
    template: Seq<char>,
    at: int,
    conditions: Tree,
    area: Tree,
    icon: Seq<char>,
) -> Seq<char>
    decreases template.len() - at,
{
    if at < 0 || at >= template.len() {
        Seq::empty()
    } else {
        match placeholder_end(template, at) {
            Some(close) => {
                proof {
                    lemma_next_brace_bounds(template, at + 1);
                }
                replacement(conditions, area, icon, template.subrange(at + 1, close))
                    + rendered_from(template, close + 1, conditions, area, icon)
            },
            None => seq![template[at]] + rendered_from(template, at + 1, conditions, area, icon),
        }
    }
}

/// The indicator that a template gives. Every placeholder gives way to the
/// field it names, to the icon, or to nothing; all other text stays. Where
/// the condition or the area is no record, the indicator is empty.
pub open spec fn rendered(
    template: Seq<char>,
    conditions: Tree,
    area: Tree,
    icon: Seq<char>,
) -> Seq<char> {
    if conditions.is_record() && area.is_record() {
        rendered_from(template, 0, conditions, area, icon)
    } else {
        Seq::empty()
    }
}

/// Where no brace stands from `from` up to `to` and one stands at `to`,
/// or the text ends at `to`, the first brace at or after `from` is at `to`.
proof fn lemma_next_brace_is(template: Seq<char>, from: int, to: int)
    requires
        0 <= from <= to <= template.len(),
        forall|k: int| from <= k < to ==> template[k] != '{' && template[k] != '}',
        to < template.len() ==> template[to] == '{' || template[to] == '}',
    ensures
        next_brace(template, from) == to,
    decreases to - from,
{
    if from < to {
        lemma_next_brace_is(template, from + 1, to);
    }
}

/// A text without braces has no placeholder: it is rendered as it is.
pub proof fn lemma_text_without_braces_stays(
    template: Seq<char>,
    at: int,
    conditions: Tree,
    area: Tree,
    icon: Seq<char>,
)
    requires
        0 <= at <= template.len(),
        forall|k: int| 0 <= k < template.len() ==> template[k] != '{' && template[k] != '}',
    ensures
        rendered_from(template, at, conditions, area, icon) == template.skip(at),
    decreases template.len() - at,
{
    if at < template.len() {
        lemma_text_without_braces_stays(template, at + 1, conditions, area, icon);
        assert(template.skip(at) =~= seq![template[at]] + template.skip(at + 1));
    } else {
        assert(template.skip(at) =~= Seq::<char>::empty());
    }
}

/// A template that is one placeholder is rendered as what takes the place
/// of the placeholder.
pub proof fn lemma_lone_placeholder(name: Seq<char>, conditions: Tree, area: Tree, icon: Seq<char>)
    requires
        forall|k: int| 0 <= k < name.len() ==> name[k] != '{' && name[k] != '}',
    ensures
        rendered_from(seq!['{'] + name + seq!['}'], 0, conditions, area, icon) == replacement(
            conditions,
            area,
            icon,
            name,
        ),
{
    let template = seq!['{'] + name + seq!['}'];
    let close: int = name.len() as int + 1;
    assert forall|k: int| 1 <= k < close implies template[k] != '{' && template[k] != '}' by {
        assert(template[k] == name[k - 1]);
    }
    lemma_next_brace_is(template, 1, close);
    assert(placeholder_end(template, 0) == Some(close));
    assert(template.subrange(1, close) =~= name);
    let shown = replacement(conditions, area, icon, name);
    assert(rendered_from(template, close + 1, conditions, area, icon) == Seq::<char>::empty());
    assert(shown + Seq::<char>::empty() =~= shown);
}

/// A placeholder that names no field of either record, and not the icon,
/// shows nothing: the braces and the name are gone from the indicator.
pub proof fn lemma_unknown_placeholder_shows_nothing(
    name: Seq<char>,
    conditions: Tree,
    area: Tree,
    icon: Seq<char>,
)
    requires
        conditions.is_record(),
        area.is_record(),
        forall|k: int| 0 <= k < name.len() ==> name[k] != '{' && name[k] != '}',
        conditions.get(name) is None,
        area.get(name) is None,
        name != icon_name(),
    ensures
        rendered(seq!['{'] + name + seq!['}'], conditions, area, icon) == Seq::<char>::empty(),
{
    lemma_lone_placeholder(name, conditions, area, icon);
}

fn find_brace(template: &Vec<char>, from: usize) -> (at: usize)
    requires
        from <= template.len(),
    ensures
        at == next_brace(template@, from as int),
        from <= at <= template.len(),
{
    let mut at: usize = from;
    while at < template.len() && !(template[at] == '{' || template[at] == '}')
        invariant
            from <= at <= template.len(),
            next_brace(template@, from as int) == next_brace(template@, at as int),
        decreases template.len() - at,
    {
        at += 1;
    }
    at
}

fn append_text(out: &mut Vec<char>, text: &str)
    ensures
        final(out)@ == old(out)@ + text@,
{
    let mut chars = to_chars(text);
    out.append(&mut chars);
}

fn replace(conditions: &Json, area: &Json, icon: &str, name: &Vec<char>, out: &mut Vec<char>)
    ensures
        final(out)@ == old(out)@ + replacement(conditions@, area@, icon@, name@),
{
    match area.member_by_chars(name) {
        Some(v) => append_text(out, v.shown_text()),
        None => match conditions.member_by_chars(name) {
            Some(v) => append_text(out, v.shown_text()),
            None => {
                let reserved = to_chars("ICON");
                if same_chars(name, &reserved) {
                    append_text(out, icon);
                } else {
                    assert(out@ =~= old(out)@ + Seq::<char>::empty());
                }
            },
        },
    }
}

/// Renders the indicator that a template gives.
///
/// `weather_conditions` is the record of the current condition and `area`
/// the record of the place; a field of the area goes before a field of the
/// condition with the same name. A placeholder that names a field shows the
/// text of the field, or the text that the field describes; a field that is
/// neither shows nothing. The placeholder `{ICON}` shows `weather_icon`
/// unless a field has that name. A placeholder that names nothing shows
/// nothing. Where one of the two values is no record, the result is empty.
pub fn format_indicator(
    weather_conditions: &Json,
    area: &Json,
    expression: String,
    weather_icon: &str,
) -> (s: String)
    ensures
        s@ == rendered(expression@, weather_conditions@, area@, weather_icon@),
{
    if !weather_conditions.is_object() || !area.is_object() {
        return String::new();
    }
    let template = to_chars(expression.as_str());
    let ghost whole = rendered_from(template@, 0, weather_conditions@, area@, weather_icon@);
    let mut out: Vec<char> = Vec::new();
    let mut at: usize = 0;
    assert(out@ + whole =~= whole);
    while at < template.len()
        invariant
            at <= template.len(),
            template@ == expression@,
            whole == rendered_from(template@, 0, weather_conditions@, area@, weather_icon@),
            out@ + rendered_from(template@, at as int, weather_conditions@, area@, weather_icon@)
                == whole,
        decreases template.len() - at,
    {
        let ghost before = out@;
        let ghost rest = rendered_from(
            template@,
            at as int,
            weather_conditions@,
            area@,
            weather_icon@,
        );
        let close = if template[at] == '{' {
            find_brace(&template, at + 1)
        } else {
            template.len()
        };
        if close < template.len() && template[close] == '}' {
            assert(placeholder_end(template@, at as int) == Some(close as int));
            let mut name: Vec<char> = Vec::new();
            let mut k: usize = at + 1;
            while k < close
                invariant
                    at + 1 <= k <= close,
                    close < template.len(),
                    name@ == template@.subrange(at + 1, k as int),
                decreases close - k,
            {
                name.push(template[k]);
                k += 1;
            }
            replace(weather_conditions, area, weather_icon, &name, &mut out);
            proof {
                let next = rendered_from(
                    template@,
                    close + 1,
                    weather_conditions@,
                    area@,
                    weather_icon@,
                );
                let shown = replacement(weather_conditions@, area@, weather_icon@, name@);
                assert(rest == shown + next);
                assert(out@ + next =~= before + (shown + next));
            }
            at = close + 1;
        } else {
            assert(placeholder_end(template@, at as int) is None);
            out.push(template[at]);
            proof {
                let next = rendered_from(
                    template@,
                    at + 1,
                    weather_conditions@,
                    area@,
                    weather_icon@,
                );
                assert(rest == seq![template@[at as int]] + next);
                assert(out@ + next =~= before + (seq![template@[at as int]] + next));
            }
            at += 1;
        }
    }
    assert(out@ + Seq::<char>::empty() =~= out@);
    from_chars(&out)
}

} // verus!
