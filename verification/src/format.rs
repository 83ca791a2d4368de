//! The formatters of single values: a temperature in its column, the hour
//! of a forecast line, and the likelihoods of an hour in words.

use vstd::prelude::*;
use crate::clock::{
    hour_on_dial, optional_string, optional_time, parse_astronomy_time, parse_plain_time,
    plain_hour_pattern, time_reading, twelve_hour_pattern, ClockTime,
};
use crate::payload::{optional_text, Json, Tree};
use crate::lang::Lang;
use crate::snapshot::{ChancesView, HourRecord};
use crate::text::{
    align_left, align_right, decimal_digits, decimal_text, left_aligned, parse_unsigned,
    right_aligned, two_digit_text, two_digits, unsigned_value,
};

verus! {

/// A temperature at the right edge of a column, with the degree sign after it.
pub open spec fn temperature_text(value: Seq<char>, width: nat) -> Seq<char> {
    right_aligned(value, width) + "°"@
}

/// Writes a temperature at the right edge of a column `width` characters
/// wide and puts the degree sign after it. The value is written as it is
/// given: it is already in the unit that the reader asked for.
pub fn temperature(value: &str, width: usize) -> (s: String)
    ensures
        s@ == temperature_text(value@, width as nat),
{
    let mut s = align_right(value, width);
    s.append("°");
    s
}

/// Writes the temperature of a forecast line: in a column of three
/// characters, with the degree sign after it.
pub fn format_temp(temp: &str) -> (s: String)
    ensures
        s@ == temperature_text(temp@, 3),
{
    temperature(temp, 3)
}

/// The hour of the day that an hour code stands for. An hour code is the
/// hour times one hundred, written as an unsigned number: "0" is midnight,
/// "300" is three o'clock. A text that is no such number, or that gives an
/// hour after 23, stands for no hour.
pub open spec fn hour_of_code(raw: Seq<char>) -> Option<nat> {
    match unsigned_value(raw) {
        Some(n) => if n / 100 < 24 {
            Some(n / 100)
        } else {
            None
        },
        None => None,
    }
}

/// How the hour of a forecast line is written. On the 12-hour clock: the
/// hour from 1 to 12 without a leading zero, then "am" or "pm", in a column
/// of four characters. On the 24-hour clock: the hour with two digits.
pub open spec fn clock_label(hour: nat, ampm: bool) -> Seq<char> {
    if ampm {
        left_aligned(
            decimal_digits(hour_on_dial(hour)) + (if hour >= 12 {
                "pm"@
            } else {
                "am"@
            }),
            4,
        )
    } else {
        two_digits(hour)
    }
}

/// Reads an hour code.
pub fn parse_hour_code(raw: &str) -> (r: Option<u8>)
    ensures
        match hour_of_code(raw@) {
            Some(h) => r == Some(h as u8) && h < 24,
            None => r is None,
        },
{
    match parse_unsigned(raw) {
        Some(n) => {
            let hour = n / 100;
            if hour < 24 {
                Some(hour as u8)
            } else {
                None
            }
        },
        None => None,
    }
}

/// Writes an hour of the day as a forecast line shows it.
pub fn clock_hour(hour: u8, ampm: bool) -> (s: String)
    requires
        hour < 24,
    ensures
        s@ == clock_label(hour as nat, ampm),
{
    if ampm {
        let on_dial: u8 = if hour % 12 == 0 {
            12
        } else {
            hour % 12
        };
        let mut label = decimal_text(on_dial as u32);
        if hour >= 12 {
            label.append("pm");
        } else {
            label.append("am");
        }
        align_left(label.as_str(), 4)
    } else {
        two_digit_text(hour)
    }
}

/// How the hour that an hour code stands for is written; `None` where the
/// code stands for no hour.
pub open spec fn hour_label(raw: Seq<char>, ampm: bool) -> Option<Seq<char>> {
    match hour_of_code(raw) {
        Some(hour) => Some(clock_label(hour, ampm)),
        None => None,
    }
}

/// Writes the hour that an hour code stands for, or nothing where the code
/// stands for no hour.
pub fn format_time(time: &str, ampm: bool) -> (r: Option<String>)
    ensures
        optional_string(r) == hour_label(time@, ampm),
{
    match parse_hour_code(time) {
        Some(hour) => Some(clock_hour(hour, ampm)),
        None => None,
    }
}

/// One likelihood that is worth a clause: the name of the event and the
/// percentage.
struct Clause {
    label: String,
    value: u32,
}

impl View for Clause {
    type V = (Seq<char>, nat);

    closed spec fn view(&self) -> (Seq<char>, nat) {
        (self.label@, self.value as nat)
    }
}

/// Names and percentages of a list of clauses.
spec fn pairs(clauses: Seq<Clause>) -> Seq<(Seq<char>, nat)> {
    clauses.map_values(|c: Clause| c@)
}

/// The percentage that a field of the payload gives, where it is worth a
/// clause: the field is there, reads as an unsigned number, and is not zero.
pub open spec fn chance_value(raw: Option<Seq<char>>) -> Option<nat> {
    match raw {
        Some(s) => match unsigned_value(s) {
            Some(n) => if n > 0 {
                Some(n)
            } else {
                None
            },
            None => None,
        },
        None => None,
    }
}

/// A clause takes its place in a list that is in falling order of
/// percentage: behind every clause that is worth as much or more, before
/// the others.
pub open spec fn insert_ranked(ranked: Seq<(Seq<char>, nat)>, clause: (Seq<char>, nat)) -> Seq<
    (Seq<char>, nat),
>
    decreases ranked.len(),
{
    if ranked.len() == 0 {
        seq![clause]
    } else if ranked.last().1 >= clause.1 {
        ranked.push(clause)
    } else {
        insert_ranked(ranked.drop_last(), clause).push(ranked.last())
    }
}

/// A field of the payload is taken into the list if it is worth a clause.
pub open spec fn with_chance(
    ranked: Seq<(Seq<char>, nat)>,
    label: Seq<char>,
    raw: Option<Seq<char>>,
) -> Seq<(Seq<char>, nat)> {
    match chance_value(raw) {
        Some(n) => insert_ranked(ranked, (label, n)),
        None => ranked,
    }
}

/// The clauses of an hour in the order in which they are shown. The eight
/// events are taken in their fixed order: fog, frost, overcast, rain, snow,
/// sunshine, thunder, wind. The list is in falling order of percentage, and
/// of two events with the same percentage the one that is earlier in the
/// fixed order comes first.
pub open spec fn ranked_chances(chances: ChancesView, lang: Lang) -> Seq<(Seq<char>, nat)> {
    let r0 = Seq::<(Seq<char>, nat)>::empty();
    let r1 = with_chance(r0, lang.fog_label(), chances.fog);
    let r2 = with_chance(r1, lang.frost_label(), chances.frost);
    let r3 = with_chance(r2, lang.overcast_label(), chances.overcast);
    let r4 = with_chance(r3, lang.rain_label(), chances.rain);
    let r5 = with_chance(r4, lang.snow_label(), chances.snow);
    let r6 = with_chance(r5, lang.sunshine_label(), chances.sunshine);
    let r7 = with_chance(r6, lang.thunder_label(), chances.thunder);
    with_chance(r7, lang.wind_label(), chances.windy)
}

/// One clause in words: the name, a space, the percentage and "%".
pub open spec fn clause_text(clause: (Seq<char>, nat)) -> Seq<char> {
    clause.0 + " "@ + decimal_digits(clause.1) + "%"@
}

/// The clauses in words, with ", " between one and the next.
pub open spec fn joined(clauses: Seq<(Seq<char>, nat)>) -> Seq<char>
    decreases clauses.len(),
{
    if clauses.len() == 0 {
        Seq::empty()
    } else if clauses.len() == 1 {
        clause_text(clauses[0])
    } else {
        joined(clauses.drop_last()) + ", "@ + clause_text(clauses.last())
    }
}

/// The likelihoods of an hour in words.
pub open spec fn chances_text(chances: ChancesView, lang: Lang) -> Seq<char> {
    joined(ranked_chances(chances, lang))
}

/// Whether a list of clauses is in falling order of percentage.
pub open spec fn is_falling(clauses: Seq<(Seq<char>, nat)>) -> bool {
    forall|i: int, j: int| 0 <= i <= j < clauses.len() ==> clauses[i].1 >= clauses[j].1
}

/// Whether every clause of a list has a percentage above zero.
pub open spec fn all_above_zero(clauses: Seq<(Seq<char>, nat)>) -> bool {
    forall|i: int| 0 <= i < clauses.len() ==> (#[trigger] clauses[i]).1 > 0
}

/// Whether `at` is the place of a clause with the percentage `value` in a
/// list: every clause before it is worth as much or more, and every clause
/// from it on is worth less.
pub open spec fn is_place_of(ranked: Seq<(Seq<char>, nat)>, value: nat, at: int) -> bool {
    &&& 0 <= at <= ranked.len()
    &&& forall|k: int| 0 <= k < at ==> (#[trigger] ranked[k]).1 >= value
    &&& forall|k: int| at <= k < ranked.len() ==> (#[trigger] ranked[k]).1 < value
}

/// A clause that takes its place in a list goes to the place of its
/// percentage, and the other clauses keep their order.
pub proof fn lemma_insert_ranked_at(
    ranked: Seq<(Seq<char>, nat)>,
    clause: (Seq<char>, nat),
    at: int,
)
    requires
        is_place_of(ranked, clause.1, at),
    ensures
        insert_ranked(ranked, clause) == ranked.insert(at, clause),
    decreases ranked.len() - at,
{
    if ranked.len() == 0 {
        assert(ranked.insert(at, clause) =~= seq![clause]);
    } else if at == ranked.len() {
        assert(ranked[at - 1].1 >= clause.1);
        assert(ranked.insert(at, clause) =~= ranked.push(clause));
    } else {
        assert(ranked[ranked.len() - 1].1 < clause.1);
        let shorter = ranked.drop_last();
        assert forall|k: int| at <= k < shorter.len() implies (#[trigger] shorter[k]).1
            < clause.1 by {
            assert(shorter[k] == ranked[k]);
        }
        assert forall|k: int| 0 <= k < at implies (#[trigger] shorter[k]).1 >= clause.1 by {
            assert(shorter[k] == ranked[k]);
        }
        lemma_insert_ranked_at(shorter, clause, at);
        assert(shorter.insert(at, clause).push(ranked.last()) =~= ranked.insert(at, clause));
    }
}

/// In a list in falling order every percentage has a place. So a clause
/// that is taken into such a list comes behind all that are worth as much
/// or more, the clauses of equal worth that were there before it among
/// them, and before all that are worth less.
pub proof fn lemma_place_in_falling_list(ranked: Seq<(Seq<char>, nat)>, value: nat) -> (at: int)
    requires
        is_falling(ranked),
    ensures
        is_place_of(ranked, value, at),
    decreases ranked.len(),
{
    if ranked.len() == 0 {
        0
    } else if ranked.last().1 >= value {
        assert forall|k: int| 0 <= k < ranked.len() implies (#[trigger] ranked[k]).1 >= value by {
            assert(ranked[k].1 >= ranked[ranked.len() - 1].1);
        }
        ranked.len() as int
    } else {
        let shorter = ranked.drop_last();
        assert forall|i: int, j: int| 0 <= i <= j < shorter.len() implies shorter[i].1
            >= shorter[j].1 by {
            assert(shorter[i] == ranked[i] && shorter[j] == ranked[j]);
        }
        let at = lemma_place_in_falling_list(shorter, value);
        assert forall|k: int| 0 <= k < at implies (#[trigger] ranked[k]).1 >= value by {
            assert(shorter[k] == ranked[k]);
        }
        assert forall|k: int| at <= k < ranked.len() implies (#[trigger] ranked[k]).1 < value by {
            if k < shorter.len() {
                assert(shorter[k] == ranked[k]);
            }
        }
        at
    }
}

/// A list in falling order of percentage stays in falling order when a
/// clause takes its place in it; the list then holds that clause once more
/// than before, and every other clause as often as before.
pub proof fn lemma_insert_ranked_keeps_order(
    ranked: Seq<(Seq<char>, nat)>,
    clause: (Seq<char>, nat),
)
    requires
        is_falling(ranked),
    ensures
        is_falling(insert_ranked(ranked, clause)),
        insert_ranked(ranked, clause).len() == ranked.len() + 1,
        insert_ranked(ranked, clause).to_multiset() == ranked.to_multiset().insert(clause),
    decreases ranked.len(),
{
    broadcast use vstd::seq_lib::group_to_multiset_ensures;

    let after = insert_ranked(ranked, clause);
    if ranked.len() == 0 {
        assert(after =~= Seq::<(Seq<char>, nat)>::empty().push(clause));
    } else if ranked.last().1 >= clause.1 {
    } else {
        let shorter = ranked.drop_last();
        assert forall|i: int, j: int| 0 <= i <= j < shorter.len() implies shorter[i].1
            >= shorter[j].1 by {
            assert(shorter[i] == ranked[i] && shorter[j] == ranked[j]);
        }
        lemma_insert_ranked_keeps_order(shorter, clause);
        let inner = insert_ranked(shorter, clause);
        assert(ranked =~= shorter.push(ranked.last()));
        assert forall|i: int, j: int| 0 <= i <= j < after.len() implies after[i].1
            >= after[j].1 by {
            if j < inner.len() {
                assert(after[i] == inner[i] && after[j] == inner[j]);
            } else if i < inner.len() {
                // Every clause of `inner` is the new one or one of `shorter`,
                // and each of those is worth at least as much as the last.
                assert(inner.to_multiset().count(inner[i]) > 0);
                if inner[i] != clause {
                    assert(shorter.to_multiset().count(inner[i]) > 0);
                    let k = choose|k: int| 0 <= k < shorter.len() && shorter[k] == inner[i];
                    assert(ranked[k] == inner[i]);
                    assert(ranked[k].1 >= ranked[ranked.len() - 1].1);
                }
            }
        }
    }
}

/// Taking a field into a list keeps the list in falling order and keeps
/// zero out of it, and makes it longer by one clause at most.
proof fn lemma_with_chance_keeps_order(
    ranked: Seq<(Seq<char>, nat)>,
    label: Seq<char>,
    raw: Option<Seq<char>>,
)
    requires
        is_falling(ranked),
        all_above_zero(ranked),
    ensures
        is_falling(with_chance(ranked, label, raw)),
        all_above_zero(with_chance(ranked, label, raw)),
        with_chance(ranked, label, raw).len() <= ranked.len() + 1,
{
    broadcast use vstd::seq_lib::group_to_multiset_ensures;

    match chance_value(raw) {
        Some(n) => {
            let clause = (label, n);
            let after = insert_ranked(ranked, clause);
            lemma_insert_ranked_keeps_order(ranked, clause);
            assert forall|i: int| 0 <= i < after.len() implies (#[trigger] after[i]).1 > 0 by {
                assert(after.to_multiset().count(after[i]) > 0);
                if after[i] != clause {
                    assert(ranked.to_multiset().count(after[i]) > 0);
                    let k = choose|k: int| 0 <= k < ranked.len() && ranked[k] == after[i];
                    assert(ranked[k].1 > 0);
                }
            }
        },
        None => {},
    }
}

/// The clauses of an hour stand in falling order of percentage, none of
/// them has the percentage zero, and there are eight of them at most.
pub proof fn lemma_ranked_chances_fall(chances: ChancesView, lang: Lang)
    ensures
        is_falling(ranked_chances(chances, lang)),
        all_above_zero(ranked_chances(chances, lang)),
        ranked_chances(chances, lang).len() <= 8,
{
    let r0 = Seq::<(Seq<char>, nat)>::empty();
    let r1 = with_chance(r0, lang.fog_label(), chances.fog);
    let r2 = with_chance(r1, lang.frost_label(), chances.frost);
    let r3 = with_chance(r2, lang.overcast_label(), chances.overcast);
    let r4 = with_chance(r3, lang.rain_label(), chances.rain);
    let r5 = with_chance(r4, lang.snow_label(), chances.snow);
    let r6 = with_chance(r5, lang.sunshine_label(), chances.sunshine);
    let r7 = with_chance(r6, lang.thunder_label(), chances.thunder);
    lemma_with_chance_keeps_order(r0, lang.fog_label(), chances.fog);
    lemma_with_chance_keeps_order(r1, lang.frost_label(), chances.frost);
    lemma_with_chance_keeps_order(r2, lang.overcast_label(), chances.overcast);
    lemma_with_chance_keeps_order(r3, lang.rain_label(), chances.rain);
    lemma_with_chance_keeps_order(r4, lang.snow_label(), chances.snow);
    lemma_with_chance_keeps_order(r5, lang.sunshine_label(), chances.sunshine);
    lemma_with_chance_keeps_order(r6, lang.thunder_label(), chances.thunder);
    lemma_with_chance_keeps_order(r7, lang.wind_label(), chances.windy);
}

/// An hour none of whose events is worth a clause has an empty summary.
pub proof fn lemma_no_chances_no_text(chances: ChancesView, lang: Lang)
    requires
        chance_value(chances.fog) is None,
        chance_value(chances.frost) is None,
        chance_value(chances.overcast) is None,
        chance_value(chances.rain) is None,
        chance_value(chances.snow) is None,
        chance_value(chances.sunshine) is None,
        chance_value(chances.thunder) is None,
        chance_value(chances.windy) is None,
    ensures
        chances_text(chances, lang) == Seq::<char>::empty(),
{
}

/// Takes a field of the payload into the list if it is worth a clause.
fn consider(ranked: &mut Vec<Clause>, label: String, raw: Option<&str>)
    requires
        is_falling(pairs(old(ranked)@)),
    ensures
        pairs(final(ranked)@) == with_chance(pairs(old(ranked)@), label@, optional_text(raw)),
        is_falling(pairs(final(ranked)@)),
{
    let value = match raw {
        Some(s) => match parse_unsigned(s) {
            Some(n) => n,
            None => 0,
        },
        None => 0,
    };
    if value == 0 {
        return ;
    }
    let ghost before = pairs(ranked@);
    let ghost clause = (label@, value as nat);
    let mut at: usize = ranked.len();
    while at > 0 && ranked[at - 1].value < value
        invariant
            at <= ranked.len(),
            before == pairs(ranked@),
            clause.1 == value,
            forall|k: int| at <= k < ranked.len() ==> (#[trigger] before[k]).1 < clause.1,
        decreases at,
    {
        at -= 1;
    }
    proof {
        assert forall|k: int| 0 <= k < at implies (#[trigger] before[k]).1 >= clause.1 by {
            assert(before[at - 1] == ranked@[at - 1]@);
            assert(before[k].1 >= before[at - 1].1);
        }
        lemma_insert_ranked_at(before, clause, at as int);
        lemma_insert_ranked_keeps_order(before, clause);
    }
    ranked.insert(at, Clause { label, value });
    assert(pairs(ranked@) =~= before.insert(at as int, clause));
}

/// Writes the clauses in words, with ", " between one and the next.
fn join(clauses: &Vec<Clause>) -> (s: String)
    ensures
        s@ == joined(pairs(clauses@)),
{
    let mut s = String::new();
    let mut i: usize = 0;
    while i < clauses.len()
        invariant
            i <= clauses.len(),
            s@ == joined(pairs(clauses@).take(i as int)),
        decreases clauses.len() - i,
    {
        let ghost before = pairs(clauses@).take(i as int);
        let ghost after = pairs(clauses@).take(i + 1);
        proof {
            assert(after.drop_last() == before);
            assert(after.last() == clauses@[i as int]@);
        }
        if i > 0 {
            s.append(", ");
        }
        s.append(clauses[i].label.as_str());
        s.append(" ");
        let digits = decimal_text(clauses[i].value);
        s.append(digits.as_str());
        s.append("%");
        proof {
            let text = clause_text(after.last());
            if i == 0 {
                assert(s@ =~= text);
                assert(after[0] == after.last());
            } else {
                assert(s@ =~= joined(before) + ", "@ + text);
            }
        }
        i += 1;
    }
    assert(pairs(clauses@).take(clauses.len() as int) == pairs(clauses@));
    s
}

/// Sums up the likelihoods of an hour: for each of the eight events whose
/// percentage is a number above zero, the name of the event in the given
/// language and the percentage; the highest percentage first, and of equal
/// ones the event that is earlier in the fixed order; ", " between them.
/// The result is empty where no event is worth a clause.
pub fn format_chances(hour: &HourRecord, lang: &Lang) -> (s: String)
    ensures
        s@ == chances_text(hour@.chances, *lang),
{
    let mut ranked: Vec<Clause> = Vec::new();
    assert(pairs(ranked@) =~= Seq::<(Seq<char>, nat)>::empty());
    consider(&mut ranked, lang.fog(), hour.chances.fog);
    consider(&mut ranked, lang.frost(), hour.chances.frost);
    consider(&mut ranked, lang.overcast(), hour.chances.overcast);
    consider(&mut ranked, lang.rain(), hour.chances.rain);
    consider(&mut ranked, lang.snow(), hour.chances.snow);
    consider(&mut ranked, lang.sunshine(), hour.chances.sunshine);
    consider(&mut ranked, lang.thunder(), hour.chances.thunder);
    consider(&mut ranked, lang.wind(), hour.chances.windy);
    join(&ranked)
}

/// The time at which the hour of a forecast begins, from the field that
/// holds its hour code: the hour that the code stands for, written with
/// ":00" after it and read as a time. There is none where the field is no
/// text or no number, or where what is written does not read as a time.
pub open spec fn hour_start(field: Tree) -> Option<(nat, nat)> {
    match field.text() {
        Some(raw) => match unsigned_value(raw) {
            Some(n) => time_reading(decimal_digits(n / 100) + ":00"@, plain_hour_pattern()),
            None => None,
        },
        None => None,
    }
}

/// The time at which the hour of a forecast begins.
pub fn extract_hour_time(hour: &Json) -> (r: Option<ClockTime>)
    ensures
        optional_time(r) == hour_start(hour@),
{
    let raw = match hour.as_text() {
        Some(raw) => raw,
        None => {
            return None;
        },
    };
    match parse_unsigned(raw) {
        Some(n) => {
            let mut written = decimal_text(n / 100);
            written.append(":00");
            parse_plain_time(written.as_str())
        },
        None => None,
    }
}

/// A time of the sun on a day of the forecast: the text under the key `key`
/// in the first record of the day's astronomy, read as a time on the
/// 12-hour clock. There is none where the day has no such text, or where
/// the text does not read as a time.
pub open spec fn sun_time(day: Tree, key: Seq<char>) -> Option<(nat, nat)> {
    match day.first_at("astronomy"@) {
        Some(astronomy) => match astronomy.text_at(key) {
            Some(raw) => time_reading(raw, twelve_hour_pattern()),
            None => None,
        },
        None => None,
    }
}

/// A time of the sun on a day of the forecast; `key` is "sunrise" or
/// "sunset", or another key of the day's astronomy.
pub fn extract_day_data(day: &Json, key: &str) -> (r: Option<ClockTime>)
    ensures
        optional_time(r) == sun_time(day@, key@),
{
    match day.member_first("astronomy") {
        Some(astronomy) => match astronomy.member_text(key) {
            Some(raw) => parse_astronomy_time(raw),
            None => None,
        },
        None => None,
    }
}

} // verus!
