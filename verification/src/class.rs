//! The class of an output: a name for the weather, made from its
//! description, by which the status bar can be styled.

use vstd::prelude::*;
use crate::text::{from_chars, to_chars};

verus! {

/// A character of white space, as Unicode lists them.
pub open spec fn is_space(c: char) -> bool {
    let n = c as u32;
    ||| 0x09 <= n <= 0x0d
    ||| n == 0x20
    ||| n == 0x85
    ||| n == 0xa0
    ||| n == 0x1680
    ||| 0x2000 <= n <= 0x200a
    ||| n == 0x2028
    ||| n == 0x2029
    ||| n == 0x202f
    ||| n == 0x205f
    ||| n == 0x3000
}

/// Where the first comma at or after `from` stands in `text`; the length of
/// `text` where there is none.
pub open spec fn clause_end(text: Seq<char>, from: int) -> int
    decreases text.len() - from,
{
    if from < 0 || from >= text.len() {
        text.len() as int
    } else if text[from] == ',' {
        from
    } else {
        clause_end(text, from + 1)
    }
}

/// Where the first character at or after `from` stands that is no white
/// space; the length of `text` where there is none.
pub open spec fn content_start(text: Seq<char>, from: int) -> int
    decreases text.len() - from,
{
    if from < 0 || from >= text.len() {
        text.len() as int
    } else if !is_space(text[from]) {
        from
    } else {
        content_start(text, from + 1)
    }
}

/// Where the white space begins with which the first `to` characters of
/// `text` end.
pub open spec fn content_end(text: Seq<char>, to: int) -> int
    decreases to,
{
    if to <= 0 || to > text.len() {
        0
    } else if !is_space(text[to - 1]) {
        to
    } else {
        content_end(text, to - 1)
    }
}

/// `text` without the white space at its two ends.
pub open spec fn trimmed(text: Seq<char>) -> Seq<char> {
    let start = content_start(text, 0);
    let end = content_end(text, text.len() as int);
    if start < end {
        text.subrange(start, end)
    } else {
        Seq::empty()
    }
}

/// The class that a description in small letters gives: its first clause,
/// which ends before the first comma, without the white space at its two
/// ends and with a low line for each character of white space within.
pub open spec fn slug_of(lowered: Seq<char>) -> Seq<char> {
    trimmed(lowered.take(clause_end(lowered, 0))).map_values(
        |c: char|
            if is_space(c) {
                '_'
            } else {
                c
            },
    )
}

/// The text in small letters, as `str::to_lowercase` of std gives it.
pub uninterp spec fn lowercased(text: Seq<char>) -> Seq<char>;

/// `str::to_lowercase` of std: the text with each letter as a small letter.
/// The result is a function of the text alone, which `lowercased` names.
#[verifier::external_body]
fn lowercase(text: &str) -> (s: String)
    ensures
        s@ == lowercased(text@),
{
    text.to_lowercase()
}

/// Whether a character is white space.
pub fn is_whitespace(c: char) -> (r: bool)
    ensures
        r == is_space(c),
{
    let n = c as u32;
    (0x09 <= n && n <= 0x0d) || n == 0x20 || n == 0x85 || n == 0xa0 || n == 0x1680 || (0x2000 <= n
        && n <= 0x200a) || n == 0x2028 || n == 0x2029 || n == 0x202f || n == 0x205f || n == 0x3000
}

/// The class that a description in small letters gives.
pub fn slug(lowered: &str) -> (s: String)
    ensures
        s@ == slug_of(lowered@),
{
    let chars = to_chars(lowered);
    let mut comma: usize = 0;
    while comma < chars.len() && chars[comma] != ','
        invariant
            comma <= chars.len(),
            clause_end(chars@, 0) == clause_end(chars@, comma as int),
        decreases chars.len() - comma,
    {
        comma += 1;
    }
    let ghost clause = chars@.take(comma as int);
    let mut start: usize = 0;
    while start < comma && is_whitespace(chars[start])
        invariant
            start <= comma <= chars.len(),
            clause == chars@.take(comma as int),
            content_start(clause, 0) == content_start(clause, start as int),
        decreases comma - start,
    {
        start += 1;
    }
    let mut end: usize = comma;
    while end > 0 && is_whitespace(chars[end - 1])
        invariant
            end <= comma <= chars.len(),
            clause == chars@.take(comma as int),
            content_end(clause, clause.len() as int) == content_end(clause, end as int),
        decreases end,
    {
        end -= 1;
    }
    let ghost kept = trimmed(clause);
    let ghost low_line = |c: char|
        if is_space(c) {
            '_'
        } else {
            c
        };
    let mut out: Vec<char> = Vec::new();
    if start < end {
        let mut i: usize = start;
        while i < end
            invariant
                start <= i <= end <= comma <= chars.len(),
                clause == chars@.take(comma as int),
                kept == clause.subrange(start as int, end as int),
                low_line == (|c: char|
                    if is_space(c) {
                        '_'
                    } else {
                        c
                    }),
                out@ == kept.take(i - start).map_values(low_line),
            decreases end - i,
        {
            let c = chars[i];
            let shown = if is_whitespace(c) {
                '_'
            } else {
                c
            };
            out.push(shown);
            proof {
                let before = kept.take(i - start);
                let after = kept.take(i + 1 - start);
                assert(after =~= before.push(c));
                assert(after.map_values(low_line) =~= before.map_values(low_line).push(shown));
            }
            i += 1;
        }
        assert(kept.take(end - start) == kept);
    } else {
        assert(out@ =~= kept.map_values(low_line));
    }
    from_chars(&out)
}

/// No comma stands before the end of the first clause.
proof fn lemma_clause_has_no_comma(text: Seq<char>, from: int)
    requires
        0 <= from <= text.len(),
    ensures
        from <= clause_end(text, from) <= text.len(),
        forall|k: int| from <= k < clause_end(text, from) ==> text[k] != ',',
    decreases text.len() - from,
{
    if from < text.len() && text[from] != ',' {
        lemma_clause_has_no_comma(text, from + 1);
    }
}

/// The text without the white space before it begins within the text.
proof fn lemma_content_start_bounds(text: Seq<char>, from: int)
    requires
        0 <= from <= text.len(),
    ensures
        from <= content_start(text, from) <= text.len(),
    decreases text.len() - from,
{
    if from < text.len() && is_space(text[from]) {
        lemma_content_start_bounds(text, from + 1);
    }
}

/// The text without the white space behind it ends within the text.
proof fn lemma_content_end_bounds(text: Seq<char>, to: int)
    requires
        0 <= to <= text.len(),
    ensures
        0 <= content_end(text, to) <= to,
    decreases to,
{
    if to > 0 && is_space(text[to - 1]) {
        lemma_content_end_bounds(text, to - 1);
    }
}

/// A class holds no white space and no comma, whatever it is made from.
pub proof fn lemma_class_is_one_word(lowered: Seq<char>)
    ensures
        forall|i: int|
            0 <= i < slug_of(lowered).len() ==> !is_space(#[trigger] slug_of(lowered)[i])
                && slug_of(lowered)[i] != ',',
{
    lemma_clause_has_no_comma(lowered, 0);
    let clause = lowered.take(clause_end(lowered, 0));
    lemma_content_start_bounds(clause, 0);
    lemma_content_end_bounds(clause, clause.len() as int);
    let kept = trimmed(clause);
    let class = slug_of(lowered);
    assert forall|i: int| 0 <= i < class.len() implies !is_space(#[trigger] class[i]) && class[i]
        != ',' by {
        let start = content_start(clause, 0);
        assert(kept[i] == clause[start + i]);
        assert(clause[start + i] == lowered[start + i]);
    }
}

/// The class that a description of the weather gives: the description in
/// small letters, cut and cleaned as `slug_of` says.
pub open spec fn class_text(description: Seq<char>) -> Seq<char> {
    slug_of(lowercased(description))
}

/// The class that a description of the weather gives.
pub fn css_class(description: &str) -> (s: String)
    ensures
        s@ == class_text(description@),
{
    let lowered = lowercase(description);
    slug(lowered.as_str())
}

} // verus!
