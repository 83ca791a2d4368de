//! Text primitives shared by the formatters: conversion between strings and
//! character vectors, decimal numbers, and padding.

use vstd::prelude::*;

verus! {

/// `String::push` of std: the string grows by exactly the given character.
#[verifier::external_body]
pub(crate) fn push_char(s: &mut String, c: char)
    ensures
        final(s)@ == old(s)@.push(c),
{
    s.push(c)
}

/// The characters of `s`, in order.
pub fn to_chars(s: &str) -> (v: Vec<char>)
    ensures
        v@ == s@,
{
    let mut v: Vec<char> = Vec::new();
    for c in it: s.chars()
        invariant
            v@ == it.seq().take(it.index() as int),
            it.seq() == s@,
    {
        v.push(c);
    }
    v
}

/// The string made of the characters of `v`, in order.
pub fn from_chars(v: &Vec<char>) -> (s: String)
    ensures
        s@ == v@,
{
    let mut s = String::new();
    let mut i: usize = 0;
    while i < v.len()
        invariant
            i <= v.len(),
            s@ == v@.take(i as int),
        decreases v.len() - i,
    {
        push_char(&mut s, v[i]);
        i += 1;
        assert(v@.take(i as int) == v@.take(i - 1).push(v@[i - 1]));
    }
    assert(v@.take(v.len() as int) == v@);
    s
}

/// Whether two character sequences are the same.
pub fn same_chars(a: &Vec<char>, b: &Vec<char>) -> (r: bool)
    ensures
        r == (a@ == b@),
{
    if a.len() != b.len() {
        return false;
    }
    let mut i: usize = 0;
    while i < a.len()
        invariant
            i <= a.len(),
            a.len() == b.len(),
            forall|j: int| 0 <= j < i ==> a@[j] == b@[j],
        decreases a.len() - i,
    {
        if a[i] != b[i] {
            return false;
        }
        i += 1;
    }
    assert(a@ =~= b@);
    true
}

/// Whether two strings hold the same text.
pub fn same_text(a: &str, b: &str) -> (r: bool)
    ensures
        r == (a@ == b@),
{
    let x = to_chars(a);
    let y = to_chars(b);
    same_chars(&x, &y)
}

/// An ASCII decimal digit.
pub open spec fn is_digit(c: char) -> bool {
    '0' <= c && c <= '9'
}

/// The number a decimal digit stands for.
pub open spec fn digit_value(c: char) -> nat {
    (c as int - '0' as int) as nat
}

/// The character that writes a number below ten.
pub open spec fn digit_char(d: nat) -> char {
    (d + '0' as nat) as char
}

/// Whether every character of a text is a decimal digit.
pub open spec fn all_digits(s: Seq<char>) -> bool {
    forall|i: int| 0 <= i < s.len() ==> is_digit(#[trigger] s[i])
}

/// The number that a run of decimal digits writes, most significant first.
pub open spec fn digits_value(s: Seq<char>) -> nat
    decreases s.len(),
{
    if s.len() == 0 {
        0
    } else {
        digits_value(s.drop_last()) * 10 + digit_value(s.last())
    }
}

/// The digits of an unsigned number text: the text itself, without the one
/// plus sign that may lead it.
pub open spec fn unsigned_digits(s: Seq<char>) -> Seq<char> {
    if s.len() > 0 && s[0] == '+' {
        s.skip(1)
    } else {
        s
    }
}

/// What a text reads as an unsigned 32-bit number: an optional plus sign and
/// then one or more decimal digits whose value fits; `None` for anything else.
pub open spec fn unsigned_value(s: Seq<char>) -> Option<nat> {
    let body = unsigned_digits(s);
    if body.len() > 0 && all_digits(body) && digits_value(body) <= u32::MAX {
        Some(digits_value(body))
    } else {
        None
    }
}

/// A run of digits is worth at least as much as any run it starts with.
pub proof fn lemma_digits_value_grows(s: Seq<char>, n: int)
    requires
        0 <= n <= s.len(),
    ensures
        digits_value(s.take(n)) <= digits_value(s),
    decreases s.len(),
{
    if n == s.len() {
        assert(s.take(n) == s);
    } else {
        lemma_digits_value_grows(s.drop_last(), n);
        assert(s.drop_last().take(n) == s.take(n));
    }
}

/// The number that a character stands for, if it is a decimal digit.
pub fn digit_of(c: char) -> (r: Option<u32>)
    ensures
        r is Some == is_digit(c),
        r matches Some(d) ==> d == digit_value(c) && d < 10,
{
    if '0' <= c && c <= '9' {
        Some(c as u32 - '0' as u32)
    } else {
        None
    }
}

/// Reads an unsigned number.
pub fn parse_unsigned(text: &str) -> (r: Option<u32>)
    ensures
        match unsigned_value(text@) {
            Some(n) => r == Some(n as u32),
            None => r is None,
        },
{
    let chars = to_chars(text);
    let start: usize = if chars.len() > 0 && chars[0] == '+' {
        1
    } else {
        0
    };
    let ghost body = unsigned_digits(text@);
    assert(body == chars@.skip(start as int));
    if start == chars.len() {
        return None;
    }
    let mut value: u32 = 0;
    let mut i: usize = start;
    while i < chars.len()
        invariant
            start <= i <= chars.len(),
            body == unsigned_digits(text@),
            body == chars@.skip(start as int),
            all_digits(body.take(i - start)),
            value == digits_value(body.take(i - start)),
        decreases chars.len() - i,
    {
        let ghost seen = body.take(i - start);
        let ghost next = body.take(i + 1 - start);
        proof {
            assert(next.drop_last() == seen);
            assert(next.last() == chars@[i as int]);
        }
        match digit_of(chars[i]) {
            None => {
                assert(!is_digit(body[i - start]));
                return None;
            },
            Some(d) => {
                let scaled = match value.checked_mul(10) {
                    Some(x) => x,
                    None => {
                        proof {
                            lemma_digits_value_grows(body, i + 1 - start);
                        }
                        return None;
                    },
                };
                value = match scaled.checked_add(d) {
                    Some(x) => x,
                    None => {
                        proof {
                            lemma_digits_value_grows(body, i + 1 - start);
                        }
                        return None;
                    },
                };
                assert forall|j: int| 0 <= j < next.len() implies is_digit(#[trigger] next[j]) by {
                    if j < seen.len() {
                        assert(next[j] == seen[j]);
                    }
                }
            },
        }
        i += 1;
    }
    assert(body.take(i - start) == body);
    Some(value)
}

/// The decimal digits of a number, most significant first, without leading
/// zeros; zero is written "0".
pub open spec fn decimal_digits(n: nat) -> Seq<char>
    decreases n,
{
    if n < 10 {
        seq![digit_char(n)]
    } else {
        decimal_digits(n / 10).push(digit_char(n % 10))
    }
}

/// A number that is written in decimal and read again is the same number:
/// the digits are digits, there is at least one, and they are worth the
/// number.
pub proof fn lemma_decimal_digits_read_back(n: nat)
    ensures
        decimal_digits(n).len() > 0,
        all_digits(decimal_digits(n)),
        digits_value(decimal_digits(n)) == n,
        n <= u32::MAX ==> unsigned_value(decimal_digits(n)) == Some(n),
    decreases n,
{
    let written = decimal_digits(n);
    if n < 10 {
        assert(written.drop_last() =~= Seq::<char>::empty());
        assert(digits_value(written.drop_last()) == 0);
        assert(digit_value(digit_char(n)) == n);
    } else {
        lemma_decimal_digits_read_back(n / 10);
        let shorter = decimal_digits(n / 10);
        assert(written.drop_last() =~= shorter);
        assert(digit_value(digit_char(n % 10)) == n % 10);
        assert forall|i: int| 0 <= i < written.len() implies is_digit(#[trigger] written[i]) by {
            if i < shorter.len() {
                assert(written[i] == shorter[i]);
            }
        }
    }
    assert(is_digit(written[0]));
    assert(unsigned_digits(written) == written);
}

/// Writes a number in decimal.
pub fn decimal_text(n: u32) -> (s: String)
    ensures
        s@ == decimal_digits(n as nat),
{
    // Digits come out least significant first; they are written back in reverse.
    let mut reversed: Vec<char> = Vec::new();
    let mut rest: u32 = n;
    while rest >= 10
        invariant
            decimal_digits(n as nat) == decimal_digits(rest as nat) + reversed@.reverse(),
        decreases rest,
    {
        let d: u8 = (rest % 10) as u8;
        let c: char = (48u8 + d) as char;
        assert(c == digit_char((rest % 10) as nat));
        proof {
            let before = reversed@;
            let after = before.push(c);
            assert(after.reverse() == seq![c] + before.reverse());
            assert(decimal_digits(rest as nat) == decimal_digits((rest / 10) as nat).push(c));
            assert(decimal_digits((rest / 10) as nat).push(c) + before.reverse()
                == decimal_digits((rest / 10) as nat) + after.reverse());
        }
        reversed.push(c);
        rest = rest / 10;
    }
    let d: u8 = rest as u8;
    let c: char = (48u8 + d) as char;
    assert(c == digit_char(rest as nat));
    let mut out: Vec<char> = Vec::new();
    out.push(c);
    let mut k: usize = reversed.len();
    while k > 0
        invariant
            k <= reversed.len(),
            out@ == seq![c] + reversed@.reverse().take(reversed.len() - k),
        decreases k,
    {
        k -= 1;
        out.push(reversed[k]);
        proof {
            let r = reversed@.reverse();
            let m = reversed.len() - k;
            assert(r.take(m) == r.take(m - 1).push(r[m - 1]));
            assert(r[m - 1] == reversed@[k as int]);
        }
    }
    assert(reversed@.reverse().take(reversed.len() as int) == reversed@.reverse());
    from_chars(&out)
}

/// The number below one hundred written with exactly two digits.
pub open spec fn two_digits(n: nat) -> Seq<char> {
    seq![digit_char(n / 10), digit_char(n % 10)]
}

/// Writes a number below one hundred with exactly two digits.
pub(crate) fn two_digit_text(n: u8) -> (s: String)
    requires
        n < 100,
    ensures
        s@ == two_digits(n as nat),
{
    let tens: char = (48u8 + n / 10) as char;
    let ones: char = (48u8 + n % 10) as char;
    let mut s = String::new();
    push_char(&mut s, tens);
    push_char(&mut s, ones);
    assert(s@ =~= two_digits(n as nat));
    s
}

/// `count` spaces.
pub open spec fn spaces(count: nat) -> Seq<char> {
    Seq::new(count, |i: int| ' ')
}

/// `text` moved to the right edge of a column `width` characters wide; a
/// text that is wider than the column stays as it is.
pub open spec fn right_aligned(text: Seq<char>, width: nat) -> Seq<char> {
    if text.len() < width {
        spaces((width - text.len()) as nat) + text
    } else {
        text
    }
}

/// `text` at the left edge of a column `width` characters wide; a text that
/// is wider than the column stays as it is.
pub open spec fn left_aligned(text: Seq<char>, width: nat) -> Seq<char> {
    if text.len() < width {
        text + spaces((width - text.len()) as nat)
    } else {
        text
    }
}

fn push_spaces(out: &mut String, count: usize)
    ensures
        final(out)@ == old(out)@ + spaces(count as nat),
{
    let mut i: usize = 0;
    while i < count
        invariant
            i <= count,
            out@ == old(out)@ + spaces(i as nat),
        decreases count - i,
    {
        push_char(out, ' ');
        i += 1;
        assert(spaces(i as nat) == spaces((i - 1) as nat).push(' '));
    }
}

/// Pads on the left with spaces up to `width` characters.
pub fn align_right(text: &str, width: usize) -> (s: String)
    ensures
        s@ == right_aligned(text@, width as nat),
{
    let len = text.unicode_len();
    let mut s = String::new();
    if len < width {
        push_spaces(&mut s, width - len);
    }
    s.append(text);
    s
}

/// Pads on the right with spaces up to `width` characters.
pub fn align_left(text: &str, width: usize) -> (s: String)
    ensures
        s@ == left_aligned(text@, width as nat),
{
    let len = text.unicode_len();
    let mut s = String::new();
    s.append(text);
    if len < width {
        push_spaces(&mut s, width - len);
    }
    s
}

} // verus!
