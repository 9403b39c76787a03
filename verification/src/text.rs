//! Operations on text: trimming, searching, escaping, and decimal numbers.

use vstd::prelude::*;
use vstd::string::StringExecFns;

verus! {

/// `String::push` appends one character.
pub assume_specification[ String::push ](text: &mut String, c: char)
    ensures
        final(text)@ == old(text)@.push(c),
;

/// The characters with the Unicode property `White_Space`.
pub open spec fn is_white_space(c: char) -> bool {
    ||| '\u{9}' <= c <= '\u{d}'
    ||| c == '\u{20}'
    ||| c == '\u{85}'
    ||| c == '\u{a0}'
    ||| c == '\u{1680}'
    ||| '\u{2000}' <= c <= '\u{200a}'
    ||| c == '\u{2028}'
    ||| c == '\u{2029}'
    ||| c == '\u{202f}'
    ||| c == '\u{205f}'
    ||| c == '\u{3000}'
}

/// `text` without its leading and trailing white space.
pub open spec fn trimmed(text: Seq<char>) -> Seq<char>
    decreases text.len(),
{
    if text.len() > 0 && is_white_space(text.first()) {
        trimmed(text.drop_first())
    } else if text.len() > 0 && is_white_space(text.last()) {
        trimmed(text.drop_last())
    } else {
        text
    }
}

/// `needle` stands somewhere in `text`.
pub open spec fn contains_text(text: Seq<char>, needle: Seq<char>) -> bool {
    exists|at: int| #[trigger] stands_at(text, needle, at)
}

/// `needle` stands in `text` from position `at` on.
pub open spec fn stands_at(text: Seq<char>, needle: Seq<char>, at: int) -> bool {
    0 <= at && at + needle.len() <= text.len() && text.subrange(at, at + needle.len()) == needle
}

/// `text` with every `quote` in it written twice.
pub open spec fn doubled(text: Seq<char>, quote: char) -> Seq<char>
    decreases text.len(),
{
    if text.len() == 0 {
        text
    } else if text.last() == quote {
        doubled(text.drop_last(), quote).push(quote).push(quote)
    } else {
        doubled(text.drop_last(), quote).push(text.last())
    }
}

/// A decimal digit.
pub open spec fn is_digit(c: char) -> bool {
    '0' <= c <= '9'
}

/// The number that a row of decimal digits writes.
pub open spec fn digits_value(digits: Seq<char>) -> nat
    decreases digits.len(),
{
    if digits.len() == 0 {
        0
    } else {
        digits_value(digits.drop_last()) * 10 + (digits.last() as nat - '0' as nat) as nat
    }
}

/// A number as its row of decimal digits, without leading zeros.
pub open spec fn digits(value: nat) -> Seq<char>
    decreases value,
{
    if value < 10 {
        seq![digit_char(value)]
    } else {
        digits(value / 10).push(digit_char(value % 10))
    }
}

/// The character of a one-digit number.
pub open spec fn digit_char(value: nat) -> char {
    ('0' as nat + value) as char
}

/// A number in decimal notation, with a minus sign where it is negative.
pub open spec fn decimal(value: int) -> Seq<char> {
    if value < 0 {
        seq!['-'] + digits((-value) as nat)
    } else {
        digits(value as nat)
    }
}

/// Every character of `text` is a decimal digit.
pub open spec fn all_digits(text: Seq<char>) -> bool {
    forall|i: int| 0 <= i < text.len() ==> is_digit(#[trigger] text[i])
}

/// `text` without the plus sign that it may begin with.
pub open spec fn without_plus(text: Seq<char>) -> Seq<char> {
    if text.len() > 0 && text[0] == '+' {
        text.skip(1)
    } else {
        text
    }
}

/// The `u32` that `text` writes: an optional plus sign, then digits and nothing else, of a value that
/// fits.
pub open spec fn parsed_u32(text: Seq<char>) -> Option<u32> {
    let row = without_plus(text);
    if row.len() > 0 && all_digits(row) && digits_value(row) <= u32::MAX {
        Some(digits_value(row) as u32)
    } else {
        None
    }
}

/// The characters of `text`, one by one.
pub(crate) fn characters(text: &str) -> (chars: Vec<char>)
    ensures
        chars@ == text@,
{
    let mut chars: Vec<char> = Vec::new();
    for c in it: text.chars()
        invariant
            chars@ == text@.take(it.index()),
            it.seq() == text@,
    {
        chars.push(c);
        assert(text@.take(it.index() + 1) == text@.take(it.index()).push(c));
    }
    assert(text@.take(text@.len() as int) == text@);
    chars
}

/// `first` followed by `second`.
pub(crate) fn joined(first: &str, second: &str) -> (text: String)
    ensures
        text@ == first@ + second@,
{
    let mut text = first.to_string();
    text.append(second);
    text
}

/// The text made of `chars[start..end]`.
fn collected(chars: &Vec<char>, start: usize, end: usize) -> (text: String)
    requires
        start <= end <= chars@.len(),
    ensures
        text@ == chars@.subrange(start as int, end as int),
{
    let mut text = String::new();
    let mut i: usize = start;
    while i < end
        invariant
            start <= i <= end <= chars@.len(),
            text@ == chars@.subrange(start as int, i as int),
        decreases end - i,
    {
        text.push(chars[i]);
        assert(chars@.subrange(start as int, i + 1) == chars@.subrange(start as int, i as int).push(
            chars@[i as int],
        ));
        i = i + 1;
    }
    text
}

fn white_space(c: char) -> (res: bool)
    ensures
        res == is_white_space(c),
{
    ('\u{9}' <= c && c <= '\u{d}') || c == '\u{20}' || c == '\u{85}' || c == '\u{a0}' || c == '\u{1680}'
        || ('\u{2000}' <= c && c <= '\u{200a}') || c == '\u{2028}' || c == '\u{2029}' || c
        == '\u{202f}' || c == '\u{205f}' || c == '\u{3000}'
}

/// `text` without leading and trailing white space.
pub fn trim(text: &str) -> (res: String)
    ensures
        res@ == trimmed(text@),
{
    let chars = characters(text);
    let mut start: usize = 0;
    assert(chars@.subrange(0, chars@.len() as int) == text@);
    while start < chars.len() && white_space(chars[start])
        invariant
            start <= chars@.len(),
            trimmed(chars@.subrange(start as int, chars@.len() as int)) == trimmed(text@),
        decreases chars@.len() - start,
    {
        assert(chars@.subrange(start as int, chars@.len() as int).drop_first() == chars@.subrange(
            start + 1,
            chars@.len() as int,
        ));
        start = start + 1;
    }
    let mut end: usize = chars.len();
    while start < end && white_space(chars[end - 1])
        invariant
            start <= end <= chars@.len(),
            start < chars@.len() ==> !is_white_space(chars@[start as int]),
            start == chars@.len() ==> start == end,
            start < chars@.len() ==> start < end,
            trimmed(chars@.subrange(start as int, end as int)) == trimmed(text@),
        decreases end - start,
    {
        assert(chars@.subrange(start as int, end as int).drop_last() == chars@.subrange(
            start as int,
            end - 1,
        ));
        end = end - 1;
    }
    collected(&chars, start, end)
}

/// Whether `a` and `b` are the same text.
pub fn same_text(a: &str, b: &str) -> (res: bool)
    ensures
        res == (a@ == b@),
{
    let left = characters(a);
    let right = characters(b);
    assert(a@.subrange(0, a@.len() as int) == a@);
    left.len() == right.len() && matches_at(&left, &right, 0)
}

/// Whether `needle` stands in `text` from position `at` on.
fn matches_at(text: &Vec<char>, needle: &Vec<char>, at: usize) -> (res: bool)
    requires
        at + needle@.len() <= text@.len(),
    ensures
        res == stands_at(text@, needle@, at as int),
{
    let length: usize = text.len();
    let mut i: usize = 0;
    while i < needle.len()
        invariant
            i <= needle@.len(),
            length == text@.len(),
            at + needle@.len() <= length,
            forall|j: int| 0 <= j < i ==> text@[at + j] == #[trigger] needle@[j],
        decreases needle@.len() - i,
    {
        if text[at + i] != needle[i] {
            assert(text@.subrange(at as int, at + needle@.len())[i as int] != needle@[i as int]);
            return false;
        }
        i = i + 1;
    }
    assert(text@.subrange(at as int, at + needle@.len()) == needle@);
    true
}

/// Whether `text` begins with `prefix`.
pub fn starts_with(text: &str, prefix: &str) -> (res: bool)
    ensures
        res == prefix@.is_prefix_of(text@),
{
    let chars = characters(text);
    let head = characters(prefix);
    head.len() <= chars.len() && matches_at(&chars, &head, 0)
}

/// Whether `needle` stands somewhere in `text`.
pub fn contains(text: &str, needle: &str) -> (res: bool)
    ensures
        res == contains_text(text@, needle@),
{
    let chars = characters(text);
    let sought = characters(needle);
    if sought.len() > chars.len() {
        return false;
    }
    let last: usize = chars.len() - sought.len();
    let mut at: usize = 0;
    while at < last
        invariant
            chars@ == text@,
            sought@ == needle@,
            at <= last,
            last + needle@.len() == text@.len(),
            forall|i: int| 0 <= i < at ==> !#[trigger] stands_at(text@, needle@, i),
        decreases last - at,
    {
        if matches_at(&chars, &sought, at) {
            return true;
        }
        at = at + 1;
    }
    matches_at(&chars, &sought, last)
}

/// `text` with every `quote` in it written twice.
pub fn double(text: &str, quote: char) -> (res: String)
    ensures
        res@ == doubled(text@, quote),
{
    let chars = characters(text);
    let mut res = String::new();
    let mut i: usize = 0;
    while i < chars.len()
        invariant
            i <= chars@.len(),
            chars@ == text@,
            res@ == doubled(text@.take(i as int), quote),
        decreases chars@.len() - i,
    {
        assert(text@.take(i + 1).drop_last() == text@.take(i as int));
        if chars[i] == quote {
            res.push(quote);
        }
        res.push(chars[i]);
        i = i + 1;
    }
    assert(text@.take(text@.len() as int) == text@);
    res
}

/// The `u32` that `text` writes, if it writes one.
pub fn parse_u32(text: &str) -> (res: Option<u32>)
    ensures
        res == parsed_u32(text@),
{
    let chars = characters(text);
    let start: usize = if chars.len() > 0 && chars[0] == '+' {
        1
    } else {
        0
    };
    let ghost row = without_plus(text@);
    assert(start == 0 ==> row == text@.skip(0));
    if start == chars.len() {
        return None;
    }
    let mut value: u64 = 0;
    let mut fits: bool = true;
    let mut i: usize = start;
    while i < chars.len()
        invariant
            chars@ == text@,
            start <= i <= chars@.len(),
            row == without_plus(text@),
            row == text@.skip(start as int),
            row.len() > 0,
            forall|j: int| 0 <= j < i - start ==> is_digit(#[trigger] row[j]),
            fits ==> value == digits_value(row.take(i - start)) && value <= u32::MAX,
            !fits ==> digits_value(row.take(i - start)) > u32::MAX,
        decreases chars@.len() - i,
    {
        let c = chars[i];
        assert(row[i - start] == c);
        if !('0' <= c && c <= '9') {
            return None;
        }
        assert(row.take(i + 1 - start).drop_last() == row.take(i - start));
        assert(row.take(i + 1 - start).last() == c);
        if fits {
            value = value * 10 + (c as u64 - '0' as u64);
            fits = value <= u32::MAX as u64;
        }
        i = i + 1;
    }
    assert(row.take(row.len() as int) == row);
    if fits {
        Some(value as u32)
    } else {
        None
    }
}

/// Appends the decimal digits of `value`.
fn push_digits(text: &mut String, value: u32)
    ensures
        final(text)@ == old(text)@ + digits(value as nat),
    decreases value,
{
    if value >= 10 {
        push_digits(text, value / 10);
    }
    let digit: u8 = (value % 10) as u8;
    text.push((48 + digit) as char);
}

/// `value` in decimal notation.
pub fn format_decimal(value: i16) -> (text: String)
    ensures
        text@ == decimal(value as int),
{
    let mut text = String::new();
    if value < 0 {
        text.push('-');
        push_digits(&mut text, (-(value as i32)) as u32);
    } else {
        push_digits(&mut text, value as u32);
    }
    text
}

} // verus!
