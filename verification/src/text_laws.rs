//! What the operations on text do, said of the text that goes in and the text that comes out.

use crate::text::{
    contains, contains_text, decimal, digit_char, digits, digits_value, double, doubled,
    format_decimal, is_white_space, parse_u32, parsed_u32, same_text, stands_at, starts_with, trim,
    trimmed, without_plus,
};
use vstd::prelude::*;

verus! {

/// White space is what has the Unicode property of that name, character by character.
pub proof fn law_white_space_characters(c: char)
    ensures
        is_white_space(c) <==> ({
            let code = c as u32;
            ||| code == 9 || code == 10 || code == 11 || code == 12 || code == 13 || code == 32
            ||| code == 0x85 || code == 0xa0 || code == 0x1680
            ||| code == 0x2000 || code == 0x2001 || code == 0x2002 || code == 0x2003
            ||| code == 0x2004 || code == 0x2005 || code == 0x2006 || code == 0x2007
            ||| code == 0x2008 || code == 0x2009 || code == 0x200a
            ||| code == 0x2028 || code == 0x2029 || code == 0x202f || code == 0x205f
            ||| code == 0x3000
        }),
{
}

/// `core` is what is left of `text` between `start` and `end` once the white space around it is gone.
pub open spec fn is_core(text: Seq<char>, core: Seq<char>, start: int, end: int) -> bool {
    &&& 0 <= start <= end <= text.len()
    &&& core == text.subrange(start, end)
    &&& forall|i: int| 0 <= i < start ==> is_white_space(#[trigger] text[i])
    &&& forall|i: int| end <= i < text.len() ==> is_white_space(#[trigger] text[i])
    &&& start < end ==> !is_white_space(text[start]) && !is_white_space(text[end - 1])
}

/// Every character of `text` from `start` to `end` has the property `holds`.
spec fn all_between(text: Seq<char>, holds: spec_fn(char) -> bool, start: int, end: int) -> bool {
    forall|i: int| start <= i < end ==> holds(#[trigger] text[i])
}

proof fn lemma_all_with_first(text: Seq<char>, holds: spec_fn(char) -> bool, start: int, end: int)
    requires
        text.len() > 0,
        0 <= start,
        end < text.len(),
        all_between(text.drop_first(), holds, start, end),
    ensures
        all_between(text, holds, start + 1, end + 1),
        holds(text[0]) && start == 0 ==> all_between(text, holds, 0, end + 1),
{
    assert forall|i: int| start + 1 <= i < end + 1 implies holds(#[trigger] text[i]) by {
        assert(text.drop_first()[i - 1] == text[i]);
    }
}

proof fn lemma_all_with_last(text: Seq<char>, holds: spec_fn(char) -> bool, start: int, end: int)
    requires
        text.len() > 0,
        0 <= start,
        end < text.len(),
        all_between(text.drop_last(), holds, start, end),
    ensures
        all_between(text, holds, start, end),
        holds(text.last()) && end == text.len() - 1 ==> all_between(text, holds, start, end + 1),
{
    assert forall|i: int| start <= i < end implies holds(#[trigger] text[i]) by {
        assert(text.drop_last()[i] == text[i]);
    }
}

proof fn lemma_trimmed_core(text: Seq<char>)
    ensures
        exists|start: int, end: int| is_core(text, trimmed(text), start, end),
    decreases text.len(),
{
    let white = |c: char| is_white_space(c);
    if text.len() > 0 && is_white_space(text.first()) {
        let rest = text.drop_first();
        lemma_trimmed_core(rest);
        let (start, end) = choose|start: int, end: int| is_core(rest, trimmed(rest), start, end);
        assert(all_between(rest, white, 0, start));
        assert(all_between(rest, white, end, rest.len() as int));
        lemma_all_with_first(text, white, 0, start);
        lemma_all_with_first(text, white, end, rest.len() as int);
        assert(text.subrange(start + 1, end + 1) =~= rest.subrange(start, end));
        assert(white(text[0]));
        assert(is_core(text, trimmed(text), start + 1, end + 1));
    } else if text.len() > 0 && is_white_space(text.last()) {
        let rest = text.drop_last();
        lemma_trimmed_core(rest);
        let (start, end) = choose|start: int, end: int| is_core(rest, trimmed(rest), start, end);
        assert(all_between(rest, white, 0, start));
        assert(all_between(rest, white, end, rest.len() as int));
        lemma_all_with_last(text, white, 0, start);
        lemma_all_with_last(text, white, end, rest.len() as int);
        assert(text.subrange(start, end) =~= rest.subrange(start, end));
        assert(white(text.last()));
        assert(is_core(text, trimmed(text), start, end));
    } else {
        assert(text.subrange(0, text.len() as int) =~= text);
        assert(is_core(text, trimmed(text), 0, text.len() as int));
    }
}

/// Trimming takes away the white space at both ends and nothing else: what comes out is one stretch of
/// the text, begins and ends with something else than white space, and has only white space around it.
pub proof fn law_trimming_takes_the_ends(text: &str, res: String)
    requires
        call_ensures(trim, (text,), res),
    ensures
        exists|start: int, end: int| is_core(text@, res@, start, end),
{
    lemma_trimmed_core(text@);
}

/// A text contains another exactly where it is the other with something before it and something behind
/// it, be it nothing.
pub proof fn law_containing_is_standing_between(text: &str, needle: &str, res: bool)
    requires
        call_ensures(contains, (text, needle), res),
    ensures
        res <==> exists|before: Seq<char>, after: Seq<char>|
            text@ == #[trigger] (before + needle@ + after),
{
    let whole = text@;
    let sought = needle@;
    if contains_text(whole, sought) {
        let at = choose|at: int| #[trigger] stands_at(whole, sought, at);
        let before = whole.take(at);
        let after = whole.skip(at + sought.len());
        assert(whole.subrange(at, at + sought.len()) == sought);
        assert(whole =~= before + sought + after);
    }
    if exists|before: Seq<char>, after: Seq<char>| whole == #[trigger] (before + sought + after) {
        let (before, after) = choose|before: Seq<char>, after: Seq<char>|
            whole == #[trigger] (before + sought + after);
        let at = before.len() as int;
        assert(whole.subrange(at, at + sought.len()) =~= sought);
        assert(stands_at(whole, sought, at));
    }
}

/// A text begins with another exactly where it is the other with something behind it, be it nothing.
/// Two texts are the same exactly where each begins with the other.
pub proof fn law_beginnings(a: &str, b: &str, begins: bool, back: bool, same: bool)
    requires
        call_ensures(starts_with, (a, b), begins),
        call_ensures(starts_with, (b, a), back),
        call_ensures(same_text, (a, b), same),
    ensures
        begins <==> exists|rest: Seq<char>| a@ == #[trigger] (b@ + rest),
        same <==> begins && back,
        same <==> a@ == b@,
{
    if begins {
        assert(a@ =~= b@ + a@.skip(b@.len() as int));
    }
    if exists|rest: Seq<char>| a@ == #[trigger] (b@ + rest) {
        let rest = choose|rest: Seq<char>| a@ == #[trigger] (b@ + rest);
        assert(b@ =~= a@.subrange(0, b@.len() as int));
    }
    if begins && back {
        assert(a@ =~= b@);
    }
}

/// What a text with doubled quotes writes: two quotes in a row stand for one, and a quote alone makes
/// no sense.
pub open spec fn halved(text: Seq<char>, quote: char) -> Option<Seq<char>>
    decreases text.len(),
{
    if text.len() == 0 {
        Some(Seq::empty())
    } else if text[0] != quote {
        match halved(text.skip(1), quote) {
            Some(rest) => Some(seq![text[0]] + rest),
            None => None,
        }
    } else if text.len() > 1 && text[1] == quote {
        match halved(text.skip(2), quote) {
            Some(rest) => Some(seq![quote] + rest),
            None => None,
        }
    } else {
        None
    }
}

/// Reading goes part by part.
pub(crate) proof fn lemma_halved_concat(a: Seq<char>, b: Seq<char>, quote: char)
    requires
        halved(a, quote) is Some,
        halved(b, quote) is Some,
    ensures
        halved(a + b, quote) == Some(halved(a, quote)->0 + halved(b, quote)->0),
    decreases a.len(),
{
    if a.len() == 0 {
        assert(a + b =~= b);
        assert(Seq::<char>::empty() + halved(b, quote)->0 =~= halved(b, quote)->0);
    } else if a[0] != quote {
        lemma_halved_concat(a.skip(1), b, quote);
        assert((a + b).skip(1) =~= a.skip(1) + b);
        let rest = halved(a.skip(1), quote)->0;
        assert(seq![a[0]] + (rest + halved(b, quote)->0) =~= (seq![a[0]] + rest) + halved(
            b,
            quote,
        )->0);
    } else {
        lemma_halved_concat(a.skip(2), b, quote);
        assert((a + b).skip(2) =~= a.skip(2) + b);
        let rest = halved(a.skip(2), quote)->0;
        assert(seq![quote] + (rest + halved(b, quote)->0) =~= (seq![quote] + rest) + halved(
            b,
            quote,
        )->0);
    }
}

/// A text with its quotes doubled reads as the text itself.
pub(crate) proof fn lemma_doubled_reads_back(text: Seq<char>, quote: char)
    ensures
        halved(doubled(text, quote), quote) == Some(text),
    decreases text.len(),
{
    if text.len() == 0 {
        assert(text =~= Seq::<char>::empty());
    } else {
        let c = text.last();
        let front = doubled(text.drop_last(), quote);
        lemma_doubled_reads_back(text.drop_last(), quote);
        reveal_with_fuel(halved, 3);
        if c == quote {
            let pair = seq![quote, quote];
            assert(pair.skip(2) =~= Seq::<char>::empty());
            assert(halved(pair, quote)->0 =~= seq![quote]);
            lemma_halved_concat(front, pair, quote);
            assert(doubled(text, quote) =~= front + pair);
        } else {
            let single = seq![c];
            assert(single.skip(1) =~= Seq::<char>::empty());
            assert(halved(single, quote)->0 =~= single);
            lemma_halved_concat(front, single, quote);
            assert(doubled(text, quote) =~= front + single);
        }
        assert(text =~= text.drop_last() + seq![c]);
    }
}

/// Doubling the quotes of a text is undone by reading two quotes as one.
pub proof fn law_doubling_is_undone_by_reading(text: &str, quote: char, res: String)
    requires
        call_ensures(double, (text, quote), res),
    ensures
        halved(res@, quote) == Some(text@),
{
    lemma_doubled_reads_back(text@, quote);
}

/// One text alone reads as a given text: reading loses nothing.
pub proof fn law_reading_loses_nothing(a: Seq<char>, b: Seq<char>, quote: char)
    requires
        halved(a, quote) is Some,
        halved(a, quote) == halved(b, quote),
    ensures
        a == b,
    decreases a.len(),
{
    let text = halved(a, quote)->0;
    if a.len() == 0 {
        if b.len() > 0 {
            assert(text.len() > 0);
        }
        assert(a =~= b);
    } else {
        assert(text.len() > 0);
        assert(b.len() > 0);
        assert(text[0] == a[0] && text[0] == b[0]);
        let width: int = if a[0] == quote {
            2
        } else {
            1
        };
        assert(halved(a.skip(width), quote)->0 =~= text.skip(1));
        assert(halved(b.skip(width), quote)->0 =~= text.skip(1));
        law_reading_loses_nothing(a.skip(width), b.skip(width), quote);
        assert(a =~= a.take(width) + a.skip(width));
        assert(b =~= b.take(width) + b.skip(width));
        assert(a.take(width) =~= b.take(width));
    }
}

/// A number of one digit is that digit, a longer one is the number without its last digit followed by
/// that digit, and a negative one has a minus sign in front.
pub proof fn law_decimal_notation(value: int)
    ensures
        0 <= value < 10 ==> decimal(value) == "0123456789"@.subrange(value, value + 1),
        value >= 10 ==> decimal(value) == decimal(value / 10) + decimal(value % 10),
        value < 0 ==> decimal(value) == "-"@ + decimal(-value),
{
    reveal_strlit("0123456789");
    reveal_strlit("-");
    assert("-"@ =~= seq!['-']);
    if 0 <= value < 10 {
        assert(digit_char(value as nat) == "0123456789"@[value]) by {
            assert("0123456789"@ =~= seq!['0', '1', '2', '3', '4', '5', '6', '7', '8', '9']);
        }
        assert(digits(value as nat) =~= "0123456789"@.subrange(value, value + 1));
    } else if value >= 10 {
        assert(digits(value as nat) =~= digits((value / 10) as nat) + digits((value % 10) as nat));
    }
}

/// A number is formatted in decimal notation.
pub proof fn law_numbers_are_formatted(value: i16, res: String)
    requires
        call_ensures(format_decimal, (value,), res),
    ensures
        0 <= value < 10 ==> res@ == "0123456789"@.subrange(value as int, value + 1),
        value >= 10 ==> res@ == decimal(value as int / 10) + decimal(value as int % 10),
        value < 0 ==> res@ == "-"@ + decimal(-value),
{
    law_decimal_notation(value as int);
}

/// A row of digits with one more digit behind it is worth ten times as much and that digit.
pub proof fn law_digits_are_worth_their_place(row: Seq<char>, c: char)
    requires
        '0' <= c <= '9',
    ensures
        digits_value(Seq::empty()) == 0,
        digits_value(row.push(c)) == 10 * digits_value(row) + (c as int - '0' as int),
{
    assert(row.push(c).drop_last() =~= row);
}

/// `text` is a row of digits, behind a plus sign or not.
pub open spec fn writes_row(text: Seq<char>, row: Seq<char>) -> bool {
    &&& text == row || text == "+"@ + row
    &&& row.len() > 0
    &&& forall|i: int| 0 <= i < row.len() ==> '0' <= #[trigger] row[i] <= '9'
}

/// A number is read from a row of digits, behind a plus sign or not, of a value that fits; nothing else
/// is a number.
pub proof fn law_numbers_are_rows_of_digits(text: &str, res: Option<u32>)
    requires
        call_ensures(parse_u32, (text,), res),
    ensures
        forall|row: Seq<char>| #[trigger]
            writes_row(text@, row) ==> (if digits_value(row) <= u32::MAX {
                res is Some && res->0 == digits_value(row)
            } else {
                res is None
            }),
        res is Some ==> exists|row: Seq<char>| #[trigger] writes_row(text@, row),
{
    reveal_strlit("+");
    assert("+"@ =~= seq!['+']);
    let whole = text@;
    assert forall|row: Seq<char>| #[trigger] writes_row(whole, row) implies (if digits_value(row)
        <= u32::MAX {
        res is Some && res->0 == digits_value(row)
    } else {
        res is None
    }) by {
        if whole == row {
            assert('0' <= row[0] <= '9');
            assert(without_plus(whole) == row);
        } else {
            assert(whole[0] == '+');
            assert(without_plus(whole) =~= row);
        }
    }
    if parsed_u32(whole) is Some {
        let row = without_plus(whole);
        if whole[0] == '+' {
            assert(whole =~= "+"@ + row);
        }
        assert(writes_row(whole, row));
    }
}

} // verus!
