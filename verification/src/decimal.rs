//! Decimal notation: reading a run of digits as a number and writing a
//! number as digits.

use vstd::prelude::*;

use crate::lexer::is_digit;

verus! {

/// The value of a decimal digit.
pub open spec fn digit_value(c: char) -> nat {
    (c as u32 - '0' as u32) as nat
}

/// Whether `text` is a non-empty run of decimal digits.
pub open spec fn is_decimal(text: Seq<char>) -> bool {
    text.len() > 0 && forall|i: int| 0 <= i < text.len() ==> is_digit(#[trigger] text[i])
}

/// The number that a run of decimal digits denotes.
pub open spec fn decimal_value(text: Seq<char>) -> nat
    decreases text.len(),
{
    if text.len() == 0 {
        0
    } else {
        10 * decimal_value(text.drop_last()) + digit_value(text.last())
    }
}

/// What reading `text` as a 64-bit signed integer gives: its value, if it is
/// a run of digits that denotes a number the type can hold.
pub open spec fn parsed_integer(text: Seq<char>) -> Option<i64> {
    if is_decimal(text) && decimal_value(text) <= i64::MAX {
        Some(decimal_value(text) as i64)
    } else {
        None
    }
}

/// More digits never denote a smaller number.
pub proof fn lemma_prefix_value_is_smaller(text: Seq<char>, k: int)
    requires
        0 <= k <= text.len(),
    ensures
        decimal_value(text.take(k)) <= decimal_value(text),
    decreases text.len(),
{
    if k == text.len() {
        assert(text.take(k) =~= text);
    } else {
        assert(text.drop_last().take(k) =~= text.take(k));
        lemma_prefix_value_is_smaller(text.drop_last(), k);
    }
}

/// Reads `text` as a 64-bit signed integer written in decimal digits.
pub fn parse_integer(text: &str) -> (value: Option<i64>)
    ensures
        value == parsed_integer(text@),
{
    let mut total: i64 = 0;
    let mut empty = true;
    for c in it: text.chars()
        invariant
            it.seq() == text@,
            empty == (it.index() == 0),
            total == decimal_value(text@.take(it.index() as int)),
            forall|i: int| 0 <= i < it.index() ==> is_digit(#[trigger] text@[i]),
    {
        if !('0' <= c && c <= '9') {
            return None;
        }
        let digit: i64 = (c as u32 - '0' as u32) as i64;
        proof {
            let next = text@.take(it.index() + 1);
            assert(next.drop_last() =~= text@.take(it.index() as int));
            lemma_prefix_value_is_smaller(text@, it.index() + 1);
        }
        if total > (i64::MAX - digit) / 10 {
            return None;
        }
        total = 10 * total + digit;
        empty = false;
    }
    assert(text@.take(text@.len() as int) =~= text@);
    if empty {
        None
    } else {
        Some(total)
    }
}

/// The character that writes the digit `d`.
pub open spec fn digit_char(d: nat) -> char {
    if d == 0 {
        '0'
    } else if d == 1 {
        '1'
    } else if d == 2 {
        '2'
    } else if d == 3 {
        '3'
    } else if d == 4 {
        '4'
    } else if d == 5 {
        '5'
    } else if d == 6 {
        '6'
    } else if d == 7 {
        '7'
    } else if d == 8 {
        '8'
    } else {
        '9'
    }
}

/// The decimal digits of `n`, without leading zeros.
pub open spec fn digits_of(n: nat) -> Seq<char>
    decreases n,
{
    if n < 10 {
        seq![digit_char(n)]
    } else {
        digits_of(n / 10).push(digit_char(n % 10))
    }
}

/// An integer written in decimal, with a minus sign if it is negative.
pub open spec fn integer_text(value: int) -> Seq<char> {
    if value < 0 {
        seq!['-'] + digits_of((-value) as nat)
    } else {
        digits_of(value as nat)
    }
}

/// Reading the digits of a number gives the number back.
pub proof fn lemma_digits_round_trip(n: nat)
    ensures
        is_decimal(digits_of(n)),
        decimal_value(digits_of(n)) == n,
    decreases n,
{
    if n < 10 {
        let text = digits_of(n);
        assert(decimal_value(text.drop_last()) == 0);
    } else {
        lemma_digits_round_trip(n / 10);
        let text = digits_of(n);
        assert(text.drop_last() =~= digits_of(n / 10));
    }
}

/// What is written for an integer that is not negative reads back as that
/// integer.
pub proof fn lemma_written_integer_reads_back(value: i64)
    requires
        value >= 0,
    ensures
        parsed_integer(integer_text(value as int)) == Some(value),
{
    lemma_digits_round_trip(value as nat);
}

/// The text of one decimal digit.
fn digit_text(d: u64) -> (text: &'static str)
    requires
        d < 10,
    ensures
        text@ == seq![digit_char(d as nat)],
{
    proof {
        reveal_strlit("0");
        reveal_strlit("1");
        reveal_strlit("2");
        reveal_strlit("3");
        reveal_strlit("4");
        reveal_strlit("5");
        reveal_strlit("6");
        reveal_strlit("7");
        reveal_strlit("8");
        reveal_strlit("9");
    }
    if d == 0 {
        "0"
    } else if d == 1 {
        "1"
    } else if d == 2 {
        "2"
    } else if d == 3 {
        "3"
    } else if d == 4 {
        "4"
    } else if d == 5 {
        "5"
    } else if d == 6 {
        "6"
    } else if d == 7 {
        "7"
    } else if d == 8 {
        "8"
    } else {
        "9"
    }
}

/// Appends the decimal digits of `n` to `out`.
fn append_digits(n: u64, out: &mut String)
    ensures
        final(out)@ == old(out)@ + digits_of(n as nat),
    decreases n,
{
    if n >= 10 {
        append_digits(n / 10, out);
    }
    out.append(digit_text(n % 10));
}

/// Writes `value` in decimal.
pub fn format_integer(value: i64) -> (text: String)
    ensures
        text@ == integer_text(value as int),
{
    let mut text = String::new();
    if value < 0 {
        proof {
            reveal_strlit("-");
        }
        text.append("-");
        let magnitude: u64 = (-(value + 1)) as u64 + 1;
        append_digits(magnitude, &mut text);
    } else {
        append_digits(value as u64, &mut text);
    }
    text
}

} // verus!
