//! Fixed-point decimals.
//!
//! Amounts, multipliers and durations are held as signed counts of
//! millionths ("micros"). They arrive as decimal text, which is read here
//! without passing through floating point. Records that leave the library
//! are rounded to hundredths ("cents").

use vstd::prelude::*;
use crate::text::{chars_of, first_index, lemma_first_index, lemma_first_index_is};

verus! {

/// Micros in one unit.
pub const MICROS_PER_UNIT: i64 = 1_000_000;

/// Micros in one hundredth of a unit.
pub const MICROS_PER_CENT: i64 = 10_000;

/// Largest magnitude, in micros, that a decimal text may denote.
pub const MICROS_LIMIT: i64 = 1_000_000_000_000_000_000;

/// Whether a character is one of the ten decimal digits.
pub open spec fn is_digit(c: char) -> bool {
    '0' <= c && c <= '9'
}

/// The number that a decimal digit stands for.
pub open spec fn digit_value(c: char) -> int {
    c as int - '0' as int
}

/// Whether every character is a decimal digit.
pub open spec fn all_digits(s: Seq<char>) -> bool {
    forall|i: int| 0 <= i < s.len() ==> is_digit(#[trigger] s[i])
}

/// The number that a run of decimal digits denotes.
pub open spec fn digits_value(s: Seq<char>) -> int
    decreases s.len(),
{
    if s.len() == 0 {
        0
    } else {
        digits_value(s.drop_last()) * 10 + digit_value(s.last())
    }
}

/// Whether the text starts with a sign.
pub open spec fn has_sign(s: Seq<char>) -> bool {
    s.len() > 0 && (s[0] == '-' || s[0] == '+')
}

/// Whether the text starts with a minus sign.
pub open spec fn is_negative(s: Seq<char>) -> bool {
    s.len() > 0 && s[0] == '-'
}

/// The text without its sign.
pub open spec fn unsigned_part(s: Seq<char>) -> Seq<char> {
    if has_sign(s) {
        s.skip(1)
    } else {
        s
    }
}

/// What stands before the decimal point.
pub open spec fn whole_digits(body: Seq<char>) -> Seq<char> {
    body.take(first_index(body, '.') as int)
}

/// What stands after the decimal point; empty when there is no point.
pub open spec fn fraction_digits(body: Seq<char>) -> Seq<char> {
    if first_index(body, '.') < body.len() {
        body.skip(first_index(body, '.') as int + 1)
    } else {
        Seq::empty()
    }
}

/// The first six digits of a fraction, with zeros where it has fewer.
pub open spec fn six_places(fraction: Seq<char>) -> Seq<char> {
    Seq::new(6, |i: int| if i < fraction.len() { fraction[i] } else { '0' })
}

/// Plain decimal notation: an optional sign, digits, and optionally a point
/// with digits after it; at least one digit in all.
pub open spec fn is_decimal(s: Seq<char>) -> bool {
    let body = unsigned_part(s);
    &&& all_digits(whole_digits(body))
    &&& all_digits(fraction_digits(body))
    &&& whole_digits(body).len() + fraction_digits(body).len() >= 1
}

/// The magnitude of a decimal text in micros. Digits beyond the sixth
/// decimal place are dropped.
pub open spec fn magnitude_micros(s: Seq<char>) -> int {
    let body = unsigned_part(s);
    digits_value(whole_digits(body)) * MICROS_PER_UNIT + digits_value(
        six_places(fraction_digits(body)),
    )
}

/// The value of a decimal text in micros: `None` where the text is not in
/// plain decimal notation or its magnitude exceeds `MICROS_LIMIT`.
pub open spec fn decimal_micros(s: Seq<char>) -> Option<int> {
    if is_decimal(s) && magnitude_micros(s) <= MICROS_LIMIT {
        Some(
            if is_negative(s) {
                -magnitude_micros(s)
            } else {
                magnitude_micros(s)
            },
        )
    } else {
        None
    }
}

/// The value of a decimal text in micros, and zero for any other text.
pub open spec fn micros_or_zero(s: Seq<char>) -> int {
    match decimal_micros(s) {
        Some(v) => v,
        None => 0,
    }
}

/// A value in micros rounded to the nearest cent; a value halfway between
/// two cents goes to the upper one.
pub open spec fn cents_of(micros: int) -> int {
    (micros + MICROS_PER_CENT / 2) / (MICROS_PER_CENT as int)
}

/// Appending a digit multiplies the value by ten and adds the digit.
proof fn lemma_digits_step(s: Seq<char>, k: int)
    requires
        0 <= k < s.len(),
    ensures
        digits_value(s.take(k + 1)) == digits_value(s.take(k)) * 10 + digit_value(s[k]),
{
    assert(s.take(k + 1).drop_last() == s.take(k));
}

/// A run of digits denotes no less than any of its prefixes, and no prefix
/// denotes a negative number.
proof fn lemma_digits_prefix(s: Seq<char>, k: int)
    requires
        all_digits(s),
        0 <= k <= s.len(),
    ensures
        0 <= digits_value(s.take(k)) <= digits_value(s),
    decreases s.len(),
{
    if s.len() > 0 {
        if k == s.len() {
            assert(s.take(k) == s);
            lemma_digits_prefix(s.drop_last(), k - 1);
        } else {
            lemma_digits_prefix(s.drop_last(), k);
            assert(s.drop_last().take(k) == s.take(k));
        }
    }
}

/// The value of a character as a decimal digit, if it is one.
pub fn digit_of(c: char) -> (digit: Option<i64>)
    ensures
        match digit {
            Some(d) => is_digit(c) && d == digit_value(c) && 0 <= d <= 9,
            None => !is_digit(c),
        },
{
    if '0' <= c && c <= '9' {
        Some((c as u32 - '0' as u32) as i64)
    } else {
        None
    }
}

/// The end of the run of digits that starts at `from`.
fn digit_run(chars: &Vec<char>, from: usize) -> (end: usize)
    requires
        from <= chars.len(),
    ensures
        from <= end <= chars.len(),
        forall|j: int| from <= j < end ==> is_digit(#[trigger] chars@[j]),
        end < chars.len() ==> !is_digit(chars@[end as int]),
{
    let mut end = from;
    while end < chars.len()
        invariant
            from <= end <= chars.len(),
            forall|j: int| from <= j < end ==> is_digit(#[trigger] chars@[j]),
        decreases chars.len() - end,
    {
        if digit_of(chars[end]).is_none() {
            return end;
        }
        end = end + 1;
    }
    end
}

/// The number that the digits in `from..to` denote, unless it exceeds a
/// million millions.
fn run_value(chars: &Vec<char>, from: usize, to: usize) -> (value: Option<i64>)
    requires
        from <= to <= chars.len(),
        all_digits(chars@.subrange(from as int, to as int)),
    ensures
        match value {
            Some(v) => v == digits_value(chars@.subrange(from as int, to as int)) && 0 <= v
                <= 1_000_000_000_000,
            None => digits_value(chars@.subrange(from as int, to as int)) > 1_000_000_000_000,
        },
{
    let ghost run = chars@.subrange(from as int, to as int);
    let mut units: i64 = 0;
    let mut k = from;
    while k < to
        invariant
            from <= k <= to <= chars.len(),
            run == chars@.subrange(from as int, to as int),
            all_digits(run),
            units == digits_value(run.take(k - from)),
            0 <= units <= 1_000_000_000_000,
        decreases to - k,
    {
        let d = match digit_of(chars[k]) {
            Some(d) => d,
            None => 0,
        };
        proof {
            lemma_digits_step(run, k - from);
        }
        units = units * 10 + d;
        if units > 1_000_000_000_000 {
            proof {
                lemma_digits_prefix(run, k - from + 1);
            }
            return None;
        }
        k = k + 1;
    }
    assert(run.take(to - from) == run);
    Some(units)
}

/// The digit at `place` of the fraction that starts at `from`, zero beyond
/// its end.
fn place_value(chars: &Vec<char>, from: usize, place: usize) -> (d: i64)
    requires
        from <= chars.len(),
        place < 6,
        all_digits(chars@.skip(from as int)),
    ensures
        d == digit_value(six_places(chars@.skip(from as int))[place as int]),
        0 <= d <= 9,
{
    if place < chars.len() - from {
        match digit_of(chars[from + place]) {
            Some(d) => d,
            None => 0,
        }
    } else {
        0
    }
}

/// The first six decimal places of the fraction that starts at `from`, as a
/// count of micros.
fn fraction_value(chars: &Vec<char>, from: usize) -> (parts: i64)
    requires
        from <= chars.len(),
        all_digits(chars@.skip(from as int)),
    ensures
        parts == digits_value(six_places(chars@.skip(from as int))),
        0 <= parts <= 999_999,
{
    let d0 = place_value(chars, from, 0);
    let d1 = place_value(chars, from, 1);
    let d2 = place_value(chars, from, 2);
    let d3 = place_value(chars, from, 3);
    let d4 = place_value(chars, from, 4);
    let d5 = place_value(chars, from, 5);
    proof {
        let six = six_places(chars@.skip(from as int));
        lemma_digits_step(six, 0);
        lemma_digits_step(six, 1);
        lemma_digits_step(six, 2);
        lemma_digits_step(six, 3);
        lemma_digits_step(six, 4);
        lemma_digits_step(six, 5);
    }
    ((((d0 * 10 + d1) * 10 + d2) * 10 + d3) * 10 + d4) * 10 + d5
}

/// Where the digits before `point` are followed by something other than a
/// point, the text is no decimal.
proof fn lemma_stray_character(body: Seq<char>, point: int)
    requires
        0 <= point < body.len(),
        forall|j: int| 0 <= j < point ==> is_digit(#[trigger] body[j]),
        !is_digit(body[point]),
        body[point] != '.',
    ensures
        !all_digits(whole_digits(body)),
{
    lemma_first_index(body, '.');
    assert(whole_digits(body)[point] == body[point]);
}

/// Reads a number in plain decimal notation as a count of micros.
///
/// Accepts an optional sign, digits, and optionally a point followed by
/// digits, with at least one digit in all. Digits beyond the sixth decimal
/// place are dropped. Exponents, separators and blanks are not accepted,
/// nor a magnitude above `MICROS_LIMIT`.
pub fn parse_decimal(text: &str) -> (value: Option<i64>)
    ensures
        match value {
            Some(v) => decimal_micros(text@) == Some(v as int),
            None => decimal_micros(text@) is None,
        },
{
    let chars = chars_of(text);
    let n = chars.len();
    let signed = n > 0 && (chars[0] == '-' || chars[0] == '+');
    let negative = n > 0 && chars[0] == '-';
    let start: usize = if signed { 1 } else { 0 };
    let ghost body = unsigned_part(text@);

    let point = digit_run(&chars, start);
    assert forall|j: int| 0 <= j < point - start implies is_digit(#[trigger] body[j]) by {
        assert(body[j] == chars@[start + j]);
    }
    if point < n && chars[point] != '.' {
        proof {
            lemma_stray_character(body, point - start);
        }
        return None;
    }
    proof {
        lemma_first_index_is(body, '.', point - start);
    }
    let after: usize = if point < n { point + 1 } else { n };
    assert(whole_digits(body) == chars@.subrange(start as int, point as int));
    assert(fraction_digits(body) == chars@.skip(after as int));

    let end = digit_run(&chars, after);
    if end < n {
        assert(fraction_digits(body)[end - after] == chars@[end as int]);
        return None;
    }
    assert forall|j: int| 0 <= j < n - after implies is_digit(
        #[trigger] fraction_digits(body)[j],
    ) by {
        assert(fraction_digits(body)[j] == chars@[after + j]);
    }
    if point == start && after == n {
        return None;
    }

    match run_value(&chars, start, point) {
        None => {
            proof {
                lemma_digits_prefix(six_places(fraction_digits(body)), 0);
            }
            None
        },
        Some(units) => {
            let parts = fraction_value(&chars, after);
            let micros: i64 = units * 1_000_000 + parts;
            if micros > MICROS_LIMIT {
                None
            } else if negative {
                Some(-micros)
            } else {
                Some(micros)
            }
        },
    }
}

/// Reads a decimal leniently: a text that `parse_decimal` refuses counts as
/// zero, and the second component tells that it was refused.
pub fn decimal_or_zero(text: &str) -> (read: (i64, bool))
    ensures
        read.0 == micros_or_zero(text@),
        read.1 == (decimal_micros(text@) is None),
{
    match parse_decimal(text) {
        Some(v) => (v, false),
        None => (0, true),
    }
}

/// Rounds a value in micros to cents, halves upwards.
pub fn round_to_cents(micros: i128) -> (cents: i128)
    ensures
        cents == cents_of(micros as int),
{
    let quotient: i128 = micros / 10_000;
    let rest: i128 = micros % 10_000;
    if rest >= 5_000 {
        quotient + 1
    } else if rest < -5_000 {
        quotient - 1
    } else {
        quotient
    }
}

/// The difference of two values in micros, rounded to cents. The difference
/// itself may lie outside `i128`; its rounded value does not.
pub fn cents_between(minuend: i128, subtrahend: i128) -> (cents: i128)
    ensures
        cents == cents_of(minuend - subtrahend),
{
    let q1: i128 = minuend / 10_000;
    let r1: i128 = minuend % 10_000;
    let q2: i128 = subtrahend / 10_000;
    let r2: i128 = subtrahend % 10_000;
    q1 - q2 + round_to_cents(r1 - r2)
}

} // verus!
