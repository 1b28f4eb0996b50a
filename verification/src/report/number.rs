//! Whole numbers in decimal: reading them from text and writing them out.

use vstd::prelude::*;
use vstd::string::*;
use crate::report::text::chars_of;

verus! {

/// One of the ten digits `0` to `9`.
pub open spec fn is_digit(ch: char) -> bool {
    '0' <= ch <= '9'
}

/// The value of a digit.
pub open spec fn digit_value(ch: char) -> int {
    ch as int - '0' as int
}

/// Every character of `text` is a digit.
pub open spec fn all_digits(text: Seq<char>) -> bool {
    forall|i: int| 0 <= i < text.len() ==> is_digit(#[trigger] text[i])
}

/// The number that the digits `text` write in decimal.
pub open spec fn digits_value(text: Seq<char>) -> int
    decreases text.len(),
{
    if text.len() == 0 {
        0
    } else {
        digits_value(text.drop_last()) * 10 + digit_value(text.last())
    }
}

/// The number that `text` writes: digits, at least one, behind at most one
/// sign. Any other text writes no number.
pub open spec fn decimal_value(text: Seq<char>) -> Option<int> {
    if text.len() > 0 && (text[0] == '+' || text[0] == '-') {
        if text.len() > 1 && all_digits(text.drop_first()) {
            if text[0] == '-' {
                Some(-digits_value(text.drop_first()))
            } else {
                Some(digits_value(text.drop_first()))
            }
        } else {
            None
        }
    } else if text.len() > 0 && all_digits(text) {
        Some(digits_value(text))
    } else {
        None
    }
}

/// The number that `text` writes, if it is one of 32 bits with a sign.
pub open spec fn i32_value(text: Seq<char>) -> Option<int> {
    match decimal_value(text) {
        Some(value) => if i32::MIN <= value <= i32::MAX {
            Some(value)
        } else {
            None
        },
        None => None,
    }
}

/// The number that `text` writes, if it is one of 64 bits without a sign.
/// A minus sign writes no such number, not even before zero.
pub open spec fn u64_value(text: Seq<char>) -> Option<int> {
    if text.len() > 0 && text[0] == '-' {
        None
    } else {
        match decimal_value(text) {
            Some(value) => if value <= u64::MAX {
                Some(value)
            } else {
                None
            },
            None => None,
        }
    }
}

/// Digits write a number that is not negative, and more digits write no
/// smaller a number.
pub proof fn lemma_digits_value_grows(text: Seq<char>, shorter: int)
    requires
        all_digits(text),
        0 <= shorter <= text.len(),
    ensures
        0 <= digits_value(text.take(shorter)) <= digits_value(text),
    decreases text.len() - shorter,
{
    lemma_digits_value_nonnegative(text.take(shorter));
    if shorter < text.len() {
        lemma_digits_value_grows(text, shorter + 1);
        let longer = text.take(shorter + 1);
        assert(longer.drop_last() == text.take(shorter));
        assert(is_digit(text[shorter]));
        assert(longer.last() == text[shorter]);
    } else {
        assert(text.take(shorter) == text);
    }
}

/// Digits write a number that is not negative.
pub proof fn lemma_digits_value_nonnegative(text: Seq<char>)
    requires
        all_digits(text),
    ensures
        0 <= digits_value(text),
    decreases text.len(),
{
    if text.len() > 0 {
        assert(is_digit(text[text.len() - 1]));
        lemma_digits_value_nonnegative(text.drop_last());
    }
}

/// Reads the digits `chars[from..]` as a number of at most `limit`.
fn read_digits(chars: &Vec<char>, from: usize, limit: u64) -> (value: Option<u64>)
    requires
        from <= chars@.len(),
    ensures
        value is Some <==> from < chars@.len() && all_digits(chars@.skip(from as int))
            && digits_value(chars@.skip(from as int)) <= limit,
        value matches Some(number) ==> number == digits_value(chars@.skip(from as int)),
{
    let ghost digits = chars@.skip(from as int);
    if from == chars.len() {
        return None;
    }
    let mut number: u64 = 0;
    let mut at = from;
    while at < chars.len()
        invariant
            from <= at <= chars@.len(),
            digits == chars@.skip(from as int),
            all_digits(digits.take(at - from)),
            number == digits_value(digits.take(at - from)),
            number <= limit,
        decreases chars@.len() - at,
    {
        let ch = chars[at];
        let ghost longer = digits.take(at - from + 1);
        proof {
            assert(longer.drop_last() == digits.take(at - from));
            assert(longer.last() == ch);
        }
        if !('0' <= ch && ch <= '9') {
            assert(!is_digit(digits[at - from]));
            return None;
        }
        let digit = (ch as u32 - '0' as u32) as u64;
        assert(digit == digit_value(ch));
        assert forall|i: int| 0 <= i < longer.len() implies is_digit(#[trigger] longer[i]) by {
            if i < at - from {
                assert(longer[i] == digits.take(at - from)[i]);
            }
        }
        if number > limit / 10 || (number == limit / 10 && digit > limit % 10) {
            proof {
                assert(digits_value(longer) > limit);
                if all_digits(digits) {
                    lemma_digits_value_grows(digits, at - from + 1);
                }
            }
            return None;
        }
        number = number * 10 + digit;
        at += 1;
    }
    assert(digits.take(at - from) == digits);
    Some(number)
}

/// Reads `text` as a number of 32 bits with a sign.
pub fn parse_i32(text: &str) -> (value: Option<i32>)
    ensures
        value is Some <==> i32_value(text@) is Some,
        value matches Some(number) ==> Some(number as int) == i32_value(text@),
{
    let chars = chars_of(text);
    if chars.len() == 0 {
        return None;
    }
    let sign = chars[0];
    if sign == '-' {
        assert(chars@.skip(1) == chars@.drop_first());
        if chars.len() > 1 {
            proof {
                if all_digits(chars@.drop_first()) {
                    lemma_digits_value_nonnegative(chars@.drop_first());
                }
            }
        }
        match read_digits(&chars, 1, 2147483648) {
            Some(size) => Some((-(size as i64)) as i32),
            None => None,
        }
    } else if sign == '+' {
        assert(chars@.skip(1) == chars@.drop_first());
        if chars.len() > 1 {
            proof {
                if all_digits(chars@.drop_first()) {
                    lemma_digits_value_nonnegative(chars@.drop_first());
                }
            }
        }
        match read_digits(&chars, 1, 2147483647) {
            Some(size) => Some(size as i32),
            None => None,
        }
    } else {
        assert(chars@.skip(0) == chars@);
        proof {
            if all_digits(chars@) {
                lemma_digits_value_nonnegative(chars@);
            }
        }
        match read_digits(&chars, 0, 2147483647) {
            Some(size) => Some(size as i32),
            None => None,
        }
    }
}

/// Reads `text` as a number of 64 bits without a sign.
pub fn parse_u64(text: &str) -> (value: Option<u64>)
    ensures
        value is Some <==> u64_value(text@) is Some,
        value matches Some(number) ==> Some(number as int) == u64_value(text@),
{
    let chars = chars_of(text);
    if chars.len() == 0 {
        return None;
    }
    let sign = chars[0];
    if sign == '-' {
        None
    } else if sign == '+' {
        assert(chars@.skip(1) == chars@.drop_first());
        read_digits(&chars, 1, u64::MAX)
    } else {
        assert(chars@.skip(0) == chars@);
        read_digits(&chars, 0, u64::MAX)
    }
}

/// The digit that writes `value`.
pub open spec fn digit_char(value: int) -> char {
    (value + '0' as int) as char
}

/// How a number that is not negative is written in decimal, without
/// leading zeros.
pub open spec fn nat_decimal(value: nat) -> Seq<char>
    decreases value,
{
    if value < 10 {
        seq![digit_char(value as int)]
    } else {
        nat_decimal(value / 10).push(digit_char(value as int % 10))
    }
}

/// How a number is written in decimal: a minus sign before a negative
/// one, no sign otherwise.
pub open spec fn int_decimal(value: int) -> Seq<char> {
    if value < 0 {
        seq!['-'] + nat_decimal((-value) as nat)
    } else {
        nat_decimal(value as nat)
    }
}

/// Appends `value`, written in decimal, to `out`.
pub fn push_u64(out: &mut String, value: u64)
    ensures
        final(out)@ == old(out)@ + nat_decimal(value as nat),
{
    let mut digits: Vec<char> = Vec::new();
    let mut rest = value;
    while rest >= 10
        invariant
            forall|head: Seq<char>|
                #![trigger head + nat_decimal(value as nat)]
                head + nat_decimal(value as nat) == head + nat_decimal(rest as nat)
                    + digits@.reverse(),
        decreases rest,
    {
        let digit = ((rest % 10) as u8 + 48u8) as char;
        proof {
            assert(digit == digit_char(rest as int % 10));
            let before = digits@;
            let after = before.push(digit);
            assert(after.reverse() == seq![digit] + before.reverse());
            assert forall|head: Seq<char>|
                #![trigger head + nat_decimal(value as nat)]
                head + nat_decimal(value as nat) == head + nat_decimal((rest / 10) as nat)
                    + after.reverse() by {
                assert(head + nat_decimal(rest as nat) + before.reverse() == head + nat_decimal(
                    (rest / 10) as nat,
                ) + after.reverse());
            }
        }
        digits.push(digit);
        rest = rest / 10;
    }
    let first = (rest as u8 + 48u8) as char;
    assert(seq![first] == nat_decimal(rest as nat));
    out.push(first);
    let mut left = digits.len();
    while left > 0
        invariant
            left <= digits@.len(),
            out@ == old(out)@ + nat_decimal(rest as nat) + digits@.reverse().take(
                digits@.len() - left,
            ),
        decreases left,
    {
        left -= 1;
        out.push(digits[left]);
        proof {
            let turned = digits@.reverse();
            let done = digits@.len() - left;
            assert(turned.take(done) == turned.take(done - 1).push(turned[done - 1]));
        }
    }
    proof {
        assert(digits@.reverse().take(digits@.len() as int) == digits@.reverse());
    }
}

/// Appends `value`, written in decimal, to `out`.
pub fn push_i64(out: &mut String, value: i64)
    ensures
        final(out)@ == old(out)@ + int_decimal(value as int),
{
    if value < 0 {
        out.push('-');
        let size: u64 = if value == i64::MIN {
            9223372036854775808u64
        } else {
            (-value) as u64
        };
        push_u64(out, size);
        assert(out@ == old(out)@ + (seq!['-'] + nat_decimal((-value) as nat)));
    } else {
        push_u64(out, value as u64);
    }
}

} // verus!
