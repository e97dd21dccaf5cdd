//! Literals of the language: what a token means as an integer or a boolean.

use vstd::prelude::*;

verus! {

/// Whether `c` is one of the ten decimal digits.
pub open spec fn is_digit(c: char) -> bool {
    '0' <= c && c <= '9'
}

/// The number written by a run of decimal digits, most significant first.
pub open spec fn digits_value(digits: Seq<char>) -> int
    decreases digits.len(),
{
    if digits.len() == 0 {
        0
    } else {
        10 * digits_value(digits.drop_last()) + (digits.last() as int - '0' as int)
    }
}

/// Whether every character of `text` is a decimal digit.
pub open spec fn all_digits(text: Seq<char>) -> bool {
    forall|i: int| 0 <= i < text.len() ==> is_digit(#[trigger] text[i])
}

/// The integer that a token writes: an optional sign, then one or more
/// decimal digits and nothing else, with a value that fits in 32 bits.
pub open spec fn int_literal(text: Seq<char>) -> Option<i32> {
    let negative = text.len() > 0 && text[0] == '-';
    let signed = negative || (text.len() > 0 && text[0] == '+');
    let digits = if signed { text.subrange(1, text.len() as int) } else { text };
    let number = if negative { -digits_value(digits) } else { digits_value(digits) };
    if digits.len() > 0 && all_digits(digits) && i32::MIN <= number <= i32::MAX {
        Some(number as i32)
    } else {
        None
    }
}

/// The boolean that a token writes: `true` or `false`, spelled exactly so.
pub open spec fn bool_literal(text: Seq<char>) -> Option<bool> {
    if text == "true"@ {
        Some(true)
    } else if text == "false"@ {
        Some(false)
    } else {
        None
    }
}

/// Calls `str::parse::<i32>`. The standard library documents that it takes an
/// optional `+` or `-` followed by decimal digits only, and fails on an empty
/// digit run, on any other character and on a number outside `i32`.
#[verifier::external_body]
pub(crate) fn parse_int(text: &str) -> (number: Option<i32>)
    ensures
        number == int_literal(text@),
{
    match text.parse::<i32>() {
        Ok(n) => Some(n),
        Err(_) => None,
    }
}

/// Calls `str::parse::<bool>`. The standard library documents that it takes
/// the two words `true` and `false` and fails on every other input.
#[verifier::external_body]
pub(crate) fn parse_bool(text: &str) -> (flag: Option<bool>)
    ensures
        flag == bool_literal(text@),
{
    match text.parse::<bool>() {
        Ok(b) => Some(b),
        Err(_) => None,
    }
}

} // verus!
