//! Text primitives shared by the lookup tables.

use vstd::prelude::*;

verus! {

/// Compares two string slices with `str`'s own `==`.
///
/// Trusted: the standard library documents that two slices are equal exactly
/// when they hold the same characters in the same order.
#[verifier::external_body]
pub(crate) fn str_eq(a: &str, b: &str) -> (r: bool)
    ensures
        r == (a@ == b@),
{
    a == b
}

/// Whether the character is one of the ten ASCII digits.
pub open spec fn is_digit(c: char) -> bool {
    48 <= c as u32 <= 57
}

/// The number that a run of ASCII digits writes in decimal.
pub open spec fn decimal_value(digits: Seq<char>) -> int
    decreases digits.len(),
{
    if digits.len() == 0 {
        0
    } else {
        decimal_value(digits.drop_last()) * 10 + (digits.last() as u32 - 48)
    }
}

/// The whole number that a text writes: an optional `+` or `-`, then one or
/// more ASCII digits and nothing else, the value within the range of `i64`.
/// Any other text writes none.
pub open spec fn parsed_i64(text: Seq<char>) -> Option<i64> {
    let signed = text.len() > 0 && (text[0] == '-' || text[0] == '+');
    let digits = if signed {
        text.subrange(1, text.len() as int)
    } else {
        text
    };
    let value = if signed && text[0] == '-' {
        -decimal_value(digits)
    } else {
        decimal_value(digits)
    };
    if digits.len() > 0 && (forall|i: int| 0 <= i < digits.len() ==> is_digit(#[trigger] digits[i]))
        && i64::MIN <= value <= i64::MAX {
        Some(value as i64)
    } else {
        None
    }
}

/// Reads a whole number in decimal.
///
/// Trusted: calls `str::parse::<i64>` and drops the error. The standard
/// library documents the accepted texts as an optional sign followed by
/// digits only, with anything else, the empty text and a value out of range
/// being errors; the contract says the same.
#[verifier::external_body]
pub(crate) fn parse_i64(text: &str) -> (r: Option<i64>)
    ensures
        r == parsed_i64(text@),
{
    text.parse::<i64>().ok()
}

/// The unsigned number that a text writes: an optional `+`, then one or more
/// ASCII digits and nothing else, the value within the range of `u64`. Any
/// other text, one with a `-` included, writes none.
pub open spec fn parsed_u64(text: Seq<char>) -> Option<u64> {
    let signed = text.len() > 0 && text[0] == '+';
    let digits = if signed {
        text.subrange(1, text.len() as int)
    } else {
        text
    };
    if digits.len() > 0 && (forall|i: int| 0 <= i < digits.len() ==> is_digit(#[trigger] digits[i]))
        && decimal_value(digits) <= u64::MAX {
        Some(decimal_value(digits) as u64)
    } else {
        None
    }
}

/// Reads an unsigned number in decimal.
///
/// Trusted: calls `str::parse::<u64>` and drops the error. The standard
/// library documents the accepted texts as an optional `+` followed by
/// digits only, with anything else, the empty text and a value out of range
/// being errors; the contract says the same.
#[verifier::external_body]
pub(crate) fn parse_u64(text: &str) -> (r: Option<u64>)
    ensures
        r == parsed_u64(text@),
{
    text.parse::<u64>().ok()
}

/// The 32-bit whole number that a text writes: the whole number it writes,
/// if that lies within the range of `i32`.
pub open spec fn parsed_i32(text: Seq<char>) -> Option<i32> {
    match parsed_i64(text) {
        Some(v) => if i32::MIN <= v <= i32::MAX {
            Some(v as i32)
        } else {
            None
        },
        None => None,
    }
}

/// Reads a 32-bit whole number in decimal.
pub fn parse_i32(text: &str) -> (r: Option<i32>)
    ensures
        r == parsed_i32(text@),
{
    match parse_i64(text) {
        Some(v) => {
            if v >= -2147483648 && v <= 2147483647 {
                Some(v as i32)
            } else {
                None
            }
        },
        None => None,
    }
}

} // verus!
