//! Failure as a value: numbers that may not decode, and divisions that may
//! not be defined.

use crate::decimal;
use vstd::prelude::*;

verus! {

/// What is reported for text that is no number.
pub open spec fn invalid_number() -> Seq<char> {
    "invalid number"@
}

/// What is reported for a division by zero.
pub open spec fn division_by_zero() -> Seq<char> {
    "division by zero"@
}

/// The number that `s` is the decimal form of, or `None` if it is not the
/// decimal form of an `i32`.
pub fn decode(s: &str) -> (number: Option<i32>)
    ensures
        number == decimal::parse_i32(s@),
{
    decimal::parse(s)
}

/// The number that `s` is the decimal form of, or the reason why there is
/// none.
pub fn try_decode(s: &str) -> (number: Result<i32, &'static str>)
    ensures
        match number {
            Ok(n) => decimal::parse_i32(s@) == Some(n),
            Err(reason) => decimal::parse_i32(s@) is None && reason@ == invalid_number(),
        },
{
    match decimal::parse(s) {
        Some(n) => Ok(n),
        None => Err("invalid number"),
    }
}

/// What a division of one decoded text by another comes to: the two numbers
/// to divide, or the reason why the division has no result.
pub open spec fn division_of(numerator: Seq<char>, denominator: Seq<char>) -> Result<
    (i32, i32),
    Seq<char>,
> {
    match (decimal::parse_i32(numerator), decimal::parse_i32(denominator)) {
        (Some(n), Some(d)) => if d == 0 {
            Err(division_by_zero())
        } else {
            Ok((n, d))
        },
        _ => Err(invalid_number()),
    }
}

/// Decodes the two operands of a division and makes sure that the division
/// is defined. Text that is no number is reported first, the numerator's
/// before the denominator's; then a denominator of zero.
pub fn decode_division(numerator: &str, denominator: &str) -> (operands: Result<
    (i32, i32),
    &'static str,
>)
    ensures
        match operands {
            Ok(pair) => division_of(numerator@, denominator@) == Ok::<(i32, i32), Seq<char>>(pair),
            Err(reason) => division_of(numerator@, denominator@) == Err::<(i32, i32), Seq<char>>(
                reason@,
            ),
        },
{
    let n = try_decode(numerator)?;
    let d = try_decode(denominator)?;
    if d == 0 {
        Err("division by zero")
    } else {
        Ok((n, d))
    }
}

} // verus!
