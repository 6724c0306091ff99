//! Reading numbers from text, by the standard library.

use crate::text::{parsed_i32, parsed_u8};
use std::num::ParseIntError;
use vstd::prelude::*;

verus! {

/// The standard library's error for a text that is no number of the type
/// asked for. Nothing is known of what it holds.
#[verifier::external_type_specification]
#[verifier::external_body]
pub struct ExParseIntError(ParseIntError);

/// Calls `str::parse::<u8>` of the standard library. Its body is not
/// verified; by the library's description of the texts that it accepts, the
/// call succeeds exactly on an unsigned decimal numeral of a number up to
/// 255, and then returns that number.
#[verifier::external_body]
pub(crate) fn parse_u8(text: &str) -> (result: Result<u8, ParseIntError>)
    ensures
        result.is_ok() == parsed_u8(text@).is_some(),
        result matches Ok(value) ==> parsed_u8(text@) == Some(value),
{
    text.parse::<u8>()
}

/// Calls `str::parse::<i32>` of the standard library. Its body is not
/// verified; by the library's description of the texts that it accepts, the
/// call succeeds exactly on a decimal numeral, with or without a sign, of a
/// number in the range of `i32`, and then returns that number.
#[verifier::external_body]
pub(crate) fn parse_i32(text: &str) -> (result: Result<i32, ParseIntError>)
    ensures
        result.is_ok() == parsed_i32(text@).is_some(),
        result matches Ok(value) ==> parsed_i32(text@) == Some(value),
{
    text.parse::<i32>()
}

} // verus!
