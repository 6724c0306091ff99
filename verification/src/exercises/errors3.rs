//! The cost of an order, from the number of items as the user typed it.

use crate::numbers::parse_i32;
use crate::text::parsed_i32;
use std::num::ParseIntError;
use vstd::prelude::*;

verus! {

/// The cost of `quantity` items: five for each, and one for the order.
pub open spec fn cost_of(quantity: int) -> int {
    quantity * 5 + 1
}

/// The cost of the order whose number of items is written in
/// `item_quantity`, or what the standard library found wrong with that text
/// where it is no number. The cost of the number written there is in the
/// range of `i32`.
pub fn total_cost(item_quantity: &str) -> (result: Result<i32, ParseIntError>)
    requires
        parsed_i32(item_quantity@) matches Some(quantity) ==> i32::MIN <= cost_of(quantity as int)
            <= i32::MAX,
    ensures
        result.is_ok() == parsed_i32(item_quantity@).is_some(),
        result matches Ok(cost) ==> cost == cost_of(parsed_i32(item_quantity@)->Some_0 as int),
{
    let processing_fee = 1i32;
    let cost_per_item = 5i32;
    match parse_i32(item_quantity) {
        Ok(quantity) => Ok(quantity * cost_per_item + processing_fee),
        Err(error) => Err(error),
    }
}

} // verus!
