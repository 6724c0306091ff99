//! The price of apples.

use vstd::prelude::*;

verus! {

/// The price of `number` apples: two apiece, and one apiece for more than
/// forty.
pub fn calculate_price_of_apples(number: i32) -> (price: i32)
    requires
        i32::MIN <= number * 2 <= i32::MAX,
    ensures
        price == if number > 40 {
            number as int
        } else {
            number * 2
        },
{
    if number > 40 {
        number
    } else {
        number * 2
    }
}

} // verus!
