//! Prices in a sale.

use vstd::prelude::*;

verus! {

/// Whether `num` is even.
pub open spec fn even(num: int) -> bool {
    num % 2 == 0
}

/// Decides whether `num` is even.
pub fn is_even(num: i32) -> (yes: bool)
    ensures
        yes == even(num as int),
{
    num % 2 == 0
}

/// The price in the sale: ten less for an even price, three less for an odd
/// one.
pub fn sale_price(price: i32) -> (reduced: i32)
    requires
        price - 10 >= i32::MIN,
    ensures
        reduced == if even(price as int) {
            price - 10
        } else {
            price - 3
        },
{
    if is_even(price) {
        price - 10
    } else {
        price - 3
    }
}

} // verus!
