//! Even and odd numbers.

use vstd::prelude::*;

verus! {

/// Decides whether `num` is even.
pub fn is_even(num: i32) -> (yes: bool)
    ensures
        yes == (num % 2 == 0),
{
    num % 2 == 0
}

} // verus!
