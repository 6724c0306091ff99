//! Filling a vector.

use vstd::prelude::*;

verus! {

/// `vec` with 22, 44 and 66 added at its end.
pub fn fill_vec(vec: Vec<i32>) -> (filled: Vec<i32>)
    ensures
        filled@ == vec@ + seq![22i32, 44i32, 66i32],
{
    let mut filled = vec;
    filled.push(22);
    filled.push(44);
    filled.push(66);
    assert(filled@ =~= vec@ + seq![22i32, 44i32, 66i32]);
    filled
}

} // verus!
