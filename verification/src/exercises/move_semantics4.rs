//! Filling a vector.

use vstd::prelude::*;

verus! {

/// A new vector that holds 22, 44 and 66.
pub fn fill_vec() -> (filled: Vec<i32>)
    ensures
        filled@ == Seq::<i32>::empty() + seq![22i32, 44i32, 66i32],
{
    let mut filled: Vec<i32> = Vec::new();
    filled.push(22);
    filled.push(44);
    filled.push(66);
    assert(filled@ =~= Seq::<i32>::empty() + seq![22i32, 44i32, 66i32]);
    filled
}

} // verus!
