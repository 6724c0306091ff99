//! A queue of numbers cut in two, one half for each of two senders.

use vstd::prelude::*;

verus! {

/// The two halves of `q`: the first holds the first half of its numbers,
/// rounded down, and the second the rest, both in their order.
pub fn halves(q: &Vec<u32>) -> (parts: (Vec<u32>, Vec<u32>))
    ensures
        parts.0@ == q@.subrange(0, q@.len() as int / 2),
        parts.1@ == q@.subrange(q@.len() as int / 2, q@.len() as int),
        parts.0@ + parts.1@ == q@,
{
    let middle = q.len() / 2;
    let mut first: Vec<u32> = Vec::new();
    let mut second: Vec<u32> = Vec::new();
    let mut i: usize = 0;
    while i < q.len()
        invariant
            i <= q.len(),
            middle == q@.len() / 2,
            first@ == q@.subrange(0, if i < middle { i as int } else { middle as int }),
            second@ == q@.subrange(middle as int, if i < middle { middle as int } else { i as int }),
        decreases q.len() - i,
    {
        if i < middle {
            first.push(q[i]);
        } else {
            second.push(q[i]);
        }
        i = i + 1;
    }
    assert(first@ + second@ =~= q@);
    (first, second)
}

} // verus!
