//! Reading a text without taking it.

use vstd::prelude::*;
use vstd::string::StrSliceExecFns;

verus! {

/// The last character of `data`, which is not empty.
pub fn get_char(data: &String) -> (last: char)
    requires
        data@.len() > 0,
    ensures
        last == data@.last(),
{
    let text = data.as_str();
    let n = text.unicode_len();
    text.get_char(n - 1)
}

} // verus!
