//! A wrapper around a value of any type.

use vstd::prelude::*;

verus! {

/// Holds one value.
pub struct Wrapper<T> {
    pub value: T,
}

impl<T> Wrapper<T> {
    /// Wraps `value`.
    pub fn new(value: T) -> (wrapper: Wrapper<T>)
        ensures
            wrapper.value == value,
    {
        Wrapper { value }
    }
}

} // verus!
