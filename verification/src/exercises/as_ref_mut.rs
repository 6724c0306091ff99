//! Counting bytes and characters, and squaring in place.

use vstd::prelude::*;
use vstd::string::{StrSliceExecFns, StringSliceAdditionalSpecFns};

verus! {

/// The number of bytes that `arg` takes in UTF-8.
pub fn byte_counter(arg: &str) -> (count: usize)
    ensures
        count == arg.spec_bytes().len(),
{
    arg.as_bytes().len()
}

/// The number of characters of `arg`.
pub fn char_counter(arg: &str) -> (count: usize)
    ensures
        count == arg@.len(),
{
    arg.unicode_len()
}

/// Squares the number in place.
pub fn num_sq(arg: &mut u32)
    requires
        *old(arg) * *old(arg) <= u32::MAX,
    ensures
        *final(arg) == *old(arg) * *old(arg),
{
    *arg = *arg * *arg;
}

} // verus!
