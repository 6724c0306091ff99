//! The kinds and the case of letters, by the standard library.

use vstd::prelude::*;

verus! {

/// `s` in lower case, as `str::to_lowercase` of the standard library writes
/// it.
pub uninterp spec fn lowercase(s: Seq<char>) -> Seq<char>;

/// `c` in upper case, as `char::to_uppercase` of the standard library writes
/// it: one character or more.
pub uninterp spec fn uppercase_of(c: char) -> Seq<char>;

/// Calls `str::to_lowercase` of the standard library. Nothing is proved of
/// it: the result is what [`lowercase`] names.
#[verifier::external_body]
pub(crate) fn to_lowercase(text: &str) -> (lower: String)
    ensures
        lower@ == lowercase(text@),
{
    text.to_lowercase()
}

/// Calls `char::to_uppercase` of the standard library and gathers the
/// characters that it gives. Nothing is proved of it: the result is what
/// [`uppercase_of`] names.
#[verifier::external_body]
pub(crate) fn to_uppercase(c: char) -> (upper: String)
    ensures
        upper@ == uppercase_of(c),
{
    c.to_uppercase().collect()
}

/// Whether `c` is a letter or a number, as `char::is_alphanumeric` of the
/// standard library sees it.
pub uninterp spec fn is_alphanumeric(c: char) -> bool;

/// Calls `char::is_alphanumeric` of the standard library. Nothing is proved of
/// it: the result is what [`is_alphanumeric`] names.
#[verifier::external_body]
pub(crate) fn alphanumeric(c: char) -> (yes: bool)
    ensures
        yes == is_alphanumeric(c),
{
    c.is_alphanumeric()
}

} // verus!
