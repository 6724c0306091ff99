//! Adding a word to a list of words.

use vstd::prelude::*;
use vstd::string::StringExecFns;

verus! {

/// Lists of words to which `Bar` can be added.
pub trait AppendBar: Sized {
    /// The list with `Bar` added at its end.
    fn append_bar(self) -> Self;
}

/// Whether `after` is `before` with the word `Bar` added at its end.
pub open spec fn bar_appended(before: Seq<String>, after: Seq<String>) -> bool {
    &&& after.len() == before.len() + 1
    &&& after.drop_last() == before
    &&& after.last()@ == "Bar"@
}

/// `words` with `Bar` added at its end.
pub fn with_bar(words: Vec<String>) -> (longer: Vec<String>)
    ensures
        bar_appended(words@, longer@),
{
    let mut longer = words;
    longer.push(String::from_str("Bar"));
    assert(longer@.drop_last() =~= words@);
    longer
}

impl AppendBar for Vec<String> {
    fn append_bar(self) -> (longer: Self)
        ensures
            bar_appended(self@, longer@),
    {
        with_bar(self)
    }
}

} // verus!
