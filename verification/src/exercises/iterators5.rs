//! Counting the exercises that have come a given way.

use vstd::prelude::*;

verus! {

/// How far an exercise has come.
#[derive(Clone, Copy, Debug, PartialEq, Eq, Structural)]
pub enum Progress {
    /// Not begun.
    Untouched,
    /// Begun.
    Partial,
    /// Done.
    Complete,
}

/// The number of entries of `map` whose progress is `value`.
pub open spec fn count_of(map: Seq<(String, Progress)>, value: Progress) -> nat
    decreases map.len(),
{
    if map.len() == 0 {
        0
    } else if map.last().1 == value {
        count_of(map.drop_last(), value) + 1
    } else {
        count_of(map.drop_last(), value)
    }
}

/// The number of entries in all maps of `collection` whose progress is
/// `value`.
pub open spec fn count_in_all(collection: Seq<Vec<(String, Progress)>>, value: Progress) -> nat
    decreases collection.len(),
{
    if collection.len() == 0 {
        0
    } else {
        count_in_all(collection.drop_last(), value) + count_of(collection.last()@, value)
    }
}

/// Counts the entries of `map` whose progress is `value`, one by one.
pub fn count_for(map: &Vec<(String, Progress)>, value: Progress) -> (count: usize)
    ensures
        count == count_of(map@, value),
{
    let mut count: usize = 0;
    let mut i: usize = 0;
    while i < map.len()
        invariant
            i <= map.len(),
            count == count_of(map@.take(i as int), value),
            count <= i,
        decreases map.len() - i,
    {
        assert(map@.take(i + 1).drop_last() =~= map@.take(i as int));
        if map[i].1 == value {
            count = count + 1;
        }
        i = i + 1;
    }
    assert(map@.take(i as int) =~= map@);
    count
}

/// Counts the entries of `map` whose progress is `value`.
pub fn count_iterator(map: &Vec<(String, Progress)>, value: Progress) -> (count: usize)
    ensures
        count == count_of(map@, value),
{
    count_for(map, value)
}

/// Counts the entries in all maps of `collection` whose progress is `value`.
/// There are no more of them than a `usize` holds.
pub fn count_collection_iterator(collection: &Vec<Vec<(String, Progress)>>, value: Progress) -> (count:
    usize)
    requires
        count_in_all(collection@, value) <= usize::MAX,
    ensures
        count == count_in_all(collection@, value),
{
    let mut count: usize = 0;
    let mut i: usize = 0;
    while i < collection.len()
        invariant
            i <= collection.len(),
            count == count_in_all(collection@.take(i as int), value),
            count_in_all(collection@, value) <= usize::MAX,
        decreases collection.len() - i,
    {
        assert(collection@.take(i + 1).drop_last() =~= collection@.take(i as int));
        proof {
            lemma_count_in_all_grows(collection@, i as int + 1, value);
        }
        let here = count_for(&collection[i], value);
        count = count + here;
        i = i + 1;
    }
    assert(collection@.take(i as int) =~= collection@);
    count
}

/// The count over the first `n` maps is at most the count over all.
pub proof fn lemma_count_in_all_grows(
    collection: Seq<Vec<(String, Progress)>>,
    n: int,
    value: Progress,
)
    requires
        0 <= n <= collection.len(),
    ensures
        count_in_all(collection.take(n), value) <= count_in_all(collection, value),
    decreases collection.len() - n,
{
    if n < collection.len() {
        lemma_count_in_all_grows(collection, n + 1, value);
        assert(collection.take(n + 1).drop_last() =~= collection.take(n));
    } else {
        assert(collection.take(n) =~= collection);
    }
}

} // verus!
