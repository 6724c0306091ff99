//! Finding an exercise by its name, and choosing the exercises to list.

use crate::exercise::Exercise;
use crate::letters::{lowercase, to_lowercase};
use crate::text::{
    contains_part, holds, split_fields, to_chars, trim_span, trimmed_fields,
};
use vstd::prelude::*;
use vstd::string::StrSliceExecFns;

verus! {

/// What a search for an exercise found.
#[derive(Clone, Copy, Debug, PartialEq, Eq)]
pub enum Lookup {
    /// The exercise of this index.
    Found(usize),
    /// Nothing, because every exercise is finished.
    AllDone,
    /// Nothing, because no exercise has that name.
    Unknown,
}

/// Whether the exercise of index `i` is finished by what `done` says: `done`
/// holds one entry for each exercise, and an exercise without an entry is
/// not finished.
pub open spec fn is_done(done: Seq<bool>, i: int) -> bool {
    0 <= i < done.len() && done[i]
}

/// The index of the first of `count` exercises at or after `from` that is
/// not finished, or `count` where there is none.
pub open spec fn first_open(done: Seq<bool>, count: int, from: int) -> int
    decreases count - from,
{
    if 0 <= from < count && is_done(done, from) {
        first_open(done, count, from + 1)
    } else {
        from
    }
}

/// The index of the first exercise at or after `from` whose name is `name`,
/// or the number of exercises where there is none.
pub open spec fn first_named(exercises: Seq<Exercise>, name: Seq<char>, from: int) -> int
    decreases exercises.len() - from,
{
    if 0 <= from < exercises.len() && exercises[from].name@ != name {
        first_named(exercises, name, from + 1)
    } else {
        from
    }
}

/// What a search for `name` among `exercises` finds. The name `next` stands
/// for the first exercise that is not finished; any other name for the first
/// exercise of that name.
pub open spec fn lookup(name: Seq<char>, exercises: Seq<Exercise>, done: Seq<bool>) -> Lookup {
    if name == "next"@ {
        let i = first_open(done, exercises.len() as int, 0);
        if i < exercises.len() {
            Lookup::Found(i as usize)
        } else {
            Lookup::AllDone
        }
    } else {
        let i = first_named(exercises, name, 0);
        if i < exercises.len() {
            Lookup::Found(i as usize)
        } else {
            Lookup::Unknown
        }
    }
}

/// Searches `exercises` for `name`: [`lookup`]. `done` says of each exercise
/// whether it is finished.
pub fn find_exercise(name: &str, exercises: &Vec<Exercise>, done: &Vec<bool>) -> (found: Lookup)
    ensures
        found == lookup(name@, exercises@, done@),
{
    let wanted = name.to_owned();
    let next = "next".to_owned();
    let mut i: usize = 0;
    if wanted == next {
        while i < exercises.len() && i < done.len() && done[i]
            invariant
                i <= exercises.len(),
                first_open(done@, exercises.len() as int, 0) == first_open(
                    done@,
                    exercises.len() as int,
                    i as int,
                ),
            decreases exercises.len() - i,
        {
            i = i + 1;
        }
        if i < exercises.len() {
            Lookup::Found(i)
        } else {
            Lookup::AllDone
        }
    } else {
        while i < exercises.len() && exercises[i].name != wanted
            invariant
                i <= exercises.len(),
                first_named(exercises@, wanted@, 0) == first_named(exercises@, wanted@, i as int),
            decreases exercises.len() - i,
        {
            i = i + 1;
        }
        if i < exercises.len() {
            Lookup::Found(i)
        } else {
            Lookup::Unknown
        }
    }
}

/// The views of the strings of `v`, in order.
pub open spec fn part_views(v: Seq<String>) -> Seq<Seq<char>> {
    Seq::new(v.len(), |i: int| v[i]@)
}

/// The parts of the filter `filter`: its fields between commas, in lower
/// case and without the white space around them.
pub fn filter_parts(filter: &str) -> (parts: Vec<String>)
    ensures
        part_views(parts@) == trimmed_fields(lowercase(filter@), ','),
{
    let lower = to_lowercase(filter);
    let chars = to_chars(lower.as_str());
    let spans = split_fields(&chars, ',');
    let ghost fields = crate::text::fields_from(chars@, 0, ',');
    let mut parts: Vec<String> = Vec::new();
    let mut i: usize = 0;
    while i < spans.len()
        invariant
            i <= spans.len(),
            parts.len() == i,
            chars@ == lower@,
            fields == crate::text::fields_from(chars@, 0, ','),
            spans.len() == fields.len(),
            forall|k: int|
                0 <= k < spans.len() ==> {
                    &&& (#[trigger] spans[k]).0 <= spans[k].1 <= chars.len()
                    &&& chars@.subrange(spans[k].0 as int, spans[k].1 as int) == fields[k]
                },
            forall|k: int| 0 <= k < i ==> (#[trigger] parts[k])@ == crate::text::trimmed(fields[k]),
        decreases spans.len() - i,
    {
        let (start, end) = trim_span(&chars, spans[i].0, spans[i].1);
        parts.push(lower.as_str().substring_char(start, end).to_owned());
        i = i + 1;
    }
    assert(part_views(parts@) =~= trimmed_fields(lowercase(filter@), ','));
    parts
}

/// Whether the part `part` chooses the exercise with this name and path: it
/// is not empty and stands in one of the two.
pub open spec fn part_chooses(part: Seq<char>, name: Seq<char>, path: Seq<char>) -> bool {
    part.len() > 0 && (holds(name, part) || holds(path, part))
}

/// Whether the filter with the parts `parts` lets the exercise with this
/// name and path through: one of its parts chooses the exercise, or it has
/// no part at all.
pub open spec fn filter_chooses(parts: Seq<Seq<char>>, name: Seq<char>, path: Seq<char>) -> bool {
    parts.len() == 0 || exists|i: int|
        0 <= i < parts.len() && part_chooses(#[trigger] parts[i], name, path)
}

/// Decides [`filter_chooses`].
pub fn filter_match(parts: &Vec<String>, name: &str, path: &str) -> (yes: bool)
    ensures
        yes == filter_chooses(part_views(parts@), name@, path@),
{
    if parts.len() == 0 {
        return true;
    }
    let name_chars = to_chars(name);
    let path_chars = to_chars(path);
    let mut i: usize = 0;
    while i < parts.len()
        invariant
            i <= parts.len(),
            name_chars@ == name@,
            path_chars@ == path@,
            forall|k: int|
                0 <= k < i ==> !part_chooses(#[trigger] part_views(parts@)[k], name@, path@),
        decreases parts.len() - i,
    {
        let part = to_chars(parts[i].as_str());
        assert(part@ == part_views(parts@)[i as int]);
        if part.len() > 0 && (contains_part(&name_chars, &part) || contains_part(
            &path_chars,
            &part,
        )) {
            return true;
        }
        i = i + 1;
    }
    false
}

/// Whether an exercise is listed by its state: with `solved` alone set only
/// finished exercises are listed, with `unsolved` alone only the others, and
/// else all.
pub fn status_match(solved: bool, unsolved: bool, is_done: bool) -> (yes: bool)
    ensures
        yes == if solved && !unsolved {
            is_done
        } else if unsolved && !solved {
            !is_done
        } else {
            true
        },
{
    match (solved, unsolved) {
        (true, false) => is_done,
        (false, true) => !is_done,
        _ => true,
    }
}

} // verus!
