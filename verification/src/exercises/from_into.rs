//! A person from a text of the form `name, age`, with a name and an age to
//! fall back on.

use crate::numbers::parse_u8;
use crate::text::{find, parsed_u8, position, to_chars, trim_span, trimmed};
use vstd::prelude::*;
use vstd::string::{StrSliceExecFns, StringExecFns};

verus! {

/// A person.
#[derive(Debug, PartialEq, Eq)]
pub struct Person {
    pub name: String,
    pub age: u8,
}

/// What a [`Person`] stands for.
pub struct PersonView {
    pub name: Seq<char>,
    pub age: u8,
}

impl View for Person {
    type V = PersonView;

    open spec fn view(&self) -> PersonView {
        PersonView { name: self.name@, age: self.age }
    }
}

/// What stands before the first comma of `s`, the white space around it left
/// out.
pub open spec fn name_field(s: Seq<char>) -> Seq<char> {
    trimmed(s.subrange(0, position(s, 0, ',')))
}

/// What stands between the first comma of `s` and the second, or the end,
/// the white space around it left out; nothing where `s` has no comma.
pub open spec fn age_field(s: Seq<char>) -> Option<Seq<char>> {
    let first = position(s, 0, ',');
    if first < s.len() {
        Some(trimmed(s.subrange(first + 1, position(s, first + 1, ','))))
    } else {
        None
    }
}

/// The person that the text `s` describes: the name is what stands before
/// the first comma, or Mike where nothing stands there; the age is the
/// number behind the first comma, or 0 where no number up to 255 stands
/// there.
pub open spec fn person_of(s: Seq<char>) -> PersonView {
    PersonView {
        name: if name_field(s).len() > 0 {
            name_field(s)
        } else {
            "Mike"@
        },
        age: match age_field(s) {
            Some(field) => match parsed_u8(field) {
                Some(age) => age,
                None => 0,
            },
            None => 0,
        },
    }
}

impl Person {
    /// Reads a person from a text: [`person_of`].
    pub fn from(s: &str) -> (person: Person)
        ensures
            person@ == person_of(s@),
    {
        let chars = to_chars(s);
        proof {
            crate::text::lemma_position(chars@, 0, ',');
        }
        let first = find(&chars, 0, ',');
        let (start, end) = trim_span(&chars, 0, first);
        let name = if start < end {
            String::from_str(s.substring_char(start, end))
        } else {
            String::from_str("Mike")
        };
        let age = if first < chars.len() {
            let second = find(&chars, first + 1, ',');
            let (start, end) = trim_span(&chars, first + 1, second);
            match parse_u8(s.substring_char(start, end)) {
                Ok(age) => age,
                Err(_) => 0,
            }
        } else {
            0
        };
        Person { name, age }
    }
}

} // verus!
