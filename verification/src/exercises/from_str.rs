//! A person from a text of the form `name, age`, or the reason why the text
//! describes none.

use crate::numbers::parse_u8;
use crate::text::{find, parsed_u8, position, to_chars, trim_bounds, trim_span, trimmed};
use std::num::ParseIntError;
use vstd::prelude::*;
use vstd::string::{StrSliceExecFns, StringExecFns};

verus! {

/// A person.
#[derive(Debug, PartialEq, Eq)]
pub struct Person {
    pub name: String,
    pub age: u8,
}

/// Why a text describes no person.
#[derive(Debug, PartialEq, Eq)]
pub enum ParsePersonError {
    /// The text is empty.
    Empty,
    /// The text has not exactly two fields, or its second field is empty.
    BadLen,
    /// The name is empty.
    NoName,
    /// The age is no number up to 255; this is what the standard library
    /// found wrong with it.
    ParseInt(ParseIntError),
}

/// What reading a person from a text gives: the person's name and age, or
/// the kind of the error.
pub enum Reading {
    Person { name: Seq<char>, age: u8 },
    Empty,
    BadLen,
    NoName,
    ParseInt,
}

/// What a result of [`Person::from_str`] stands for.
pub open spec fn reading_of(result: Result<Person, ParsePersonError>) -> Reading {
    match result {
        Ok(person) => Reading::Person { name: person.name@, age: person.age },
        Err(ParsePersonError::Empty) => Reading::Empty,
        Err(ParsePersonError::BadLen) => Reading::BadLen,
        Err(ParsePersonError::NoName) => Reading::NoName,
        Err(ParsePersonError::ParseInt(_)) => Reading::ParseInt,
    }
}

/// What the text `s` gives when read as a person. White space around the
/// text and around its fields does not count. The text must hold exactly two
/// fields with one comma between them: a name that is not empty, and an age
/// that is a number up to 255. An empty text is told apart from one with the
/// wrong number of fields; a missing age counts as a wrong number of fields,
/// and a missing name goes before it.
pub open spec fn read_person(s: Seq<char>) -> Reading {
    let t = trimmed(s);
    let comma = position(t, 0, ',');
    if t.len() == 0 {
        Reading::Empty
    } else if comma == t.len() || position(t, comma + 1, ',') < t.len() {
        Reading::BadLen
    } else {
        let name = trimmed(t.subrange(0, comma));
        let age = trimmed(t.subrange(comma + 1, t.len() as int));
        if name.len() == 0 {
            Reading::NoName
        } else if age.len() == 0 {
            Reading::BadLen
        } else {
            match parsed_u8(age) {
                Some(age) => Reading::Person { name, age },
                None => Reading::ParseInt,
            }
        }
    }
}

impl Person {
    /// Reads a person from a text: [`read_person`].
    pub fn from_str(s: &str) -> (result: Result<Person, ParsePersonError>)
        ensures
            reading_of(result) == read_person(s@),
    {
        let all = to_chars(s);
        let (from, to) = trim_bounds(&all);
        let text = s.substring_char(from, to);
        let chars = to_chars(text);
        if chars.len() == 0 {
            return Err(ParsePersonError::Empty);
        }
        proof {
            crate::text::lemma_position(chars@, 0, ',');
        }
        let comma = find(&chars, 0, ',');
        if comma == chars.len() {
            return Err(ParsePersonError::BadLen);
        }
        proof {
            crate::text::lemma_position(chars@, comma + 1, ',');
        }
        if find(&chars, comma + 1, ',') < chars.len() {
            return Err(ParsePersonError::BadLen);
        }
        let (name_start, name_end) = trim_span(&chars, 0, comma);
        if name_start == name_end {
            return Err(ParsePersonError::NoName);
        }
        let (age_start, age_end) = trim_span(&chars, comma + 1, chars.len());
        if age_start == age_end {
            return Err(ParsePersonError::BadLen);
        }
        match parse_u8(text.substring_char(age_start, age_end)) {
            Ok(age) => Ok(
                Person { name: String::from_str(text.substring_char(name_start, name_end)), age },
            ),
            Err(error) => Err(ParsePersonError::ParseInt(error)),
        }
    }
}

} // verus!
