//! Words with a capital first letter.

use crate::text::to_chars;
use vstd::prelude::*;
use vstd::string::{StrSliceExecFns, StringExecFns};

verus! {

/// The capital of `c` where `c` is one of the letters `a` to `z`, and `c`
/// itself where it is not.
pub open spec fn capital(c: char) -> char {
    if 'a' <= c <= 'z' {
        ((c as u32 - 32) as char)
    } else {
        c
    }
}

/// `s` with the capital of its first character in that character's place.
pub open spec fn capitalized(s: Seq<char>) -> Seq<char> {
    if s.len() == 0 {
        s
    } else {
        seq![capital(s[0])] + s.subrange(1, s.len() as int)
    }
}

/// The words of `words`, each capitalized.
pub open spec fn all_capitalized(words: Seq<Seq<char>>) -> Seq<Seq<char>> {
    Seq::new(words.len(), |i: int| capitalized(words[i]))
}

/// The words of `words`, written one behind the other.
pub open spec fn joined(words: Seq<Seq<char>>) -> Seq<char>
    decreases words.len(),
{
    if words.len() == 0 {
        Seq::empty()
    } else {
        joined(words.drop_last()) + words.last()
    }
}

/// The views of the texts of `v`, in order.
pub open spec fn str_views(v: Seq<&str>) -> Seq<Seq<char>> {
    Seq::new(v.len(), |i: int| v[i]@)
}

/// The views of the strings of `v`, in order.
pub open spec fn string_views(v: Seq<String>) -> Seq<Seq<char>> {
    Seq::new(v.len(), |i: int| v[i]@)
}

/// The capital of the letter `c`, which is one of `a` to `z`, as a text.
fn capital_text(c: char) -> (text: &'static str)
    requires
        'a' <= c <= 'z',
    ensures
        text@ == seq![capital(c)],
{
    let capitals = "ABCDEFGHIJKLMNOPQRSTUVWXYZ";
    proof {
        reveal_strlit("ABCDEFGHIJKLMNOPQRSTUVWXYZ");
    }
    let at = (c as u32 - 'a' as u32) as usize;
    let text = capitals.substring_char(at, at + 1);
    assert(text@ =~= seq![capital(c)]);
    text
}

/// `input` with the capital of its first character in that character's
/// place: [`capitalized`].
pub fn capitalize_first(input: &str) -> (output: String)
    ensures
        output@ == capitalized(input@),
{
    let n = input.unicode_len();
    if n == 0 {
        return String::new();
    }
    let first = input.get_char(0);
    let mut output = if 'a' <= first && first <= 'z' {
        String::from_str(capital_text(first))
    } else {
        String::from_str(input.substring_char(0, 1))
    };
    output.append(input.substring_char(1, n));
    assert(output@ =~= capitalized(input@));
    output
}

/// The words of `words`, each capitalized.
pub fn capitalize_words_vector(words: &[&str]) -> (output: Vec<String>)
    ensures
        string_views(output@) == all_capitalized(str_views(words@)),
{
    let mut output: Vec<String> = Vec::new();
    let mut i: usize = 0;
    while i < words.len()
        invariant
            i <= words.len(),
            output.len() == i,
            forall|k: int| 0 <= k < i ==> (#[trigger] output[k])@ == capitalized(words[k]@),
        decreases words.len() - i,
    {
        output.push(capitalize_first(words[i]));
        i = i + 1;
    }
    assert(string_views(output@) =~= all_capitalized(str_views(words@)));
    output
}

/// The words of `words`, each capitalized, written one behind the other.
pub fn capitalize_words_string(words: &[&str]) -> (output: String)
    ensures
        output@ == joined(all_capitalized(str_views(words@))),
{
    let mut output = String::new();
    let ghost all = all_capitalized(str_views(words@));
    let mut i: usize = 0;
    while i < words.len()
        invariant
            i <= words.len(),
            all == all_capitalized(str_views(words@)),
            output@ == joined(all.take(i as int)),
        decreases words.len() - i,
    {
        let word = capitalize_first(words[i]);
        assert(all.take(i + 1).drop_last() =~= all.take(i as int));
        output.append(word.as_str());
        i = i + 1;
    }
    assert(all.take(i as int) =~= all);
    output
}

} // verus!
