//! The marker by which an author says that an exercise is not finished: a
//! line that holds, after optional white space and an optional comment leader
//! of one or two slashes, the words I AM NOT DONE in either case, with white
//! space between them.

use crate::text::{is_space, skip_spaces, skip_spaces_in};
use vstd::prelude::*;

verus! {

/// Whether `c` is the letter whose capital is `capital`, in either case.
pub open spec fn is_letter(c: char, capital: char) -> bool {
    c == capital || c as u32 == capital as u32 + 32
}

/// Whether the letters of `word`, given in capitals, stand in `s` from
/// position `at` on, each in either case.
pub open spec fn word_at(s: Seq<char>, at: int, word: Seq<char>) -> bool {
    &&& 0 <= at
    &&& at + word.len() <= s.len()
    &&& forall|i: int| 0 <= i < word.len() ==> is_letter(s[at + i], #[trigger] word[i])
}

/// The position behind a comment leader that starts at `from`: behind at most
/// two slashes, or `from` where no slash stands there.
pub open spec fn skip_leader(s: Seq<char>, from: int) -> int {
    if 0 <= from < s.len() && s[from] == '/' {
        if from + 1 < s.len() && s[from + 1] == '/' {
            from + 2
        } else {
            from + 1
        }
    } else {
        from
    }
}

/// The four words of the marker, in capitals.
pub open spec fn marker_words() -> Seq<Seq<char>> {
    seq![seq!['I'], seq!['A', 'M'], seq!['N', 'O', 'T'], seq!['D', 'O', 'N', 'E']]
}

/// Whether the words of `words` from index `k` on stand in `line` from
/// position `at` on, with white space before each of them but the first of
/// all, which stands at `at` itself.
pub open spec fn words_follow(line: Seq<char>, at: int, words: Seq<Seq<char>>, k: int) -> bool
    decreases words.len() - k,
{
    if 0 <= k < words.len() {
        let start = if k == 0 {
            at
        } else {
            skip_spaces(line, at)
        };
        &&& k > 0 ==> start > at
        &&& word_at(line, start, words[k])
        &&& words_follow(line, start + words[k].len(), words, k + 1)
    } else {
        true
    }
}

/// Whether `line` is a marker line: white space, a comment leader and white
/// space again, each of which may be missing, and then the marker's words.
/// What follows the last word does not matter.
pub open spec fn is_marker_line(line: Seq<char>) -> bool {
    let lead = skip_leader(line, skip_spaces(line, 0));
    words_follow(line, skip_spaces(line, lead), marker_words(), 0)
}

/// Whether only white space stands in `s` from position `from` up to `to`.
pub open spec fn all_spaces(s: Seq<char>, from: int, to: int) -> bool {
    0 <= from <= to <= s.len() && forall|i: int| from <= i < to ==> is_space(#[trigger] s[i])
}

/// Whether only slashes stand in `s` from position `from` up to `to`.
pub open spec fn all_slashes(s: Seq<char>, from: int, to: int) -> bool {
    0 <= from <= to <= s.len() && forall|i: int| from <= i < to ==> #[trigger] s[i] == '/'
}

/// Whether `line` is made up as a marker line is, with its parts at the
/// places that `p` names: white space up to `p[0]`; at most two slashes up
/// to `p[1]`; white space up to `p[2]`, where the word I stands; then white
/// space, at least one character of it, up to `p[3]`, where AM stands; then
/// white space again up to `p[4]`, where NOT stands; and white space once
/// more up to `p[5]`, where DONE stands.
pub open spec fn marker_shape(line: Seq<char>, p: Seq<int>) -> bool {
    &&& p.len() == 6
    &&& all_spaces(line, 0, p[0])
    &&& all_slashes(line, p[0], p[1])
    &&& p[1] - p[0] <= 2
    &&& all_spaces(line, p[1], p[2])
    &&& word_at(line, p[2], marker_words()[0])
    &&& all_spaces(line, p[2] + 1, p[3])
    &&& p[3] > p[2] + 1
    &&& word_at(line, p[3], marker_words()[1])
    &&& all_spaces(line, p[3] + 2, p[4])
    &&& p[4] > p[3] + 2
    &&& word_at(line, p[4], marker_words()[2])
    &&& all_spaces(line, p[4] + 3, p[5])
    &&& p[5] > p[4] + 3
    &&& word_at(line, p[5], marker_words()[3])
}

/// White space that ends before something that is none ends where
/// [`skip_spaces`] says.
proof fn lemma_spaces_end(s: Seq<char>, from: int, to: int)
    requires
        all_spaces(s, from, to),
        to < s.len(),
        !is_space(s[to]),
    ensures
        skip_spaces(s, from) == to,
    decreases to - from,
{
    if from < to {
        assert(is_space(s[from]));
        lemma_spaces_end(s, from + 1, to);
    }
}

/// A letter is no white space and no slash.
proof fn lemma_word_start(s: Seq<char>, at: int, k: int)
    requires
        0 <= k < 4,
        word_at(s, at, marker_words()[k]),
    ensures
        at < s.len(),
        !is_space(s[at]),
        s[at] != '/',
{
    assert(is_letter(s[at + 0], marker_words()[k][0]));
}

/// A line is a marker line exactly when it is made up as one: when there are
/// places at which its parts stand as [`marker_shape`] asks.
pub proof fn lemma_marker_grammar(line: Seq<char>)
    ensures
        is_marker_line(line) <==> exists|p: Seq<int>| #[trigger] marker_shape(line, p),
{
    let words = marker_words();
    let p0 = skip_spaces(line, 0);
    let p1 = skip_leader(line, p0);
    let p2 = skip_spaces(line, p1);
    let p3 = skip_spaces(line, p2 + 1);
    let p4 = skip_spaces(line, p3 + 2);
    let p5 = skip_spaces(line, p4 + 3);
    reveal_with_fuel(words_follow, 6);
    assert(words[0].len() == 1 && words[1].len() == 2 && words[2].len() == 3 && words[3].len()
        == 4);
    assert(is_marker_line(line) == {
        &&& word_at(line, p2, words[0])
        &&& p3 > p2 + 1 && word_at(line, p3, words[1])
        &&& p4 > p3 + 2 && word_at(line, p4, words[2])
        &&& p5 > p4 + 3 && word_at(line, p5, words[3])
    });
    if is_marker_line(line) {
        crate::text::lemma_skip_spaces(line, 0);
        crate::text::lemma_skip_spaces(line, p1);
        crate::text::lemma_skip_spaces(line, p2 + 1);
        crate::text::lemma_skip_spaces(line, p3 + 2);
        crate::text::lemma_skip_spaces(line, p4 + 3);
        let p = seq![p0, p1, p2, p3, p4, p5];
        assert(marker_shape(line, p));
    }
    if exists|p: Seq<int>| #[trigger] marker_shape(line, p) {
        let p = choose|p: Seq<int>| #[trigger] marker_shape(line, p);
        lemma_word_start(line, p[2], 0);
        lemma_word_start(line, p[3], 1);
        lemma_word_start(line, p[4], 2);
        lemma_word_start(line, p[5], 3);
        if p[1] > p[0] {
            assert(line[p[0]] == '/');
            assert(!is_space('/'));
            lemma_spaces_end(line, 0, p[0]);
            if p[1] == p[0] + 2 {
                assert(line[p[0] + 1] == '/');
            }
            if p[2] > p[1] {
                assert(is_space(line[p[1]]));
            }
            assert(line[p[1]] != '/');
            assert(p1 == p[1]);
            lemma_spaces_end(line, p[1], p[2]);
        } else {
            assert(all_spaces(line, 0, p[2]));
            lemma_spaces_end(line, 0, p[2]);
            assert(p0 == p[2]);
            assert(p1 == p[2]);
            assert(p2 == p[2]);
        }
        assert(p2 == p[2]);
        lemma_spaces_end(line, p[2] + 1, p[3]);
        lemma_spaces_end(line, p[3] + 2, p[4]);
        lemma_spaces_end(line, p[4] + 3, p[5]);
    }
}

/// Decides whether `c` is the letter `capital` in either case.
fn letter(c: char, capital: char) -> (yes: bool)
    requires
        'A' <= capital <= 'Z',
    ensures
        yes == is_letter(c, capital),
{
    c == capital || c as u32 == capital as u32 + 32
}

/// Decides [`word_at`].
fn has_word(s: &Vec<char>, at: usize, word: &Vec<char>) -> (yes: bool)
    requires
        forall|i: int| 0 <= i < word.len() ==> 'A' <= #[trigger] word[i] <= 'Z',
    ensures
        yes == word_at(s@, at as int, word@),
{
    if at > s.len() || word.len() > s.len() - at {
        return false;
    }
    let mut i: usize = 0;
    while i < word.len()
        invariant
            i <= word.len(),
            at + word.len() <= s.len(),
            forall|j: int| 0 <= j < word.len() ==> 'A' <= #[trigger] word[j] <= 'Z',
            forall|j: int| 0 <= j < i ==> is_letter(s[at + j], #[trigger] word[j]),
        decreases word.len() - i,
    {
        if !letter(s[at + i], word[i]) {
            return false;
        }
        i = i + 1;
    }
    true
}

/// Computes [`skip_leader`].
fn skip_leader_in(s: &Vec<char>, from: usize) -> (at: usize)
    requires
        from <= s.len(),
    ensures
        at == skip_leader(s@, from as int),
        from <= at <= s.len(),
{
    if from < s.len() && s[from] == '/' {
        if from + 1 < s.len() && s[from + 1] == '/' {
            from + 2
        } else {
            from + 1
        }
    } else {
        from
    }
}

/// The marker's words as vectors.
fn marker_word_list() -> (words: Vec<Vec<char>>)
    ensures
        words.len() == 4,
        forall|k: int| 0 <= k < 4 ==> (#[trigger] words[k])@ == marker_words()[k],
{
    let mut words: Vec<Vec<char>> = Vec::new();
    words.push(vec!['I']);
    words.push(vec!['A', 'M']);
    words.push(vec!['N', 'O', 'T']);
    words.push(vec!['D', 'O', 'N', 'E']);
    words
}

/// Decides [`is_marker_line`].
pub fn marker_line(line: &Vec<char>) -> (yes: bool)
    ensures
        yes == is_marker_line(line@),
{
    let words = marker_word_list();
    let lead = skip_leader_in(line, skip_spaces_in(line, 0));
    let mut at: usize = skip_spaces_in(line, lead);
    let mut k: usize = 0;
    while k < 4
        invariant
            k <= 4,
            at <= line.len(),
            words.len() == 4,
            forall|j: int| 0 <= j < 4 ==> (#[trigger] words[j])@ == marker_words()[j],
            is_marker_line(line@) == words_follow(line@, at as int, marker_words(), k as int),
        decreases 4 - k,
    {
        let start = if k == 0 {
            at
        } else {
            skip_spaces_in(line, at)
        };
        proof {
            crate::text::lemma_skip_spaces(line@, at as int);
        }
        assert(words[k as int]@ == marker_words()[k as int]);
        assert(words_follow(line@, at as int, marker_words(), k as int) == {
            &&& k > 0 ==> start > at
            &&& word_at(line@, start as int, marker_words()[k as int])
            &&& words_follow(
                line@,
                start + marker_words()[k as int].len(),
                marker_words(),
                k + 1,
            )
        });
        if k > 0 && start == at {
            return false;
        }
        assert(forall|i: int|
            0 <= i < words[k as int].len() ==> 'A' <= #[trigger] words[k as int][i] <= 'Z');
        if !has_word(line, start, &words[k]) {
            return false;
        }
        at = start + words[k].len();
        k = k + 1;
    }
    true
}

} // verus!
