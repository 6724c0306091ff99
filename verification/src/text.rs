//! Text as a sequence of characters: the groundwork for everything here that
//! reads source text, command lines or names.

use vstd::prelude::*;
use vstd::string::{StrSliceExecFns, StringExecFns};

verus! {

/// The characters of `text`, in order.
pub fn to_chars(text: &str) -> (chars: Vec<char>)
    ensures
        chars@ == text@,
{
    let mut chars: Vec<char> = Vec::new();
    for c in it: text.chars()
        invariant
            it.seq() == text@,
            chars@ == it.seq().take(it.index() as int),
    {
        chars.push(c);
    }
    chars
}

/// Whether `c` is white space: the characters with Unicode's `White_Space`
/// property.
pub open spec fn is_space(c: char) -> bool {
    ||| c == ' '
    ||| '\u{9}' <= c <= '\u{d}'
    ||| c == '\u{85}'
    ||| c == '\u{a0}'
    ||| c == '\u{1680}'
    ||| '\u{2000}' <= c <= '\u{200a}'
    ||| c == '\u{2028}'
    ||| c == '\u{2029}'
    ||| c == '\u{202f}'
    ||| c == '\u{205f}'
    ||| c == '\u{3000}'
}

/// Decides [`is_space`].
pub fn space(c: char) -> (yes: bool)
    ensures
        yes == is_space(c),
{
    c == ' ' || ('\u{9}' <= c && c <= '\u{d}') || c == '\u{85}' || c == '\u{a0}' || c
        == '\u{1680}' || ('\u{2000}' <= c && c <= '\u{200a}') || c == '\u{2028}' || c
        == '\u{2029}' || c == '\u{202f}' || c == '\u{205f}' || c == '\u{3000}'
}

/// The first position at or after `from` that holds no white space, or the
/// length of `s` where only white space follows.
pub open spec fn skip_spaces(s: Seq<char>, from: int) -> int
    decreases s.len() - from,
{
    if 0 <= from < s.len() && is_space(s[from]) {
        skip_spaces(s, from + 1)
    } else {
        from
    }
}

/// What [`skip_spaces`] returns lies between `from` and the end, everything
/// before it is white space, and what stands at it is not.
pub proof fn lemma_skip_spaces(s: Seq<char>, from: int)
    requires
        0 <= from <= s.len(),
    ensures
        from <= skip_spaces(s, from) <= s.len(),
        forall|i: int| from <= i < skip_spaces(s, from) ==> is_space(#[trigger] s[i]),
        skip_spaces(s, from) < s.len() ==> !is_space(s[skip_spaces(s, from)]),
    decreases s.len() - from,
{
    if from < s.len() && is_space(s[from]) {
        lemma_skip_spaces(s, from + 1);
    }
}

/// Computes [`skip_spaces`].
pub fn skip_spaces_in(s: &Vec<char>, from: usize) -> (at: usize)
    requires
        from <= s.len(),
    ensures
        at == skip_spaces(s@, from as int),
        from <= at <= s.len(),
{
    let mut at: usize = from;
    while at < s.len() && space(s[at])
        invariant
            from <= at <= s.len(),
            skip_spaces(s@, from as int) == skip_spaces(s@, at as int),
        decreases s.len() - at,
    {
        at = at + 1;
    }
    at
}

/// The first position at or after `from` that holds a line feed, or the
/// length of `s` where none follows.
pub open spec fn line_feed(s: Seq<char>, from: int) -> int
    decreases s.len() - from,
{
    if 0 <= from < s.len() && s[from] != '\n' {
        line_feed(s, from + 1)
    } else {
        from
    }
}

/// What [`line_feed`] returns lies between `from` and the end, and no line
/// feed stands before it.
pub proof fn lemma_line_feed(s: Seq<char>, from: int)
    requires
        0 <= from <= s.len(),
    ensures
        from <= line_feed(s, from) <= s.len(),
        forall|i: int| from <= i < line_feed(s, from) ==> #[trigger] s[i] != '\n',
        line_feed(s, from) < s.len() ==> s[line_feed(s, from)] == '\n',
    decreases s.len() - from,
{
    if from < s.len() && s[from] != '\n' {
        lemma_line_feed(s, from + 1);
    }
}

/// Where the text of the line that starts at `from` stops: at its line feed,
/// or one earlier where a carriage return stands directly before that line
/// feed, or at the end of `s` where the last line has no line feed.
pub open spec fn line_stop(s: Seq<char>, from: int) -> int {
    let feed = line_feed(s, from);
    if from < feed < s.len() && s[feed - 1] == '\r' {
        feed - 1
    } else {
        feed
    }
}

/// The lines of `s` from position `from` on. A line ends with a line feed or
/// with a carriage return and a line feed, neither of which belongs to it; the
/// last line may end with the text.
pub open spec fn lines_from(s: Seq<char>, from: int) -> Seq<Seq<char>>
    decreases s.len() - from,
{
    if 0 <= from < s.len() {
        proof {
            lemma_line_feed(s, from);
        }
        let rest = if line_feed(s, from) < s.len() {
            lines_from(s, line_feed(s, from) + 1)
        } else {
            Seq::empty()
        };
        seq![s.subrange(from, line_stop(s, from))] + rest
    } else {
        Seq::empty()
    }
}

/// The lines of `s`.
pub open spec fn lines(s: Seq<char>) -> Seq<Seq<char>> {
    lines_from(s, 0)
}

/// A text has at most as many lines as it has characters left.
pub proof fn lemma_lines_len(s: Seq<char>, from: int)
    requires
        0 <= from <= s.len(),
    ensures
        lines_from(s, from).len() <= s.len() - from,
    decreases s.len() - from,
{
    if from < s.len() {
        lemma_line_feed(s, from);
        if line_feed(s, from) < s.len() {
            lemma_lines_len(s, line_feed(s, from) + 1);
        }
    }
}

/// Where each line of `s` starts and stops: the line of index `i` is
/// `s[spans[i].0 .. spans[i].1]`.
pub fn split_lines(s: &Vec<char>) -> (spans: Vec<(usize, usize)>)
    ensures
        spans.len() == lines(s@).len(),
        forall|i: int|
            0 <= i < spans.len() ==> {
                &&& (#[trigger] spans[i]).0 <= spans[i].1 <= s.len()
                &&& s@.subrange(spans[i].0 as int, spans[i].1 as int) == lines(s@)[i]
            },
{
    let mut spans: Vec<(usize, usize)> = Vec::new();
    let mut from: usize = 0;
    let ghost mut done: Seq<Seq<char>> = Seq::empty();
    while from < s.len()
        invariant
            from <= s.len(),
            done.len() == spans.len(),
            lines(s@) == done + lines_from(s@, from as int),
            forall|i: int|
                0 <= i < spans.len() ==> {
                    &&& (#[trigger] spans[i]).0 <= spans[i].1 <= s.len()
                    &&& s@.subrange(spans[i].0 as int, spans[i].1 as int) == done[i]
                },
        decreases s.len() - from,
    {
        let mut feed: usize = from;
        while feed < s.len() && s[feed] != '\n'
            invariant
                from <= feed <= s.len(),
                line_feed(s@, from as int) == line_feed(s@, feed as int),
            decreases s.len() - feed,
        {
            feed = feed + 1;
        }
        let stop: usize = if from < feed && feed < s.len() && s[feed - 1] == '\r' {
            feed - 1
        } else {
            feed
        };
        proof {
            let line = s@.subrange(from as int, stop as int);
            let next = if feed < s.len() {
                feed + 1
            } else {
                feed as int
            };
            assert(lines_from(s@, from as int) == seq![line] + lines_from(s@, next));
            assert(done + (seq![line] + lines_from(s@, next)) == done.push(line) + lines_from(
                s@,
                next,
            ));
            done = done.push(line);
        }
        spans.push((from, stop));
        if feed < s.len() {
            from = feed + 1;
        } else {
            from = feed;
        }
    }
    assert(lines_from(s@, from as int) == Seq::<Seq<char>>::empty());
    assert(done + Seq::<Seq<char>>::empty() == done);
    spans
}

/// The characters of `s` from position `from` up to `to`.
pub fn copy_range(s: &Vec<char>, from: usize, to: usize) -> (part: Vec<char>)
    requires
        from <= to <= s.len(),
    ensures
        part@ == s@.subrange(from as int, to as int),
{
    let mut part: Vec<char> = Vec::new();
    let mut i: usize = from;
    while i < to
        invariant
            from <= i <= to <= s.len(),
            part@ == s@.subrange(from as int, i as int),
        decreases to - i,
    {
        part.push(s[i]);
        i = i + 1;
    }
    part
}

/// The ten digits.
pub open spec fn digits() -> Seq<char> {
    seq!['0', '1', '2', '3', '4', '5', '6', '7', '8', '9']
}

/// Whether `c` is one of the ten digits.
pub open spec fn is_digit(c: char) -> bool {
    '0' <= c <= '9'
}

/// The number that the digit `c` stands for.
pub open spec fn digit_value(c: char) -> int {
    c as u32 - '0' as u32
}

/// The decimal numeral of `n`, without leading zeros.
pub open spec fn decimal(n: nat) -> Seq<char>
    decreases n,
{
    if n < 10 {
        seq![digits()[n as int]]
    } else {
        decimal(n / 10).push(digits()[(n % 10) as int])
    }
}

/// The number that the numeral `s` stands for.
pub open spec fn numeral_value(s: Seq<char>) -> int
    decreases s.len(),
{
    if s.len() == 0 {
        0
    } else {
        numeral_value(s.drop_last()) * 10 + digit_value(s.last())
    }
}

/// A numeral is not empty, holds digits only, and stands for its number.
pub proof fn lemma_decimal(n: nat)
    ensures
        decimal(n).len() > 0,
        forall|i: int| 0 <= i < decimal(n).len() ==> is_digit(#[trigger] decimal(n)[i]),
        numeral_value(decimal(n)) == n,
    decreases n,
{
    if n < 10 {
        assert(decimal(n).drop_last() =~= Seq::<char>::empty());
        assert(numeral_value(decimal(n)) == numeral_value(Seq::<char>::empty()) * 10
            + digit_value(decimal(n).last()));
    } else {
        lemma_decimal(n / 10);
        assert(decimal(n).drop_last() =~= decimal(n / 10));
    }
}

/// Different numbers have different numerals.
pub proof fn lemma_decimal_injective(a: nat, b: nat)
    requires
        decimal(a) == decimal(b),
    ensures
        a == b,
{
    lemma_decimal(a);
    lemma_decimal(b);
}

/// The digit of `d` as a text of one character.
fn digit_text(d: u32) -> (text: &'static str)
    requires
        d < 10,
    ensures
        text@ == seq![digits()[d as int]],
{
    proof {
        reveal_strlit("0");
        reveal_strlit("1");
        reveal_strlit("2");
        reveal_strlit("3");
        reveal_strlit("4");
        reveal_strlit("5");
        reveal_strlit("6");
        reveal_strlit("7");
        reveal_strlit("8");
        reveal_strlit("9");
    }
    let text = if d == 0 {
        "0"
    } else if d == 1 {
        "1"
    } else if d == 2 {
        "2"
    } else if d == 3 {
        "3"
    } else if d == 4 {
        "4"
    } else if d == 5 {
        "5"
    } else if d == 6 {
        "6"
    } else if d == 7 {
        "7"
    } else if d == 8 {
        "8"
    } else {
        "9"
    };
    assert(text@ =~= seq![digits()[d as int]]);
    text
}

/// Writes out [`decimal`].
pub fn decimal_text(n: u32) -> (text: String)
    ensures
        text@ == decimal(n as nat),
    decreases n,
{
    if n < 10 {
        String::from_str(digit_text(n))
    } else {
        let mut text = decimal_text(n / 10);
        text.append(digit_text(n % 10));
        assert(text@ =~= decimal(n as nat));
        text
    }
}

/// The position behind the last character of `s` before `end` that is no
/// white space, or 0 where only white space stands before `end`.
pub open spec fn trim_end(s: Seq<char>, end: int) -> int
    decreases end,
{
    if 0 < end <= s.len() && is_space(s[end - 1]) {
        trim_end(s, end - 1)
    } else {
        end
    }
}

/// `s` without the white space at its start and at its end.
pub open spec fn trimmed(s: Seq<char>) -> Seq<char> {
    let start = skip_spaces(s, 0);
    let end = trim_end(s, s.len() as int);
    if start < end {
        s.subrange(start, end)
    } else {
        Seq::empty()
    }
}

/// Where `s` without the white space around it starts and stops: the two
/// places between which [`trimmed`] lies, the same place twice where nothing
/// is left.
pub fn trim_bounds(s: &Vec<char>) -> (bounds: (usize, usize))
    ensures
        bounds.0 <= bounds.1 <= s.len(),
        s@.subrange(bounds.0 as int, bounds.1 as int) == trimmed(s@),
{
    let start = skip_spaces_in(s, 0);
    let mut end: usize = s.len();
    while end > 0 && space(s[end - 1])
        invariant
            end <= s.len(),
            trim_end(s@, s.len() as int) == trim_end(s@, end as int),
        decreases end,
    {
        end = end - 1;
    }
    if start < end {
        (start, end)
    } else {
        assert(s@.subrange(start as int, start as int) =~= Seq::<char>::empty());
        (start, start)
    }
}

/// The first position at or after `from` that holds white space, or the
/// length of `s` where none follows.
pub open spec fn skip_word(s: Seq<char>, from: int) -> int
    decreases s.len() - from,
{
    if 0 <= from < s.len() && !is_space(s[from]) {
        skip_word(s, from + 1)
    } else {
        from
    }
}

/// What [`skip_word`] returns lies between `from` and the end.
pub proof fn lemma_skip_word(s: Seq<char>, from: int)
    requires
        0 <= from <= s.len(),
    ensures
        from <= skip_word(s, from) <= s.len(),
        from < s.len() && !is_space(s[from]) ==> from < skip_word(s, from),
    decreases s.len() - from,
{
    if from < s.len() && !is_space(s[from]) {
        lemma_skip_word(s, from + 1);
    }
}

/// The words of `s` from position `from` on: the longest stretches without
/// white space, in order.
pub open spec fn words_from(s: Seq<char>, from: int) -> Seq<Seq<char>>
    decreases s.len() - from,
{
    if 0 <= from <= s.len() {
        let start = skip_spaces(s, from);
        proof {
            lemma_skip_spaces(s, from);
            lemma_skip_word(s, start);
        }
        if start < s.len() {
            seq![s.subrange(start, skip_word(s, start))] + words_from(s, skip_word(s, start))
        } else {
            Seq::empty()
        }
    } else {
        Seq::empty()
    }
}

/// Where each word of `s` from position `from` on starts and stops.
pub fn split_words(s: &Vec<char>, from: usize) -> (spans: Vec<(usize, usize)>)
    requires
        from <= s.len(),
    ensures
        spans.len() == words_from(s@, from as int).len(),
        forall|i: int|
            0 <= i < spans.len() ==> {
                &&& (#[trigger] spans[i]).0 <= spans[i].1 <= s.len()
                &&& s@.subrange(spans[i].0 as int, spans[i].1 as int) == words_from(
                    s@,
                    from as int,
                )[i]
            },
{
    let mut spans: Vec<(usize, usize)> = Vec::new();
    let mut at: usize = from;
    let ghost mut done: Seq<Seq<char>> = Seq::empty();
    let mut more = true;
    while more
        invariant
            at <= s.len(),
            done.len() == spans.len(),
            more ==> words_from(s@, from as int) == done + words_from(s@, at as int),
            !more ==> words_from(s@, from as int) == done,
            forall|i: int|
                0 <= i < spans.len() ==> {
                    &&& (#[trigger] spans[i]).0 <= spans[i].1 <= s.len()
                    &&& s@.subrange(spans[i].0 as int, spans[i].1 as int) == done[i]
                },
        decreases s.len() - at + (if more { 1int } else { 0int }),
    {
        let start = skip_spaces_in(s, at);
        if start < s.len() {
            let mut stop: usize = start;
            while stop < s.len() && !space(s[stop])
                invariant
                    start <= stop <= s.len(),
                    skip_word(s@, start as int) == skip_word(s@, stop as int),
                decreases s.len() - stop,
            {
                stop = stop + 1;
            }
            proof {
                lemma_skip_word(s@, start as int);
                let word = s@.subrange(start as int, stop as int);
                assert(done + (seq![word] + words_from(s@, stop as int)) == done.push(word)
                    + words_from(s@, stop as int));
                done = done.push(word);
            }
            spans.push((start, stop));
            at = stop;
        } else {
            assert(done + Seq::<Seq<char>>::empty() == done);
            more = false;
        }
    }
    spans
}

/// The first position at or after `from` that holds the character `c`, or
/// the length of `s` where `c` does not follow.
pub open spec fn position(s: Seq<char>, from: int, c: char) -> int
    decreases s.len() - from,
{
    if 0 <= from < s.len() && s[from] != c {
        position(s, from + 1, c)
    } else {
        from
    }
}

/// What [`position`] returns lies between `from` and the end, `c` does not
/// stand before it, and stands at it unless it is the end.
pub proof fn lemma_position(s: Seq<char>, from: int, c: char)
    requires
        0 <= from <= s.len(),
    ensures
        from <= position(s, from, c) <= s.len(),
        forall|i: int| from <= i < position(s, from, c) ==> #[trigger] s[i] != c,
        position(s, from, c) < s.len() ==> s[position(s, from, c)] == c,
    decreases s.len() - from,
{
    if from < s.len() && s[from] != c {
        lemma_position(s, from + 1, c);
    }
}

/// Computes [`position`].
pub fn find(s: &Vec<char>, from: usize, c: char) -> (at: usize)
    requires
        from <= s.len(),
    ensures
        at == position(s@, from as int, c),
        from <= at <= s.len(),
{
    let mut at: usize = from;
    while at < s.len() && s[at] != c
        invariant
            from <= at <= s.len(),
            position(s@, from as int, c) == position(s@, at as int, c),
        decreases s.len() - at,
    {
        at = at + 1;
    }
    at
}

/// Where the part of `s` between `from` and `to` starts and stops when the
/// white space around it is left out.
pub fn trim_span(s: &Vec<char>, from: usize, to: usize) -> (bounds: (usize, usize))
    requires
        from <= to <= s.len(),
    ensures
        from <= bounds.0 <= bounds.1 <= to,
        s@.subrange(bounds.0 as int, bounds.1 as int) == trimmed(
            s@.subrange(from as int, to as int),
        ),
{
    let part = copy_range(s, from, to);
    let (start, end) = trim_bounds(&part);
    assert(s@.subrange((from + start) as int, (from + end) as int) =~= part@.subrange(
        start as int,
        end as int,
    ));
    (from + start, from + end)
}

/// The number that the text `s` stands for, if it is an unsigned decimal
/// numeral: digits, at least one, with or without a plus sign before them.
pub open spec fn unsigned_value(s: Seq<char>) -> Option<int> {
    let body = if s.len() > 0 && s[0] == '+' {
        s.subrange(1, s.len() as int)
    } else {
        s
    };
    if body.len() > 0 && (forall|i: int| 0 <= i < body.len() ==> is_digit(#[trigger] body[i])) {
        Some(numeral_value(body))
    } else {
        None
    }
}

/// The number that the text `s` stands for, if it is a decimal numeral:
/// digits, at least one, with or without a sign before them.
pub open spec fn signed_value(s: Seq<char>) -> Option<int> {
    if s.len() > 0 && s[0] == '-' {
        match unsigned_value(s.subrange(1, s.len() as int)) {
            Some(v) => if s.len() > 1 && s[1] == '+' {
                None
            } else {
                Some(-v)
            },
            None => None,
        }
    } else {
        unsigned_value(s)
    }
}

/// What the text `s` gives when read as a `u8`: the number that it stands
/// for, if it stands for one and that is at most 255.
pub open spec fn parsed_u8(s: Seq<char>) -> Option<u8> {
    match unsigned_value(s) {
        Some(v) => if v <= u8::MAX {
            Some(v as u8)
        } else {
            None
        },
        None => None,
    }
}

/// What the text `s` gives when read as an `i32`: the number that it stands
/// for, if it stands for one and that is in the range of `i32`.
pub open spec fn parsed_i32(s: Seq<char>) -> Option<i32> {
    match signed_value(s) {
        Some(v) => if i32::MIN <= v <= i32::MAX {
            Some(v as i32)
        } else {
            None
        },
        None => None,
    }
}

/// The position behind the last `c` of `s` before `end`, or 0 where no `c`
/// stands before `end`.
pub open spec fn behind_last(s: Seq<char>, end: int, c: char) -> int
    decreases end,
{
    if 0 < end <= s.len() && s[end - 1] != c {
        behind_last(s, end - 1, c)
    } else {
        end
    }
}

/// Computes [`behind_last`].
pub fn find_behind_last(s: &Vec<char>, end: usize, c: char) -> (at: usize)
    requires
        end <= s.len(),
    ensures
        at == behind_last(s@, end as int, c),
        at <= end,
{
    let mut at: usize = end;
    while at > 0 && s[at - 1] != c
        invariant
            at <= end <= s.len(),
            behind_last(s@, end as int, c) == behind_last(s@, at as int, c),
        decreases at,
    {
        at = at - 1;
    }
    at
}

/// Whether `part` stands in `s` from position `at` on.
pub open spec fn stands_at(s: Seq<char>, at: int, part: Seq<char>) -> bool {
    0 <= at && at + part.len() <= s.len() && s.subrange(at, at + part.len()) == part
}

/// Whether `part` stands somewhere in `s`.
pub open spec fn holds(s: Seq<char>, part: Seq<char>) -> bool {
    exists|at: int| #[trigger] stands_at(s, at, part)
}

/// Decides [`stands_at`].
pub fn part_at(s: &Vec<char>, at: usize, part: &Vec<char>) -> (yes: bool)
    ensures
        yes == stands_at(s@, at as int, part@),
{
    if at > s.len() || part.len() > s.len() - at {
        return false;
    }
    let mut i: usize = 0;
    while i < part.len()
        invariant
            i <= part.len(),
            at + part.len() <= s.len(),
            forall|j: int| 0 <= j < i ==> s[at + j] == #[trigger] part[j],
        decreases part.len() - i,
    {
        if s[at + i] != part[i] {
            assert(s@.subrange(at as int, at + part.len())[i as int] != part@[i as int]);
            return false;
        }
        i = i + 1;
    }
    assert(s@.subrange(at as int, at + part.len()) =~= part@);
    true
}

/// Decides [`holds`].
pub fn contains_part(s: &Vec<char>, part: &Vec<char>) -> (yes: bool)
    ensures
        yes == holds(s@, part@),
{
    let mut at: usize = 0;
    while at < s.len()
        invariant
            at <= s.len(),
            forall|k: int| 0 <= k < at ==> !#[trigger] stands_at(s@, k, part@),
        decreases s.len() - at,
    {
        if part_at(s, at, part) {
            return true;
        }
        at = at + 1;
    }
    if part_at(s, at, part) {
        return true;
    }
    assert forall|k: int| !#[trigger] stands_at(s@, k, part@) by {
        if 0 <= k <= s.len() {
            assert(!stands_at(s@, k, part@));
        }
    }
    false
}

/// The fields of `s` from position `from` on: what stands between the
/// characters `c`, in order. There is one field more than there are `c`, so
/// at least one, and a field may be empty.
pub open spec fn fields_from(s: Seq<char>, from: int, c: char) -> Seq<Seq<char>>
    decreases s.len() - from,
{
    if 0 <= from <= s.len() {
        proof {
            lemma_position(s, from, c);
        }
        let stop = position(s, from, c);
        if stop < s.len() {
            seq![s.subrange(from, stop)] + fields_from(s, stop + 1, c)
        } else {
            seq![s.subrange(from, stop)]
        }
    } else {
        Seq::empty()
    }
}

/// The fields of `s`, each without the white space around it.
pub open spec fn trimmed_fields(s: Seq<char>, c: char) -> Seq<Seq<char>> {
    Seq::new(fields_from(s, 0, c).len(), |i: int| trimmed(fields_from(s, 0, c)[i]))
}

/// Where each field of `s` starts and stops.
pub fn split_fields(s: &Vec<char>, c: char) -> (spans: Vec<(usize, usize)>)
    ensures
        spans.len() == fields_from(s@, 0, c).len(),
        forall|i: int|
            0 <= i < spans.len() ==> {
                &&& (#[trigger] spans[i]).0 <= spans[i].1 <= s.len()
                &&& s@.subrange(spans[i].0 as int, spans[i].1 as int) == fields_from(s@, 0, c)[i]
            },
{
    let mut spans: Vec<(usize, usize)> = Vec::new();
    let mut from: usize = 0;
    let ghost mut done: Seq<Seq<char>> = Seq::empty();
    let mut more = true;
    while more
        invariant
            from <= s.len(),
            done.len() == spans.len(),
            more ==> fields_from(s@, 0, c) == done + fields_from(s@, from as int, c),
            !more ==> fields_from(s@, 0, c) == done,
            forall|i: int|
                0 <= i < spans.len() ==> {
                    &&& (#[trigger] spans[i]).0 <= spans[i].1 <= s.len()
                    &&& s@.subrange(spans[i].0 as int, spans[i].1 as int) == done[i]
                },
        decreases s.len() - from + (if more { 1int } else { 0int }),
    {
        let stop = find(s, from, c);
        let ghost field = s@.subrange(from as int, stop as int);
        spans.push((from, stop));
        if stop < s.len() {
            proof {
                assert(done + (seq![field] + fields_from(s@, stop as int + 1, c)) == done.push(
                    field,
                ) + fields_from(s@, stop as int + 1, c));
                done = done.push(field);
            }
            from = stop + 1;
        } else {
            proof {
                assert(done + seq![field] == done.push(field));
                done = done.push(field);
            }
            more = false;
        }
    }
    spans
}

} // verus!
