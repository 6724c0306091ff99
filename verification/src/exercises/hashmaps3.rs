//! The scores of teams, added up under each team's name in one spelling.

use crate::letters::{lowercase, to_lowercase, to_uppercase, uppercase_of};
use vstd::prelude::*;
use vstd::string::{StrSliceExecFns, StringExecFns};

verus! {

/// The name `team` in the spelling under which its score is kept: in lower
/// case, but for the first character, which is in upper case.
pub open spec fn normalized(team: Seq<char>) -> Seq<char> {
    let lower = lowercase(team);
    if lower.len() == 0 {
        lower
    } else {
        uppercase_of(lower[0]) + lower.subrange(1, lower.len() as int)
    }
}

/// The sum of the scores of the results of `results` that are of the team
/// with the normalized name `name`.
pub open spec fn total(results: Seq<(&str, i32)>, name: Seq<char>) -> int
    decreases results.len(),
{
    if results.len() == 0 {
        0
    } else if normalized(results.last().0@) == name {
        total(results.drop_last(), name) + results.last().1
    } else {
        total(results.drop_last(), name)
    }
}

/// Whether one of the results of `results` is of the team with the
/// normalized name `name`.
pub open spec fn plays(results: Seq<(&str, i32)>, name: Seq<char>) -> bool {
    exists|i: int| 0 <= i < results.len() && normalized((#[trigger] results[i]).0@) == name
}

/// Whether `scores` holds the scores of `results`: one entry for each team
/// that plays, under its normalized name, with the sum of its scores; no
/// other entry, and none twice.
pub open spec fn scores_of(scores: Seq<(String, i32)>, results: Seq<(&str, i32)>) -> bool {
    &&& forall|i: int, j: int|
        0 <= i < j < scores.len() ==> (#[trigger] scores[i]).0@ != (#[trigger] scores[j]).0@
    &&& forall|i: int|
        0 <= i < scores.len() ==> plays(results, (#[trigger] scores[i]).0@) && scores[i].1
            == total(results, scores[i].0@)
    &&& forall|name: Seq<char>| #[trigger]
        plays(results, name) ==> exists|i: int|
            0 <= i < scores.len() && (#[trigger] scores[i]).0@ == name
}

/// The score kept in `scores` under the name `name`, or 0 where none is.
pub open spec fn score_under(scores: Seq<(String, i32)>, name: Seq<char>) -> int
    decreases scores.len(),
{
    if scores.len() == 0 {
        0
    } else if scores[0].0@ == name {
        scores[0].1 as int
    } else {
        score_under(scores.subrange(1, scores.len() as int), name)
    }
}

/// Writes `team` in its normalized spelling: [`normalized`].
pub fn normalize(team: &str) -> (name: String)
    ensures
        name@ == normalized(team@),
{
    let lower = to_lowercase(team);
    let n = lower.as_str().unicode_len();
    if n == 0 {
        return lower;
    }
    let mut name = to_uppercase(lower.as_str().get_char(0));
    name.append(lower.as_str().substring_char(1, n));
    name
}

/// The index of the entry of `scores` under the name `name`, or the number
/// of entries where there is none.
fn find_team(scores: &Vec<(String, i32)>, name: &String) -> (at: usize)
    ensures
        at <= scores.len(),
        at < scores.len() ==> scores[at as int].0@ == name@,
        forall|i: int| 0 <= i < at ==> (#[trigger] scores[i]).0@ != name@,
{
    let mut at: usize = 0;
    while at < scores.len()
        invariant
            at <= scores.len(),
            forall|i: int| 0 <= i < at ==> (#[trigger] scores[i]).0@ != name@,
        decreases scores.len() - at,
    {
        if scores[at].0 == *name {
            return at;
        }
        at = at + 1;
    }
    at
}

/// Adds up the scores of `results` team by team: [`scores_of`]. No sum on
/// the way leaves the range of `i32`.
pub fn build_scores(results: Vec<(&str, i32)>) -> (scores: Vec<(String, i32)>)
    requires
        forall|k: int, name: Seq<char>|
            0 <= k <= results.len() ==> i32::MIN <= #[trigger] total(results@.take(k), name)
                <= i32::MAX,
    ensures
        scores_of(scores@, results@),
{
    let mut scores: Vec<(String, i32)> = Vec::new();
    let mut k: usize = 0;
    while k < results.len()
        invariant
            k <= results.len(),
            forall|m: int, name: Seq<char>|
                0 <= m <= results.len() ==> i32::MIN <= #[trigger] total(results@.take(m), name)
                    <= i32::MAX,
            scores_of(scores@, results@.take(k as int)),
        decreases results.len() - k,
    {
        let ghost before = results@.take(k as int);
        let ghost after = results@.take(k + 1);
        let ghost held = scores@;
        let (team, score) = results[k];
        let name = normalize(team);
        assert(after.drop_last() =~= before);
        assert(after.last() == results[k as int]);
        let at = find_team(&scores, &name);
        assert(total(after, name@) == total(before, name@) + score);
        if at < scores.len() {
            let sum = scores[at].1 + score;
            scores.set(at, (name, sum));
        } else {
            assert(!plays(before, name@)) by {
                if plays(before, name@) {
                    let i = choose|i: int| 0 <= i < held.len() && (#[trigger] held[i]).0@ == name@;
                    assert(false);
                }
            }
            assert(total(before, name@) == 0) by {
                lemma_total_of_absent(before, name@);
            }
            scores.push((name, score));
        }
        assert(scores_of(scores@, after)) by {
            assert forall|i: int| 0 <= i < scores@.len() implies plays(
                after,
                (#[trigger] scores@[i]).0@,
            ) && scores@[i].1 == total(after, scores@[i].0@) by {
                if i == at {
                    assert(normalized(after[k as int].0@) == name@);
                } else {
                    assert(held[i].0@ != name@);
                    let w = choose|w: int|
                        0 <= w < before.len() && normalized((#[trigger] before[w]).0@)
                            == held[i].0@;
                    assert(after[w] == before[w]);
                }
            }
            assert forall|n: Seq<char>| #[trigger] plays(after, n) implies exists|i: int|
                0 <= i < scores@.len() && (#[trigger] scores@[i]).0@ == n by {
                let w = choose|w: int|
                    0 <= w < after.len() && normalized((#[trigger] after[w]).0@) == n;
                if w == k {
                    assert(scores@[at as int].0@ == n);
                } else {
                    assert(before[w] == after[w]);
                    assert(plays(before, n));
                    let i = choose|i: int| 0 <= i < held.len() && (#[trigger] held[i]).0@ == n;
                    assert(scores@[i].0@ == n);
                }
            }
        }
        k = k + 1;
    }
    assert(results@.take(k as int) =~= results@);
    scores
}

/// The sum of the sizes of the scores of `results`, whatever their sign.
pub open spec fn magnitude(results: Seq<(&str, i32)>) -> int
    decreases results.len(),
{
    if results.len() == 0 {
        0
    } else {
        magnitude(results.drop_last()) + (if results.last().1 < 0 {
            -(results.last().1 as int)
        } else {
            results.last().1 as int
        })
    }
}

/// No team's score is larger than the sizes of all scores together, and the
/// scores of the first results are not larger together than those of all.
pub proof fn lemma_magnitude(results: Seq<(&str, i32)>, k: int, name: Seq<char>)
    requires
        0 <= k <= results.len(),
    ensures
        0 <= magnitude(results.take(k)) <= magnitude(results),
        -magnitude(results.take(k)) <= total(results.take(k), name) <= magnitude(results.take(k)),
    decreases results.len(),
{
    if results.len() == 0 {
        assert(results.take(k) =~= results);
    } else if k == results.len() {
        assert(results.take(k) =~= results);
        lemma_magnitude(results.drop_last(), k - 1, name);
        assert(results.drop_last().take(k - 1) =~= results.drop_last());
    } else {
        lemma_magnitude(results.drop_last(), k, name);
        assert(results.drop_last().take(k) =~= results.take(k));
    }
}

/// Adds up the scores of `results` team by team, as [`build_scores`] does,
/// where the sizes of all scores together are in the range of `i32`, so that
/// no sum can leave it; and returns nothing where they are not.
pub fn try_build_scores(results: Vec<(&str, i32)>) -> (scores: Option<Vec<(String, i32)>>)
    ensures
        scores is Some == (magnitude(results@) <= i32::MAX),
        scores matches Some(found) ==> scores_of(found@, results@),
{
    let mut sum: i64 = 0;
    let mut k: usize = 0;
    while k < results.len()
        invariant
            k <= results.len(),
            sum == magnitude(results@.take(k as int)),
            0 <= sum <= i32::MAX,
        decreases results.len() - k,
    {
        assert(results@.take(k + 1).drop_last() =~= results@.take(k as int));
        let score = results[k].1 as i64;
        sum = sum + (if score < 0 {
            -score
        } else {
            score
        });
        if sum > i32::MAX as i64 {
            proof {
                lemma_magnitude(results@, k + 1, Seq::empty());
            }
            return None;
        }
        k = k + 1;
    }
    assert(results@.take(k as int) =~= results@);
    assert forall|m: int, name: Seq<char>| 0 <= m <= results.len() implies i32::MIN
        <= #[trigger] total(results@.take(m), name) <= i32::MAX by {
        lemma_magnitude(results@, m, name);
    }
    Some(build_scores(results))
}

/// A team that does not play has no score.
pub proof fn lemma_total_of_absent(results: Seq<(&str, i32)>, name: Seq<char>)
    requires
        !plays(results, name),
    ensures
        total(results, name) == 0,
    decreases results.len(),
{
    if results.len() > 0 {
        assert(normalized(results[results.len() - 1].0@) != name);
        assert forall|i: int| 0 <= i < results.drop_last().len() implies normalized(
            (#[trigger] results.drop_last()[i]).0@,
        ) != name by {
            assert(results[i] == results.drop_last()[i]);
        }
        lemma_total_of_absent(results.drop_last(), name);
    }
}

/// The score of `team` in `scores`, under its normalized name, or 0 where
/// the team has none.
pub fn get_score(scores: &Vec<(String, i32)>, team: &str) -> (score: i32)
    ensures
        score == score_under(scores@, normalized(team@)),
{
    let name = normalize(team);
    let at = find_team(scores, &name);
    proof {
        lemma_score_under(scores@, name@, at as int);
    }
    if at < scores.len() {
        scores[at].1
    } else {
        0
    }
}

/// The score under a name is that of the first entry under it.
proof fn lemma_score_under(scores: Seq<(String, i32)>, name: Seq<char>, at: int)
    requires
        0 <= at <= scores.len(),
        at < scores.len() ==> scores[at].0@ == name,
        forall|i: int| 0 <= i < at ==> (#[trigger] scores[i]).0@ != name,
    ensures
        score_under(scores, name) == if at < scores.len() {
            scores[at].1 as int
        } else {
            0
        },
    decreases scores.len(),
{
    if scores.len() > 0 && at > 0 {
        let rest = scores.subrange(1, scores.len() as int);
        assert forall|i: int| 0 <= i < at - 1 implies (#[trigger] rest[i]).0@ != name by {
            assert(rest[i] == scores[i + 1]);
        }
        lemma_score_under(rest, name, at - 1);
    }
}

} // verus!
