//! The report of a check of every exercise: who passed, and the tally.

use vstd::multiset::Multiset;
use vstd::prelude::*;

verus! {

/// How the check of one exercise ended.
#[derive(Clone, Debug)]
pub struct ExerciseResult {
    pub name: String,
    /// Whether the exercise passed.
    pub result: bool,
}

/// What an [`ExerciseResult`] stands for.
pub struct ExerciseResultView {
    pub name: Seq<char>,
    pub result: bool,
}

impl View for ExerciseResult {
    type V = ExerciseResultView;

    open spec fn view(&self) -> ExerciseResultView {
        ExerciseResultView { name: self.name@, result: self.result }
    }
}

/// The tally of a report.
#[derive(Clone, Copy, Debug, PartialEq, Eq, Structural)]
pub struct ExerciseStatistics {
    pub total_exercises: usize,
    pub total_succeeds: usize,
    pub total_failures: usize,
    /// The seconds that the check took.
    pub total_time: u32,
}

/// The report: one result for each exercise checked so far, and the tally.
#[derive(Clone, Debug)]
pub struct ExerciseCheckList {
    pub exercises: Vec<ExerciseResult>,
    pub user_name: Option<String>,
    pub statistics: ExerciseStatistics,
}

/// The views of the results of `v`, in order.
pub open spec fn result_views(v: Seq<ExerciseResult>) -> Seq<ExerciseResultView> {
    Seq::new(v.len(), |i: int| v[i]@)
}

/// The number of results in `results` whose exercise passed, if `passed`, or
/// did not pass, if not.
pub open spec fn tally(results: Seq<ExerciseResultView>, passed: bool) -> nat
    decreases results.len(),
{
    if results.len() == 0 {
        0
    } else if results.last().result == passed {
        tally(results.drop_last(), passed) + 1
    } else {
        tally(results.drop_last(), passed)
    }
}

/// Every result counts either as a success or as a failure.
pub proof fn lemma_tally_total(results: Seq<ExerciseResultView>)
    ensures
        tally(results, true) + tally(results, false) == results.len(),
    decreases results.len(),
{
    if results.len() > 0 {
        lemma_tally_total(results.drop_last());
    }
}

/// The tally counts the results of one kind in the bag of all results.
proof fn lemma_tally_counts(results: Seq<ExerciseResultView>, passed: bool)
    ensures
        tally(results, passed) == results.to_multiset().filter(
            |r: ExerciseResultView| r.result == passed,
        ).len(),
    decreases results.len(),
{
    broadcast use vstd::multiset::group_multiset_axioms;

    let keep = |r: ExerciseResultView| r.result == passed;
    if results.len() == 0 {
        results.to_multiset_ensures();
        assert(results.to_multiset() =~= Multiset::<ExerciseResultView>::empty());
        assert(results.to_multiset().filter(keep) =~= Multiset::<ExerciseResultView>::empty());
    } else {
        let before = results.drop_last();
        let last = results.last();
        lemma_tally_counts(before, passed);
        assert(before.push(last) =~= results);
        vstd::seq_lib::to_multiset_build(before, last);
        let bag = before.to_multiset();
        if keep(last) {
            assert(bag.insert(last).filter(keep) =~= bag.filter(keep).insert(last));
        } else {
            assert(bag.insert(last).filter(keep) =~= bag.filter(keep));
        }
    }
}

/// The tally does not depend on the order in which the results came in: two
/// lists that hold the same results, each as often as the other, have the
/// same number of results, of successes and of failures.
pub proof fn lemma_tally_any_order(a: Seq<ExerciseResultView>, b: Seq<ExerciseResultView>)
    requires
        a.to_multiset() == b.to_multiset(),
    ensures
        a.len() == b.len(),
        tally(a, true) == tally(b, true),
        tally(a, false) == tally(b, false),
{
    a.to_multiset_ensures();
    b.to_multiset_ensures();
    lemma_tally_counts(a, true);
    lemma_tally_counts(b, true);
    lemma_tally_counts(a, false);
    lemma_tally_counts(b, false);
}

impl ExerciseCheckList {
    /// Whether the tally agrees with the results: it counts the successes and
    /// the failures among them.
    pub open spec fn wf(&self) -> bool {
        &&& self.statistics.total_succeeds == tally(result_views(self.exercises@), true)
        &&& self.statistics.total_failures == tally(result_views(self.exercises@), false)
    }

    /// A report on `total` exercises of which none is checked yet.
    pub fn new(total: usize) -> (report: ExerciseCheckList)
        ensures
            report.wf(),
            report.exercises@.len() == 0,
            report.user_name is None,
            report.statistics == (ExerciseStatistics {
                total_exercises: total,
                total_succeeds: 0,
                total_failures: 0,
                total_time: 0,
            }),
    {
        ExerciseCheckList {
            exercises: Vec::new(),
            user_name: None,
            statistics: ExerciseStatistics {
                total_exercises: total,
                total_succeeds: 0,
                total_failures: 0,
                total_time: 0,
            },
        }
    }

    /// Decides [`ExerciseCheckList::wf`]: counts the results again and holds
    /// the tally against them.
    pub fn tallies_agree(&self) -> (ok: bool)
        ensures
            ok == self.wf(),
    {
        let mut succeeds: usize = 0;
        let mut failures: usize = 0;
        let mut i: usize = 0;
        let ghost results = result_views(self.exercises@);
        while i < self.exercises.len()
            invariant
                i <= self.exercises.len(),
                results == result_views(self.exercises@),
                succeeds == tally(results.take(i as int), true),
                failures == tally(results.take(i as int), false),
                succeeds + failures == i,
            decreases self.exercises.len() - i,
        {
            assert(results.take(i + 1).drop_last() =~= results.take(i as int));
            if self.exercises[i].result {
                succeeds = succeeds + 1;
            } else {
                failures = failures + 1;
            }
            i = i + 1;
        }
        assert(results.take(i as int) =~= results);
        self.statistics.total_succeeds == succeeds && self.statistics.total_failures == failures
    }

    /// Adds the result of the exercise `name` to the report, and counts it.
    pub fn record(&mut self, name: String, result: bool)
        requires
            old(self).wf(),
        ensures
            final(self).wf(),
            result_views(final(self).exercises@) == result_views(old(self).exercises@).push(
                ExerciseResultView { name: name@, result },
            ),
            final(self).user_name == old(self).user_name,
            final(self).statistics.total_exercises == old(self).statistics.total_exercises,
            final(self).statistics.total_time == old(self).statistics.total_time,
            final(self).statistics.total_succeeds == old(self).statistics.total_succeeds + (if result {
                1int
            } else {
                0int
            }),
            final(self).statistics.total_failures == old(self).statistics.total_failures + (if result {
                0int
            } else {
                1int
            }),
    {
        let ghost before = result_views(self.exercises@);
        let ghost added = ExerciseResultView { name: name@, result };
        proof {
            lemma_tally_total(before);
        }
        self.exercises.push(ExerciseResult { name, result });
        assert(result_views(self.exercises@) =~= before.push(added));
        assert(before.push(added).drop_last() =~= before);
        assert(before.len() + 1 == self.exercises.len() <= usize::MAX);
        if result {
            self.statistics.total_succeeds = self.statistics.total_succeeds + 1;
        } else {
            self.statistics.total_failures = self.statistics.total_failures + 1;
        }
    }

    /// Notes the time that the check took, from the second `started` to the
    /// second `ended`. A time too long for the report is cut to the width of
    /// its field.
    pub fn finish(&mut self, started: u64, ended: u64)
        requires
            started <= ended,
        ensures
            final(self).exercises == old(self).exercises,
            final(self).user_name == old(self).user_name,
            final(self).statistics == (ExerciseStatistics {
                total_time: ((ended - started) % 0x1_0000_0000) as u32,
                ..old(self).statistics
            }),
    {
        let elapsed: u64 = ended - started;
        self.statistics.total_time = (elapsed % 0x1_0000_0000) as u32;
    }
}

} // verus!
