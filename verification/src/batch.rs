//! A pass through the exercises in their order: each is checked in turn, and
//! the pass stops at the first that the toolchain rejects.

use crate::verify::{Outcome, OutcomeView};
use vstd::prelude::*;

verus! {

/// How far a pass has come: `num_done` of `total` exercises.
#[derive(Clone, Copy, Debug, PartialEq, Eq, Structural)]
pub struct ProgressCounter {
    pub num_done: usize,
    pub total: usize,
}

/// What a pass asks of its caller.
#[derive(Clone, Copy, Debug, PartialEq, Eq)]
pub enum Request {
    /// Check the exercise of this index and report how it ended.
    Check(usize),
    /// Nothing: every exercise passed.
    Passed,
    /// Nothing: the exercise of this index was rejected, and the pass
    /// stopped there.
    FailedAt(usize),
    /// Nothing: the check of the exercise of this index could not be carried
    /// out, and the pass stopped there.
    AbortedAt(usize),
}

/// A pass through `count` exercises, under way.
#[derive(Debug)]
pub struct Verification {
    count: usize,
    position: usize,
    ended: Option<Request>,
    progress: ProgressCounter,
}

/// Whether an exercise with this outcome counts as checked with success: it
/// does when the toolchain accepted it, whatever the state of its source.
pub open spec fn passes(outcome: OutcomeView) -> bool {
    outcome is Passed || outcome is Accepted
}

/// The request that opens a pass through `count` exercises.
pub open spec fn first_request(count: int) -> Request {
    if count > 0 {
        Request::Check(0)
    } else {
        Request::Passed
    }
}

/// The request that follows the check of the exercise of index `position`,
/// of `count`, which ended as `outcome` says.
pub open spec fn next_request(count: int, position: int, outcome: OutcomeView) -> Request {
    match outcome {
        OutcomeView::Failed => Request::FailedAt(position as usize),
        OutcomeView::Aborted => Request::AbortedAt(position as usize),
        _ => if position + 1 < count {
            Request::Check((position + 1) as usize)
        } else {
            Request::Passed
        },
    }
}

/// What a pass through `count` exercises asks for, request by request, when
/// the checks it asks for end as `outcomes` says: its first request, and one
/// more after each outcome. Once the pass has ended it repeats its last
/// request.
pub open spec fn batch_requests(count: int, outcomes: Seq<OutcomeView>) -> Seq<Request>
    decreases outcomes.len(),
{
    if outcomes.len() == 0 {
        seq![first_request(count)]
    } else {
        let before = batch_requests(count, outcomes.drop_last());
        match before.last() {
            Request::Check(position) => before.push(
                next_request(count, position as int, outcomes.last()),
            ),
            ended => before.push(ended),
        }
    }
}

/// The number of the outcomes of `outcomes` that a pass counts as successes
/// before it ends.
pub open spec fn passed_count(count: int, outcomes: Seq<OutcomeView>) -> nat
    decreases outcomes.len(),
{
    if outcomes.len() == 0 {
        0
    } else {
        let earlier = passed_count(count, outcomes.drop_last());
        if batch_requests(count, outcomes.drop_last()).last() is Check && passes(outcomes.last()) {
            earlier + 1
        } else {
            earlier
        }
    }
}

impl Verification {
    /// The number of exercises of this pass.
    pub closed spec fn count(&self) -> int {
        self.count as int
    }

    /// The request that the pass made last.
    pub closed spec fn last_request(&self) -> Request {
        match self.ended {
            Some(ended) => ended,
            None => Request::Check(self.position),
        }
    }

    /// How far the pass has come.
    pub closed spec fn progress(&self) -> ProgressCounter {
        self.progress
    }

    #[verifier::type_invariant]
    spec fn inv(self) -> bool {
        &&& self.ended is None ==> self.position < self.count
        &&& self.ended matches Some(r) ==> !(r is Check)
        &&& self.ended is None ==> self.progress.num_done + (self.count - self.position)
            <= usize::MAX
    }

    /// The request that the pass made last.
    pub fn current(&self) -> (request: Request)
        ensures
            request == self.last_request(),
    {
        match self.ended {
            Some(ended) => ended,
            None => Request::Check(self.position),
        }
    }

    /// How far the pass has come.
    pub fn progress_counter(&self) -> (progress: ProgressCounter)
        ensures
            progress == self.progress(),
    {
        self.progress
    }

    /// Takes note of how the check that was asked for last ended, and says
    /// what follows: the next exercise after a success, of which the progress
    /// then counts one more, and the end after a failure or after the last
    /// exercise. A pass that has ended stays ended.
    pub fn record(&mut self, outcome: &Outcome) -> (request: Request)
        ensures
            final(self).count() == old(self).count(),
            final(self).last_request() == request,
            request == match old(self).last_request() {
                Request::Check(position) => next_request(
                    old(self).count(),
                    position as int,
                    outcome@,
                ),
                ended => ended,
            },
            final(self).progress().total == old(self).progress().total,
            final(self).progress().num_done == old(self).progress().num_done + (if old(
                self,
            ).last_request() is Check && passes(outcome@) {
                1int
            } else {
                0int
            }),
    {
        proof {
            use_type_invariant(&*self);
        }
        match self.ended {
            Some(ended) => ended,
            None => {
                match outcome {
                    Outcome::Failed => {
                        let request = Request::FailedAt(self.position);
                        self.ended = Some(request);
                        request
                    },
                    Outcome::Aborted => {
                        let request = Request::AbortedAt(self.position);
                        self.ended = Some(request);
                        request
                    },
                    _ => {
                        let done = self.progress.num_done + 1;
                        if self.position + 1 < self.count {
                            self.position = self.position + 1;
                            self.progress.num_done = done;
                            Request::Check(self.position)
                        } else {
                            self.ended = Some(Request::Passed);
                            self.progress.num_done = done;
                            Request::Passed
                        }
                    },
                }
            },
        }
    }
}

/// Opens a pass through `count` exercises, of which `progress.0` of
/// `progress.1` are done already: the pass and its first request.
pub fn verify(count: usize, progress: (usize, usize)) -> (begun: (Verification, Request))
    requires
        progress.0 + count <= usize::MAX,
    ensures
        begun.0.count() == count,
        begun.0.last_request() == begun.1,
        begun.1 == first_request(count as int),
        begun.0.progress() == (ProgressCounter { num_done: progress.0, total: progress.1 }),
{
    let ended = if count > 0 {
        None
    } else {
        Some(Request::Passed)
    };
    let pass = Verification {
        count,
        position: 0,
        ended,
        progress: ProgressCounter { num_done: progress.0, total: progress.1 },
    };
    let request = pass.current();
    (pass, request)
}

/// A pass stops at the first exercise that is rejected: where the exercises
/// before the one of index `f` pass and that one fails, the pass asks for
/// the exercises up to `f` in order, then reports the failure at `f`, and
/// asks for no exercise after it, whatever it is told from then on. Its
/// progress counts the `f` exercises that passed.
pub proof fn lemma_short_circuit(count: int, outcomes: Seq<OutcomeView>, f: int)
    requires
        0 <= f < count <= usize::MAX,
        f < outcomes.len(),
        forall|i: int| 0 <= i < f ==> passes(#[trigger] outcomes[i]),
        outcomes[f] == OutcomeView::Failed,
    ensures
        batch_requests(count, outcomes).len() == outcomes.len() + 1,
        forall|k: int|
            0 <= k <= f ==> #[trigger] batch_requests(count, outcomes)[k] == Request::Check(
                k as usize,
            ),
        forall|k: int|
            f < k <= outcomes.len() ==> #[trigger] batch_requests(count, outcomes)[k]
                == Request::FailedAt(f as usize),
        passed_count(count, outcomes) == f,
    decreases outcomes.len(),
{
    let before = outcomes.drop_last();
    if outcomes.len() > f + 1 {
        lemma_short_circuit(count, before, f);
    } else {
        lemma_batch_prefix(count, before, f);
    }
}

/// As long as every exercise passes, a pass asks for the exercises in order,
/// and its progress counts each of them.
pub proof fn lemma_batch_prefix(count: int, outcomes: Seq<OutcomeView>, f: int)
    requires
        0 <= f < count <= usize::MAX,
        outcomes.len() <= f,
        forall|i: int| 0 <= i < outcomes.len() ==> passes(#[trigger] outcomes[i]),
    ensures
        batch_requests(count, outcomes).len() == outcomes.len() + 1,
        forall|k: int|
            0 <= k <= outcomes.len() ==> #[trigger] batch_requests(count, outcomes)[k]
                == Request::Check(k as usize),
        passed_count(count, outcomes) == outcomes.len(),
    decreases outcomes.len(),
{
    if outcomes.len() > 0 {
        lemma_batch_prefix(count, outcomes.drop_last(), f);
    }
}

/// Where every exercise passes, the pass asks for each in order and then
/// reports that all passed.
pub proof fn lemma_all_pass(count: int, outcomes: Seq<OutcomeView>)
    requires
        0 < count <= usize::MAX,
        outcomes.len() == count,
        forall|i: int| 0 <= i < count ==> passes(#[trigger] outcomes[i]),
    ensures
        batch_requests(count, outcomes).len() == count + 1,
        forall|k: int|
            0 <= k < count ==> #[trigger] batch_requests(count, outcomes)[k] == Request::Check(
                k as usize,
            ),
        batch_requests(count, outcomes)[count] == Request::Passed,
        passed_count(count, outcomes) == count,
{
    lemma_batch_prefix(count, outcomes.drop_last(), count - 1);
}

} // verus!
