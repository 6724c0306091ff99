//! The decisions of the loop that checks the exercises again whenever a
//! source file changes, and the state it shares with the command shell. The
//! caller waits for the events and carries out what is decided here.

use crate::batch::Request;
use crate::exercise::{Exercise, StateView};
use crate::verify::{Outcome, OutcomeView};
use vstd::prelude::*;

verus! {

/// The seconds for which the changes to a file must have ceased before they
/// are reported as one.
pub const DEBOUNCE_SECONDS: u64 = 1;

/// The seconds that the loop waits for a change before it looks again
/// whether the user has asked to leave.
pub const POLL_SECONDS: u64 = 1;

/// How the watch ended.
#[derive(Clone, Copy, Debug, PartialEq, Eq, Structural)]
pub enum WatchStatus {
    /// Every exercise is finished.
    Finished,
    /// The watch was left before every exercise was finished.
    Unfinished,
}

/// What the loop and the shell share: the hint of the exercise that failed
/// last, and whether the user asked to leave.
#[derive(Debug, PartialEq, Eq)]
pub struct WatchSharedState {
    pub last_failure_hint: Option<String>,
    pub quit_requested: bool,
}

/// A path that changed, with the extension of its file name, if it has one.
#[derive(Debug, PartialEq, Eq)]
pub struct ChangedPath {
    pub path: String,
    pub extension: Option<String>,
}

/// What the loop is told when it has waited for a change.
#[derive(Debug, PartialEq, Eq)]
pub enum WatchEvent {
    /// A file was written.
    Write(ChangedPath),
    /// A file was made.
    Create(ChangedPath),
    /// A file was removed.
    Remove(ChangedPath),
    /// A file was renamed, from the first path to the second.
    Rename(ChangedPath, ChangedPath),
    /// Something else happened to a file.
    Other,
    /// Nothing happened within the time that the loop waits.
    Timeout,
    /// No change will be reported any more.
    Disconnected,
}

/// What the loop does next.
#[derive(Clone, Copy, Debug, PartialEq, Eq, Structural)]
pub enum WatchAction {
    /// Wait for a change, but no longer than the loop's interval.
    Wait,
    /// Clear the display and check every exercise, in order.
    Verify,
    /// Leave the loop, with this status.
    Stop(WatchStatus),
}

/// Whether `path` names a source file: its extension is `rs`.
pub open spec fn is_source(path: ChangedPath) -> bool {
    path.extension matches Some(extension) && extension@ == "rs"@
}

/// Whether `event` reports a change to a source file. A renaming does when
/// the old name or the new one is a source file's.
pub open spec fn is_relevant(event: WatchEvent) -> bool {
    match event {
        WatchEvent::Write(path) => is_source(path),
        WatchEvent::Create(path) => is_source(path),
        WatchEvent::Remove(path) => is_source(path),
        WatchEvent::Rename(from, to) => is_source(from) || is_source(to),
        _ => false,
    }
}

/// Decides [`is_source`].
pub fn source_path(path: &ChangedPath) -> (yes: bool)
    ensures
        yes == is_source(*path),
{
    match &path.extension {
        Some(extension) => {
            let rs = "rs".to_owned();
            *extension == rs
        },
        None => false,
    }
}

/// What the loop does at the start of each round: it leaves, unfinished, when
/// the user has asked to; else it waits for a change.
pub fn poll(shared: &WatchSharedState) -> (action: WatchAction)
    ensures
        action == if shared.quit_requested {
            WatchAction::Stop(WatchStatus::Unfinished)
        } else {
            WatchAction::Wait
        },
{
    if shared.quit_requested {
        WatchAction::Stop(WatchStatus::Unfinished)
    } else {
        WatchAction::Wait
    }
}

/// What the loop does when it has waited: it checks the exercises after a
/// change to a source file, leaves when no change will be reported any more,
/// and else goes on waiting. A change to a file that is no source file
/// starts no check.
pub fn on_event(event: &WatchEvent) -> (action: WatchAction)
    ensures
        action == if is_relevant(*event) {
            WatchAction::Verify
        } else if *event is Disconnected {
            WatchAction::Stop(WatchStatus::Unfinished)
        } else {
            WatchAction::Wait
        },
        !is_relevant(*event) ==> action != WatchAction::Verify,
{
    let relevant = match event {
        WatchEvent::Write(path) => source_path(path),
        WatchEvent::Create(path) => source_path(path),
        WatchEvent::Remove(path) => source_path(path),
        WatchEvent::Rename(from, to) => source_path(from) || source_path(to),
        _ => false,
    };
    if relevant {
        WatchAction::Verify
    } else {
        match event {
            WatchEvent::Disconnected => WatchAction::Stop(WatchStatus::Unfinished),
            _ => WatchAction::Wait,
        }
    }
}

/// Whether every outcome of `outcomes` is that of an exercise that passed and
/// is finished.
pub open spec fn all_finished(outcomes: Seq<Outcome>) -> bool {
    forall|i: int|
        0 <= i < outcomes.len() ==> (#[trigger] outcomes[i])@ == OutcomeView::Passed(
            StateView::Done,
        )
}

/// Decides [`all_finished`].
pub fn every_exercise_done(outcomes: &Vec<Outcome>) -> (yes: bool)
    ensures
        yes == all_finished(outcomes@),
{
    let mut i: usize = 0;
    while i < outcomes.len()
        invariant
            i <= outcomes.len(),
            forall|j: int|
                0 <= j < i ==> (#[trigger] outcomes[j])@ == OutcomeView::Passed(StateView::Done),
        decreases outcomes.len() - i,
    {
        let done = match &outcomes[i] {
            Outcome::Passed(state) => match state {
                crate::exercise::State::Done => true,
                _ => false,
            },
            _ => false,
        };
        if !done {
            return false;
        }
        i = i + 1;
    }
    true
}

/// The hint that the loop holds after a check of the exercises that ended as
/// `ended` says, where it held `before`: the hint of the exercise that
/// failed; none after a check in which none failed; and the old one where
/// the check could not be carried out.
pub open spec fn hint_after(
    before: Option<Seq<char>>,
    exercises: Seq<Exercise>,
    ended: Request,
) -> Option<Seq<char>> {
    match ended {
        Request::FailedAt(i) => if i < exercises.len() {
            Some(exercises[i as int].hint@)
        } else {
            before
        },
        Request::Passed => None,
        _ => before,
    }
}

/// The view of a hint that may be missing.
pub open spec fn hint_view(hint: Option<String>) -> Option<Seq<char>> {
    match hint {
        Some(text) => Some(text@),
        None => None,
    }
}

/// What the loop does when a check of the exercises has ended as `ended`
/// says, with the outcomes `outcomes` of the exercises that were checked: it
/// leaves, finished, when none failed and every exercise passed as finished;
/// else it goes on waiting, with the hint that [`hint_after`] gives.
pub fn after_verify(
    shared: &mut WatchSharedState,
    exercises: &Vec<Exercise>,
    ended: Request,
    outcomes: &Vec<Outcome>,
) -> (action: WatchAction)
    ensures
        action == if ended == Request::Passed && all_finished(outcomes@) {
            WatchAction::Stop(WatchStatus::Finished)
        } else {
            WatchAction::Wait
        },
        final(shared).quit_requested == old(shared).quit_requested,
        hint_view(final(shared).last_failure_hint) == hint_after(
            hint_view(old(shared).last_failure_hint),
            exercises@,
            ended,
        ),
{
    match ended {
        Request::Passed => {
            shared.last_failure_hint = None;
            if every_exercise_done(outcomes) {
                WatchAction::Stop(WatchStatus::Finished)
            } else {
                WatchAction::Wait
            }
        },
        Request::FailedAt(i) => {
            if i < exercises.len() {
                shared.last_failure_hint = Some(exercises[i].hint.clone());
            }
            WatchAction::Wait
        },
        _ => WatchAction::Wait,
    }
}

impl WatchSharedState {
    /// The state at the start of a watch: no hint, and no wish to leave.
    pub fn new() -> (shared: WatchSharedState)
        ensures
            shared.last_failure_hint is None,
            !shared.quit_requested,
    {
        WatchSharedState { last_failure_hint: None, quit_requested: false }
    }
}

} // verus!
