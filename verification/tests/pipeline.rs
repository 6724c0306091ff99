use rustlings::batch::{verify, ProgressCounter, Request};
use rustlings::exercise::{ContextLine, Mode, State};
use rustlings::run::{run, succeeded};
use rustlings::toolchain::ProcessOutput;
use rustlings::verify::{
    compile_and_test, compile_only, prompt_for_completion, run_one, Action, Event, Message,
    Outcome, Pipeline, Reaction, RunMode,
};

fn exited(success: bool) -> Event {
    Event::Exited(ProcessOutput {
        success,
        stdout: "out".to_string(),
        stderr: if success { String::new() } else { "error[E0308]: mismatched types".to_string() },
    })
}

/// Feeds `events` to the pipeline in order; returns everything said and the
/// actions asked for, the first included.
fn drive(begun: (Pipeline, Reaction), events: Vec<Event>) -> (Vec<Message>, Vec<Action>) {
    let (mut pipeline, first) = begun;
    let mut said = first.say;
    let mut asked = vec![first.todo];
    for event in events {
        let reaction = pipeline.step(event);
        said.extend(reaction.say);
        asked.push(reaction.todo);
    }
    (said, asked)
}

fn marker_context() -> Vec<ContextLine> {
    vec![
        ContextLine { line: "// I AM NOT DONE".to_string(), number: 1, important: true },
        ContextLine { line: "fn main() {}".to_string(), number: 2, important: false },
    ]
}

#[test]
fn compile_mode_without_marker_passes_as_done() {
    let (said, asked) = drive(
        run_one(Mode::Compile, false, true),
        vec![exited(true), exited(true), Event::Removed, Event::Source("fn main() {}\n".to_string())],
    );
    assert_eq!(
        asked,
        vec![
            Action::Build(0),
            Action::Execute,
            Action::Remove,
            Action::ReadSource,
            Action::Finish(Outcome::Passed(State::Done)),
        ]
    );
    assert_eq!(
        said,
        vec![Message::StatusCompiling, Message::StatusRunning, Message::ClearStatus]
    );
    assert!(!said.contains(&Message::Hints));
}

#[test]
fn test_mode_with_marker_passes_as_pending() {
    let source = "// I AM NOT DONE\nfn main() {}\n".to_string();
    let (said, asked) = drive(
        run_one(Mode::Test, false, false),
        vec![exited(true), exited(true), Event::Removed, Event::Source(source)],
    );
    assert_eq!(
        asked.last(),
        Some(&Action::Finish(Outcome::Passed(State::Pending(marker_context()))))
    );
    assert_eq!(
        said,
        vec![
            Message::StatusTesting,
            Message::ClearStatus,
            Message::Success(Mode::Test),
            Message::Banner(Mode::Test),
            Message::KeepWorking,
            Message::Context,
        ]
    );

    let (mut pass, first) = verify(2, (0, 2));
    assert_eq!(first, Request::Check(0));
    let next = pass.record(&Outcome::Passed(State::Pending(marker_context())));
    assert_eq!(next, Request::Check(1));
    assert_eq!(pass.progress_counter(), ProgressCounter { num_done: 1, total: 2 });
}

#[test]
fn lint_mode_with_failing_build_fails() {
    let (said, asked) = drive(
        run_one(Mode::Clippy, false, false),
        vec![Event::Written, exited(true), exited(true), exited(false), Event::Removed],
    );
    assert_eq!(
        asked,
        vec![
            Action::Build(0),
            Action::Build(1),
            Action::Build(2),
            Action::Build(3),
            Action::Remove,
            Action::Finish(Outcome::Failed),
        ]
    );
    assert_eq!(
        said,
        vec![
            Message::StatusCompiling,
            Message::ClearStatus,
            Message::WarnCompileFailed,
            Message::Stderr,
        ]
    );

    let (mut pass, _) = verify(3, (0, 3));
    assert_eq!(pass.record(&Outcome::Failed), Request::FailedAt(0));
}

#[test]
fn lint_mode_is_not_run_after_a_clean_build() {
    let (_, asked) = drive(
        compile_only(Mode::Clippy, false),
        vec![
            Event::Written,
            exited(false),
            exited(false),
            exited(true),
            Event::Removed,
            Event::Source(String::new()),
        ],
    );
    assert!(!asked.contains(&Action::Execute));
    assert_eq!(asked.last(), Some(&Action::Finish(Outcome::Passed(State::Done))));
}

#[test]
fn build_script_mode_has_no_run_of_its_own() {
    let (said, asked) = drive(
        run_one(Mode::BuildScript, true, false),
        vec![Event::Written, exited(true), Event::Removed, Event::Source("x".to_string())],
    );
    assert_eq!(
        asked,
        vec![
            Action::Build(0),
            Action::Build(1),
            Action::Remove,
            Action::ReadSource,
            Action::Finish(Outcome::Passed(State::Done)),
        ]
    );
    assert_eq!(said, vec![Message::StatusTesting, Message::ClearStatus, Message::Stdout]);
}

#[test]
fn failing_run_fails_the_exercise() {
    let (said, asked) = drive(
        run_one(Mode::Compile, false, false),
        vec![exited(true), exited(false), Event::Removed],
    );
    assert_eq!(asked.last(), Some(&Action::Finish(Outcome::Failed)));
    assert_eq!(
        said,
        vec![
            Message::StatusCompiling,
            Message::StatusRunning,
            Message::ClearStatus,
            Message::WarnRanWithErrors,
            Message::Stdout,
            Message::Stderr,
        ]
    );
}

#[test]
fn failing_tests_fail_the_exercise() {
    let (said, asked) = drive(
        compile_and_test(Mode::Test, RunMode::Interactive, true, false),
        vec![exited(true), exited(false), Event::Removed],
    );
    assert_eq!(asked.last(), Some(&Action::Finish(Outcome::Failed)));
    assert_eq!(
        said,
        vec![
            Message::StatusTesting,
            Message::ClearStatus,
            Message::WarnTestFailed,
            Message::Stdout,
        ]
    );
}

#[test]
fn a_step_that_cannot_be_carried_out_aborts() {
    let (_, asked) = drive(run_one(Mode::Compile, false, false), vec![Event::Failed, Event::Removed]);
    assert_eq!(
        asked,
        vec![Action::Build(0), Action::Remove, Action::Finish(Outcome::Aborted)]
    );
    let (_, asked) = drive(
        run_one(Mode::Clippy, false, false),
        vec![Event::Failed, Event::Failed],
    );
    assert_eq!(
        asked,
        vec![Action::Build(0), Action::Remove, Action::Finish(Outcome::Aborted)]
    );
    let (_, asked) = drive(
        run_one(Mode::Test, false, false),
        vec![exited(true), exited(true), Event::Removed, Event::Failed],
    );
    assert_eq!(asked.last(), Some(&Action::Finish(Outcome::Aborted)));
}

#[test]
fn the_output_is_removed_before_every_end() {
    for mode in [Mode::Compile, Mode::Test, Mode::Clippy, Mode::BuildScript] {
        for built in [true, false] {
            for ran in [true, false] {
                let mut events = Vec::new();
                if mode == Mode::Clippy || mode == Mode::BuildScript {
                    events.push(Event::Written);
                }
                if mode == Mode::Clippy {
                    events.push(exited(true));
                    events.push(exited(true));
                }
                events.push(exited(built));
                events.push(exited(ran));
                events.push(Event::Removed);
                events.push(Event::Source(String::new()));
                events.push(Event::Removed);
                let (_, asked) = drive(run_one(mode, false, false), events);
                let end = asked.iter().position(|a| matches!(a, Action::Finish(_))).unwrap();
                let removal = asked.iter().position(|a| *a == Action::Remove).unwrap();
                assert!(removal < end);
            }
        }
    }
}

#[test]
fn an_ended_pipeline_stays_ended() {
    let (mut pipeline, _) = rustlings::verify::test(Mode::Test, false);
    assert!(!pipeline.is_finished());
    pipeline.step(exited(false));
    let end = pipeline.step(Event::Removed);
    assert_eq!(end.todo, Action::Finish(Outcome::Failed));
    assert!(pipeline.is_finished());
    assert_eq!(pipeline.step(exited(true)).todo, Action::Finish(Outcome::Aborted));
}

#[test]
fn a_single_run_shows_the_output_and_does_not_read_the_source() {
    let exercise = rustlings::exercise::Exercise {
        name: "intro1".to_string(),
        path: "exercises/intro/intro1.rs".to_string(),
        mode: Mode::Compile,
        hint: String::new(),
    };
    let (said, asked) = drive(run(&exercise, false), vec![exited(true), exited(true), Event::Removed]);
    assert_eq!(asked.last(), Some(&Action::Finish(Outcome::Accepted)));
    assert!(!asked.contains(&Action::ReadSource));
    assert_eq!(
        said,
        vec![
            Message::StatusCompiling,
            Message::StatusRunning,
            Message::ClearStatus,
            Message::Stdout,
            Message::SuccessRan,
        ]
    );
    assert_eq!(succeeded(&Outcome::Accepted), Ok(()));
    assert_eq!(succeeded(&Outcome::Passed(State::Done)), Ok(()));
    assert_eq!(succeeded(&Outcome::Failed), Err(()));
    assert_eq!(succeeded(&Outcome::Aborted), Err(()));

    let (said, asked) = drive(run(&exercise, false), vec![exited(false), Event::Removed]);
    assert_eq!(asked.last(), Some(&Action::Finish(Outcome::Failed)));
    assert_eq!(
        said,
        vec![
            Message::StatusCompiling,
            Message::ClearStatus,
            Message::WarnCompilationFailed,
            Message::Stderr,
        ]
    );
}

#[test]
fn prompt_says_nothing_of_a_finished_exercise() {
    assert_eq!(prompt_for_completion(Mode::Compile, &State::Done, true, true), (true, vec![]));
}

#[test]
fn prompt_shows_output_and_hint_when_asked() {
    let pending = State::Pending(marker_context());
    assert_eq!(
        prompt_for_completion(Mode::Compile, &pending, true, true),
        (
            false,
            vec![
                Message::Success(Mode::Compile),
                Message::Banner(Mode::Compile),
                Message::Output,
                Message::Hints,
                Message::KeepWorking,
                Message::Context,
            ]
        )
    );
    assert_eq!(
        prompt_for_completion(Mode::Clippy, &pending, false, false).1,
        vec![
            Message::Success(Mode::Clippy),
            Message::Banner(Mode::Clippy),
            Message::KeepWorking,
            Message::Context,
        ]
    );
}

#[test]
fn a_pass_stops_at_the_first_failure() {
    // A passes, B fails, C would pass: C is never asked for.
    let (mut pass, first) = verify(3, (0, 3));
    let mut asked = vec![first];
    asked.push(pass.record(&Outcome::Passed(State::Done)));
    asked.push(pass.record(&Outcome::Failed));
    asked.push(pass.record(&Outcome::Passed(State::Done)));
    assert_eq!(
        asked,
        vec![Request::Check(0), Request::Check(1), Request::FailedAt(1), Request::FailedAt(1)]
    );
    assert!(!asked.contains(&Request::Check(2)));
    assert_eq!(pass.current(), Request::FailedAt(1));
    assert_eq!(pass.progress_counter(), ProgressCounter { num_done: 1, total: 3 });
}

#[test]
fn a_pass_through_passing_exercises_ends_as_passed() {
    let (mut pass, first) = verify(2, (5, 7));
    assert_eq!(first, Request::Check(0));
    assert_eq!(pass.record(&Outcome::Passed(State::Done)), Request::Check(1));
    assert_eq!(pass.record(&Outcome::Accepted), Request::Passed);
    assert_eq!(pass.progress_counter(), ProgressCounter { num_done: 7, total: 7 });
}

#[test]
fn a_pass_through_nothing_has_passed() {
    let (pass, first) = verify(0, (0, 0));
    assert_eq!(first, Request::Passed);
    assert_eq!(pass.current(), Request::Passed);
}

#[test]
fn a_pass_stops_where_a_check_is_aborted() {
    let (mut pass, _) = verify(2, (0, 2));
    assert_eq!(pass.record(&Outcome::Aborted), Request::AbortedAt(0));
    assert_eq!(pass.progress_counter(), ProgressCounter { num_done: 0, total: 2 });
}
