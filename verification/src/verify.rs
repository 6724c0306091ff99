//! Checking one exercise, step by step: build it, run what was built, and
//! read its source for the marker. The caller carries out each step that
//! [`Pipeline`] asks for and reports how it went; every decision is taken
//! here.

use crate::exercise::{classify, completion_state, Mode, State, StateView};
use crate::toolchain::{build_step_count, ProcessOutput};
use vstd::prelude::*;

verus! {

/// Whether a check ends with a look at the source.
#[derive(Clone, Copy, Debug, PartialEq, Eq, Structural)]
pub enum RunMode {
    /// The source is read, and its author is told how to go on.
    Interactive,
    /// The toolchain's word is all that counts.
    NonInteractive,
}

/// The ways to check one exercise.
#[derive(Clone, Copy, Debug, PartialEq, Eq, Structural)]
pub enum Flow {
    /// Build, then read the source.
    CompileOnly,
    /// Build, run, then read the source and show what the run printed.
    RunInteractively,
    /// Build the tests and run them.
    Test(RunMode),
    /// Build and run, and show what the run printed.
    Run,
}

/// What a pipeline needs to know of its exercise and of its caller's wishes.
#[derive(Clone, Copy, Debug, PartialEq, Eq, Structural)]
pub struct Config {
    pub mode: Mode,
    pub flow: Flow,
    /// Whether what the tests print is shown also when they pass.
    pub verbose: bool,
    /// Whether the hint is shown along with the news of a success.
    pub success_hints: bool,
}

/// How a pipeline ended, but for the source's state.
#[derive(Clone, Copy, Debug, PartialEq, Eq, Structural)]
pub enum Fate {
    /// The toolchain accepted the exercise.
    Accepted,
    /// The toolchain rejected the exercise.
    Failed,
    /// A step could not be carried out at all.
    Aborted,
}

/// What follows the removal of the compiler's output.
#[derive(Clone, Copy, Debug, PartialEq, Eq, Structural)]
pub enum Sequel {
    /// The source is read.
    Classify,
    /// The pipeline ends.
    End(Fate),
}

/// Where a pipeline stands.
#[derive(Clone, Copy, Debug, PartialEq, Eq, Structural)]
pub enum Phase {
    /// The build step of this index is under way.
    Building(usize),
    /// What was built is running.
    Executing,
    /// The compiler's output is being removed.
    Cleaning(Sequel),
    /// The source is being read.
    Reading,
    /// The pipeline has ended.
    Finished,
}

/// Something to tell the user. The wording is the caller's.
#[derive(Clone, Copy, Debug, PartialEq, Eq, Structural)]
pub enum Message {
    /// The exercise is being compiled.
    StatusCompiling,
    /// The exercise is being tested.
    StatusTesting,
    /// The exercise is being run.
    StatusRunning,
    /// The status line goes away.
    ClearStatus,
    /// The build failed, on the way through all exercises.
    WarnCompileFailed,
    /// The build failed, in a run of one exercise.
    WarnCompilationFailed,
    /// The tests failed.
    WarnTestFailed,
    /// The run failed.
    WarnRanWithErrors,
    /// The run succeeded.
    SuccessRan,
    /// What the last process wrote to its standard output.
    Stdout,
    /// What the last process wrote to its standard error.
    Stderr,
    /// The toolchain accepted the exercise, in the words for this mode.
    Success(Mode),
    /// The banner of a success in this mode.
    Banner(Mode),
    /// What the run printed, between separators.
    Output,
    /// The exercise's hint, between separators.
    Hints,
    /// The exercise can be worked on further, or the marker removed.
    KeepWorking,
    /// The lines around the marker, the marker line set off.
    Context,
}

/// How the check of one exercise ended.
#[derive(Debug, PartialEq, Eq)]
pub enum Outcome {
    /// The toolchain accepted the exercise, and its source is in this state.
    Passed(State),
    /// The toolchain accepted the exercise; the source was not looked at.
    Accepted,
    /// The toolchain rejected the exercise.
    Failed,
    /// A step could not be carried out at all.
    Aborted,
}

/// What an [`Outcome`] stands for.
pub enum OutcomeView {
    Passed(StateView),
    Accepted,
    Failed,
    Aborted,
}

impl View for Outcome {
    type V = OutcomeView;

    open spec fn view(&self) -> OutcomeView {
        match self {
            Outcome::Passed(state) => OutcomeView::Passed(state@),
            Outcome::Accepted => OutcomeView::Accepted,
            Outcome::Failed => OutcomeView::Failed,
            Outcome::Aborted => OutcomeView::Aborted,
        }
    }
}

/// The outcome that a fate amounts to.
pub open spec fn fate_outcome(fate: Fate) -> OutcomeView {
    match fate {
        Fate::Accepted => OutcomeView::Accepted,
        Fate::Failed => OutcomeView::Failed,
        Fate::Aborted => OutcomeView::Aborted,
    }
}

/// What the caller is to do next.
#[derive(Debug, PartialEq, Eq)]
pub enum Action {
    /// Carry out the build step of this index.
    Build(usize),
    /// Run what was built.
    Execute,
    /// Remove the compiler's output. That it may be gone already is no fault.
    Remove,
    /// Read the exercise's source.
    ReadSource,
    /// Nothing: the pipeline has ended, in this way.
    Finish(Outcome),
}

/// What an [`Action`] stands for.
pub enum ActionView {
    Build(usize),
    Execute,
    Remove,
    ReadSource,
    Finish(OutcomeView),
}

impl View for Action {
    type V = ActionView;

    open spec fn view(&self) -> ActionView {
        match self {
            Action::Build(k) => ActionView::Build(*k),
            Action::Execute => ActionView::Execute,
            Action::Remove => ActionView::Remove,
            Action::ReadSource => ActionView::ReadSource,
            Action::Finish(outcome) => ActionView::Finish(outcome@),
        }
    }
}

/// How the step that was asked for went.
#[derive(Debug, PartialEq, Eq)]
pub enum Event {
    /// The file was written.
    Written,
    /// The process ran to its end.
    Exited(ProcessOutput),
    /// The compiler's output is gone.
    Removed,
    /// The source was read, and this is its text.
    Source(String),
    /// The step could not be carried out.
    Failed,
}

/// What an [`Event`] stands for: of a process only whether it succeeded.
pub enum EventView {
    Written,
    Exited(bool),
    Removed,
    Source(Seq<char>),
    Failed,
}

impl View for Event {
    type V = EventView;

    open spec fn view(&self) -> EventView {
        match self {
            Event::Written => EventView::Written,
            Event::Exited(output) => EventView::Exited(output.success),
            Event::Removed => EventView::Removed,
            Event::Source(text) => EventView::Source(text@),
            Event::Failed => EventView::Failed,
        }
    }
}

/// What a pipeline answers: what to tell the user now, and what to do next.
#[derive(Debug, PartialEq, Eq)]
pub struct Reaction {
    pub say: Vec<Message>,
    pub todo: Action,
}

/// A pipeline's move: where it stands afterwards, what it says, and what it
/// asks for.
pub struct Move {
    pub phase: Phase,
    pub say: Seq<Message>,
    pub todo: ActionView,
}

/// What is said to an author whose exercise the toolchain accepted, when the
/// source is in state `state`: nothing where it is finished; else the news of
/// the success, what the run printed if `with_output`, the hint if
/// `success_hints`, and how to go on, with the lines around the marker.
pub open spec fn prompt_messages(
    mode: Mode,
    state: StateView,
    with_output: bool,
    success_hints: bool,
) -> Seq<Message> {
    if state is Done {
        Seq::empty()
    } else {
        seq![Message::Success(mode), Message::Banner(mode)] + (if with_output {
            seq![Message::Output]
        } else {
            Seq::empty()
        }) + (if success_hints {
            seq![Message::Hints]
        } else {
            Seq::empty()
        }) + seq![Message::KeepWorking, Message::Context]
    }
}

/// Whether the build step of index `k` in mode `mode` writes a file.
pub open spec fn writes_file(mode: Mode, k: int) -> bool {
    k == 0 && (mode == Mode::Clippy || mode == Mode::BuildScript)
}

/// The move that gives up: the compiler's output is removed, and the pipeline
/// then ends as aborted.
pub open spec fn give_up() -> Move {
    Move {
        phase: Phase::Cleaning(Sequel::End(Fate::Aborted)),
        say: seq![Message::ClearStatus],
        todo: ActionView::Remove,
    }
}

/// The move that follows a run of what was built, or takes its place where
/// nothing is run; `ok` says whether the run succeeded.
pub open spec fn after_run(c: Config, ok: bool) -> Move {
    match c.flow {
        Flow::CompileOnly => give_up(),
        Flow::RunInteractively => if ok {
            Move {
                phase: Phase::Cleaning(Sequel::Classify),
                say: seq![Message::ClearStatus],
                todo: ActionView::Remove,
            }
        } else {
            Move {
                phase: Phase::Cleaning(Sequel::End(Fate::Failed)),
                say: seq![
                    Message::ClearStatus,
                    Message::WarnRanWithErrors,
                    Message::Stdout,
                    Message::Stderr,
                ],
                todo: ActionView::Remove,
            }
        },
        Flow::Test(run_mode) => if ok {
            Move {
                phase: Phase::Cleaning(
                    if run_mode == RunMode::Interactive {
                        Sequel::Classify
                    } else {
                        Sequel::End(Fate::Accepted)
                    },
                ),
                say: if c.verbose {
                    seq![Message::ClearStatus, Message::Stdout]
                } else {
                    seq![Message::ClearStatus]
                },
                todo: ActionView::Remove,
            }
        } else {
            Move {
                phase: Phase::Cleaning(Sequel::End(Fate::Failed)),
                say: seq![Message::ClearStatus, Message::WarnTestFailed, Message::Stdout],
                todo: ActionView::Remove,
            }
        },
        Flow::Run => if ok {
            Move {
                phase: Phase::Cleaning(Sequel::End(Fate::Accepted)),
                say: seq![Message::ClearStatus, Message::Stdout, Message::SuccessRan],
                todo: ActionView::Remove,
            }
        } else {
            Move {
                phase: Phase::Cleaning(Sequel::End(Fate::Failed)),
                say: seq![
                    Message::ClearStatus,
                    Message::Stdout,
                    Message::Stderr,
                    Message::WarnRanWithErrors,
                ],
                todo: ActionView::Remove,
            }
        },
    }
}

/// The move that follows a build: `ok` says whether its last step succeeded.
pub open spec fn after_build(c: Config, ok: bool) -> Move {
    if !ok {
        Move {
            phase: Phase::Cleaning(Sequel::End(Fate::Failed)),
            say: seq![
                Message::ClearStatus,
                if c.flow == Flow::Run {
                    Message::WarnCompilationFailed
                } else {
                    Message::WarnCompileFailed
                },
                Message::Stderr,
            ],
            todo: ActionView::Remove,
        }
    } else if c.flow == Flow::CompileOnly {
        Move {
            phase: Phase::Cleaning(Sequel::Classify),
            say: seq![Message::ClearStatus],
            todo: ActionView::Remove,
        }
    } else if c.mode == Mode::BuildScript {
        after_run(c, true)
    } else {
        Move {
            phase: Phase::Executing,
            say: if c.flow is Test {
                Seq::empty()
            } else {
                seq![Message::StatusRunning]
            },
            todo: ActionView::Execute,
        }
    }
}

/// The first move of a pipeline: the first build step.
pub open spec fn first_move(c: Config) -> Move {
    Move {
        phase: Phase::Building(0),
        say: seq![
            if c.flow is Test {
                Message::StatusTesting
            } else {
                Message::StatusCompiling
            },
        ],
        todo: ActionView::Build(0),
    }
}

/// The move that a pipeline with configuration `c` makes in phase `phase`
/// when told `event`.
///
/// A build goes through its steps in order and stops at the first that could
/// not be carried out. Only the end of the last step counts. Whatever
/// happened, the compiler's output is removed before anything else follows,
/// be it the reading of the source or the end. An event that does not answer
/// what was asked for ends the pipeline as aborted.
pub open spec fn next_move(c: Config, phase: Phase, event: EventView) -> Move {
    match phase {
        Phase::Building(k) => if k + 1 < build_step_count(c.mode) {
            if (writes_file(c.mode, k as int) && event is Written) || (!writes_file(
                c.mode,
                k as int,
            ) && event is Exited) {
                Move {
                    phase: Phase::Building((k + 1) as usize),
                    say: Seq::empty(),
                    todo: ActionView::Build((k + 1) as usize),
                }
            } else {
                give_up()
            }
        } else {
            match event {
                EventView::Exited(ok) => after_build(c, ok),
                _ => give_up(),
            }
        },
        Phase::Executing => match event {
            EventView::Exited(ok) => after_run(c, ok),
            _ => give_up(),
        },
        Phase::Cleaning(sequel) => match sequel {
            Sequel::Classify => Move {
                phase: Phase::Reading,
                say: Seq::empty(),
                todo: ActionView::ReadSource,
            },
            Sequel::End(fate) => Move {
                phase: Phase::Finished,
                say: Seq::empty(),
                todo: ActionView::Finish(fate_outcome(fate)),
            },
        },
        Phase::Reading => match event {
            EventView::Source(text) => Move {
                phase: Phase::Finished,
                say: prompt_messages(
                    c.mode,
                    completion_state(text),
                    c.flow == Flow::RunInteractively,
                    c.success_hints,
                ),
                todo: ActionView::Finish(OutcomeView::Passed(completion_state(text))),
            },
            _ => Move {
                phase: Phase::Finished,
                say: Seq::empty(),
                todo: ActionView::Finish(OutcomeView::Aborted),
            },
        },
        Phase::Finished => Move {
            phase: Phase::Finished,
            say: Seq::empty(),
            todo: ActionView::Finish(OutcomeView::Aborted),
        },
    }
}

/// The check of one exercise, under way.
#[derive(Debug)]
pub struct Pipeline {
    config: Config,
    phase: Phase,
}

/// Works out [`prompt_messages`], and says whether the exercise is finished.
pub fn prompt_for_completion(
    mode: Mode,
    state: &State,
    with_output: bool,
    success_hints: bool,
) -> (answer: (bool, Vec<Message>))
    ensures
        answer.0 == (state@ is Done),
        answer.1@ == prompt_messages(mode, state@, with_output, success_hints),
{
    let mut say: Vec<Message> = Vec::new();
    match state {
        State::Done => {
            return (true, say);
        },
        State::Pending(_) => {},
    }
    say.push(Message::Success(mode));
    say.push(Message::Banner(mode));
    if with_output {
        say.push(Message::Output);
    }
    if success_hints {
        say.push(Message::Hints);
    }
    say.push(Message::KeepWorking);
    say.push(Message::Context);
    assert(say@ =~= prompt_messages(mode, state@, with_output, success_hints));
    (false, say)
}

/// The number of steps that a build in mode `mode` takes.
fn step_count(mode: Mode) -> (n: usize)
    ensures
        n == build_step_count(mode),
{
    match mode {
        Mode::Compile => 1,
        Mode::Test => 1,
        Mode::Clippy => 4,
        Mode::BuildScript => 2,
    }
}

/// A reaction that says `say` and asks for the removal of the compiler's
/// output.
fn remove_saying(say: Vec<Message>) -> (reaction: Reaction)
    ensures
        reaction.say@ == say@,
        reaction.todo@ == ActionView::Remove,
{
    Reaction { say, todo: Action::Remove }
}

impl Pipeline {
    /// The configuration that this pipeline was made with.
    pub closed spec fn config(&self) -> Config {
        self.config
    }

    /// Where this pipeline stands.
    pub closed spec fn phase(&self) -> Phase {
        self.phase
    }

    /// A build step that is under way is one of the build's steps.
    #[verifier::type_invariant]
    spec fn inv(self) -> bool {
        self.phase matches Phase::Building(k) ==> k < build_step_count(self.config.mode)
    }

    /// Starts the check of an exercise: the pipeline and its first move.
    pub fn start(config: Config) -> (begun: (Pipeline, Reaction))
        ensures
            begun.0.config() == config,
            begun.0.phase() == first_move(config).phase,
            begun.1.say@ == first_move(config).say,
            begun.1.todo@ == first_move(config).todo,
    {
        let mut say: Vec<Message> = Vec::new();
        match config.flow {
            Flow::Test(_) => say.push(Message::StatusTesting),
            _ => say.push(Message::StatusCompiling),
        }
        assert(say@ =~= first_move(config).say);
        (Pipeline { config, phase: Phase::Building(0) }, Reaction { say, todo: Action::Build(0) })
    }

    /// Whether the pipeline has ended.
    pub fn is_finished(&self) -> (finished: bool)
        ensures
            finished == (self.phase() is Finished),
    {
        match self.phase {
            Phase::Finished => true,
            _ => false,
        }
    }

    fn give_up(&mut self) -> (reaction: Reaction)
        ensures
            final(self).config() == old(self).config(),
            final(self).phase() == give_up().phase,
            reaction.say@ == give_up().say,
            reaction.todo@ == give_up().todo,
    {
        self.phase = Phase::Cleaning(Sequel::End(Fate::Aborted));
        let mut say: Vec<Message> = Vec::new();
        say.push(Message::ClearStatus);
        assert(say@ =~= give_up().say);
        remove_saying(say)
    }

    fn after_run(&mut self, ok: bool) -> (reaction: Reaction)
        ensures
            final(self).config() == old(self).config(),
            final(self).phase() == after_run(old(self).config(), ok).phase,
            reaction.say@ == after_run(old(self).config(), ok).say,
            reaction.todo@ == after_run(old(self).config(), ok).todo,
    {
        let ghost c = self.config;
        let mut say: Vec<Message> = Vec::new();
        say.push(Message::ClearStatus);
        match self.config.flow {
            Flow::CompileOnly => {
                return self.give_up();
            },
            Flow::RunInteractively => {
                if ok {
                    self.phase = Phase::Cleaning(Sequel::Classify);
                } else {
                    say.push(Message::WarnRanWithErrors);
                    say.push(Message::Stdout);
                    say.push(Message::Stderr);
                    self.phase = Phase::Cleaning(Sequel::End(Fate::Failed));
                }
            },
            Flow::Test(run_mode) => {
                if ok {
                    if self.config.verbose {
                        say.push(Message::Stdout);
                    }
                    self.phase = match run_mode {
                        RunMode::Interactive => Phase::Cleaning(Sequel::Classify),
                        RunMode::NonInteractive => Phase::Cleaning(Sequel::End(Fate::Accepted)),
                    };
                } else {
                    say.push(Message::WarnTestFailed);
                    say.push(Message::Stdout);
                    self.phase = Phase::Cleaning(Sequel::End(Fate::Failed));
                }
            },
            Flow::Run => {
                say.push(Message::Stdout);
                if ok {
                    say.push(Message::SuccessRan);
                    self.phase = Phase::Cleaning(Sequel::End(Fate::Accepted));
                } else {
                    say.push(Message::Stderr);
                    say.push(Message::WarnRanWithErrors);
                    self.phase = Phase::Cleaning(Sequel::End(Fate::Failed));
                }
            },
        }
        assert(say@ =~= after_run(c, ok).say);
        remove_saying(say)
    }

    fn after_build(&mut self, ok: bool) -> (reaction: Reaction)
        ensures
            final(self).config() == old(self).config(),
            final(self).phase() == after_build(old(self).config(), ok).phase,
            reaction.say@ == after_build(old(self).config(), ok).say,
            reaction.todo@ == after_build(old(self).config(), ok).todo,
    {
        let ghost c = self.config;
        let mut say: Vec<Message> = Vec::new();
        let runs = match self.config.flow {
            Flow::Run => true,
            _ => false,
        };
        let compile_only = match self.config.flow {
            Flow::CompileOnly => true,
            _ => false,
        };
        let tests = match self.config.flow {
            Flow::Test(_) => true,
            _ => false,
        };
        let build_script = match self.config.mode {
            Mode::BuildScript => true,
            _ => false,
        };
        if !ok {
            say.push(Message::ClearStatus);
            if runs {
                say.push(Message::WarnCompilationFailed);
            } else {
                say.push(Message::WarnCompileFailed);
            }
            say.push(Message::Stderr);
            self.phase = Phase::Cleaning(Sequel::End(Fate::Failed));
            assert(say@ =~= after_build(c, ok).say);
            remove_saying(say)
        } else if compile_only {
            say.push(Message::ClearStatus);
            self.phase = Phase::Cleaning(Sequel::Classify);
            assert(say@ =~= after_build(c, ok).say);
            remove_saying(say)
        } else if build_script {
            self.after_run(true)
        } else {
            if !tests {
                say.push(Message::StatusRunning);
            }
            self.phase = Phase::Executing;
            assert(say@ =~= after_build(c, ok).say);
            Reaction { say, todo: Action::Execute }
        }
    }

    /// Takes the pipeline's next move, [`next_move`], on the news of how the
    /// step went that it asked for last.
    pub fn step(&mut self, event: Event) -> (reaction: Reaction)
        ensures
            final(self).config() == old(self).config(),
            final(self).phase() == next_move(old(self).config(), old(self).phase(), event@).phase,
            reaction.say@ == next_move(old(self).config(), old(self).phase(), event@).say,
            reaction.todo@ == next_move(old(self).config(), old(self).phase(), event@).todo,
    {
        proof {
            use_type_invariant(&*self);
        }
        match self.phase {
            Phase::Building(k) => {
                let writes = k == 0 && match self.config.mode {
                    Mode::Clippy => true,
                    Mode::BuildScript => true,
                    _ => false,
                };
                if k + 1 < step_count(self.config.mode) {
                    let answers = match event {
                        Event::Written => writes,
                        Event::Exited(_) => !writes,
                        _ => false,
                    };
                    if answers {
                        self.phase = Phase::Building(k + 1);
                        Reaction { say: Vec::new(), todo: Action::Build(k + 1) }
                    } else {
                        self.give_up()
                    }
                } else {
                    match event {
                        Event::Exited(output) => self.after_build(output.success),
                        _ => self.give_up(),
                    }
                }
            },
            Phase::Executing => {
                match event {
                    Event::Exited(output) => self.after_run(output.success),
                    _ => self.give_up(),
                }
            },
            Phase::Cleaning(sequel) => {
                match sequel {
                    Sequel::Classify => {
                        self.phase = Phase::Reading;
                        Reaction { say: Vec::new(), todo: Action::ReadSource }
                    },
                    Sequel::End(fate) => {
                        self.phase = Phase::Finished;
                        let outcome = match fate {
                            Fate::Accepted => Outcome::Accepted,
                            Fate::Failed => Outcome::Failed,
                            Fate::Aborted => Outcome::Aborted,
                        };
                        Reaction { say: Vec::new(), todo: Action::Finish(outcome) }
                    },
                }
            },
            Phase::Reading => {
                self.phase = Phase::Finished;
                match event {
                    Event::Source(text) => {
                        let state = classify(text.as_str());
                        let with_output = match self.config.flow {
                            Flow::RunInteractively => true,
                            _ => false,
                        };
                        let (_, say) = prompt_for_completion(
                            self.config.mode,
                            &state,
                            with_output,
                            self.config.success_hints,
                        );
                        Reaction { say, todo: Action::Finish(Outcome::Passed(state)) }
                    },
                    _ => Reaction { say: Vec::new(), todo: Action::Finish(Outcome::Aborted) },
                }
            },
            Phase::Finished => Reaction { say: Vec::new(), todo: Action::Finish(Outcome::Aborted) },
        }
    }
}

/// The flow by which a pass through all exercises checks an exercise of mode
/// `mode`: tests and build scripts are tested, a binary is built and run, and
/// for the linter the build is the whole check. Each ends with a look at the
/// source.
pub open spec fn flow_of(mode: Mode) -> Flow {
    match mode {
        Mode::Test => Flow::Test(RunMode::Interactive),
        Mode::Compile => Flow::RunInteractively,
        Mode::Clippy => Flow::CompileOnly,
        Mode::BuildScript => Flow::Test(RunMode::Interactive),
    }
}

/// Starts the check of an exercise that is built and not run.
pub fn compile_only(mode: Mode, success_hints: bool) -> (begun: (Pipeline, Reaction))
    ensures
        begun.0.config() == (Config {
            mode,
            flow: Flow::CompileOnly,
            verbose: false,
            success_hints,
        }),
        begun.0.phase() == first_move(begun.0.config()).phase,
        begun.1.say@ == first_move(begun.0.config()).say,
        begun.1.todo@ == first_move(begun.0.config()).todo,
{
    Pipeline::start(Config { mode, flow: Flow::CompileOnly, verbose: false, success_hints })
}

/// Starts the check of an exercise that is built and run, and whose author
/// is shown what the run printed.
pub fn compile_and_run_interactively(mode: Mode, success_hints: bool) -> (begun: (
    Pipeline,
    Reaction,
))
    ensures
        begun.0.config() == (Config {
            mode,
            flow: Flow::RunInteractively,
            verbose: false,
            success_hints,
        }),
        begun.0.phase() == first_move(begun.0.config()).phase,
        begun.1.say@ == first_move(begun.0.config()).say,
        begun.1.todo@ == first_move(begun.0.config()).todo,
{
    Pipeline::start(Config { mode, flow: Flow::RunInteractively, verbose: false, success_hints })
}

/// Starts the check of an exercise whose tests are built and run.
pub fn compile_and_test(mode: Mode, run_mode: RunMode, verbose: bool, success_hints: bool) -> (begun:
    (Pipeline, Reaction))
    ensures
        begun.0.config() == (Config { mode, flow: Flow::Test(run_mode), verbose, success_hints }),
        begun.0.phase() == first_move(begun.0.config()).phase,
        begun.1.say@ == first_move(begun.0.config()).say,
        begun.1.todo@ == first_move(begun.0.config()).todo,
{
    Pipeline::start(Config { mode, flow: Flow::Test(run_mode), verbose, success_hints })
}

/// Starts the check of the tests of one exercise for which only the
/// toolchain's word counts.
pub fn test(mode: Mode, verbose: bool) -> (begun: (Pipeline, Reaction))
    ensures
        begun.0.config() == (Config {
            mode,
            flow: Flow::Test(RunMode::NonInteractive),
            verbose,
            success_hints: false,
        }),
        begun.0.phase() == first_move(begun.0.config()).phase,
        begun.1.say@ == first_move(begun.0.config()).say,
        begun.1.todo@ == first_move(begun.0.config()).todo,
{
    compile_and_test(mode, RunMode::NonInteractive, verbose, false)
}

/// Starts the check of an exercise on the way through all of them, by the
/// flow that [`flow_of`] gives its mode.
pub fn run_one(mode: Mode, verbose: bool, success_hints: bool) -> (begun: (Pipeline, Reaction))
    ensures
        begun.0.config() == (Config {
            mode,
            flow: flow_of(mode),
            verbose: verbose && flow_of(mode) is Test,
            success_hints,
        }),
        begun.0.phase() == first_move(begun.0.config()).phase,
        begun.1.say@ == first_move(begun.0.config()).say,
        begun.1.todo@ == first_move(begun.0.config()).todo,
{
    match mode {
        Mode::Test => compile_and_test(mode, RunMode::Interactive, verbose, success_hints),
        Mode::Compile => compile_and_run_interactively(mode, success_hints),
        Mode::Clippy => compile_only(mode, success_hints),
        Mode::BuildScript => compile_and_test(mode, RunMode::Interactive, verbose, success_hints),
    }
}

/// What a pipeline asks for, move by move, when the steps it asks for go as
/// `events` says: its first request, and after each event the next.
#[verifier::opaque]
pub open spec fn requests(c: Config, events: Seq<EventView>) -> Seq<ActionView>
    decreases events.len(),
{
    if events.len() == 0 {
        seq![first_move(c).todo]
    } else {
        requests(c, events.drop_last()).push(
            next_move(c, phase_after(c, events.drop_last()), events.last()).todo,
        )
    }
}

/// Where a pipeline stands after the steps it asked for went as `events`
/// says.
#[verifier::opaque]
pub open spec fn phase_after(c: Config, events: Seq<EventView>) -> Phase
    decreases events.len(),
{
    if events.len() == 0 {
        first_move(c).phase
    } else {
        next_move(c, phase_after(c, events.drop_last()), events.last()).phase
    }
}

/// Whether `actions` asks for the removal of the compiler's output.
pub open spec fn asks_removal(actions: Seq<ActionView>) -> bool {
    exists|i: int| 0 <= i < actions.len() && #[trigger] actions[i] == ActionView::Remove
}

/// A pipeline that has got past its build, or that is reading the source or
/// has ended, has asked for the removal of the compiler's output at the
/// latest one move before; and a build step that is under way is one of the
/// build's steps.
proof fn lemma_requests(c: Config, events: Seq<EventView>)
    ensures
        requests(c, events).len() == events.len() + 1,
        phase_after(c, events) matches Phase::Building(k) ==> k < build_step_count(c.mode),
        (phase_after(c, events) is Cleaning) == (requests(c, events).last()
            == ActionView::Remove),
        requests(c, events).last() is Finish ==> phase_after(c, events) is Finished,
        phase_after(c, events) is Reading || phase_after(c, events) is Finished ==> asks_removal(
            requests(c, events).drop_last(),
        ),
    decreases events.len(),
{
    reveal(requests);
    reveal(phase_after);
    if events.len() > 0 {
        let before = events.drop_last();
        lemma_requests(c, before);
        let earlier = requests(c, before);
        let now = requests(c, events);
        assert(now.drop_last() =~= earlier);
        if phase_after(c, events) is Reading || phase_after(c, events) is Finished {
            if phase_after(c, before) is Cleaning {
                assert(earlier[earlier.len() - 1] == ActionView::Remove);
            } else {
                let i = choose|i: int|
                    0 <= i < earlier.drop_last().len() && #[trigger] earlier.drop_last()[i]
                        == ActionView::Remove;
                assert(earlier[i] == ActionView::Remove);
            }
        }
    }
}

/// Whatever happens, the compiler's output is removed before a pipeline
/// ends: where the last of its requests says that it has ended, an earlier
/// one asked for the removal.
pub proof fn lemma_cleanup_before_finish(c: Config, events: Seq<EventView>)
    requires
        requests(c, events).last() is Finish,
    ensures
        asks_removal(requests(c, events).drop_last()),
{
    lemma_requests(c, events);
}

/// A pipeline asks only for build steps that the build of its mode has.
pub proof fn lemma_build_steps_exist(c: Config, events: Seq<EventView>, i: int)
    requires
        0 <= i <= events.len(),
    ensures
        requests(c, events).len() == events.len() + 1,
        requests(c, events)[i] matches ActionView::Build(k) ==> k < build_step_count(c.mode),
    decreases events.len(),
{
    reveal(requests);
    reveal(phase_after);
    lemma_requests(c, events);
    if events.len() > 0 {
        lemma_requests(c, events.drop_last());
        if i < events.len() {
            lemma_build_steps_exist(c, events.drop_last(), i);
        }
    }
}

/// One more event takes a pipeline one move further.
pub proof fn lemma_one_more(c: Config, events: Seq<EventView>, event: EventView)
    ensures
        phase_after(c, events.push(event)) == next_move(c, phase_after(c, events), event).phase,
        requests(c, events.push(event)).last() == next_move(
            c,
            phase_after(c, events),
            event,
        ).todo,
{
    reveal(requests);
    reveal(phase_after);
    assert(events.push(event).drop_last() =~= events);
}

/// Before any event a pipeline stands where its first move put it.
pub proof fn lemma_at_first(c: Config)
    ensures
        phase_after(c, Seq::empty()) == first_move(c).phase,
        requests(c, Seq::empty()).last() == first_move(c).todo,
{
    reveal(requests);
    reveal(phase_after);
}

/// The events of an orderly check of an exercise of mode `mode`: every build
/// step is carried out, and its last step ends as `built` says; what was
/// built runs, where something is run, and ends as `ran` says; the compiler's
/// output is removed; and where the toolchain accepted the exercise, the
/// source is read and holds `source`.
pub open spec fn orderly_events(mode: Mode, built: bool, ran: bool, source: Seq<char>) -> Seq<
    EventView,
> {
    let build = match mode {
        Mode::Compile => seq![EventView::Exited(built)],
        Mode::Test => seq![EventView::Exited(built)],
        Mode::Clippy => seq![
            EventView::Written,
            EventView::Exited(true),
            EventView::Exited(true),
            EventView::Exited(built),
        ],
        Mode::BuildScript => seq![EventView::Written, EventView::Exited(built)],
    };
    let run = if built && (mode == Mode::Compile || mode == Mode::Test) {
        build.push(EventView::Exited(ran))
    } else {
        build
    };
    if accepted(mode, built, ran) {
        run.push(EventView::Removed).push(EventView::Source(source))
    } else {
        run.push(EventView::Removed)
    }
}

/// Whether the toolchain accepts an exercise of mode `mode` whose build ends
/// as `built` says and whose run, where something is run, as `ran` says.
pub open spec fn accepted(mode: Mode, built: bool, ran: bool) -> bool {
    built && (ran || mode == Mode::Clippy || mode == Mode::BuildScript)
}

/// On the way through all exercises, an orderly check ends as passed, in the
/// state that the source puts the exercise in, where the toolchain accepted
/// the exercise, and as failed where it did not.
pub proof fn lemma_passes(c: Config, built: bool, ran: bool, source: Seq<char>)
    requires
        c.flow == flow_of(c.mode),
    ensures
        requests(c, orderly_events(c.mode, built, ran, source)).last() == ActionView::Finish(
            if accepted(c.mode, built, ran) {
                OutcomeView::Passed(completion_state(source))
            } else {
                OutcomeView::Failed
            },
        ),
{
    let e0 = Seq::<EventView>::empty();
    lemma_at_first(c);
    let removed = EventView::Removed;
    let read = EventView::Source(source);
    match c.mode {
        Mode::Compile | Mode::Test => {
            let e1 = e0.push(EventView::Exited(built));
            lemma_one_more(c, e0, EventView::Exited(built));
            if built {
                let e2 = e1.push(EventView::Exited(ran));
                lemma_one_more(c, e1, EventView::Exited(ran));
                let e3 = e2.push(removed);
                lemma_one_more(c, e2, removed);
                if ran {
                    lemma_one_more(c, e3, read);
                    assert(orderly_events(c.mode, built, ran, source) =~= e3.push(read));
                } else {
                    assert(orderly_events(c.mode, built, ran, source) =~= e3);
                }
            } else {
                lemma_one_more(c, e1, removed);
                assert(orderly_events(c.mode, built, ran, source) =~= e1.push(removed));
            }
        },
        Mode::Clippy => {
            let e1 = e0.push(EventView::Written);
            lemma_one_more(c, e0, EventView::Written);
            let e2 = e1.push(EventView::Exited(true));
            lemma_one_more(c, e1, EventView::Exited(true));
            let e3 = e2.push(EventView::Exited(true));
            lemma_one_more(c, e2, EventView::Exited(true));
            let e4 = e3.push(EventView::Exited(built));
            lemma_one_more(c, e3, EventView::Exited(built));
            let e5 = e4.push(removed);
            lemma_one_more(c, e4, removed);
            if built {
                lemma_one_more(c, e5, read);
                assert(orderly_events(c.mode, built, ran, source) =~= e5.push(read));
            } else {
                assert(orderly_events(c.mode, built, ran, source) =~= e5);
            }
        },
        Mode::BuildScript => {
            let e1 = e0.push(EventView::Written);
            lemma_one_more(c, e0, EventView::Written);
            let e2 = e1.push(EventView::Exited(built));
            lemma_one_more(c, e1, EventView::Exited(built));
            let e3 = e2.push(removed);
            lemma_one_more(c, e2, removed);
            if built {
                lemma_one_more(c, e3, read);
                assert(orderly_events(c.mode, built, ran, source) =~= e3.push(read));
            } else {
                assert(orderly_events(c.mode, built, ran, source) =~= e3);
            }
        },
    }
}

} // verus!
