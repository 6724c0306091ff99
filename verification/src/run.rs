//! Checking one exercise by itself, and putting one back as it was.

use crate::exercise::{Exercise, Mode};
use crate::quick::{file_stem, stem};
use crate::toolchain::{Invocation, InvocationView, ProcessOutput};
use crate::verify::{
    compile_and_test, first_move, Config, Flow, Outcome, OutcomeView, Pipeline, Reaction, RunMode,
};
use vstd::prelude::*;
use vstd::string::StringExecFns;

verus! {

/// The flow by which one exercise of mode `mode` is checked by itself: tests
/// and build scripts are tested, anything else is built and run.
pub open spec fn single_flow(mode: Mode) -> Flow {
    match mode {
        Mode::Test => Flow::Test(RunMode::NonInteractive),
        Mode::BuildScript => Flow::Test(RunMode::NonInteractive),
        Mode::Compile => Flow::Run,
        Mode::Clippy => Flow::Run,
    }
}

/// Starts the check of an exercise that is built and run, and whose output
/// is shown.
pub fn compile_and_run(mode: Mode) -> (begun: (Pipeline, Reaction))
    ensures
        begun.0.config() == (Config {
            mode,
            flow: Flow::Run,
            verbose: false,
            success_hints: false,
        }),
        begun.0.phase() == first_move(begun.0.config()).phase,
        begun.1.say@ == first_move(begun.0.config()).say,
        begun.1.todo@ == first_move(begun.0.config()).todo,
{
    Pipeline::start(Config { mode, flow: Flow::Run, verbose: false, success_hints: false })
}

/// Starts the check of one exercise by itself, by the flow that
/// [`single_flow`] gives its mode. `verbose` says whether what the tests
/// print is shown also when they pass.
pub fn run(exercise: &Exercise, verbose: bool) -> (begun: (Pipeline, Reaction))
    ensures
        begun.0.config() == (Config {
            mode: exercise.mode,
            flow: single_flow(exercise.mode),
            verbose: verbose && single_flow(exercise.mode) is Test,
            success_hints: false,
        }),
        begun.0.phase() == first_move(begun.0.config()).phase,
        begun.1.say@ == first_move(begun.0.config()).say,
        begun.1.todo@ == first_move(begun.0.config()).todo,
{
    match exercise.mode {
        Mode::Test => compile_and_test(exercise.mode, RunMode::NonInteractive, verbose, false),
        Mode::Compile => compile_and_run(exercise.mode),
        Mode::Clippy => compile_and_run(exercise.mode),
        Mode::BuildScript => compile_and_test(
            exercise.mode,
            RunMode::NonInteractive,
            verbose,
            false,
        ),
    }
}

/// Whether a check that ended as `outcome` says counts as a success: it does
/// when the toolchain accepted the exercise.
pub fn succeeded(outcome: &Outcome) -> (result: Result<(), ()>)
    ensures
        result.is_ok() == (outcome@ is Passed || outcome@ is Accepted),
{
    match outcome {
        Outcome::Passed(_) => Ok(()),
        Outcome::Accepted => Ok(()),
        _ => Err(()),
    }
}

/// The command line that puts the file at `path` back as it was, by stashing
/// the changes made to it.
pub open spec fn reset_invocation(path: Seq<char>) -> InvocationView {
    InvocationView { program: "git"@, args: seq!["stash"@, "--"@, path] }
}

/// Builds [`reset_invocation`] for the source of `exercise`.
pub fn reset_command(exercise: &Exercise) -> (command: Invocation)
    ensures
        command@ == reset_invocation(exercise.path@),
{
    let mut args: Vec<String> = Vec::new();
    args.push(String::from_str("stash"));
    args.push(String::from_str("--"));
    args.push(exercise.path.clone());
    let command = Invocation { program: String::from_str("git"), args };
    assert(command@.args =~= reset_invocation(exercise.path@).args);
    command
}

/// Reads how the reset went: `ended` holds whether the command reported
/// success, or nothing where it could not be started or waited for. Only a
/// command that ran and reported success is a success.
pub fn reset(ended: Option<bool>) -> (result: Result<(), ()>)
    ensures
        result.is_ok() == (ended == Some(true)),
{
    match ended {
        Some(true) => Ok(()),
        _ => Err(()),
    }
}

/// A binary built from an exercise without more ado, and where it lies.
#[derive(Debug, PartialEq, Eq)]
pub struct Compilation {
    output_path: String,
}

/// Where the binary of the exercise with its source at `path` is put: in
/// the working directory, under the stem of the source's name.
pub open spec fn binary_path(path: Seq<char>) -> Seq<char> {
    "./"@ + file_stem(path)
}

impl Compilation {
    /// Where the binary lies.
    pub closed spec fn output(&self) -> Seq<char> {
        self.output_path@
    }

    /// The plain build of `exercise`: its binary goes to [`binary_path`].
    pub fn of(exercise: &Exercise) -> (compilation: Compilation)
        ensures
            compilation.output() == binary_path(exercise.path@),
    {
        let mut output_path = String::from_str("./");
        let name = stem(exercise.path.as_str());
        output_path.append(name.as_str());
        Compilation { output_path }
    }

    /// The command line of the build: the compiler on the source of
    /// `exercise`, with its output where this binary lies.
    pub fn build_command(&self, exercise: &Exercise) -> (command: Invocation)
        ensures
            command@ == (InvocationView {
                program: "rustc"@,
                args: seq![exercise.path@, "-o"@, self.output()],
            }),
    {
        let mut args: Vec<String> = Vec::new();
        args.push(exercise.path.clone());
        args.push(String::from_str("-o"));
        args.push(self.output_path.clone());
        let command = Invocation { program: String::from_str("rustc"), args };
        assert(command@.args =~= seq![exercise.path@, "-o"@, self.output()]);
        command
    }

    /// The command line that runs the binary: the binary itself, without
    /// arguments.
    pub fn run_command(&self) -> (command: Invocation)
        ensures
            command@ == (InvocationView { program: self.output(), args: Seq::empty() }),
    {
        let command = Invocation { program: self.output_path.clone(), args: Vec::new() };
        assert(command@.args =~= Seq::<Seq<char>>::empty());
        command
    }

    /// Reads how a build or a run ended: what the process left behind is a
    /// success where it reported one, and a failure where it did not.
    pub fn run(&self, ran: ProcessOutput) -> (result: Result<ProcessOutput, ProcessOutput>)
        ensures
            result.is_ok() == ran.success,
            result matches Ok(output) ==> output == ran,
            result matches Err(output) ==> output == ran,
    {
        if ran.success {
            Ok(ran)
        } else {
            Err(ran)
        }
    }
}

} // verus!
