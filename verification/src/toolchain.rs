//! What the toolchain is asked to do for an exercise, and how its answer is
//! read. Nothing here starts a process or touches a file: the caller carries
//! out the steps and hands back what the toolchain said.

use crate::exercise::{Exercise, Mode};
use crate::letters::{alphanumeric, is_alphanumeric};
use vstd::prelude::*;
use vstd::string::{StrSliceExecFns, StringExecFns};

verus! {

/// The views of the strings of `v`, in order.
pub open spec fn texts(v: Seq<String>) -> Seq<Seq<char>> {
    Seq::new(v.len(), |i: int| v[i]@)
}

/// A command line: a program and its arguments.
#[derive(Debug, PartialEq, Eq)]
pub struct Invocation {
    pub program: String,
    pub args: Vec<String>,
}

/// What an [`Invocation`] stands for.
pub struct InvocationView {
    pub program: Seq<char>,
    pub args: Seq<Seq<char>>,
}

impl View for Invocation {
    type V = InvocationView;

    open spec fn view(&self) -> InvocationView {
        InvocationView { program: self.program@, args: texts(self.args@) }
    }
}

/// What a finished process left behind.
#[derive(Clone, Debug, PartialEq, Eq)]
pub struct ProcessOutput {
    /// Whether the process reported success.
    pub success: bool,
    pub stdout: String,
    pub stderr: String,
}

/// Where the linter's project descriptor is written.
pub open spec fn clippy_manifest_path() -> Seq<char> {
    "./exercises/clippy/Cargo.toml"@
}

/// Where the build script's project descriptor is written.
pub open spec fn build_script_manifest_path() -> Seq<char> {
    "./exercises/tests/Cargo.toml"@
}

/// The project descriptor that names the exercise `name` as its only binary.
pub open spec fn manifest_text(name: Seq<char>) -> Seq<char> {
    "[package]\nname = \""@ + name + "\"\nversion = \"0.0.1\"\nedition = \"2021\"\n\n[[bin]]\nname = \""@
        + name + "\"\npath = \""@ + name + ".rs\"\n"@
}

/// Writes out [`manifest_text`].
pub fn manifest(name: &str) -> (text: String)
    ensures
        text@ == manifest_text(name@),
{
    let mut text = String::from_str("[package]\nname = \"");
    text.append(name);
    text.append("\"\nversion = \"0.0.1\"\nedition = \"2021\"\n\n[[bin]]\nname = \"");
    text.append(name);
    text.append("\"\npath = \"");
    text.append(name);
    text.append(".rs\"\n");
    text
}

/// One thing to do on the way to a built exercise.
#[derive(Debug, PartialEq, Eq)]
pub enum Step {
    /// Write `contents` to the file at `path`, replacing what is there.
    Write { path: String, contents: String },
    /// Run `command` to its end. How it ends matters only for the last step.
    Run { command: Invocation },
}

/// What a [`Step`] stands for.
pub enum StepView {
    Write { path: Seq<char>, contents: Seq<char> },
    Run { command: InvocationView },
}

impl View for Step {
    type V = StepView;

    open spec fn view(&self) -> StepView {
        match self {
            Step::Write { path, contents } => StepView::Write { path: path@, contents: contents@ },
            Step::Run { command } => StepView::Run { command: command@ },
        }
    }
}

/// The views of the steps of `v`, in order.
pub open spec fn step_views(v: Seq<Step>) -> Seq<StepView> {
    Seq::new(v.len(), |i: int| v[i]@)
}

/// The compiler's command line for the source at `path`, to leave its output
/// at `artifact`; with `harness` set it builds the test harness.
pub open spec fn rustc_command(path: Seq<char>, artifact: Seq<char>, harness: bool) -> InvocationView {
    let tail = seq![path, "-o"@, artifact, "--color"@, "always"@, "--edition"@, "2021"@];
    InvocationView {
        program: "rustc"@,
        args: if harness {
            seq!["--test"@] + tail
        } else {
            tail
        },
    }
}

/// The command line that throws away what was built for the descriptor at
/// `manifest`, so that the linter looks at everything again.
pub open spec fn cargo_clean_command(manifest: Seq<char>) -> InvocationView {
    InvocationView {
        program: "cargo"@,
        args: seq!["clean"@, "--manifest-path"@, manifest, "--color"@, "always"@],
    }
}

/// The linter's command line for the descriptor at `manifest`: every warning
/// fails the run, and so does a comparison of floats for equality.
pub open spec fn cargo_clippy_command(manifest: Seq<char>) -> InvocationView {
    InvocationView {
        program: "cargo"@,
        args: seq![
            "clippy"@,
            "--manifest-path"@,
            manifest,
            "--color"@,
            "always"@,
            "--"@,
            "-D"@,
            "warnings"@,
            "-D"@,
            "clippy::float_cmp"@,
        ],
    }
}

/// The command line that runs the tests of the descriptor at `manifest`.
pub open spec fn cargo_test_command(manifest: Seq<char>) -> InvocationView {
    InvocationView { program: "cargo"@, args: seq!["test"@, "--manifest-path"@, manifest] }
}

/// The steps that build the exercise `name` with source at `path` in mode
/// `mode`, leaving the compiler's output at `artifact`. The last step is the
/// one whose end decides whether the build succeeded.
pub open spec fn build_steps(
    name: Seq<char>,
    path: Seq<char>,
    mode: Mode,
    artifact: Seq<char>,
) -> Seq<StepView> {
    match mode {
        Mode::Compile => seq![StepView::Run { command: rustc_command(path, artifact, false) }],
        Mode::Test => seq![StepView::Run { command: rustc_command(path, artifact, true) }],
        Mode::Clippy => seq![
            StepView::Write { path: clippy_manifest_path(), contents: manifest_text(name) },
            StepView::Run { command: rustc_command(path, artifact, false) },
            StepView::Run { command: cargo_clean_command(clippy_manifest_path()) },
            StepView::Run { command: cargo_clippy_command(clippy_manifest_path()) },
        ],
        Mode::BuildScript => seq![
            StepView::Write { path: build_script_manifest_path(), contents: manifest_text(name) },
            StepView::Run { command: cargo_test_command(build_script_manifest_path()) },
        ],
    }
}

/// The number of steps that a build in mode `mode` takes.
pub open spec fn build_step_count(mode: Mode) -> nat {
    match mode {
        Mode::Compile => 1,
        Mode::Test => 1,
        Mode::Clippy => 4,
        Mode::BuildScript => 2,
    }
}

/// A string with the characters of `text`.
fn owned(text: &str) -> (s: String)
    ensures
        s@ == text@,
{
    String::from_str(text)
}

/// Builds [`rustc_command`].
fn rustc(path: &str, artifact: &str, harness: bool) -> (command: Invocation)
    ensures
        command@ == rustc_command(path@, artifact@, harness),
{
    let mut args: Vec<String> = Vec::new();
    if harness {
        args.push(owned("--test"));
    }
    args.push(owned(path));
    args.push(owned("-o"));
    args.push(owned(artifact));
    args.push(owned("--color"));
    args.push(owned("always"));
    args.push(owned("--edition"));
    args.push(owned("2021"));
    let command = Invocation { program: owned("rustc"), args };
    assert(command@.args =~= rustc_command(path@, artifact@, harness).args);
    command
}

/// Builds [`cargo_clean_command`].
fn cargo_clean(manifest: &str) -> (command: Invocation)
    ensures
        command@ == cargo_clean_command(manifest@),
{
    let mut args: Vec<String> = Vec::new();
    args.push(owned("clean"));
    args.push(owned("--manifest-path"));
    args.push(owned(manifest));
    args.push(owned("--color"));
    args.push(owned("always"));
    let command = Invocation { program: owned("cargo"), args };
    assert(command@.args =~= cargo_clean_command(manifest@).args);
    command
}

/// Builds [`cargo_clippy_command`].
fn cargo_clippy(manifest: &str) -> (command: Invocation)
    ensures
        command@ == cargo_clippy_command(manifest@),
{
    let mut args: Vec<String> = Vec::new();
    args.push(owned("clippy"));
    args.push(owned("--manifest-path"));
    args.push(owned(manifest));
    args.push(owned("--color"));
    args.push(owned("always"));
    args.push(owned("--"));
    args.push(owned("-D"));
    args.push(owned("warnings"));
    args.push(owned("-D"));
    args.push(owned("clippy::float_cmp"));
    let command = Invocation { program: owned("cargo"), args };
    assert(command@.args =~= cargo_clippy_command(manifest@).args);
    command
}

/// Builds [`cargo_test_command`].
fn cargo_test(manifest: &str) -> (command: Invocation)
    ensures
        command@ == cargo_test_command(manifest@),
{
    let mut args: Vec<String> = Vec::new();
    args.push(owned("test"));
    args.push(owned("--manifest-path"));
    args.push(owned(manifest));
    let command = Invocation { program: owned("cargo"), args };
    assert(command@.args =~= cargo_test_command(manifest@).args);
    command
}

impl Exercise {
    /// The steps that build this exercise, leaving the compiler's output at
    /// `artifact`. They are to be carried out in order; the build has
    /// succeeded when the last of them ends in success.
    pub fn compile_steps(&self, artifact: &str) -> (steps: Vec<Step>)
        ensures
            step_views(steps@) == build_steps(self.name@, self.path@, self.mode, artifact@),
            steps.len() == build_step_count(self.mode),
    {
        let mut steps: Vec<Step> = Vec::new();
        match self.mode {
            Mode::Compile => {
                steps.push(Step::Run { command: rustc(self.path.as_str(), artifact, false) });
            },
            Mode::Test => {
                steps.push(Step::Run { command: rustc(self.path.as_str(), artifact, true) });
            },
            Mode::Clippy => {
                steps.push(
                    Step::Write {
                        path: owned("./exercises/clippy/Cargo.toml"),
                        contents: manifest(self.name.as_str()),
                    },
                );
                steps.push(Step::Run { command: rustc(self.path.as_str(), artifact, false) });
                steps.push(Step::Run { command: cargo_clean("./exercises/clippy/Cargo.toml") });
                steps.push(Step::Run { command: cargo_clippy("./exercises/clippy/Cargo.toml") });
            },
            Mode::BuildScript => {
                steps.push(
                    Step::Write {
                        path: owned("./exercises/tests/Cargo.toml"),
                        contents: manifest(self.name.as_str()),
                    },
                );
                steps.push(Step::Run { command: cargo_test("./exercises/tests/Cargo.toml") });
            },
        }
        assert(step_views(steps@) =~= build_steps(self.name@, self.path@, self.mode, artifact@));
        steps
    }
}

/// The letters and numbers of `s`, in order.
pub open spec fn alphanumerics(s: Seq<char>) -> Seq<char>
    decreases s.len(),
{
    if s.len() == 0 {
        Seq::empty()
    } else if is_alphanumeric(s.last()) {
        alphanumerics(s.drop_last()).push(s.last())
    } else {
        alphanumerics(s.drop_last())
    }
}

/// The name of the file that holds the compiler's output for the thread
/// described by `thread` in the process `pid`.
pub open spec fn temp_file_name(pid: u32, thread: Seq<char>) -> Seq<char> {
    "./temp_"@ + crate::text::decimal(pid as nat) + "_"@ + alphanumerics(thread)
}

/// Writes out [`temp_file_name`]: where the compiler's output goes. `thread`
/// is the running thread's description, of which the letters and numbers are
/// kept.
pub fn temp_file(pid: u32, thread: &str) -> (name: String)
    ensures
        name@ == temp_file_name(pid, thread@),
{
    let mut name = String::from_str("./temp_");
    let number = crate::text::decimal_text(pid);
    name.append(number.as_str());
    name.append("_");
    let chars = crate::text::to_chars(thread);
    let ghost head = name@;
    let mut i: usize = 0;
    while i < chars.len()
        invariant
            i <= chars.len(),
            chars@ == thread@,
            name@ == head + alphanumerics(thread@.take(i as int)),
        decreases chars.len() - i,
    {
        assert(thread@.take(i + 1).drop_last() =~= thread@.take(i as int));
        if alphanumeric(chars[i]) {
            let one = thread.substring_char(i, i + 1);
            assert(one@ =~= seq![chars@[i as int]]);
            name.append(one);
            assert(name@ =~= head + alphanumerics(thread@.take(i + 1)));
        }
        i = i + 1;
    }
    assert(thread@.take(i as int) =~= thread@);
    name
}

/// Two runs get different files unless they are of the same thread of the
/// same process: where the processes differ, or what is kept of the threads'
/// descriptions differs, the names differ.
pub proof fn lemma_temp_files_differ(pid1: u32, thread1: Seq<char>, pid2: u32, thread2: Seq<char>)
    requires
        pid1 != pid2 || alphanumerics(thread1) != alphanumerics(thread2),
    ensures
        temp_file_name(pid1, thread1) != temp_file_name(pid2, thread2),
{
    let d1 = crate::text::decimal(pid1 as nat);
    let d2 = crate::text::decimal(pid2 as nat);
    let t1 = alphanumerics(thread1);
    let t2 = alphanumerics(thread2);
    let n1 = temp_file_name(pid1, thread1);
    let n2 = temp_file_name(pid2, thread2);
    let l1 = d1.len() as int;
    let l2 = d2.len() as int;
    reveal_strlit("./temp_");
    reveal_strlit("_");
    crate::text::lemma_decimal(pid1 as nat);
    crate::text::lemma_decimal(pid2 as nat);
    if n1 == n2 {
        assert(n1[7 + l1] == '_');
        assert(n2[7 + l2] == '_');
        if l1 < l2 {
            assert(n2[7 + l1] == d2[l1]);
            assert(false);
        }
        if l2 < l1 {
            assert(n1[7 + l2] == d1[l2]);
            assert(false);
        }
        assert(d1 =~= n1.subrange(7, 7 + l1));
        assert(d2 =~= n2.subrange(7, 7 + l2));
        crate::text::lemma_decimal_injective(pid1 as nat, pid2 as nat);
        assert(t1 =~= n1.subrange(8 + l1, n1.len() as int));
        assert(t2 =~= n2.subrange(8 + l2, n2.len() as int));
        assert(false);
    }
}

} // verus!
