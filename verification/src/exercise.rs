//! Exercises and the state their source text puts them in.

use crate::marker::{is_marker_line, marker_line};
use crate::text::{copy_range, lemma_lines_len, lines, split_lines, to_chars};
use vstd::prelude::*;
use crate::toolchain::{Invocation, InvocationView, ProcessOutput};
use vstd::string::{StrSliceExecFns, StringExecFns};

verus! {

/// How an exercise is checked.
#[derive(Clone, Copy, Debug, PartialEq, Eq, Structural)]
pub enum Mode {
    /// Built as a binary and run.
    Compile,
    /// Built as a test harness and run.
    Test,
    /// Checked by the linter.
    Clippy,
    /// Checked through its build script.
    BuildScript,
}

/// One exercise: its name, where its source lies, how it is checked, and the
/// hint that goes with it.
#[derive(Clone, Debug)]
pub struct Exercise {
    pub name: String,
    pub path: String,
    pub mode: Mode,
    pub hint: String,
}

/// The exercises, in the order in which they are meant to be solved.
#[derive(Clone, Debug)]
pub struct ExerciseList {
    pub exercises: Vec<Exercise>,
}

/// One line of the text around the marker.
#[derive(Debug, PartialEq, Eq)]
pub struct ContextLine {
    /// The line's text.
    pub line: String,
    /// The line's number, counted from 1.
    pub number: usize,
    /// Whether this is the marker line itself.
    pub important: bool,
}

/// Whether an exercise is finished.
#[derive(Debug, PartialEq, Eq)]
pub enum State {
    /// No line of the source is a marker line.
    Done,
    /// The source has a marker line; these are the lines around the first.
    Pending(Vec<ContextLine>),
}

/// What a [`ContextLine`] stands for.
pub struct ContextLineView {
    pub line: Seq<char>,
    pub number: nat,
    pub important: bool,
}

/// What a [`State`] stands for.
pub enum StateView {
    Done,
    Pending(Seq<ContextLineView>),
}

impl View for ContextLine {
    type V = ContextLineView;

    open spec fn view(&self) -> ContextLineView {
        ContextLineView {
            line: self.line@,
            number: self.number as nat,
            important: self.important,
        }
    }
}

impl View for State {
    type V = StateView;

    open spec fn view(&self) -> StateView {
        match self {
            State::Done => StateView::Done,
            State::Pending(context) => StateView::Pending(
                Seq::new(context.len() as nat, |i: int| context[i]@),
            ),
        }
    }
}

/// The number of lines shown on each side of the marker line.
pub const CONTEXT: usize = 2;

/// The index of the first marker line among `ls` at or after `from`, or the
/// number of lines where there is none.
pub open spec fn marker_index(ls: Seq<Seq<char>>, from: int) -> int
    decreases ls.len() - from,
{
    if 0 <= from < ls.len() && !is_marker_line(ls[from]) {
        marker_index(ls, from + 1)
    } else {
        from
    }
}

/// What [`marker_index`] returns lies between `from` and the number of lines,
/// no line before it is a marker line, and the line at it is one.
pub proof fn lemma_marker_index(ls: Seq<Seq<char>>, from: int)
    requires
        0 <= from <= ls.len(),
    ensures
        from <= marker_index(ls, from) <= ls.len(),
        forall|i: int| from <= i < marker_index(ls, from) ==> !is_marker_line(#[trigger] ls[i]),
        marker_index(ls, from) < ls.len() ==> is_marker_line(ls[marker_index(ls, from)]),
    decreases ls.len() - from,
{
    if from < ls.len() && !is_marker_line(ls[from]) {
        lemma_marker_index(ls, from + 1);
    }
}

/// The index of the first line of the window around the line of index `i`.
pub open spec fn window_first(i: int) -> int {
    if i >= CONTEXT {
        i - CONTEXT
    } else {
        0
    }
}

/// The index of the last line of the window around the line of index `i`,
/// among `n` lines.
pub open spec fn window_last(i: int, n: int) -> int {
    if i + CONTEXT < n {
        i + CONTEXT
    } else {
        n - 1
    }
}

/// The window around the line of index `i` of `ls`: that line, up to two
/// lines before it and up to two after it, each with its number, and the line
/// of index `i` marked.
pub open spec fn context_window(ls: Seq<Seq<char>>, i: int) -> Seq<ContextLineView> {
    Seq::new(
        (window_last(i, ls.len() as int) - window_first(i) + 1) as nat,
        |k: int|
            ContextLineView {
                line: ls[window_first(i) + k],
                number: (window_first(i) + k + 1) as nat,
                important: window_first(i) + k == i,
            },
    )
}

/// The state that the source text `s` puts an exercise in.
pub open spec fn completion_state(s: Seq<char>) -> StateView {
    let ls = lines(s);
    let i = marker_index(ls, 0);
    if i < ls.len() {
        StateView::Pending(context_window(ls, i))
    } else {
        StateView::Done
    }
}

/// The window around a marker line at index `i` of `n` lines reaches from
/// two lines before it to two lines after it, as far as there are lines; it
/// holds those lines with their numbers, counted from 1; and exactly one of
/// its entries is marked as the marker line: the one with the number `i + 1`.
pub proof fn lemma_context_window(ls: Seq<Seq<char>>, i: int)
    requires
        0 <= i < ls.len(),
    ensures
        window_first(i) == if i - 2 > 0 {
            i - 2
        } else {
            0
        },
        window_last(i, ls.len() as int) == if i + 2 < ls.len() - 1 {
            i + 2
        } else {
            ls.len() - 1
        },
        context_window(ls, i).len() == window_last(i, ls.len() as int) - window_first(i) + 1,
        forall|k: int|
            0 <= k < context_window(ls, i).len() ==> {
                let entry = #[trigger] context_window(ls, i)[k];
                &&& entry.number == window_first(i) + k + 1
                &&& entry.line == ls[window_first(i) + k]
                &&& entry.important == (entry.number == i + 1)
            },
        context_window(ls, i)[i - window_first(i)].important,
        forall|k: int|
            0 <= k < context_window(ls, i).len() && (#[trigger] context_window(
                ls,
                i,
            )[k]).important ==> k == i - window_first(i),
{
}

/// The state that a source text puts an exercise in depends on the text
/// alone: whatever is the state of a text once is its state again.
pub proof fn lemma_classify_idempotent(source: Seq<char>, first: StateView, second: StateView)
    requires
        first == completion_state(source),
        second == completion_state(source),
    ensures
        first == second,
{
}

/// Decides from an exercise's source text whether the exercise is finished.
///
/// It is finished when no line is a marker line. Otherwise the result holds
/// the window around the first marker line. An empty text has no line, so it
/// is finished.
pub fn classify(source: &str) -> (state: State)
    ensures
        state@ == completion_state(source@),
        source@.len() == 0 ==> state@ == StateView::Done,
        (forall|i: int|
            0 <= i < lines(source@).len() ==> !is_marker_line(#[trigger] lines(source@)[i]))
            ==> state@ == StateView::Done,
        forall|i: int|
            0 <= i < lines(source@).len() && is_marker_line(lines(source@)[i]) && (forall|j: int|
                0 <= j < lines(source@).len() && j != i ==> !is_marker_line(
                    #[trigger] lines(source@)[j],
                )) ==> state@ == StateView::Pending(#[trigger] context_window(lines(source@), i)),
{
    let chars = to_chars(source);
    let spans = split_lines(&chars);
    let ghost ls = lines(source@);
    proof {
        lemma_lines_len(source@, 0);
        lemma_marker_index(ls, 0);
    }
    let mut i: usize = 0;
    let mut found = false;
    while !found && i < spans.len()
        invariant
            chars@ == source@,
            ls == lines(source@),
            i <= spans.len() == ls.len(),
            marker_index(ls, 0) == marker_index(ls, i as int),
            found ==> i < ls.len() && is_marker_line(ls[i as int]),
            forall|k: int|
                0 <= k < spans.len() ==> {
                    &&& (#[trigger] spans[k]).0 <= spans[k].1 <= chars.len()
                    &&& chars@.subrange(spans[k].0 as int, spans[k].1 as int) == ls[k]
                },
        decreases spans.len() - i + (if found { 0int } else { 1int }),
    {
        let line = copy_range(&chars, spans[i].0, spans[i].1);
        if marker_line(&line) {
            found = true;
        } else {
            i = i + 1;
        }
    }
    if !found {
        return State::Done;
    }
    assert(marker_index(ls, 0) == i);
    let first: usize = if i >= CONTEXT {
        i - CONTEXT
    } else {
        0
    };
    let last: usize = if spans.len() - i > CONTEXT {
        i + CONTEXT
    } else {
        spans.len() - 1
    };
    let mut context: Vec<ContextLine> = Vec::new();
    let mut k: usize = first;
    while k <= last
        invariant
            chars@ == source@,
            ls == lines(source@),
            spans.len() == ls.len(),
            ls.len() <= source@.len(),
            first == window_first(i as int),
            last == window_last(i as int, ls.len() as int),
            first <= k <= last + 1,
            last < spans.len(),
            context.len() == k - first,
            forall|j: int|
                0 <= j < spans.len() ==> {
                    &&& (#[trigger] spans[j]).0 <= spans[j].1 <= chars.len()
                    &&& chars@.subrange(spans[j].0 as int, spans[j].1 as int) == ls[j]
                },
            forall|j: int|
                0 <= j < context.len() ==> (#[trigger] context[j])@ == context_window(
                    ls,
                    i as int,
                )[j],
        decreases last + 1 - k,
    {
        let text = source.substring_char(spans[k].0, spans[k].1);
        context.push(ContextLine { line: text.to_owned(), number: k + 1, important: k == i });
        k = k + 1;
    }
    let state = State::Pending(context);
    assert(state@->Pending_0 =~= context_window(ls, i as int));
    state
}

/// What a run of the toolchain wrote out.
#[derive(Debug, PartialEq, Eq)]
pub struct ExerciseOutput {
    pub stdout: String,
    pub stderr: String,
}

/// An exercise whose build succeeded.
pub struct CompiledExercise<'a> {
    exercise: &'a Exercise,
}

impl<'a> CompiledExercise<'a> {
    /// The exercise that was built.
    pub closed spec fn exercise(&self) -> &'a Exercise {
        self.exercise
    }

    /// The command line that runs what was built and left at `artifact`, if
    /// anything is to be run: see [`Exercise::run_command`].
    pub fn run_command(&self, artifact: &str) -> (command: Option<Invocation>)
        ensures
            command.is_some() == self.exercise().runs_artifact(),
            command matches Some(c) ==> c@ == run_invocation(self.exercise().mode, artifact@),
    {
        self.exercise.run_command(artifact)
    }

    /// Reads how the run of what was built ended: see [`Exercise::run`].
    pub fn run(&self, ran: Option<ProcessOutput>) -> (result: Result<
        ExerciseOutput,
        ExerciseOutput,
    >)
        requires
            self.exercise().runs_artifact() ==> ran.is_some(),
        ensures
            run_verdict(self.exercise().mode, ran, result),
    {
        self.exercise.run(ran)
    }
}

/// The command line that runs the output that the compiler left at
/// `artifact`: a test harness is asked to show what the tests print.
pub open spec fn run_invocation(mode: Mode, artifact: Seq<char>) -> InvocationView {
    InvocationView {
        program: artifact,
        args: seq![
            if mode == Mode::Test {
                "--show-output"@
            } else {
                ""@
            },
        ],
    }
}

/// Whether `result` is what [`Exercise::run`] makes of `ran` in mode `mode`.
/// In the mode of build scripts nothing is run and the run counts as a
/// success that wrote nothing. Else the run succeeded when the process
/// reported success, and either way the result holds what it wrote.
pub open spec fn run_verdict(
    mode: Mode,
    ran: Option<ProcessOutput>,
    result: Result<ExerciseOutput, ExerciseOutput>,
) -> bool {
    if mode == Mode::BuildScript {
        result matches Ok(out) && out.stdout@ == Seq::<char>::empty() && out.stderr@
            == Seq::<char>::empty()
    } else {
        ran matches Some(p) && {
            let out = if p.success {
                result->Ok_0
            } else {
                result->Err_0
            };
            &&& result.is_ok() == p.success
            &&& out.stdout@ == p.stdout@
            &&& out.stderr@ == p.stderr@
        }
    }
}

impl Exercise {
    /// Whether this exercise's build leaves something to run.
    pub open spec fn runs_artifact(&self) -> bool {
        self.mode != Mode::BuildScript
    }

    /// Reads how the build ended, from what its last step left behind: the
    /// built exercise where that step reported success, and else what it
    /// wrote.
    pub fn compile(&self, built: ProcessOutput) -> (result: Result<
        CompiledExercise<'_>,
        ExerciseOutput,
    >)
        ensures
            result.is_ok() == built.success,
            result matches Ok(compiled) ==> compiled.exercise() == self,
            result matches Err(out) ==> out.stdout@ == built.stdout@ && out.stderr@
                == built.stderr@,
    {
        if built.success {
            Ok(CompiledExercise { exercise: self })
        } else {
            Err(ExerciseOutput { stdout: built.stdout, stderr: built.stderr })
        }
    }

    /// The command line that runs what the build left at `artifact`. In the
    /// mode of build scripts there is none: the build was the check.
    pub fn run_command(&self, artifact: &str) -> (command: Option<Invocation>)
        ensures
            command.is_some() == self.runs_artifact(),
            command matches Some(c) ==> c@ == run_invocation(self.mode, artifact@),
    {
        let arg = match self.mode {
            Mode::Test => "--show-output",
            Mode::BuildScript => {
                return None;
            },
            _ => "",
        };
        let mut args: Vec<String> = Vec::new();
        args.push(String::from_str(arg));
        let command = Invocation { program: String::from_str(artifact), args };
        assert(command@.args =~= run_invocation(self.mode, artifact@).args);
        Some(command)
    }

    /// Reads how the run of the built exercise ended: what [`run_verdict`]
    /// says.
    pub fn run(&self, ran: Option<ProcessOutput>) -> (result: Result<
        ExerciseOutput,
        ExerciseOutput,
    >)
        requires
            self.runs_artifact() ==> ran.is_some(),
        ensures
            run_verdict(self.mode, ran, result),
    {
        match self.mode {
            Mode::BuildScript => {
                return Ok(ExerciseOutput { stdout: String::new(), stderr: String::new() });
            },
            _ => {},
        }
        let ran = ran.unwrap();
        let success = ran.success;
        let output = ExerciseOutput { stdout: ran.stdout, stderr: ran.stderr };
        if success {
            Ok(output)
        } else {
            Err(output)
        }
    }

    /// The exercise as it is shown to the user: by the path of its source.
    pub fn to_string(&self) -> (shown: String)
        ensures
            shown@ == self.path@,
    {
        self.path.clone()
    }

    /// The state that the source text `source` puts this exercise in.
    pub fn state(&self, source: &str) -> (state: State)
        ensures
            state@ == completion_state(source@),
    {
        classify(source)
    }

    /// Whether the source text `source` shows this exercise as finished: it
    /// holds no marker line.
    pub fn looks_done(&self, source: &str) -> (done: bool)
        ensures
            done == (completion_state(source@) == StateView::Done),
            done == (forall|i: int|
                0 <= i < lines(source@).len() ==> !is_marker_line(#[trigger] lines(source@)[i])),
    {
        proof {
            lemma_marker_index(lines(source@), 0);
        }
        match self.state(source) {
            State::Done => true,
            State::Pending(_) => false,
        }
    }
}

} // verus!
