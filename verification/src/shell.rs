//! The commands of the shell that runs beside the watch: what a line of input
//! means, and what is done about it.

use crate::text::{split_words, to_chars, trim_bounds, trimmed, words_from};
use crate::watch::{hint_view, WatchSharedState};
use vstd::prelude::*;
use vstd::string::StrSliceExecFns;

verus! {

/// A line of input, understood.
#[derive(Debug, PartialEq, Eq)]
pub enum ShellCommand {
    /// Show the hint of the exercise that failed last.
    Hint,
    /// Clear the screen.
    Clear,
    /// Leave the watch.
    Quit,
    /// List the commands.
    Help,
    /// Run this command line: a program and its arguments. It may be empty.
    Passthrough(Vec<String>),
    /// Nothing was entered.
    Empty,
    /// This is no command.
    Unknown(String),
}

/// What a [`ShellCommand`] stands for.
pub enum ShellCommandView {
    Hint,
    Clear,
    Quit,
    Help,
    Passthrough(Seq<Seq<char>>),
    Empty,
    Unknown(Seq<char>),
}

impl View for ShellCommand {
    type V = ShellCommandView;

    open spec fn view(&self) -> ShellCommandView {
        match self {
            ShellCommand::Hint => ShellCommandView::Hint,
            ShellCommand::Clear => ShellCommandView::Clear,
            ShellCommand::Quit => ShellCommandView::Quit,
            ShellCommand::Help => ShellCommandView::Help,
            ShellCommand::Passthrough(parts) => ShellCommandView::Passthrough(
                Seq::new(parts.len() as nat, |i: int| parts[i]@),
            ),
            ShellCommand::Empty => ShellCommandView::Empty,
            ShellCommand::Unknown(text) => ShellCommandView::Unknown(text@),
        }
    }
}

/// What the line `input` means. White space around it does not count. The
/// four words stand for themselves; a line that starts with `!` is a command
/// line for the system, made of the words behind the `!`; an empty line is
/// nothing; and anything else is unknown.
pub open spec fn command_of(input: Seq<char>) -> ShellCommandView {
    let line = trimmed(input);
    if line == "hint"@ {
        ShellCommandView::Hint
    } else if line == "clear"@ {
        ShellCommandView::Clear
    } else if line == "quit"@ {
        ShellCommandView::Quit
    } else if line == "help"@ {
        ShellCommandView::Help
    } else if line.len() > 0 && line[0] == '!' {
        ShellCommandView::Passthrough(words_from(line, 1))
    } else if line.len() == 0 {
        ShellCommandView::Empty
    } else {
        ShellCommandView::Unknown(line)
    }
}

/// Whether `line` holds the same characters as `word`.
fn is_word(line: &str, word: &str) -> (yes: bool)
    ensures
        yes == (line@ == word@),
{
    let a = line.to_owned();
    let b = word.to_owned();
    a == b
}

/// Reads a line of input: [`command_of`].
pub fn parse_command(input: &str) -> (command: ShellCommand)
    ensures
        command@ == command_of(input@),
{
    let chars = to_chars(input);
    let (start, end) = trim_bounds(&chars);
    let line = input.substring_char(start, end);
    if is_word(line, "hint") {
        ShellCommand::Hint
    } else if is_word(line, "clear") {
        ShellCommand::Clear
    } else if is_word(line, "quit") {
        ShellCommand::Quit
    } else if is_word(line, "help") {
        ShellCommand::Help
    } else if start < end && chars[start] == '!' {
        let text = to_chars(line);
        let spans = split_words(&text, 1);
        let mut parts: Vec<String> = Vec::new();
        let mut i: usize = 0;
        while i < spans.len()
            invariant
                i <= spans.len(),
                parts.len() == i,
                text@ == line@,
                spans.len() == words_from(line@, 1).len(),
                forall|k: int|
                    0 <= k < spans.len() ==> {
                        &&& (#[trigger] spans[k]).0 <= spans[k].1 <= text.len()
                        &&& text@.subrange(spans[k].0 as int, spans[k].1 as int) == words_from(
                            line@,
                            1,
                        )[k]
                    },
                forall|k: int| 0 <= k < i ==> (#[trigger] parts[k])@ == words_from(line@, 1)[k],
            decreases spans.len() - i,
        {
            parts.push(line.substring_char(spans[i].0, spans[i].1).to_owned());
            i = i + 1;
        }
        let command = ShellCommand::Passthrough(parts);
        assert(command@->Passthrough_0 =~= words_from(line@, 1));
        command
    } else if start == end {
        ShellCommand::Empty
    } else {
        ShellCommand::Unknown(line.to_owned())
    }
}

/// What the shell does about a command.
#[derive(Debug, PartialEq, Eq)]
pub enum ShellAction {
    /// Show this hint.
    ShowHint(String),
    /// Say that there is no hint to show.
    NoHint,
    /// Clear the screen.
    ClearScreen,
    /// Say goodbye and read no more input.
    Leave,
    /// List the commands.
    ShowHelp,
    /// Run this command line, and say so if it cannot be started.
    Spawn(Vec<String>),
    /// Say that a command line is missing.
    MissingCommand,
    /// Nothing.
    Nothing,
    /// Say that this is no command.
    UnknownCommand(String),
}

/// What a [`ShellAction`] stands for.
pub enum ShellActionView {
    ShowHint(Seq<char>),
    NoHint,
    ClearScreen,
    Leave,
    ShowHelp,
    Spawn(Seq<Seq<char>>),
    MissingCommand,
    Nothing,
    UnknownCommand(Seq<char>),
}

impl View for ShellAction {
    type V = ShellActionView;

    open spec fn view(&self) -> ShellActionView {
        match self {
            ShellAction::ShowHint(hint) => ShellActionView::ShowHint(hint@),
            ShellAction::NoHint => ShellActionView::NoHint,
            ShellAction::ClearScreen => ShellActionView::ClearScreen,
            ShellAction::Leave => ShellActionView::Leave,
            ShellAction::ShowHelp => ShellActionView::ShowHelp,
            ShellAction::Spawn(parts) => ShellActionView::Spawn(
                Seq::new(parts.len() as nat, |i: int| parts[i]@),
            ),
            ShellAction::MissingCommand => ShellActionView::MissingCommand,
            ShellAction::Nothing => ShellActionView::Nothing,
            ShellAction::UnknownCommand(text) => ShellActionView::UnknownCommand(text@),
        }
    }
}

/// What the shell does about `command` when the shared hint is `hint`.
pub open spec fn action_of(command: ShellCommandView, hint: Option<Seq<char>>) -> ShellActionView {
    match command {
        ShellCommandView::Hint => match hint {
            Some(text) => ShellActionView::ShowHint(text),
            None => ShellActionView::NoHint,
        },
        ShellCommandView::Clear => ShellActionView::ClearScreen,
        ShellCommandView::Quit => ShellActionView::Leave,
        ShellCommandView::Help => ShellActionView::ShowHelp,
        ShellCommandView::Passthrough(parts) => if parts.len() == 0 {
            ShellActionView::MissingCommand
        } else {
            ShellActionView::Spawn(parts)
        },
        ShellCommandView::Empty => ShellActionView::Nothing,
        ShellCommandView::Unknown(text) => ShellActionView::UnknownCommand(text),
    }
}

/// Carries out `command` as far as the shared state goes, and says what is
/// left to do: [`action_of`]. Only `quit` changes the shared state: it sets
/// the wish to leave. The hint stays as it is.
pub fn execute(shared: &mut WatchSharedState, command: ShellCommand) -> (action: ShellAction)
    ensures
        action@ == action_of(command@, hint_view(old(shared).last_failure_hint)),
        hint_view(final(shared).last_failure_hint) == hint_view(old(shared).last_failure_hint),
        final(shared).quit_requested == (old(shared).quit_requested || command is Quit),
{
    match command {
        ShellCommand::Hint => match &shared.last_failure_hint {
            Some(hint) => ShellAction::ShowHint(hint.clone()),
            None => ShellAction::NoHint,
        },
        ShellCommand::Clear => ShellAction::ClearScreen,
        ShellCommand::Quit => {
            shared.quit_requested = true;
            ShellAction::Leave
        },
        ShellCommand::Help => ShellAction::ShowHelp,
        ShellCommand::Passthrough(parts) => {
            if parts.len() == 0 {
                ShellAction::MissingCommand
            } else {
                let action = ShellAction::Spawn(parts);
                assert(action@->Spawn_0 =~= command@->Passthrough_0);
                action
            }
        },
        ShellCommand::Empty => ShellAction::Nothing,
        ShellCommand::Unknown(text) => ShellAction::UnknownCommand(text),
    }
}

} // verus!
