//! The words in which the user is told how a check went.

use crate::exercise::Mode;
use crate::verify::Message;
use vstd::prelude::*;
use vstd::string::StringExecFns;

verus! {

/// The line between the parts of what is shown.
pub open spec fn separator() -> Seq<char> {
    "===================="@
}

/// The words of a success in mode `mode`.
pub open spec fn banner(mode: Mode, no_emoji: bool) -> Seq<char> {
    match mode {
        Mode::Compile => "The code is compiling!"@,
        Mode::Test => "The code is compiling, and the tests pass!"@,
        Mode::Clippy => if no_emoji {
            "The code is compiling, and Clippy is happy!"@
        } else {
            "The code is compiling, and 🦀 Clippy 🦀 is happy!"@
        },
        Mode::BuildScript => "Build script works!"@,
    }
}

/// The words of `message` about the exercise shown as `exercise`, where the
/// message has words of its own; a message that stands for something to be
/// shown, or for the status line going away, has none. With `no_emoji` set
/// the words do without emoji.
pub open spec fn wording(message: Message, exercise: Seq<char>, no_emoji: bool) -> Option<
    Seq<char>,
> {
    match message {
        Message::StatusCompiling => Some("Compiling "@ + exercise + "..."@),
        Message::StatusTesting => Some("Testing "@ + exercise + "..."@),
        Message::StatusRunning => Some("Running "@ + exercise + "..."@),
        Message::WarnCompileFailed => Some(
            "Compiling of "@ + exercise + " failed! Please try again. Here's the output:"@,
        ),
        Message::WarnCompilationFailed => Some(
            "Compilation of "@ + exercise + " failed!, Compiler error message:\n"@,
        ),
        Message::WarnTestFailed => Some(
            "Testing of "@ + exercise + " failed! Please try again. Here's the output:"@,
        ),
        Message::WarnRanWithErrors => Some("Ran "@ + exercise + " with errors"@),
        Message::SuccessRan => Some("Successfully ran "@ + exercise),
        Message::Success(mode) => Some(
            (match mode {
                Mode::Compile => "Successfully ran "@,
                Mode::Test => "Successfully tested "@,
                _ => "Successfully compiled "@,
            }) + exercise,
        ),
        Message::Banner(mode) => Some(
            if no_emoji {
                "*** "@ + banner(mode, no_emoji) + " ***"@
            } else {
                "🎉 🎉 "@ + banner(mode, no_emoji) + " 🎉 🎉"@
            },
        ),
        Message::KeepWorking => Some(
            "You can keep working on this exercise,\nor jump into the next one by removing the I AM NOT DONE comment:"@,
        ),
        _ => None,
    }
}

/// `head`, `middle` and `tail`, one behind the other.
fn three(head: &str, middle: &str, tail: &str) -> (text: String)
    ensures
        text@ == head@ + middle@ + tail@,
{
    let mut text = String::from_str(head);
    text.append(middle);
    text.append(tail);
    text
}

/// Writes out [`banner`].
pub fn banner_text(mode: Mode, no_emoji: bool) -> (text: &'static str)
    ensures
        text@ == banner(mode, no_emoji),
{
    match mode {
        Mode::Compile => "The code is compiling!",
        Mode::Test => "The code is compiling, and the tests pass!",
        Mode::Clippy => if no_emoji {
            "The code is compiling, and Clippy is happy!"
        } else {
            "The code is compiling, and 🦀 Clippy 🦀 is happy!"
        },
        Mode::BuildScript => "Build script works!",
    }
}

/// Writes out [`wording`].
pub fn message_text(message: Message, exercise: &str, no_emoji: bool) -> (text: Option<String>)
    ensures
        text is Some == wording(message, exercise@, no_emoji) is Some,
        text matches Some(t) ==> Some(t@) == wording(message, exercise@, no_emoji),
{
    proof {
        reveal_strlit("");
    }
    match message {
        Message::StatusCompiling => Some(three("Compiling ", exercise, "...")),
        Message::StatusTesting => Some(three("Testing ", exercise, "...")),
        Message::StatusRunning => Some(three("Running ", exercise, "...")),
        Message::WarnCompileFailed => Some(
            three("Compiling of ", exercise, " failed! Please try again. Here's the output:"),
        ),
        Message::WarnCompilationFailed => Some(
            three("Compilation of ", exercise, " failed!, Compiler error message:\n"),
        ),
        Message::WarnTestFailed => Some(
            three("Testing of ", exercise, " failed! Please try again. Here's the output:"),
        ),
        Message::WarnRanWithErrors => Some(three("Ran ", exercise, " with errors")),
        Message::SuccessRan => {
            let text = three("Successfully ran ", exercise, "");
            assert(text@ =~= "Successfully ran "@ + exercise@);
            Some(text)
        },
        Message::Success(mode) => {
            let head = match mode {
                Mode::Compile => "Successfully ran ",
                Mode::Test => "Successfully tested ",
                _ => "Successfully compiled ",
            };
            let text = three(head, exercise, "");
            assert(text@ =~= head@ + exercise@);
            Some(text)
        },
        Message::Banner(mode) => {
            if no_emoji {
                Some(three("*** ", banner_text(mode, no_emoji), " ***"))
            } else {
                Some(three("🎉 🎉 ", banner_text(mode, no_emoji), " 🎉 🎉"))
            }
        },
        Message::KeepWorking => Some(
            String::from_str(
                "You can keep working on this exercise,\nor jump into the next one by removing the I AM NOT DONE comment:",
            ),
        ),
        _ => None,
    }
}

/// Writes out [`separator`].
pub fn separator_text() -> (text: &'static str)
    ensures
        text@ == separator(),
{
    "===================="
}

} // verus!
