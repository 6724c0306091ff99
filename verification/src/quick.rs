//! A quick look at one exercise: one command, no output kept, and only its
//! end counts.

use crate::exercise::{Exercise, Mode};
use crate::text::{behind_last, find_behind_last, to_chars};
use crate::toolchain::{Invocation, InvocationView, ProcessOutput};
use vstd::prelude::*;
use vstd::string::{StrSliceExecFns, StringExecFns};

verus! {

/// The name of the file at `path`: what stands behind the last slash.
pub open spec fn file_name(path: Seq<char>) -> Seq<char> {
    path.subrange(behind_last(path, path.len() as int, '/'), path.len() as int)
}

/// The path of the project descriptor that lies in the directory of the file
/// at `path`.
pub open spec fn manifest_beside(path: Seq<char>) -> Seq<char> {
    path.subrange(0, behind_last(path, path.len() as int, '/')) + "Cargo.toml"@
}

/// The stem of the file at `path`: its name up to the last dot, or the whole
/// name where it has no dot but at its start.
pub open spec fn file_stem(path: Seq<char>) -> Seq<char> {
    let name = file_name(path);
    let dot = behind_last(name, name.len() as int, '.');
    if dot <= 1 {
        name
    } else {
        name.subrange(0, dot - 1)
    }
}

/// The command line of a quick look at the exercise of mode `mode` with its
/// source at `path`: the compiler on the source, or the tests of that name,
/// or the linter, of the project in the source's directory.
pub open spec fn quick_invocation(mode: Mode, path: Seq<char>) -> InvocationView {
    match mode {
        Mode::Test => InvocationView {
            program: "cargo"@,
            args: seq![
                "test"@,
                "--manifest-path"@,
                manifest_beside(path),
                "--"@,
                file_stem(path),
            ],
        },
        Mode::Clippy => InvocationView {
            program: "cargo"@,
            args: seq!["clippy"@, "--manifest-path"@, manifest_beside(path)],
        },
        _ => InvocationView { program: "rustc"@, args: seq![path] },
    }
}

/// Writes out [`manifest_beside`].
pub fn manifest_path(path: &str) -> (manifest: String)
    ensures
        manifest@ == manifest_beside(path@),
{
    let chars = to_chars(path);
    let cut = find_behind_last(&chars, chars.len(), '/');
    let mut manifest = String::from_str(path.substring_char(0, cut));
    manifest.append("Cargo.toml");
    manifest
}

/// Writes out [`file_stem`].
pub fn stem(path: &str) -> (stem: String)
    ensures
        stem@ == file_stem(path@),
{
    let chars = to_chars(path);
    let cut = find_behind_last(&chars, chars.len(), '/');
    let name = path.substring_char(cut, chars.len());
    let name_chars = to_chars(name);
    let dot = find_behind_last(&name_chars, name_chars.len(), '.');
    if dot <= 1 {
        String::from_str(name)
    } else {
        String::from_str(name.substring_char(0, dot - 1))
    }
}

impl Exercise {
    /// The command line of a quick look at this exercise:
    /// [`quick_invocation`].
    pub fn quick_command(&self) -> (command: Invocation)
        ensures
            command@ == quick_invocation(self.mode, self.path@),
    {
        let mut args: Vec<String> = Vec::new();
        let program = match self.mode {
            Mode::Test => {
                args.push(String::from_str("test"));
                args.push(String::from_str("--manifest-path"));
                args.push(manifest_path(self.path.as_str()));
                args.push(String::from_str("--"));
                args.push(stem(self.path.as_str()));
                "cargo"
            },
            Mode::Clippy => {
                args.push(String::from_str("clippy"));
                args.push(String::from_str("--manifest-path"));
                args.push(manifest_path(self.path.as_str()));
                "cargo"
            },
            _ => {
                args.push(self.path.clone());
                "rustc"
            },
        };
        let command = Invocation { program: String::from_str(program), args };
        assert(command@.args =~= quick_invocation(self.mode, self.path@).args);
        command
    }
}

/// The command line that asks the compiler for its version, to see whether
/// there is a compiler at all.
pub fn rustc_version_command() -> (command: Invocation)
    ensures
        command@ == (InvocationView { program: "rustc"@, args: seq!["--version"@] }),
{
    let mut args: Vec<String> = Vec::new();
    args.push(String::from_str("--version"));
    let command = Invocation { program: String::from_str("rustc"), args };
    assert(command@.args =~= seq!["--version"@]);
    command
}

/// Whether a command passed: `ended` holds whether it reported success, or
/// nothing where it could not be started. Only a command that ran and
/// reported success has passed.
pub fn passed(ended: Option<bool>) -> (yes: bool)
    ensures
        yes == (ended == Some(true)),
{
    match ended {
        Some(success) => success,
        None => false,
    }
}

/// What is made of the end of a quick look: whether what the command wrote
/// is shown, which it is when asked for and after a failure, and whether the
/// exercise passed.
pub fn quick_report(verbose: bool, output: &ProcessOutput) -> (report: (bool, Result<(), ()>))
    ensures
        report.0 == (verbose || !output.success),
        report.1.is_ok() == output.success,
{
    (
        verbose || !output.success,
        if output.success {
            Ok(())
        } else {
            Err(())
        },
    )
}

} // verus!
