//! The description of the exercises for the language server: one crate for
//! each source file, and the place of the standard library's sources.

use crate::toolchain::{Invocation, InvocationView, ProcessOutput};
use crate::text::{to_chars, trim_bounds, trimmed};
use vstd::prelude::*;
use vstd::string::{StrSliceExecFns, StringExecFns};

verus! {

/// One source file as the language server is to see it.
#[derive(Debug, PartialEq, Eq)]
pub struct Crate {
    pub root_module: String,
    pub edition: String,
    pub deps: Vec<String>,
    pub cfg: Vec<String>,
}

/// The description of all exercises.
#[derive(Debug, PartialEq, Eq)]
pub struct RustAnalyzerProject {
    pub sysroot_src: String,
    pub crates: Vec<Crate>,
}

/// What was found at a path among the exercises.
#[derive(Debug, PartialEq, Eq)]
pub struct FoundPath {
    /// Whether the path names a file.
    pub is_file: bool,
    /// The extension of the file name, if it has one.
    pub extension: Option<String>,
    /// The path in its absolute form, or nothing where that could not be
    /// worked out.
    pub absolute: Option<String>,
}

/// Why the description could not be completed.
#[derive(Clone, Copy, Debug, PartialEq, Eq, Structural)]
pub enum ProjectError {
    /// The absolute form of a source file's path could not be worked out.
    NoAbsolutePath,
    /// The compiler did not say where it is installed.
    SysrootCommandFailed,
    /// The standard library's sources are not where they should be.
    SourcesMissing,
}

/// Whether `found` is a source file: a file whose extension is `rs`.
pub open spec fn is_source_file(found: FoundPath) -> bool {
    found.is_file && (found.extension matches Some(extension) && extension@ == "rs"@)
}

/// Whether `entry` holds a source file without an absolute path.
pub open spec fn lacks_absolute_path(entry: Option<FoundPath>) -> bool {
    entry matches Some(found) && is_source_file(found) && found.absolute is None
}

/// The index of the first entry at or after `from` that holds a source file
/// without an absolute path, or the number of entries where there is none.
pub open spec fn first_lacking(entries: Seq<Option<FoundPath>>, from: int) -> int
    decreases entries.len() - from,
{
    if 0 <= from < entries.len() && !lacks_absolute_path(entries[from]) {
        first_lacking(entries, from + 1)
    } else {
        from
    }
}

/// The absolute paths of the source files among the first `n` entries, in
/// order.
pub open spec fn added_roots(entries: Seq<Option<FoundPath>>, n: int) -> Seq<Seq<char>>
    decreases n,
{
    if n <= 0 || n > entries.len() {
        Seq::empty()
    } else {
        match entries[n - 1] {
            Some(found) => if is_source_file(found) && found.absolute is Some {
                added_roots(entries, n - 1).push(found.absolute->Some_0@)
            } else {
                added_roots(entries, n - 1)
            },
            None => added_roots(entries, n - 1),
        }
    }
}

/// The number of the first `n` entries that hold nothing.
pub open spec fn unread_count(entries: Seq<Option<FoundPath>>, n: int) -> nat
    decreases n,
{
    if n <= 0 || n > entries.len() {
        0
    } else if entries[n - 1] is None {
        unread_count(entries, n - 1) + 1
    } else {
        unread_count(entries, n - 1)
    }
}

/// Whether `c` is the crate of the source file at `root`: of edition 2021,
/// without dependencies, and with its tests switched on.
pub open spec fn is_crate_of(c: Crate, root: Seq<char>) -> bool {
    &&& c.root_module@ == root
    &&& c.edition@ == "2021"@
    &&& c.deps@.len() == 0
    &&& c.cfg@.len() == 1
    &&& c.cfg@[0]@ == "test"@
}

/// The command line that asks the compiler where it is installed.
pub open spec fn sysroot_invocation() -> InvocationView {
    InvocationView { program: "rustc"@, args: seq!["--print"@, "sysroot"@] }
}

/// Where the standard library's sources lie below the place `toolchain` that
/// the compiler named, white space around the name left out.
pub open spec fn sysroot_sources(toolchain: Seq<char>) -> Seq<char> {
    trimmed(toolchain) + "/lib/rustlib/src/rust/library"@
}

impl RustAnalyzerProject {
    /// A description without crates and without a place for the sources.
    pub fn new() -> (project: RustAnalyzerProject)
        ensures
            project.sysroot_src@.len() == 0,
            project.crates@.len() == 0,
    {
        RustAnalyzerProject { sysroot_src: String::new(), crates: Vec::new() }
    }

    /// Adds the crate of what was found at a path, if that is a source file;
    /// anything else is passed over. It fails, and adds nothing, for a source
    /// file without an absolute path.
    pub fn path_to_json(&mut self, found: &FoundPath) -> (result: Result<(), ProjectError>)
        ensures
            final(self).sysroot_src == old(self).sysroot_src,
            result.is_err() == (is_source_file(*found) && found.absolute is None),
            result matches Err(e) ==> e == ProjectError::NoAbsolutePath,
            is_source_file(*found) && found.absolute is Some ==> {
                &&& final(self).crates@.len() == old(self).crates@.len() + 1
                &&& final(self).crates@.drop_last() == old(self).crates@
                &&& is_crate_of(final(self).crates@.last(), found.absolute->Some_0@)
            },
            !(is_source_file(*found) && found.absolute is Some) ==> final(self).crates@ == old(
                self,
            ).crates@,
    {
        if !found.is_file {
            return Ok(());
        }
        let source = match &found.extension {
            Some(extension) => {
                let rs = "rs".to_owned();
                *extension == rs
            },
            None => false,
        };
        if !source {
            return Ok(());
        }
        match &found.absolute {
            Some(root) => {
                let mut cfg: Vec<String> = Vec::new();
                cfg.push(String::from_str("test"));
                let ghost before = self.crates@;
                self.crates.push(
                    Crate {
                        root_module: root.clone(),
                        edition: String::from_str("2021"),
                        deps: Vec::new(),
                        cfg,
                    },
                );
                assert(self.crates@.drop_last() =~= before);
                Ok(())
            },
            None => Err(ProjectError::NoAbsolutePath),
        }
    }

    /// Adds the crates of all source files among `entries`, which hold what
    /// was found below the exercises' directory, in order; an entry that
    /// could not be read holds nothing and is passed over. It stops at the
    /// first source file without an absolute path, having added the crates
    /// of the source files before it. The result says how many entries could
    /// not be read.
    pub fn exercises_to_json(&mut self, entries: &Vec<Option<FoundPath>>) -> (result: Result<
        usize,
        ProjectError,
    >)
        ensures
            final(self).sysroot_src == old(self).sysroot_src,
            final(self).crates@.len() == old(self).crates@.len() + added_roots(
                entries@,
                first_lacking(entries@, 0),
            ).len(),
            final(self).crates@.subrange(0, old(self).crates@.len() as int) == old(self).crates@,
            forall|j: int|
                0 <= j < added_roots(entries@, first_lacking(entries@, 0)).len() ==> is_crate_of(
                    #[trigger] final(self).crates@[old(self).crates@.len() + j],
                    added_roots(entries@, first_lacking(entries@, 0))[j],
                ),
            result.is_err() == (first_lacking(entries@, 0) < entries.len()),
            result matches Err(e) ==> e == ProjectError::NoAbsolutePath,
            result matches Ok(unread) ==> unread == unread_count(entries@, entries.len() as int),
    {
        let ghost before = self.crates@;
        let mut unread: usize = 0;
        let mut i: usize = 0;
        while i < entries.len()
            invariant
                self.sysroot_src == old(self).sysroot_src,
                before == old(self).crates@,
                i <= entries.len(),
                unread == unread_count(entries@, i as int),
                unread <= i,
                first_lacking(entries@, 0) == first_lacking(entries@, i as int),
                self.crates@.len() == before.len() + added_roots(entries@, i as int).len(),
                self.crates@.subrange(0, before.len() as int) == before,
                forall|j: int|
                    0 <= j < added_roots(entries@, i as int).len() ==> is_crate_of(
                        #[trigger] self.crates@[before.len() + j],
                        added_roots(entries@, i as int)[j],
                    ),
            decreases entries.len() - i,
        {
            let ghost held = self.crates@;
            let ghost roots = added_roots(entries@, i as int);
            match &entries[i] {
                Some(found) => {
                    match self.path_to_json(found) {
                        Ok(()) => {
                            assert(self.crates@.subrange(0, before.len() as int) =~= before) by {
                                if self.crates@.len() != held.len() {
                                    assert(self.crates@.drop_last() == held);
                                }
                            }
                            assert forall|j: int|
                                0 <= j < added_roots(entries@, i + 1).len() implies is_crate_of(
                                #[trigger] self.crates@[before.len() + j],
                                added_roots(entries@, i + 1)[j],
                            ) by {
                                if j < roots.len() {
                                    if self.crates@.len() != held.len() {
                                        assert(self.crates@.drop_last() == held);
                                        assert(self.crates@.drop_last()[before.len() + j]
                                            == self.crates@[before.len() + j]);
                                    }
                                }
                            }
                        },
                        Err(e) => {
                            return Err(e);
                        },
                    }
                },
                None => {
                    unread = unread + 1;
                },
            }
            i = i + 1;
        }
        Ok(unread)
    }

    /// Takes the place of the standard library's sources from the
    /// environment, if it is named there and exists: `exists` says whether
    /// it does. The result says whether the place was taken.
    pub fn sysroot_from_env(&mut self, path: Option<String>, exists: bool) -> (taken: bool)
        ensures
            taken == (path is Some && exists),
            taken ==> final(self).sysroot_src@ == path->Some_0@,
            !taken ==> final(self).sysroot_src == old(self).sysroot_src,
            final(self).crates == old(self).crates,
    {
        match path {
            Some(path) => {
                if exists {
                    self.sysroot_src = path;
                    true
                } else {
                    false
                }
            },
            None => false,
        }
    }

    /// Builds [`sysroot_invocation`].
    pub fn sysroot_command() -> (command: Invocation)
        ensures
            command@ == sysroot_invocation(),
    {
        let mut args: Vec<String> = Vec::new();
        args.push(String::from_str("--print"));
        args.push(String::from_str("sysroot"));
        let command = Invocation { program: String::from_str("rustc"), args };
        assert(command@.args =~= sysroot_invocation().args);
        command
    }

    /// Where the standard library's sources should lie, from what the
    /// compiler answered: [`sysroot_sources`] of what it wrote, unless it
    /// reported a failure.
    pub fn sysroot_candidate(answer: &ProcessOutput) -> (result: Result<String, ProjectError>)
        ensures
            result.is_ok() == answer.success,
            result matches Ok(place) ==> place@ == sysroot_sources(answer.stdout@),
            result matches Err(e) ==> e == ProjectError::SysrootCommandFailed,
    {
        if !answer.success {
            return Err(ProjectError::SysrootCommandFailed);
        }
        let chars = to_chars(answer.stdout.as_str());
        let (start, end) = trim_bounds(&chars);
        let mut place = String::from_str(answer.stdout.as_str().substring_char(start, end));
        place.append("/lib/rustlib/src/rust/library");
        Ok(place)
    }

    /// Takes `place` as the place of the standard library's sources, if it
    /// exists: `exists` says whether it does.
    pub fn get_sysroot_src(&mut self, place: String, exists: bool) -> (result: Result<
        (),
        ProjectError,
    >)
        ensures
            result.is_ok() == exists,
            result matches Err(e) ==> e == ProjectError::SourcesMissing,
            exists ==> final(self).sysroot_src@ == place@,
            !exists ==> final(self).sysroot_src == old(self).sysroot_src,
            final(self).crates == old(self).crates,
    {
        if exists {
            self.sysroot_src = place;
            Ok(())
        } else {
            Err(ProjectError::SourcesMissing)
        }
    }
}

} // verus!
