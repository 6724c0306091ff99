use rustlings::catalog::{filter_match, filter_parts, find_exercise, status_match, Lookup};
use rustlings::exercise::{Exercise, Mode};
use rustlings::quick::{manifest_path, passed, quick_report, rustc_version_command, stem};
use rustlings::text::{contains_part, split_fields, split_words, to_chars, trim_bounds};
use rustlings::toolchain::ProcessOutput;
use rustlings::verify::Message;
use rustlings::wording::{banner_text, message_text, separator_text};

fn exercise(name: &str, path: &str, mode: Mode) -> Exercise {
    Exercise { name: name.to_string(), path: path.to_string(), mode, hint: String::new() }
}

fn exercises() -> Vec<Exercise> {
    vec![
        exercise("intro1", "exercises/intro/intro1.rs", Mode::Compile),
        exercise("tests3", "exercises/tests/tests3.rs", Mode::Test),
        exercise("clippy1", "exercises/clippy/clippy1.rs", Mode::Clippy),
        exercise("tests3", "exercises/other/tests3.rs", Mode::Test),
    ]
}

#[test]
fn an_exercise_is_found_by_its_name() {
    let done = vec![false, false, false, false];
    assert_eq!(find_exercise("intro1", &exercises(), &done), Lookup::Found(0));
    assert_eq!(find_exercise("clippy1", &exercises(), &done), Lookup::Found(2));
    assert_eq!(find_exercise("tests3", &exercises(), &done), Lookup::Found(1));
    assert_eq!(find_exercise("tests4", &exercises(), &done), Lookup::Unknown);
    assert_eq!(find_exercise("", &exercises(), &done), Lookup::Unknown);
    assert_eq!(find_exercise("intro1", &vec![], &vec![]), Lookup::Unknown);
}

#[test]
fn next_is_the_first_exercise_that_is_not_finished() {
    assert_eq!(
        find_exercise("next", &exercises(), &vec![true, true, false, false]),
        Lookup::Found(2)
    );
    assert_eq!(
        find_exercise("next", &exercises(), &vec![false, true, true, true]),
        Lookup::Found(0)
    );
    assert_eq!(
        find_exercise("next", &exercises(), &vec![true, true, true, true]),
        Lookup::AllDone
    );
    assert_eq!(find_exercise("next", &exercises(), &vec![true, true]), Lookup::Found(2));
    assert_eq!(find_exercise("next", &vec![], &vec![]), Lookup::AllDone);
}

#[test]
fn a_filter_is_cut_at_its_commas() {
    assert_eq!(filter_parts("Intro, TESTS ,,clippy"), vec!["intro", "tests", "", "clippy"]);
    assert_eq!(filter_parts(""), vec![""]);
    assert_eq!(filter_parts(" a b "), vec!["a b"]);
}

#[test]
fn a_filter_chooses_by_name_and_path() {
    let parts = filter_parts("intro,clippy");
    assert!(filter_match(&parts, "intro1", "exercises/intro/intro1.rs"));
    assert!(filter_match(&parts, "x", "exercises/clippy/x.rs"));
    assert!(!filter_match(&parts, "tests3", "exercises/tests/tests3.rs"));
    assert!(!filter_match(&filter_parts(""), "tests3", "exercises/tests/tests3.rs"));
    assert!(!filter_match(&filter_parts(" , "), "tests3", "exercises/tests/tests3.rs"));
    assert!(filter_match(&vec![], "tests3", "exercises/tests/tests3.rs"));
    assert!(filter_match(&filter_parts("3.rs"), "tests3", "exercises/tests/tests3.rs"));
    assert!(!filter_match(&filter_parts("tests33"), "tests3", "tests3"));
}

#[test]
fn exercises_are_listed_by_their_state() {
    assert!(status_match(true, false, true));
    assert!(!status_match(true, false, false));
    assert!(status_match(false, true, false));
    assert!(!status_match(false, true, true));
    for done in [true, false] {
        assert!(status_match(false, false, done));
        assert!(status_match(true, true, done));
    }
}

#[test]
fn parts_and_words_and_fields_are_what_the_standard_library_finds() {
    let texts = ["", " ", "a", " a ", "a,b", ",", ",,", "a , b,c ", "  x  y\tz ", "\u{2003}é ,ü\n"];
    for text in texts {
        let chars = to_chars(text);
        let (from, to) = trim_bounds(&chars);
        assert_eq!(chars[from..to].iter().collect::<String>(), text.trim(), "trim {:?}", text);
        let words: Vec<String> =
            split_words(&chars, 0).iter().map(|(a, b)| chars[*a..*b].iter().collect()).collect();
        let expected: Vec<String> = text.split_whitespace().map(|w| w.to_string()).collect();
        assert_eq!(words, expected, "words of {:?}", text);
        let fields: Vec<String> =
            split_fields(&chars, ',').iter().map(|(a, b)| chars[*a..*b].iter().collect()).collect();
        let expected: Vec<String> = text.split(',').map(|w| w.to_string()).collect();
        assert_eq!(fields, expected, "fields of {:?}", text);
        for part in ["", "a", " ", "a,b", "é", "xyz"] {
            assert_eq!(
                contains_part(&chars, &to_chars(part)),
                text.contains(part),
                "{:?} in {:?}",
                part,
                text
            );
        }
    }
}

fn command_line(exercise: &Exercise) -> String {
    let command = exercise.quick_command();
    let mut all = vec![command.program];
    all.extend(command.args);
    all.join(" ")
}

#[test]
fn a_quick_look_takes_one_command() {
    let all = exercises();
    assert_eq!(command_line(&all[0]), "rustc exercises/intro/intro1.rs");
    assert_eq!(
        command_line(&all[1]),
        "cargo test --manifest-path exercises/tests/Cargo.toml -- tests3"
    );
    assert_eq!(
        command_line(&all[2]),
        "cargo clippy --manifest-path exercises/clippy/Cargo.toml"
    );
    assert_eq!(
        command_line(&exercise("b", "exercises/tests/build.rs", Mode::BuildScript)),
        "rustc exercises/tests/build.rs"
    );
    let version = rustc_version_command();
    assert_eq!(version.program, "rustc");
    assert_eq!(version.args, vec!["--version".to_string()]);
}

#[test]
fn manifest_and_stem_are_what_the_standard_library_finds() {
    for path in ["exercises/a/b.rs", "b.rs", "/b.rs", "a/b", "a/.hidden", "a/b.tar.gz", "a.d/b", "./x.rs"] {
        let p = std::path::Path::new(path);
        assert_eq!(
            manifest_path(path),
            p.parent().unwrap().join("Cargo.toml").to_str().unwrap(),
            "manifest beside {:?}",
            path
        );
        assert_eq!(stem(path), p.file_stem().unwrap().to_str().unwrap(), "stem of {:?}", path);
    }
}

#[test]
fn a_quick_look_passes_when_the_command_did() {
    assert!(passed(Some(true)));
    assert!(!passed(Some(false)));
    assert!(!passed(None));
    let ok = ProcessOutput { success: true, stdout: String::new(), stderr: String::new() };
    let bad = ProcessOutput { success: false, stdout: String::new(), stderr: String::new() };
    assert_eq!(quick_report(false, &ok), (false, Ok(())));
    assert_eq!(quick_report(true, &ok), (true, Ok(())));
    assert_eq!(quick_report(false, &bad), (true, Err(())));
    assert_eq!(quick_report(true, &bad), (true, Err(())));
}

#[test]
fn messages_have_their_words() {
    let e = "exercises/intro/intro1.rs";
    assert_eq!(
        message_text(Message::StatusCompiling, e, false).unwrap(),
        "Compiling exercises/intro/intro1.rs..."
    );
    assert_eq!(message_text(Message::StatusTesting, "x", false).unwrap(), "Testing x...");
    assert_eq!(message_text(Message::StatusRunning, "x", false).unwrap(), "Running x...");
    assert_eq!(
        message_text(Message::WarnCompileFailed, "x", false).unwrap(),
        "Compiling of x failed! Please try again. Here's the output:"
    );
    assert_eq!(
        message_text(Message::WarnCompilationFailed, "x", false).unwrap(),
        "Compilation of x failed!, Compiler error message:\n"
    );
    assert_eq!(
        message_text(Message::WarnTestFailed, "x", true).unwrap(),
        "Testing of x failed! Please try again. Here's the output:"
    );
    assert_eq!(message_text(Message::WarnRanWithErrors, "x", true).unwrap(), "Ran x with errors");
    assert_eq!(message_text(Message::SuccessRan, "x", true).unwrap(), "Successfully ran x");
    assert_eq!(
        message_text(Message::Success(Mode::Compile), "x", true).unwrap(),
        "Successfully ran x"
    );
    assert_eq!(
        message_text(Message::Success(Mode::Test), "x", true).unwrap(),
        "Successfully tested x"
    );
    assert_eq!(
        message_text(Message::Success(Mode::Clippy), "x", true).unwrap(),
        "Successfully compiled x"
    );
    assert_eq!(
        message_text(Message::Success(Mode::BuildScript), "x", true).unwrap(),
        "Successfully compiled x"
    );
    assert_eq!(
        message_text(Message::Banner(Mode::Compile), "x", true).unwrap(),
        "*** The code is compiling! ***"
    );
    assert_eq!(
        message_text(Message::Banner(Mode::Test), "x", false).unwrap(),
        "🎉 🎉 The code is compiling, and the tests pass! 🎉 🎉"
    );
    assert_eq!(
        message_text(Message::Banner(Mode::Clippy), "x", false).unwrap(),
        "🎉 🎉 The code is compiling, and 🦀 Clippy 🦀 is happy! 🎉 🎉"
    );
    assert_eq!(banner_text(Mode::Clippy, true), "The code is compiling, and Clippy is happy!");
    assert_eq!(banner_text(Mode::BuildScript, false), "Build script works!");
    assert_eq!(
        message_text(Message::KeepWorking, "x", false).unwrap(),
        "You can keep working on this exercise,\nor jump into the next one by removing the I AM NOT DONE comment:"
    );
    for silent in [
        Message::ClearStatus,
        Message::Stdout,
        Message::Stderr,
        Message::Output,
        Message::Hints,
        Message::Context,
    ] {
        assert_eq!(message_text(silent, "x", false), None);
    }
    assert_eq!(separator_text(), "====================");
    let shown = exercise("intro1", e, Mode::Compile).to_string();
    assert_eq!(shown, e);
}
