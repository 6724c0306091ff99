use rustlings::exercise::{classify, ContextLine, Exercise, Mode, State};
use rustlings::marker::marker_line;
use rustlings::text::{split_lines, to_chars};

fn line(text: &str, number: usize, important: bool) -> ContextLine {
    ContextLine { line: text.to_string(), number, important }
}

fn is_marker(text: &str) -> bool {
    marker_line(&text.chars().collect())
}

fn lines_of(text: &str) -> Vec<String> {
    let chars = to_chars(text);
    split_lines(&chars)
        .iter()
        .map(|(from, to)| chars[*from..*to].iter().collect())
        .collect()
}

#[test]
fn empty_source_is_done() {
    assert_eq!(classify(""), State::Done);
}

#[test]
fn source_without_marker_is_done() {
    assert_eq!(classify("fn main() {\n    println!(\"hi\");\n}\n"), State::Done);
}

#[test]
fn classify_is_the_same_on_the_same_text() {
    let text = "a\nb\n// I AM NOT DONE\nc\n";
    assert_eq!(classify(text), classify(text));
    assert_eq!(classify("plain"), classify("plain"));
}

#[test]
fn marker_in_the_middle_gives_two_lines_on_each_side() {
    let text = "l1\nl2\nl3\n// I AM NOT DONE\nl5\nl6\nl7\n";
    assert_eq!(
        classify(text),
        State::Pending(vec![
            line("l2", 2, false),
            line("l3", 3, false),
            line("// I AM NOT DONE", 4, true),
            line("l5", 5, false),
            line("l6", 6, false),
        ])
    );
}

#[test]
fn marker_on_the_first_line_clips_the_window() {
    let text = "// I AM NOT DONE\nl2\nl3\nl4\n";
    assert_eq!(
        classify(text),
        State::Pending(vec![
            line("// I AM NOT DONE", 1, true),
            line("l2", 2, false),
            line("l3", 3, false),
        ])
    );
}

#[test]
fn marker_on_the_last_line_clips_the_window() {
    let text = "l1\nl2\nl3\n// I AM NOT DONE";
    assert_eq!(
        classify(text),
        State::Pending(vec![
            line("l2", 2, false),
            line("l3", 3, false),
            line("// I AM NOT DONE", 4, true),
        ])
    );
}

#[test]
fn marker_alone() {
    assert_eq!(
        classify("// I AM NOT DONE"),
        State::Pending(vec![line("// I AM NOT DONE", 1, true)])
    );
}

#[test]
fn only_the_first_marker_counts() {
    let text = "// I AM NOT DONE\nx\n// I AM NOT DONE\ny\nz\n";
    assert_eq!(
        classify(text),
        State::Pending(vec![
            line("// I AM NOT DONE", 1, true),
            line("x", 2, false),
            line("// I AM NOT DONE", 3, false),
        ])
    );
}

#[test]
fn windows_line_endings_are_left_out_of_the_lines() {
    let text = "a\r\n// I AM NOT DONE\r\nb\r\n";
    assert_eq!(
        classify(text),
        State::Pending(vec![
            line("a", 1, false),
            line("// I AM NOT DONE", 2, true),
            line("b", 3, false),
        ])
    );
}

#[test]
fn text_of_more_than_one_byte_a_character() {
    let text = "前言\n  // I AM NOT DONE 呀\n尾\n";
    assert_eq!(
        classify(text),
        State::Pending(vec![
            line("前言", 1, false),
            line("  // I AM NOT DONE 呀", 2, true),
            line("尾", 3, false),
        ])
    );
}

#[test]
fn marker_lines() {
    assert!(is_marker("// I AM NOT DONE"));
    assert!(is_marker("/ I AM NOT DONE"));
    assert!(is_marker("//I AM NOT DONE"));
    assert!(is_marker("   //   I   AM \t NOT   DONE"));
    assert!(is_marker("// I AM NOT DONE yet"));
    assert!(is_marker("// I AM NOT DONEXYZ"));
    assert!(is_marker("\u{3000}// I\u{a0}AM NOT DONE"));
}

#[test]
fn marker_in_either_case() {
    assert!(is_marker("// i am not done"));
    assert!(is_marker("// I am Not dOnE"));
}

#[test]
fn marker_without_comment_leader() {
    assert!(is_marker("I AM NOT DONE"));
    assert!(is_marker("   I AM NOT DONE"));
}

#[test]
fn lines_that_are_no_marker() {
    assert!(!is_marker(""));
    assert!(!is_marker("//"));
    assert!(!is_marker("/// I AM NOT DONE"));
    assert!(!is_marker("// IAM NOT DONE"));
    assert!(!is_marker("// I AMNOT DONE"));
    assert!(!is_marker("// I AM NOTDONE"));
    assert!(!is_marker("// I AM NOT DON"));
    assert!(!is_marker("// I AM DONE"));
    assert!(!is_marker("x // I AM NOT DONE"));
    assert!(!is_marker("// so I AM NOT DONE"));
    assert!(!is_marker("# I AM NOT DONE"));
    assert!(!is_marker("// I AM NOT"));
    assert!(!is_marker("// 1 AM NOT DONE"));
    assert!(!is_marker("// I@AM NOT DONE"));
}

#[test]
fn marker_split_over_two_lines_is_none() {
    assert_eq!(classify("//\nI AM NOT DONE\n"), State::Pending(vec![
        line("//", 1, false),
        line("I AM NOT DONE", 2, true),
    ]));
    assert_eq!(classify("// I AM\nNOT DONE\n"), State::Done);
}

#[test]
fn lines_are_split_as_the_standard_library_splits_them() {
    for text in [
        "",
        "a",
        "a\n",
        "a\nb",
        "a\n\nb\n",
        "\n",
        "\n\n",
        "a\r\nb\r\n",
        "a\rb\n",
        "a\r",
        "\r\n",
        "\r\r\n",
        "a\n\r\nb",
        "日本\n語\r\n",
    ] {
        let expected: Vec<String> = text.lines().map(|l| l.to_string()).collect();
        assert_eq!(lines_of(text), expected, "lines of {:?}", text);
    }
}

#[test]
fn state_and_looks_done_go_by_the_source() {
    let exercise = Exercise {
        name: "intro1".to_string(),
        path: "exercises/intro/intro1.rs".to_string(),
        mode: Mode::Compile,
        hint: "no hint".to_string(),
    };
    assert!(exercise.looks_done("fn main() {}\n"));
    assert!(!exercise.looks_done("// I AM NOT DONE\nfn main() {}\n"));
    assert_eq!(exercise.state("fn main() {}\n"), State::Done);
    assert_eq!(
        exercise.state("fn main() {}\n// I AM NOT DONE"),
        State::Pending(vec![line("fn main() {}", 1, false), line("// I AM NOT DONE", 2, true)])
    );
}
