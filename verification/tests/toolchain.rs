use rustlings::exercise::{Exercise, ExerciseOutput, Mode};
use rustlings::report::ExerciseCheckList;
use rustlings::run::{reset, reset_command, Compilation};
use rustlings::text::decimal_text;
use rustlings::toolchain::{manifest, temp_file, Invocation, ProcessOutput, Step};

fn exercise(mode: Mode) -> Exercise {
    Exercise {
        name: "clippy1".to_string(),
        path: "exercises/clippy/clippy1.rs".to_string(),
        mode,
        hint: "a hint".to_string(),
    }
}

fn words(step: &Step) -> Vec<String> {
    match step {
        Step::Write { path, .. } => vec!["write".to_string(), path.clone()],
        Step::Run { command } => {
            let mut all = vec![command.program.clone()];
            all.extend(command.args.iter().cloned());
            all
        }
    }
}

fn command_line(command: &Invocation) -> String {
    let mut all = vec![command.program.clone()];
    all.extend(command.args.iter().cloned());
    all.join(" ")
}

#[test]
fn compile_mode_builds_with_the_compiler() {
    let steps = exercise(Mode::Compile).compile_steps("./temp_1_ThreadId1");
    assert_eq!(steps.len(), 1);
    assert_eq!(
        words(&steps[0]).join(" "),
        "rustc exercises/clippy/clippy1.rs -o ./temp_1_ThreadId1 --color always --edition 2021"
    );
}

#[test]
fn test_mode_builds_the_harness() {
    let steps = exercise(Mode::Test).compile_steps("./t");
    assert_eq!(steps.len(), 1);
    assert_eq!(
        words(&steps[0]).join(" "),
        "rustc --test exercises/clippy/clippy1.rs -o ./t --color always --edition 2021"
    );
}

#[test]
fn lint_mode_writes_the_descriptor_cleans_and_lints() {
    let steps = exercise(Mode::Clippy).compile_steps("./t");
    assert_eq!(steps.len(), 4);
    match &steps[0] {
        Step::Write { path, contents } => {
            assert_eq!(path, "./exercises/clippy/Cargo.toml");
            assert_eq!(
                contents,
                "[package]\nname = \"clippy1\"\nversion = \"0.0.1\"\nedition = \"2021\"\n\n[[bin]]\nname = \"clippy1\"\npath = \"clippy1.rs\"\n"
            );
        }
        other => panic!("no write: {:?}", other),
    }
    assert_eq!(
        words(&steps[1]).join(" "),
        "rustc exercises/clippy/clippy1.rs -o ./t --color always --edition 2021"
    );
    assert_eq!(
        words(&steps[2]).join(" "),
        "cargo clean --manifest-path ./exercises/clippy/Cargo.toml --color always"
    );
    assert_eq!(
        words(&steps[3]).join(" "),
        "cargo clippy --manifest-path ./exercises/clippy/Cargo.toml --color always -- -D warnings -D clippy::float_cmp"
    );
}

#[test]
fn build_script_mode_writes_the_descriptor_and_tests() {
    let steps = exercise(Mode::BuildScript).compile_steps("./t");
    assert_eq!(steps.len(), 2);
    assert_eq!(words(&steps[0]), vec!["write", "./exercises/tests/Cargo.toml"]);
    assert_eq!(
        words(&steps[1]).join(" "),
        "cargo test --manifest-path ./exercises/tests/Cargo.toml"
    );
}

#[test]
fn manifest_names_the_exercise_three_times() {
    assert_eq!(
        manifest("x"),
        "[package]\nname = \"x\"\nversion = \"0.0.1\"\nedition = \"2021\"\n\n[[bin]]\nname = \"x\"\npath = \"x.rs\"\n"
    );
}

#[test]
fn temp_file_is_made_of_process_and_thread() {
    assert_eq!(temp_file(4242, "ThreadId(7)"), "./temp_4242_ThreadId7");
    assert_eq!(temp_file(0, ""), "./temp_0_");
    assert_eq!(temp_file(u32::MAX, "ThreadId(18)"), "./temp_4294967295_ThreadId18");
    assert_eq!(temp_file(12, "a_b-c é!"), "./temp_12_abcé");
}

#[test]
fn temp_files_of_different_runs_differ() {
    let mut names = Vec::new();
    for pid in [0u32, 1, 10, 11, 101, 110, 1011] {
        for thread in ["ThreadId(1)", "ThreadId(10)", "ThreadId(11)", "ThreadId(101)", "ThreadId(0)"] {
            names.push(temp_file(pid, thread));
        }
    }
    let count = names.len();
    names.sort();
    names.dedup();
    assert_eq!(names.len(), count);
}

#[test]
fn decimal_text_is_what_the_standard_library_writes() {
    for n in [0u32, 1, 9, 10, 11, 99, 100, 101, 12345, 4294967295] {
        assert_eq!(decimal_text(n), n.to_string());
    }
}

#[test]
fn the_artifact_is_run_with_the_argument_of_its_mode() {
    let test = exercise(Mode::Test).run_command("./t").unwrap();
    assert_eq!(command_line(&test), "./t --show-output");
    let binary = exercise(Mode::Compile).run_command("./t").unwrap();
    assert_eq!(binary.program, "./t");
    assert_eq!(binary.args, vec![String::new()]);
    assert!(exercise(Mode::BuildScript).run_command("./t").is_none());
}

fn output(success: bool) -> ProcessOutput {
    ProcessOutput { success, stdout: "out".to_string(), stderr: "err".to_string() }
}

fn texts(result: Result<ExerciseOutput, ExerciseOutput>) -> Result<(String, String), (String, String)> {
    match result {
        Ok(o) => Ok((o.stdout, o.stderr)),
        Err(o) => Err((o.stdout, o.stderr)),
    }
}

#[test]
fn compile_reads_the_end_of_the_build() {
    let e = exercise(Mode::Compile);
    assert!(e.compile(output(true)).is_ok());
    match e.compile(output(false)) {
        Ok(_) => panic!("a failed build passed"),
        Err(o) => {
            assert_eq!(o.stdout, "out");
            assert_eq!(o.stderr, "err");
        }
    }
}

#[test]
fn run_reads_the_end_of_the_run() {
    let e = exercise(Mode::Compile);
    assert_eq!(texts(e.run(Some(output(true)))), Ok(("out".to_string(), "err".to_string())));
    assert_eq!(texts(e.run(Some(output(false)))), Err(("out".to_string(), "err".to_string())));
    let compiled = e.compile(output(true)).ok().unwrap();
    assert_eq!(command_line(&compiled.run_command("./t").unwrap()), "./t ");
    assert_eq!(
        texts(compiled.run(Some(output(false)))),
        Err(("out".to_string(), "err".to_string()))
    );
    let b = exercise(Mode::BuildScript);
    assert_eq!(texts(b.run(None)), Ok((String::new(), String::new())));
    assert_eq!(texts(b.run(Some(output(false)))), Ok((String::new(), String::new())));
}

#[test]
fn reset_stashes_the_changes_to_the_source() {
    assert_eq!(
        command_line(&reset_command(&exercise(Mode::Compile))),
        "git stash -- exercises/clippy/clippy1.rs"
    );
    assert_eq!(reset(Some(true)), Ok(()));
    assert_eq!(reset(Some(false)), Err(()));
    assert_eq!(reset(None), Err(()));
}

#[test]
fn report_counts_successes_and_failures_in_any_order() {
    let orders = [
        [("a", true), ("b", false), ("c", true)],
        [("b", false), ("a", true), ("c", true)],
        [("c", true), ("a", true), ("b", false)],
        [("a", true), ("c", true), ("b", false)],
    ];
    for order in orders {
        let mut report = ExerciseCheckList::new(3);
        for (name, result) in order {
            report.record(name.to_string(), result);
        }
        report.finish(100, 107);
        assert_eq!(report.statistics.total_exercises, 3);
        assert_eq!(report.statistics.total_succeeds, 2);
        assert_eq!(report.statistics.total_failures, 1);
        assert_eq!(report.statistics.total_time, 7);
        assert_eq!(report.exercises.len(), 3);
        assert_eq!(report.exercises[0].name, order[0].0);
        assert_eq!(report.exercises[0].result, order[0].1);
        assert!(report.user_name.is_none());
    }
}

#[test]
fn report_time_is_cut_to_its_field() {
    let mut report = ExerciseCheckList::new(0);
    report.finish(0, 0x1_0000_0005);
    assert_eq!(report.statistics.total_time, 5);
    assert_eq!(report.statistics.total_succeeds, 0);
    assert_eq!(report.statistics.total_failures, 0);
}

#[test]
fn report_knows_whether_its_tally_agrees() {
    let mut report = ExerciseCheckList::new(2);
    assert!(report.tallies_agree());
    report.record("a".to_string(), true);
    report.record("b".to_string(), false);
    assert!(report.tallies_agree());
    report.statistics.total_succeeds = 2;
    assert!(!report.tallies_agree());
    report.statistics.total_succeeds = 1;
    report.exercises.pop();
    assert!(!report.tallies_agree());
}

#[test]
fn a_plain_build_puts_the_binary_under_the_stem() {
    let e = exercise(Mode::Compile);
    let compilation = Compilation::of(&e);
    assert_eq!(
        command_line(&compilation.build_command(&e)),
        "rustc exercises/clippy/clippy1.rs -o ./clippy1"
    );
    let run = compilation.run_command();
    assert_eq!(run.program, "./clippy1");
    assert!(run.args.is_empty());
    assert_eq!(compilation.run(output(true)), Ok(output(true)));
    assert_eq!(compilation.run(output(false)), Err(output(false)));
}
