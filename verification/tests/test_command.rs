use cli_assert::ChildState;
use cli_assert::Command;
use cli_assert::ExitOutcome;
use cli_assert::HarnessError;

fn exit_with(code: i32) -> ExitOutcome {
    ExitOutcome { success: code == 0, code: Some(code) }
}

fn signal_exit() -> ExitOutcome {
    ExitOutcome { success: false, code: None }
}

#[test]
fn new_without_overlap_uses_caller_directory() {
    let cmd = Command::new("prog", "tests/test_command.rs", "somewhere/else").unwrap();
    assert_eq!("tests", cmd.get_current_dir().render());
    assert_eq!("prog", cmd.get_program());
    assert_eq!(ChildState::NotStarted, cmd.state);
}

#[test]
fn new_with_partial_overlap_uses_remainder() {
    let cmd = Command::new("prog", "pkg/tests/t.rs", "/work/pkg").unwrap();
    assert_eq!("tests", cmd.get_current_dir().render());
}

#[test]
fn new_with_full_overlap_uses_dot() {
    let cmd = Command::new("prog", "/work/pkg/t.rs", "/work/pkg").unwrap();
    assert_eq!(".", cmd.get_current_dir().render());
}

#[test]
fn new_fails_without_parent_directory() {
    assert_eq!(
        Err(HarnessError::NoParentDirectory),
        Command::new("prog", "", "dir").map(|_| ())
    );
    assert_eq!(
        Err(HarnessError::NoParentDirectory),
        Command::new("prog", "/", "dir").map(|_| ())
    );
}

#[test]
fn arg_appends_in_order() {
    let cmd = Command::new("prog", "t/f.rs", "d")
        .unwrap()
        .arg("one".to_string())
        .arg("two".to_string());
    assert_eq!(vec!["one".to_string(), "two".to_string()], cmd.program_args);
}

#[test]
fn success_and_failure_expectations_exclude_each_other() {
    let cmd = Command::new("prog", "t/f.rs", "d").unwrap().success().failure();
    assert_eq!(None, cmd.expected_success);
    assert_eq!(Some(true), cmd.expected_failure);
    let cmd = Command::new("prog", "t/f.rs", "d").unwrap().failure().success();
    assert_eq!(Some(true), cmd.expected_success);
    assert_eq!(None, cmd.expected_failure);
}

#[test]
fn success_expectation_passes_on_zero_exit() {
    let mut cmd = Command::new("prog", "t/f.rs", "d").unwrap().success();
    assert_eq!(Ok(()), cmd.begin_spawn());
    assert_eq!(Ok(()), cmd.finish_wait(exit_with(0), vec![], vec![]));
    assert_eq!(ChildState::Finished, cmd.state);
}

#[test]
fn failure_expectation_fails_on_zero_exit() {
    let mut cmd = Command::new("prog", "t/f.rs", "d").unwrap().failure();
    assert_eq!(Ok(()), cmd.begin_spawn());
    let verdict = cmd.finish_wait(exit_with(0), vec![], vec![]);
    assert_eq!(Err(HarnessError::ExpectedFailure { status: exit_with(0) }), verdict);
}

#[test]
fn wrong_exit_code_reports_expected_and_actual() {
    let mut cmd = Command::new("prog", "t/f.rs", "d").unwrap().code(3);
    assert_eq!(Ok(()), cmd.begin_spawn());
    let verdict = cmd.finish_wait(exit_with(4), vec![], vec![]);
    assert_eq!(
        Err(HarnessError::WrongStatusCode { expected: 3, actual: Some(4) }),
        verdict
    );
}

#[test]
fn matching_exit_code_passes() {
    let mut cmd = Command::new("prog", "t/f.rs", "d").unwrap().code(7);
    assert_eq!(Ok(()), cmd.begin_spawn());
    assert_eq!(Ok(()), cmd.finish_wait(exit_with(7), vec![], vec![]));
}

#[test]
fn signal_termination_fails_exit_code_expectation() {
    let mut cmd = Command::new("prog", "t/f.rs", "d").unwrap().code(0);
    assert_eq!(Ok(()), cmd.begin_spawn());
    let verdict = cmd.finish_wait(signal_exit(), vec![], vec![]);
    assert_eq!(
        Err(HarnessError::WrongStatusCode { expected: 0, actual: None }),
        verdict
    );
}

#[test]
fn echoed_stdin_matches_declared_stdout() {
    let data = b"line one\nline two\n".to_vec();
    let mut cmd = Command::new("echoer", "t/f.rs", "d")
        .unwrap()
        .stdin(data.clone())
        .stdout(data.clone());
    assert_eq!(Some(data.clone()), cmd.stdin);
    assert_eq!(Ok(()), cmd.begin_spawn());
    assert_eq!(Ok(()), cmd.finish_wait(exit_with(0), data.clone(), vec![]));
    assert_eq!(&data, cmd.get_stdout_raw());
}

#[test]
fn wrong_stdout_reports_expected_and_actual() {
    let mut cmd = Command::new("prog", "t/f.rs", "d").unwrap().stdout(b"a".to_vec());
    assert_eq!(Ok(()), cmd.begin_spawn());
    let verdict = cmd.finish_wait(exit_with(0), b"b".to_vec(), vec![]);
    assert_eq!(
        Err(HarnessError::WrongStdout { expected: b"a".to_vec(), actual: b"b".to_vec() }),
        verdict
    );
}

#[test]
fn wrong_stderr_reports_expected_and_actual() {
    let mut cmd = Command::new("prog", "t/f.rs", "d").unwrap().stderr(b"x".to_vec());
    assert_eq!(Ok(()), cmd.begin_spawn());
    let verdict = cmd.finish_wait(exit_with(0), vec![], b"y".to_vec());
    assert_eq!(
        Err(HarnessError::WrongStderr { expected: b"x".to_vec(), actual: b"y".to_vec() }),
        verdict
    );
}

#[test]
fn success_mismatch_takes_precedence_over_stdout_mismatch() {
    let mut cmd = Command::new("prog", "t/f.rs", "d")
        .unwrap()
        .success()
        .stdout(b"a".to_vec());
    assert_eq!(Ok(()), cmd.begin_spawn());
    let verdict = cmd.finish_wait(exit_with(1), b"b".to_vec(), vec![]);
    assert_eq!(Err(HarnessError::ExpectedSuccess { status: exit_with(1) }), verdict);
}

#[test]
fn wait_without_spawn_is_a_usage_error() {
    let mut cmd = Command::new("prog", "t/f.rs", "d").unwrap();
    assert_eq!(
        Err(HarnessError::NotSpawned),
        cmd.finish_wait(exit_with(0), vec![], vec![])
    );
    assert_eq!(ChildState::NotStarted, cmd.state);
}

#[test]
fn stop_without_spawn_is_a_usage_error() {
    let mut cmd = Command::new("prog", "t/f.rs", "d").unwrap();
    assert_eq!(Err(HarnessError::NotSpawned), cmd.begin_stop());
}

#[test]
fn double_spawn_is_a_usage_error() {
    let mut cmd = Command::new("prog", "t/f.rs", "d").unwrap();
    assert_eq!(Ok(()), cmd.begin_spawn());
    assert_eq!(Err(HarnessError::AlreadySpawned), cmd.begin_spawn());
    assert_eq!(ChildState::Running, cmd.state);
}

#[test]
fn harness_can_be_reused_after_wait_or_stop() {
    let mut cmd = Command::new("prog", "t/f.rs", "d").unwrap();
    assert_eq!(Ok(()), cmd.begin_spawn());
    assert_eq!(Ok(()), cmd.begin_stop());
    assert_eq!(Ok(()), cmd.begin_spawn());
    assert_eq!(Ok(()), cmd.finish_wait(exit_with(0), vec![], vec![]));
    assert_eq!(Ok(()), cmd.begin_spawn());
}

#[test]
fn unset_expectations_impose_no_constraint() {
    let mut cmd = Command::new("prog", "t/f.rs", "d").unwrap();
    assert_eq!(Ok(()), cmd.begin_spawn());
    assert_eq!(Ok(()), cmd.finish_wait(exit_with(42), b"out".to_vec(), b"err".to_vec()));
    assert_eq!(Some(42), cmd.get_status().code);
    assert!(!cmd.get_status().success);
}

#[test]
fn captured_output_accessors_report_text_and_bytes() {
    let mut cmd = Command::new("prog", "t/f.rs", "d").unwrap();
    assert_eq!(Ok(()), cmd.begin_spawn());
    assert_eq!(Ok(()), cmd.finish_wait(exit_with(0), b"hello".to_vec(), b"oops".to_vec()));
    assert_eq!("hello", cmd.get_stdout());
    assert_eq!("oops", cmd.get_stderr());
    assert_eq!(&b"hello".to_vec(), cmd.get_stdout_raw());
    assert_eq!(&b"oops".to_vec(), cmd.get_stderr_raw());
}

#[test]
fn invalid_utf8_output_decodes_with_replacement() {
    let mut cmd = Command::new("prog", "t/f.rs", "d").unwrap();
    assert_eq!(Ok(()), cmd.begin_spawn());
    assert_eq!(Ok(()), cmd.finish_wait(exit_with(0), vec![0xff, b'a'], vec![]));
    assert_eq!("\u{fffd}a", cmd.get_stdout());
}

#[test]
fn explicit_check_passes_when_everything_matches() {
    let mut cmd = Command::new("prog", "t/f.rs", "d")
        .unwrap()
        .success()
        .code(0)
        .stdout(b"ok".to_vec())
        .stderr(vec![]);
    assert_eq!(Ok(()), cmd.begin_spawn());
    assert_eq!(Ok(()), cmd.finish_wait(exit_with(0), b"ok".to_vec(), vec![]));
    assert_eq!(Ok(()), cmd.check());
}
