use derpy::error::DerpyError;
use derpy::log::{Log, Verbosity};
use derpy::runner::{RawRunResult, Runner};

fn cmd(tokens: &[&str]) -> Vec<String> {
    tokens.iter().map(|t| t.to_string()).collect()
}

fn quiet() -> Log {
    Log { verbosity: Verbosity::Silent }
}

#[test]
fn run_cmd_captures_stdout_of_a_successful_command() {
    let mut runner = Runner::new();
    let command = cmd(&["echo", "hello"]);
    let (stdout, stderr) = runner.run_cmd(&quiet(), &command, &None).unwrap();
    assert_eq!(stdout, "hello\n");
    assert_eq!(stderr, "");
    assert_eq!(runner.history.len(), 1);
    assert_eq!(runner.history[0].argv, command);
    assert_eq!(runner.history[0].cwd, None);
    match &runner.history[0].outcome {
        RawRunResult::Completed { success, stdout, .. } => {
            assert!(*success);
            assert_eq!(stdout, "hello\n");
        },
        other => panic!("expected a completed run, got {:?}", other),
    }
}

#[test]
fn run_cmd_runs_in_the_given_directory() {
    let mut runner = Runner::new();
    let command = cmd(&["pwd"]);
    let cwd = Some("/tmp".to_string());
    let (stdout, _) = runner.run_cmd(&quiet(), &command, &cwd).unwrap();
    assert_eq!(stdout, "/tmp\n");
    assert_eq!(runner.history[0].cwd, Some("/tmp".to_string()));
}

#[test]
fn non_zero_exit_is_classified_with_captured_streams() {
    let mut runner = Runner::new();
    let command = cmd(&["false"]);
    match runner.run_cmd(&quiet(), &command, &None) {
        Err(DerpyError::VcsCommandFailed { cmd: c, return_code, stdout, stderr }) => {
            assert_eq!(c, command);
            assert_eq!(stdout, "");
            assert_eq!(stderr, "");
            assert!(!return_code.is_empty());
        },
        other => panic!("expected VcsCommandFailed, got {:?}", other),
    }
    assert_eq!(runner.history.len(), 1);
}

#[test]
fn unlaunchable_command_is_a_subprocess_error() {
    let mut runner = Runner::new();
    let command = cmd(&["no-such-program-anywhere-really"]);
    match runner.run_cmd(&quiet(), &command, &None) {
        Err(DerpyError::SubprocessError { cmd: c, message }) => {
            assert_eq!(c, command);
            assert!(!message.is_empty());
        },
        other => panic!("expected SubprocessError, got {:?}", other),
    }
}

#[test]
fn captured_streams_are_not_swapped() {
    let mut runner = Runner::new();
    let command = cmd(&["sh", "-c", "echo out; echo err >&2; exit 3"]);
    match runner.run_cmd(&quiet(), &command, &None) {
        Err(DerpyError::VcsCommandFailed { return_code, stdout, stderr, .. }) => {
            assert_eq!(stdout, "out\n");
            assert_eq!(stderr, "err\n");
            assert!(return_code.contains('3'));
        },
        other => panic!("expected VcsCommandFailed, got {:?}", other),
    }
}

#[test]
fn logging_at_any_verbosity_does_not_disturb_a_run() {
    let log = Log { verbosity: Verbosity::Verbose };
    log.info("informational text".to_string());
    log.verbose("verbose text".to_string());
    let mut runner = Runner::new();
    let (stdout, _) = runner.run_cmd(&log, &cmd(&["echo", "logged"]), &None).unwrap();
    assert_eq!(stdout, "logged\n");
}

#[test]
fn sequence_aborts_at_first_failure_and_keeps_what_ran() {
    let mut runner = Runner::new();
    let sequence = vec![cmd(&["echo", "one"]), cmd(&["false"]), cmd(&["echo", "never"])];
    let result = runner.run_cmd_sequence(&quiet(), &sequence, &None);
    assert!(matches!(result, Err(DerpyError::VcsCommandFailed { .. })));
    assert_eq!(runner.history.len(), 2);
    assert_eq!(runner.history[0].argv, cmd(&["echo", "one"]));
    assert_eq!(runner.history[1].argv, cmd(&["false"]));
}

#[test]
fn sequence_runs_every_command_in_order_on_success() {
    let mut runner = Runner::new();
    let sequence = vec![cmd(&["echo", "one"]), cmd(&["echo", "two"])];
    runner.run_cmd_sequence(&quiet(), &sequence, &None).unwrap();
    assert_eq!(runner.history.len(), 2);
    assert_eq!(runner.history[0].argv, cmd(&["echo", "one"]));
    assert_eq!(runner.history[1].argv, cmd(&["echo", "two"]));
}
