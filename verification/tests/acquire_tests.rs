use derpy::acquire::{acquire, AcquireMode, AcquireOutcome, DiskState};
use derpy::error::DerpyError;
use derpy::log::{Log, Verbosity};
use derpy::runner::Runner;
use derpy::strmap::StringMap;
use derpy::dependency::Dependency;
use derpy::vcs::VcsInfo;

fn cmd(tokens: &[&str]) -> Vec<String> {
    tokens.iter().map(|t| t.to_string()).collect()
}

fn quiet() -> Log {
    Log { verbosity: Verbosity::Silent }
}

/// A backend whose commands only echo, with the version probe echoing a
/// fixed answer.
fn echo_backend(probed_version: &str) -> VcsInfo {
    VcsInfo {
        name: "git".to_string(),
        get_version: cmd(&["echo", "git version 2.0"]),
        default_version: "main".to_string(),
        acquire: vec![cmd(&["echo", "clone", "-b", "{DEP_VERSION}", "{DEP_URL}"])],
        checkout: vec![cmd(&["echo", "checkout", "{DEP_VERSION}"])],
        upgrade: vec![cmd(&["echo", "pull"])],
        get_version_of: cmd(&["echo", probed_version]),
    }
}

fn sample_dependency() -> Dependency {
    // The target directory and the working copy under it exist, so that the
    // backend's commands have a directory to run in.
    let mut setup = Runner::new();
    setup.run_cmd(&quiet(), &cmd(&["mkdir", "-p", "/tmp/derpy-scenarios/deps/foo"]), &None)
        .unwrap();
    Dependency {
        name: "foo".to_string(),
        vcs: "git".to_string(),
        url: "http://example/foo".to_string(),
        version: "main".to_string(),
        target: "/tmp/derpy-scenarios/deps/".to_string(),
        options: StringMap::new(),
    }
}

#[test]
fn absent_acquire_fetches_then_probes_and_reports_acquired() {
    let dep = sample_dependency();
    let vcs = echo_backend("abc123");
    let mut runner = Runner::new();
    let outcome = acquire(
        &quiet(),
        &mut runner,
        &dep,
        AcquireMode::Acquire,
        Some(&vcs),
        DiskState::Absent,
    )
    .unwrap();
    assert_eq!(outcome, AcquireOutcome::Acquired { at_version: "abc123".to_string() });

    // exactly the acquire command list ran inside the target directory, with
    // DEP_VERSION substituted, then exactly one probe inside target/name
    assert_eq!(runner.history.len(), 2);
    assert_eq!(
        runner.history[0].argv,
        cmd(&["echo", "clone", "-b", "main", "http://example/foo"])
    );
    assert_eq!(runner.history[0].cwd, Some("/tmp/derpy-scenarios/deps/".to_string()));
    assert_eq!(runner.history[1].argv, cmd(&["echo", "abc123"]));
    assert_eq!(runner.history[1].cwd, Some("/tmp/derpy-scenarios/deps/foo".to_string()));
}

#[test]
fn acquired_version_is_the_probe_output_trimmed() {
    let dep = sample_dependency();
    let mut vcs = echo_backend("ignored");
    vcs.get_version_of = cmd(&["echo", "  v1.2  "]);
    let mut runner = Runner::new();
    let outcome = acquire(
        &quiet(),
        &mut runner,
        &dep,
        AcquireMode::Acquire,
        Some(&vcs),
        DiskState::Absent,
    )
    .unwrap();
    assert_eq!(outcome, AcquireOutcome::Acquired { at_version: "v1.2".to_string() });
}

#[test]
fn present_acquire_is_ignored_and_runs_only_the_probe() {
    let dep = sample_dependency();
    let vcs = echo_backend("abc123");
    let mut runner = Runner::new();
    let outcome = acquire(
        &quiet(),
        &mut runner,
        &dep,
        AcquireMode::Acquire,
        Some(&vcs),
        DiskState::Present,
    )
    .unwrap();
    assert_eq!(outcome, AcquireOutcome::Ignored { at_version: "abc123".to_string() });
    assert_eq!(runner.history.len(), 1);
    assert_eq!(runner.history[0].argv, cmd(&["echo", "abc123"]));
}

#[test]
fn lock_to_a_different_version_checks_out_and_restores() {
    let dep = sample_dependency();
    let vcs = echo_backend("abc123");
    let mut runner = Runner::new();
    let outcome = acquire(
        &quiet(),
        &mut runner,
        &dep,
        AcquireMode::LockTo { version: "main".to_string() },
        Some(&vcs),
        DiskState::Present,
    )
    .unwrap();
    assert_eq!(
        outcome,
        AcquireOutcome::Restored {
            from_version: "abc123".to_string(),
            to_version: "main".to_string(),
        }
    );
    // the probe, then the checkout commands with DEP_VERSION overridden to
    // the pinned version, inside the working copy
    assert_eq!(runner.history.len(), 2);
    assert_eq!(runner.history[1].argv, cmd(&["echo", "checkout", "main"]));
    assert_eq!(runner.history[1].cwd, Some("/tmp/derpy-scenarios/deps/foo".to_string()));
}

#[test]
fn lock_to_twice_restores_then_reports_no_change() {
    let dep = sample_dependency();
    let pin = AcquireMode::LockTo { version: "main".to_string() };

    // first call: the working copy reports another version, so it is restored
    let before = echo_backend("abc123");
    let mut runner = Runner::new();
    let first = acquire(&quiet(), &mut runner, &dep, pin.clone(), Some(&before), DiskState::Present)
        .unwrap();
    assert!(matches!(first, AcquireOutcome::Restored { .. }));

    // second call: the working copy now reports the pinned version
    let after = echo_backend("main");
    let len_before = runner.history.len();
    let second = acquire(&quiet(), &mut runner, &dep, pin, Some(&after), DiskState::Present)
        .unwrap();
    assert_eq!(second, AcquireOutcome::NoChange { current_version: "main".to_string() });
    // only the probe ran: no second checkout
    assert_eq!(runner.history.len(), len_before + 1);
}

#[test]
fn upgrade_with_unchanged_version_reports_no_change() {
    let dep = sample_dependency();
    let vcs = echo_backend("abc123");
    let mut runner = Runner::new();
    let outcome = acquire(
        &quiet(),
        &mut runner,
        &dep,
        AcquireMode::Upgrade,
        Some(&vcs),
        DiskState::Present,
    )
    .unwrap();
    assert_eq!(outcome, AcquireOutcome::NoChange { current_version: "abc123".to_string() });
    // probe, upgrade commands, probe again
    assert_eq!(runner.history.len(), 3);
    assert_eq!(runner.history[1].argv, cmd(&["echo", "pull"]));
}

#[test]
fn upgrade_with_changed_version_reports_the_movement() {
    let dep = sample_dependency();
    let mut vcs = echo_backend("ignored");
    // the probe reports the child's own process id: different on each call
    vcs.get_version_of = cmd(&["sh", "-c", "echo $$"]);
    let mut runner = Runner::new();
    let outcome = acquire(
        &quiet(),
        &mut runner,
        &dep,
        AcquireMode::Upgrade,
        Some(&vcs),
        DiskState::Present,
    )
    .unwrap();
    match outcome {
        AcquireOutcome::UpgradedTo { from_version, to_version } => {
            assert_ne!(from_version, to_version);
        },
        other => panic!("expected UpgradedTo, got {:?}", other),
    }
}

#[test]
fn absent_lock_to_is_a_nonsense_mode_and_runs_nothing() {
    let dep = sample_dependency();
    let vcs = echo_backend("abc123");
    let mut runner = Runner::new();
    let result = acquire(
        &quiet(),
        &mut runner,
        &dep,
        AcquireMode::LockTo { version: "main".to_string() },
        Some(&vcs),
        DiskState::Absent,
    );
    match result {
        Err(DerpyError::NonsenseAcquireMode { dependency, acquire_mode }) => {
            assert_eq!(dependency, "foo");
            assert_eq!(acquire_mode, AcquireMode::LockTo { version: "main".to_string() });
        },
        other => panic!("expected NonsenseAcquireMode, got {:?}", other),
    }
    assert_eq!(runner.history.len(), 0);
}

#[test]
fn absent_upgrade_is_a_nonsense_mode_and_runs_nothing() {
    let dep = sample_dependency();
    let vcs = echo_backend("abc123");
    let mut runner = Runner::new();
    let result = acquire(&quiet(), &mut runner, &dep, AcquireMode::Upgrade, Some(&vcs), DiskState::Absent);
    assert!(matches!(result, Err(DerpyError::NonsenseAcquireMode { .. })));
    assert_eq!(runner.history.len(), 0);
}

#[test]
fn missing_descriptor_is_an_unknown_vcs() {
    let dep = sample_dependency();
    let mut runner = Runner::new();
    let result = acquire(&quiet(), &mut runner, &dep, AcquireMode::Acquire, None, DiskState::Absent);
    match result {
        Err(DerpyError::UnknownVcs { name }) => assert_eq!(name, "git"),
        other => panic!("expected UnknownVcs, got {:?}", other),
    }
    assert_eq!(runner.history.len(), 0);
}

#[test]
fn failed_directory_creation_is_fatal() {
    let dep = sample_dependency();
    let vcs = echo_backend("abc123");
    let mut runner = Runner::new();
    let result = acquire(
        &quiet(),
        &mut runner,
        &dep,
        AcquireMode::Acquire,
        Some(&vcs),
        DiskState::DirCreateFailed { message: "read-only file system".to_string() },
    );
    match result {
        Err(DerpyError::FailedToCreateDirectory { message }) => {
            assert_eq!(message, "read-only file system");
        },
        other => panic!("expected FailedToCreateDirectory, got {:?}", other),
    }
    assert_eq!(runner.history.len(), 0);
}

#[test]
fn failing_fetch_command_surfaces_the_vcs_failure() {
    let dep = sample_dependency();
    let mut vcs = echo_backend("abc123");
    vcs.acquire = vec![cmd(&["false"])];
    let mut runner = Runner::new();
    let result = acquire(&quiet(), &mut runner, &dep, AcquireMode::Acquire, Some(&vcs), DiskState::Absent);
    assert!(matches!(result, Err(DerpyError::VcsCommandFailed { .. })));
    // the failing fetch aborted before any probe
    assert_eq!(runner.history.len(), 1);
}

#[test]
fn unresolved_macro_in_a_template_aborts_before_any_command() {
    let dep = sample_dependency();
    let mut vcs = echo_backend("abc123");
    vcs.acquire = vec![cmd(&["echo", "{NO_SUCH_MACRO}"])];
    let mut runner = Runner::new();
    let result = acquire(&quiet(), &mut runner, &dep, AcquireMode::Acquire, Some(&vcs), DiskState::Absent);
    match result {
        Err(DerpyError::MacroExpansionFailure { source_text, .. }) => {
            assert_eq!(source_text, "{NO_SUCH_MACRO}");
        },
        other => panic!("expected MacroExpansionFailure, got {:?}", other),
    }
    assert_eq!(runner.history.len(), 0);
}
