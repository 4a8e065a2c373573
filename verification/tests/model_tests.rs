use derpy::acquire::AcquireOutcome;
use derpy::dependency::Dependency;
use derpy::derpyfile::{lock_update_for_outcome, mode_for_dependency, select_for_upgrade, DerpyFile};
use derpy::error::DerpyError;
use derpy::log::{Log, Verbosity};
use derpy::runner::Runner;
use derpy::strmap::StringMap;
use derpy::text::trim_str;
use derpy::vcs::VcsInfo;
use derpy::acquire::AcquireMode;

fn cmd(tokens: &[&str]) -> Vec<String> {
    tokens.iter().map(|t| t.to_string()).collect()
}

fn dependency(name: &str, version: &str) -> Dependency {
    Dependency {
        name: name.to_string(),
        vcs: "git".to_string(),
        url: format!("http://example/{}", name),
        version: version.to_string(),
        target: "deps/".to_string(),
        options: StringMap::new(),
    }
}

#[test]
fn full_path_is_name_under_target() {
    assert_eq!(dependency("foo", "main").get_full_path(), "deps/foo");
    let mut dep = dependency("foo", "main");
    dep.target = "deps".to_string();
    assert_eq!(dep.get_full_path(), "deps/foo");
    dep.target = String::new();
    assert_eq!(dep.get_full_path(), "foo");
}

#[test]
fn macro_map_holds_base_macros_and_prefixed_options() {
    let mut dep = dependency("foo", "main");
    dep.options.insert("branch".to_string(), "dev".to_string());
    dep.options.insert("depth".to_string(), "1".to_string());
    let macros = dep.build_macro_map();
    assert_eq!(
        macros.pairs,
        vec![
            ("DEP_NAME".to_string(), "foo".to_string()),
            ("DEP_URL".to_string(), "http://example/foo".to_string()),
            ("DEP_VERSION".to_string(), "main".to_string()),
            ("DEP_OPT_branch".to_string(), "dev".to_string()),
            ("DEP_OPT_depth".to_string(), "1".to_string()),
        ]
    );
}

#[test]
fn with_version_replaces_only_the_version() {
    let dep = dependency("foo", "main");
    let rec = dep.with_version("abc123".to_string());
    assert_eq!(rec.version, "abc123");
    assert_eq!(rec.name, dep.name);
    assert_eq!(rec.url, dep.url);
    assert_eq!(rec.target, dep.target);
}

#[test]
fn trim_removes_leading_and_trailing_whitespace() {
    assert_eq!(trim_str("  v1.2 \n"), "v1.2");
    assert_eq!(trim_str("plain"), "plain");
    assert_eq!(trim_str(" \t \n"), "");
    assert_eq!(trim_str(""), "");
    assert_eq!(trim_str("a  b"), "a  b");
}

#[test]
fn add_refuses_a_duplicate_name() {
    let mut config = DerpyFile::default();
    config.add("foo".to_string(), dependency("foo", "main")).unwrap();
    match config.add("foo".to_string(), dependency("foo", "other")) {
        Err(DerpyError::DependencyAlreadyExists { name }) => assert_eq!(name, "foo"),
        other => panic!("expected DependencyAlreadyExists, got {:?}", other),
    }
    assert_eq!(config.dependencies.len(), 1);
    assert_eq!(config.get(&"foo".to_string()).unwrap().version, "main");
}

#[test]
fn insert_replaces_an_existing_record() {
    let mut lock = DerpyFile::default();
    lock.insert("foo".to_string(), dependency("foo", "v1"));
    lock.insert("foo".to_string(), dependency("foo", "v2"));
    assert_eq!(lock.dependencies.len(), 1);
    assert_eq!(lock.get(&"foo".to_string()).unwrap().version, "v2");
}

#[test]
fn mode_is_lock_to_when_the_lock_file_has_an_entry() {
    let mut lock = DerpyFile::default();
    lock.insert("foo".to_string(), dependency("foo", "abc123"));
    assert_eq!(
        mode_for_dependency(&lock, &"foo".to_string()),
        AcquireMode::LockTo { version: "abc123".to_string() }
    );
    assert_eq!(mode_for_dependency(&lock, &"bar".to_string()), AcquireMode::Acquire);
}

#[test]
fn only_fetch_and_changed_upgrade_update_the_lock() {
    assert_eq!(
        lock_update_for_outcome(&AcquireOutcome::Acquired { at_version: "v1".to_string() }),
        Some("v1".to_string())
    );
    assert_eq!(
        lock_update_for_outcome(&AcquireOutcome::UpgradedTo {
            from_version: "v1".to_string(),
            to_version: "v2".to_string(),
        }),
        Some("v2".to_string())
    );
    assert_eq!(
        lock_update_for_outcome(&AcquireOutcome::Restored {
            from_version: "v1".to_string(),
            to_version: "v2".to_string(),
        }),
        None
    );
    assert_eq!(
        lock_update_for_outcome(&AcquireOutcome::NoChange { current_version: "v1".to_string() }),
        None
    );
    assert_eq!(
        lock_update_for_outcome(&AcquireOutcome::Ignored { at_version: "v1".to_string() }),
        None
    );
}

#[test]
fn upgrade_selection_filters_by_name_in_manifest_order() {
    let mut config = DerpyFile::default();
    config.add("alpha".to_string(), dependency("alpha", "v1")).unwrap();
    config.add("beta".to_string(), dependency("beta", "v1")).unwrap();
    config.add("gamma".to_string(), dependency("gamma", "v1")).unwrap();
    let names = vec!["gamma".to_string(), "alpha".to_string()];
    let picked = select_for_upgrade(&config, &names);
    assert_eq!(picked, vec![0, 2]);
    let none = select_for_upgrade(&config, &vec!["delta".to_string()]);
    assert!(none.is_empty());
}

#[test]
fn tool_probe_reports_the_trimmed_version() {
    let vcs = VcsInfo {
        name: "git".to_string(),
        get_version: cmd(&["echo", "git version 2.0 \n"]),
        default_version: "main".to_string(),
        acquire: vec![],
        checkout: vec![],
        upgrade: vec![],
        get_version_of: cmd(&["echo", "x"]),
    };
    assert_eq!(vcs.get_name(), "git");
    assert_eq!(vcs.get_default_version(), "main");
    let mut runner = Runner::new();
    let log = Log { verbosity: Verbosity::Silent };
    let version = vcs.get_version(&log, &mut runner).unwrap();
    assert_eq!(version, "git version 2.0");
    assert_eq!(runner.history.len(), 1);
    assert_eq!(runner.history[0].cwd, None);
}

#[test]
fn log_levels_follow_the_flag_count() {
    assert_eq!(Log::from(0u64).verbosity, Verbosity::Silent);
    assert_eq!(Log::from(1u64).verbosity, Verbosity::Info);
    assert_eq!(Log::from(2u64).verbosity, Verbosity::Verbose);
    assert_eq!(Log::from(7u64).verbosity, Verbosity::Verbose);
}

#[test]
fn string_map_insert_overrides_earlier_pairs() {
    let mut table = StringMap::new();
    table.insert("DEP_VERSION".to_string(), "main".to_string());
    table.insert("DEP_VERSION".to_string(), "abc123".to_string());
    let copy = table.duplicate();
    assert_eq!(copy.pairs, table.pairs);
    assert_eq!(table.len(), 2);
    assert_eq!(table.pairs[1].1, "abc123");
}
