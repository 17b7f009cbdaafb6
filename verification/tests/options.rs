use stylua_cli::options::{FormatRange, RunError, RunOptions};
use stylua_cli::text::{join, explain};

fn options(files: &[&str]) -> RunOptions {
    RunOptions {
        files: files.iter().map(|f| f.to_string()).collect(),
        check: false,
        glob: None,
        range_start: None,
        range_end: None,
        num_threads: 4,
        verbose: false,
        color: false,
    }
}

#[test]
fn range_is_absent_without_bounds() {
    assert_eq!(FormatRange::from_bounds(None, None), None);
}

#[test]
fn range_keeps_a_lone_start() {
    assert_eq!(
        FormatRange::from_bounds(Some(10), None),
        Some(FormatRange { start: Some(10), end: None })
    );
}

#[test]
fn range_keeps_a_lone_end() {
    assert_eq!(
        FormatRange::from_bounds(None, Some(7)),
        Some(FormatRange { start: None, end: Some(7) })
    );
}

#[test]
fn range_keeps_both_bounds() {
    assert_eq!(
        FormatRange::from_bounds(Some(0), Some(0)),
        Some(FormatRange { start: Some(0), end: Some(0) })
    );
}

#[test]
fn options_range_follows_the_bounds() {
    let mut opts = options(&["a.lua"]);
    assert_eq!(opts.range(), None);
    opts.range_start = Some(3);
    opts.range_end = Some(9);
    assert_eq!(opts.range(), Some(FormatRange { start: Some(3), end: Some(9) }));
}

#[test]
fn options_know_whether_roots_were_given() {
    assert!(!options(&[]).has_roots());
    assert!(options(&["-"]).has_roots());
    assert!(options(&["a", "b"]).has_roots());
}

#[test]
fn default_glob_is_used_only_without_patterns() {
    let mut opts = options(&["src"]);
    assert!(opts.uses_default_glob());
    opts.glob = Some(vec![]);
    assert!(!opts.uses_default_glob());
    opts.glob = Some(vec!["*.luau".to_string()]);
    assert!(!opts.uses_default_glob());
}

#[test]
fn no_files_message() {
    assert_eq!(RunError::NoFiles.message(), "error: no files provided");
}

#[test]
fn bad_glob_message_names_pattern_and_reason() {
    let error = RunError::BadGlob { pattern: "a{b".to_string(), reason: "unclosed".to_string() };
    assert_eq!(error.message(), "error: cannot parse glob pattern a{b: unclosed");
}

#[test]
fn overrides_message_is_the_reason() {
    let error = RunError::Overrides { reason: "too large".to_string() };
    assert_eq!(error.message(), "too large");
}

#[test]
fn join_keeps_the_order() {
    assert_eq!(join("Diff in ", "a.lua"), "Diff in a.lua");
    assert_eq!(join("", ""), "");
    assert_eq!(join("x", ""), "x");
}

#[test]
fn explain_puts_context_before_cause() {
    assert_eq!(explain("Failed to read a.lua", "not found"), "Failed to read a.lua: not found");
    assert_eq!(explain("", ""), ": ");
}

#[test]
fn refused_run_exits_with_one() {
    assert_eq!(RunError::NoFiles.exit_code(), 1);
    assert_eq!(
        RunError::BadGlob { pattern: "[".to_string(), reason: "unclosed".to_string() }.exit_code(),
        1
    );
    assert_eq!(RunError::Overrides { reason: "too large".to_string() }.exit_code(), 1);
    assert_eq!(RunError::setup("no such directory".to_string()).exit_code(), 1);
}

#[test]
fn setup_message_is_the_reason() {
    let error = RunError::setup("Config file not in correct format: bad key".to_string());
    assert_eq!(error, RunError::Setup { reason: "Config file not in correct format: bad key".to_string() });
    assert_eq!(error.message(), "Config file not in correct format: bad key");
}
