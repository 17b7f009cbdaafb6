use stylua_cli::entry::{DiscoveredEntry, JobOutcome};
use stylua_cli::job::{Job, JobAction, JobEvent, JobPhase, DIFF_CONTEXT_LINES};
use stylua_cli::options::FormatRange;

fn file_job(path: &str, check: bool) -> Job {
    Job::new(DiscoveredEntry::File(path.to_string()), check, false, None)
}

fn stdin_job(check: bool) -> Job {
    Job::new(DiscoveredEntry::Stdin, check, false, None)
}

fn ok(text: &str) -> Result<String, String> {
    Ok(text.to_string())
}

fn err<T>(cause: &str) -> Result<T, String> {
    Err(cause.to_string())
}

fn emit(outcome: JobOutcome) -> Option<JobAction> {
    Some(JobAction::Emit(outcome))
}

fn failed(message: &str) -> Option<JobAction> {
    emit(JobOutcome::Failed(message.to_string()))
}

#[test]
fn context_lines_are_three() {
    assert_eq!(DIFF_CONTEXT_LINES, 3);
}

#[test]
fn new_job_is_pending() {
    let job = file_job("a.lua", false);
    assert_eq!(job.phase(), JobPhase::Pending);
    assert!(!job.is_finished());
    assert_eq!(job.entry(), &DiscoveredEntry::File("a.lua".to_string()));
    assert_eq!(stdin_job(true).entry(), &DiscoveredEntry::Stdin);
}

#[test]
fn file_job_rewrites_the_file() {
    let range = Some(FormatRange { start: Some(1), end: None });
    let job = Job::new(DiscoveredEntry::File("src/a.lua".to_string()), false, true, range);
    let (job, action) = job.step(JobEvent::Started);
    assert_eq!(action, Some(JobAction::ReadFile { path: "src/a.lua".to_string() }));
    assert_eq!(job.phase(), JobPhase::Reading);
    let (job, action) = job.step(JobEvent::Read(ok("local x=1")));
    assert_eq!(action, Some(JobAction::Format { source: "local x=1".to_string(), range }));
    assert_eq!(job.phase(), JobPhase::Formatting);
    let (job, action) = job.step(JobEvent::Formatted(ok("local x = 1\n")));
    assert_eq!(
        action,
        Some(JobAction::WriteFile {
            path: "src/a.lua".to_string(),
            contents: "local x = 1\n".to_string()
        })
    );
    assert_eq!(job.phase(), JobPhase::Writing);
    let (job, action) = job.step(JobEvent::Written(Ok(())));
    assert_eq!(action, emit(JobOutcome::Completed));
    assert!(job.is_finished());
}

#[test]
fn file_job_in_check_mode_reports_a_difference() {
    let job = Job::new(DiscoveredEntry::File("a.lua".to_string()), true, true, None);
    let (job, action) = job.step(JobEvent::Started);
    assert_eq!(action, Some(JobAction::ReadFile { path: "a.lua".to_string() }));
    let (job, action) = job.step(JobEvent::Read(ok("local x=1")));
    assert_eq!(action, Some(JobAction::Format { source: "local x=1".to_string(), range: None }));
    let (job, action) = job.step(JobEvent::Formatted(ok("local x = 1\n")));
    assert_eq!(
        action,
        Some(JobAction::Diff {
            source: "local x=1".to_string(),
            formatted: "local x = 1\n".to_string(),
            context_lines: 3,
            header: "Diff in a.lua:".to_string(),
            color: true,
        })
    );
    assert_eq!(job.phase(), JobPhase::Diffing);
    let (job, action) = job.step(JobEvent::Diffed(Ok(Some(b"-local x=1\n+local x = 1\n".to_vec()))));
    assert_eq!(action, emit(JobOutcome::DiffAvailable(b"-local x=1\n+local x = 1\n".to_vec())));
    assert_eq!(job.phase(), JobPhase::Finished);
}

#[test]
fn file_job_in_check_mode_is_clean_without_a_difference() {
    let job = file_job("a.lua", true);
    let (job, _) = job.step(JobEvent::Started);
    let (job, _) = job.step(JobEvent::Read(ok("local x = 1\n")));
    let (job, action) = job.step(JobEvent::Formatted(ok("local x = 1\n")));
    assert_eq!(
        action,
        Some(JobAction::Diff {
            source: "local x = 1\n".to_string(),
            formatted: "local x = 1\n".to_string(),
            context_lines: 3,
            header: "Diff in a.lua:".to_string(),
            color: false,
        })
    );
    let (job, action) = job.step(JobEvent::Diffed(Ok(None)));
    assert_eq!(action, emit(JobOutcome::Completed));
    assert!(job.is_finished());
}

#[test]
fn file_job_in_check_mode_never_asks_to_write() {
    let job = file_job("a.lua", true);
    let (job, _) = job.step(JobEvent::Started);
    let (job, _) = job.step(JobEvent::Read(ok("a")));
    let (job, _) = job.step(JobEvent::Formatted(ok("b")));
    let (job, action) = job.step(JobEvent::Written(Ok(())));
    assert_eq!(action, None);
    assert_eq!(job.phase(), JobPhase::Diffing);
}

#[test]
fn failed_read_names_the_file() {
    let job = file_job("gone.lua", false);
    let (job, _) = job.step(JobEvent::Started);
    let (job, action) = job.step(JobEvent::Read(err("No such file or directory (os error 2)")));
    assert_eq!(action, failed("Failed to read gone.lua: No such file or directory (os error 2)"));
    assert!(job.is_finished());
}

#[test]
fn failed_formatting_names_the_file() {
    let job = file_job("bad.lua", false);
    let (job, _) = job.step(JobEvent::Started);
    let (job, _) = job.step(JobEvent::Read(ok("local = ")));
    let (job, action) = job.step(JobEvent::Formatted(err("unexpected token")));
    assert_eq!(action, failed("Could not format file bad.lua: unexpected token"));
    assert!(job.is_finished());
}

#[test]
fn failed_formatting_in_check_mode_names_the_file() {
    let job = file_job("bad.lua", true);
    let (job, _) = job.step(JobEvent::Started);
    let (job, _) = job.step(JobEvent::Read(ok("local = ")));
    let (job, action) = job.step(JobEvent::Formatted(err("unexpected token")));
    assert_eq!(action, failed("Could not format file bad.lua: unexpected token"));
    assert!(job.is_finished());
}

#[test]
fn failed_write_names_the_file() {
    let job = file_job("ro.lua", false);
    let (job, _) = job.step(JobEvent::Started);
    let (job, _) = job.step(JobEvent::Read(ok("a")));
    let (job, _) = job.step(JobEvent::Formatted(ok("b")));
    let (job, action) = job.step(JobEvent::Written(err("Permission denied (os error 13)")));
    assert_eq!(action, failed("Could not write to ro.lua: Permission denied (os error 13)"));
    assert!(job.is_finished());
}

#[test]
fn failed_rendering_is_reported() {
    let job = file_job("a.lua", true);
    let (job, _) = job.step(JobEvent::Started);
    let (job, _) = job.step(JobEvent::Read(ok("a")));
    let (job, _) = job.step(JobEvent::Formatted(ok("b")));
    let (job, action) = job.step(JobEvent::Diffed(err("broken pipe")));
    assert_eq!(action, failed("Failed to create diff: broken pipe"));
    assert!(job.is_finished());
}

#[test]
fn stdin_job_streams_to_stdout() {
    let range = Some(FormatRange { start: None, end: Some(20) });
    let job = Job::new(DiscoveredEntry::Stdin, false, false, range);
    let (job, action) = job.step(JobEvent::Started);
    assert_eq!(action, Some(JobAction::ReadStdin));
    assert_eq!(job.phase(), JobPhase::Reading);
    let (job, action) = job.step(JobEvent::Read(ok("local x=1")));
    assert_eq!(action, Some(JobAction::Format { source: "local x=1".to_string(), range }));
    let (job, action) = job.step(JobEvent::Formatted(ok("local x = 1\n")));
    assert_eq!(action, Some(JobAction::WriteStdout { contents: "local x = 1\n".to_string() }));
    assert_eq!(job.phase(), JobPhase::Writing);
    let (job, action) = job.step(JobEvent::Written(Ok(())));
    assert_eq!(action, emit(JobOutcome::Completed));
    assert!(job.is_finished());
}

#[test]
fn stdin_job_in_check_mode_fails_at_once() {
    let (job, action) = stdin_job(true).step(JobEvent::Started);
    assert_eq!(action, failed("warning: `--check` cannot be used whilst reading from stdin"));
    assert!(job.is_finished());
    let (job, action) = job.step(JobEvent::Read(ok("local x=1")));
    assert_eq!(action, None);
    assert!(job.is_finished());
}

#[test]
fn stdin_failures_are_named() {
    let (job, _) = stdin_job(false).step(JobEvent::Started);
    let (_, action) = job.step(JobEvent::Read(err("stream did not contain valid UTF-8")));
    assert_eq!(action, failed("Could not format from stdin: stream did not contain valid UTF-8"));

    let (job, _) = stdin_job(false).step(JobEvent::Started);
    let (job, _) = job.step(JobEvent::Read(ok("x")));
    let (_, action) = job.step(JobEvent::Formatted(err("unexpected token")));
    assert_eq!(action, failed("Failed to format from stdin: unexpected token"));

    let (job, _) = stdin_job(false).step(JobEvent::Started);
    let (job, _) = job.step(JobEvent::Read(ok("x")));
    let (job, _) = job.step(JobEvent::Formatted(ok("y")));
    let (_, action) = job.step(JobEvent::Written(err("Broken pipe (os error 32)")));
    assert_eq!(action, failed("Could not output to stdout: Broken pipe (os error 32)"));
}

#[test]
fn unawaited_events_change_nothing() {
    let job = file_job("a.lua", false);
    let (job, action) = job.step(JobEvent::Read(ok("early")));
    assert_eq!(action, None);
    assert_eq!(job, file_job("a.lua", false));
    let (job, action) = job.step(JobEvent::Written(Ok(())));
    assert_eq!(action, None);
    assert_eq!(job.phase(), JobPhase::Pending);

    let (job, _) = job.step(JobEvent::Started);
    let (job, action) = job.step(JobEvent::Started);
    assert_eq!(action, None);
    assert_eq!(job.phase(), JobPhase::Reading);
    let (job, action) = job.step(JobEvent::Diffed(Ok(None)));
    assert_eq!(action, None);
    assert_eq!(job.phase(), JobPhase::Reading);
}

#[test]
fn finished_job_asks_for_nothing_more() {
    let job = file_job("a.lua", false);
    let (job, _) = job.step(JobEvent::Started);
    let (job, _) = job.step(JobEvent::Read(err("gone")));
    assert!(job.is_finished());
    let events = vec![
        JobEvent::Started,
        JobEvent::Read(ok("a")),
        JobEvent::Formatted(ok("b")),
        JobEvent::Diffed(Ok(None)),
        JobEvent::Written(Ok(())),
    ];
    let mut job = job;
    for event in events {
        let (next, action) = job.step(event);
        assert_eq!(action, None);
        assert!(next.is_finished());
        job = next;
    }
}

fn outcomes_of(job: Job, events: Vec<JobEvent>) -> Vec<JobOutcome> {
    let mut job = job;
    let mut outcomes = Vec::new();
    for event in events {
        let (next, action) = job.step(event);
        if let Some(JobAction::Emit(outcome)) = action {
            outcomes.push(outcome);
        }
        job = next;
    }
    assert!(job.is_finished());
    outcomes
}

fn answers(
    read: Result<String, String>,
    formatted: Result<String, String>,
    diff: Result<Option<Vec<u8>>, String>,
    written: Result<(), String>,
) -> Vec<JobEvent> {
    vec![
        JobEvent::Started,
        JobEvent::Read(read),
        JobEvent::Formatted(formatted),
        JobEvent::Diffed(diff),
        JobEvent::Written(written),
    ]
}

#[test]
fn every_answered_job_hands_over_one_outcome() {
    for check in [false, true] {
        for entry in [DiscoveredEntry::Stdin, DiscoveredEntry::File("a.lua".to_string())] {
            for read_ok in [false, true] {
                for format_ok in [false, true] {
                    for diff in [Ok(None), Ok(Some(vec![1u8])), Err("d".to_string())] {
                        for write_ok in [false, true] {
                            let job = Job::new(entry.clone(), check, false, None);
                            let events = answers(
                                if read_ok { ok("s") } else { err("r") },
                                if format_ok { ok("f") } else { err("f") },
                                diff.clone(),
                                if write_ok { Ok(()) } else { err("w") },
                            );
                            assert_eq!(outcomes_of(job, events).len(), 1);
                        }
                    }
                }
            }
        }
    }
}
