//! One formatting job, as a state machine.
//!
//! A job never reads, formats, renders or writes by itself. It asks for each
//! of these steps with a [`JobAction`], is told how the step went with a
//! [`JobEvent`], and decides what comes next. Its last action hands over the
//! job's single outcome.

use vstd::prelude::*;
use vstd::string::StringExecFns;
use crate::entry::{DiscoveredEntry, EntryView, JobOutcome, OutcomeView};
use crate::options::FormatRange;
use crate::text::{explain, join, with_context};

verus! {

/// How many unchanged lines surround each change in a rendered difference.
pub const DIFF_CONTEXT_LINES: usize = 3;

/// Where a job stands.
#[derive(Clone, Copy, Debug, PartialEq, Eq, Structural)]
pub enum JobPhase {
    /// Created, nothing asked for yet.
    Pending,
    /// Waiting for the source text.
    Reading,
    /// Waiting for the formatted text.
    Formatting,
    /// Waiting for the rendered difference.
    Diffing,
    /// Waiting for the formatted text to be written.
    Writing,
    /// The outcome was handed over.
    Finished,
}

/// What happened to the step a job asked for.
#[derive(Debug, PartialEq, Eq)]
pub enum JobEvent {
    /// The job was picked up by a worker.
    Started,
    /// The source text, or why it could not be read.
    Read(Result<String, String>),
    /// The formatted text, or why formatting failed.
    Formatted(Result<String, String>),
    /// The rendered difference, `None` when the two texts are the same, or
    /// why rendering failed.
    Diffed(Result<Option<Vec<u8>>, String>),
    /// Whether the formatted text was written.
    Written(Result<(), String>),
}

/// A `JobEvent` with its payload as sequences.
pub enum EventView {
    Started,
    Read(Result<Seq<char>, Seq<char>>),
    Formatted(Result<Seq<char>, Seq<char>>),
    Diffed(Result<Option<Seq<u8>>, Seq<char>>),
    Written(Result<(), Seq<char>>),
}

impl View for JobEvent {
    type V = EventView;

    open spec fn view(&self) -> EventView {
        match self {
            JobEvent::Started => EventView::Started,
            JobEvent::Read(Ok(text)) => EventView::Read(Ok(text@)),
            JobEvent::Read(Err(cause)) => EventView::Read(Err(cause@)),
            JobEvent::Formatted(Ok(text)) => EventView::Formatted(Ok(text@)),
            JobEvent::Formatted(Err(cause)) => EventView::Formatted(Err(cause@)),
            JobEvent::Diffed(Ok(Some(diff))) => EventView::Diffed(Ok(Some(diff@))),
            JobEvent::Diffed(Ok(None)) => EventView::Diffed(Ok(None)),
            JobEvent::Diffed(Err(cause)) => EventView::Diffed(Err(cause@)),
            JobEvent::Written(Ok(())) => EventView::Written(Ok(())),
            JobEvent::Written(Err(cause)) => EventView::Written(Err(cause@)),
        }
    }
}

/// What a job asks its runner to do next.
#[derive(Clone, Debug, PartialEq, Eq)]
pub enum JobAction {
    /// Read the whole file at `path`.
    ReadFile { path: String },
    /// Read standard input to its end.
    ReadStdin,
    /// Format `source`, restricted to `range` if there is one.
    Format { source: String, range: Option<FormatRange> },
    /// Render the difference between `source` and `formatted`.
    Diff { source: String, formatted: String, context_lines: usize, header: String, color: bool },
    /// Overwrite the file at `path` with `contents`.
    WriteFile { path: String, contents: String },
    /// Write `contents` to standard output.
    WriteStdout { contents: String },
    /// Hand the outcome to the sink; the job is over.
    Emit(JobOutcome),
}

/// A `JobAction` with its texts as sequences.
pub enum ActionView {
    ReadFile { path: Seq<char> },
    ReadStdin,
    Format { source: Seq<char>, range: Option<FormatRange> },
    Diff {
        source: Seq<char>,
        formatted: Seq<char>,
        context_lines: usize,
        header: Seq<char>,
        color: bool,
    },
    WriteFile { path: Seq<char>, contents: Seq<char> },
    WriteStdout { contents: Seq<char> },
    Emit(OutcomeView),
}

impl View for JobAction {
    type V = ActionView;

    open spec fn view(&self) -> ActionView {
        match self {
            JobAction::ReadFile { path } => ActionView::ReadFile { path: path@ },
            JobAction::ReadStdin => ActionView::ReadStdin,
            JobAction::Format { source, range } => ActionView::Format {
                source: source@,
                range: *range,
            },
            JobAction::Diff { source, formatted, context_lines, header, color } => ActionView::Diff {
                source: source@,
                formatted: formatted@,
                context_lines: *context_lines,
                header: header@,
                color: *color,
            },
            JobAction::WriteFile { path, contents } => ActionView::WriteFile {
                path: path@,
                contents: contents@,
            },
            JobAction::WriteStdout { contents } => ActionView::WriteStdout { contents: contents@ },
            JobAction::Emit(outcome) => ActionView::Emit(outcome@),
        }
    }
}

/// The view of an action that may be missing.
pub open spec fn action_view(action: Option<JobAction>) -> Option<ActionView> {
    match action {
        Some(action) => Some(action@),
        None => None,
    }
}

/// The message of a job that was asked to report differences against
/// standard input.
pub open spec fn stdin_check_message() -> Seq<char> {
    "warning: `--check` cannot be used whilst reading from stdin"@
}

/// What a failed read of `entry` is reported as.
pub open spec fn read_context(entry: EntryView) -> Seq<char> {
    match entry {
        EntryView::Stdin => "Could not format from stdin"@,
        EntryView::File(path) => "Failed to read "@ + path,
    }
}

/// What a failed formatting of `entry` is reported as.
pub open spec fn format_context(entry: EntryView) -> Seq<char> {
    match entry {
        EntryView::Stdin => "Failed to format from stdin"@,
        EntryView::File(path) => "Could not format file "@ + path,
    }
}

/// What a failed write for `entry` is reported as.
pub open spec fn write_context(entry: EntryView) -> Seq<char> {
    match entry {
        EntryView::Stdin => "Could not output to stdout"@,
        EntryView::File(path) => "Could not write to "@ + path,
    }
}

/// What a failed rendering is reported as.
pub open spec fn diff_context() -> Seq<char> {
    "Failed to create diff"@
}

/// The line above the rendered difference of the file at `path`.
pub open spec fn diff_header(path: Seq<char>) -> Seq<char> {
    "Diff in "@ + path + ":"@
}

/// The state of a job, as mathematics.
pub struct JobView {
    pub entry: EntryView,
    pub check: bool,
    pub color: bool,
    pub range: Option<FormatRange>,
    pub phase: JobPhase,
    /// The source text, held only while a difference may still be rendered.
    pub source: Seq<char>,
}

impl JobView {
    /// A job that has not started.
    pub open spec fn fresh(
        entry: EntryView,
        check: bool,
        color: bool,
        range: Option<FormatRange>,
    ) -> JobView {
        JobView { entry, check, color, range, phase: JobPhase::Pending, source: Seq::empty() }
    }

    /// Only a job that reports differences of a file needs its source again
    /// after formatting.
    pub open spec fn keeps_source(self) -> bool {
        self.check && self.entry is File
    }

    /// The job in another phase, holding `source`.
    pub open spec fn at(self, phase: JobPhase, source: Seq<char>) -> JobView {
        JobView { phase, source, ..self }
    }

    /// The job over, with the action that hands `outcome` to the sink.
    pub open spec fn ended(self, outcome: OutcomeView) -> (JobView, Option<ActionView>) {
        (self.at(JobPhase::Finished, Seq::empty()), Some(ActionView::Emit(outcome)))
    }

    /// The job over because a step failed.
    pub open spec fn failed(self, context: Seq<char>, cause: Seq<char>) -> (
        JobView,
        Option<ActionView>,
    ) {
        self.ended(OutcomeView::Failed(with_context(context, cause)))
    }

    /// A worker picks the job up. Differences against standard input are
    /// refused at once, before anything is read.
    pub open spec fn start(self) -> (JobView, Option<ActionView>) {
        match self.entry {
            EntryView::Stdin => if self.check {
                self.ended(OutcomeView::Failed(stdin_check_message()))
            } else {
                (self.at(JobPhase::Reading, Seq::empty()), Some(ActionView::ReadStdin))
            },
            EntryView::File(path) => (
                self.at(JobPhase::Reading, Seq::empty()),
                Some(ActionView::ReadFile { path }),
            ),
        }
    }

    /// The source was read, or not.
    pub open spec fn after_read(self, read: Result<Seq<char>, Seq<char>>) -> (
        JobView,
        Option<ActionView>,
    ) {
        match read {
            Ok(source) => (
                self.at(
                    JobPhase::Formatting,
                    if self.keeps_source() {
                        source
                    } else {
                        Seq::empty()
                    },
                ),
                Some(ActionView::Format { source, range: self.range }),
            ),
            Err(cause) => self.failed(read_context(self.entry), cause),
        }
    }

    /// The source was formatted, or not. Standard input goes to standard
    /// output; a file is rewritten, or compared when differences are asked for.
    pub open spec fn after_format(self, formatted: Result<Seq<char>, Seq<char>>) -> (
        JobView,
        Option<ActionView>,
    ) {
        match formatted {
            Ok(formatted) => match self.entry {
                EntryView::Stdin => (
                    self.at(JobPhase::Writing, Seq::empty()),
                    Some(ActionView::WriteStdout { contents: formatted }),
                ),
                EntryView::File(path) => if self.check {
                    (
                        self.at(JobPhase::Diffing, Seq::empty()),
                        Some(
                            ActionView::Diff {
                                source: self.source,
                                formatted,
                                context_lines: DIFF_CONTEXT_LINES,
                                header: diff_header(path),
                                color: self.color,
                            },
                        ),
                    )
                } else {
                    (
                        self.at(JobPhase::Writing, Seq::empty()),
                        Some(ActionView::WriteFile { path, contents: formatted }),
                    )
                },
            },
            Err(cause) => self.failed(format_context(self.entry), cause),
        }
    }

    /// The difference was rendered, or not.
    pub open spec fn after_diff(self, diff: Result<Option<Seq<u8>>, Seq<char>>) -> (
        JobView,
        Option<ActionView>,
    ) {
        match diff {
            Ok(Some(diff)) => self.ended(OutcomeView::DiffAvailable(diff)),
            Ok(None) => self.ended(OutcomeView::Completed),
            Err(cause) => self.failed(diff_context(), cause),
        }
    }

    /// The formatted text was written, or not.
    pub open spec fn after_write(self, written: Result<(), Seq<char>>) -> (
        JobView,
        Option<ActionView>,
    ) {
        match written {
            Ok(()) => self.ended(OutcomeView::Completed),
            Err(cause) => self.failed(write_context(self.entry), cause),
        }
    }

    /// Whether the job, in its phase, is waiting for `event`.
    pub open spec fn awaits(self, event: EventView) -> bool {
        match (self.phase, event) {
            (JobPhase::Pending, EventView::Started) => true,
            (JobPhase::Reading, EventView::Read(_)) => true,
            (JobPhase::Formatting, EventView::Formatted(_)) => true,
            (JobPhase::Diffing, EventView::Diffed(_)) => true,
            (JobPhase::Writing, EventView::Written(_)) => true,
            _ => false,
        }
    }

    /// The job after `event`, and what it asks for. An event the job is not
    /// waiting for changes nothing and asks for nothing.
    pub open spec fn step(self, event: EventView) -> (JobView, Option<ActionView>) {
        match (self.phase, event) {
            (JobPhase::Pending, EventView::Started) => self.start(),
            (JobPhase::Reading, EventView::Read(read)) => self.after_read(read),
            (JobPhase::Formatting, EventView::Formatted(formatted)) => self.after_format(formatted),
            (JobPhase::Diffing, EventView::Diffed(diff)) => self.after_diff(diff),
            (JobPhase::Writing, EventView::Written(written)) => self.after_write(written),
            _ => (self, None),
        }
    }
}

impl ActionView {
    /// Whether the action writes formatted text to a file or to standard output.
    pub open spec fn is_write(self) -> bool {
        self is WriteFile || self is WriteStdout
    }
}

impl JobView {
    /// The job after `events`, oldest first.
    pub open spec fn after(self, events: Seq<EventView>) -> JobView
        decreases events.len(),
    {
        if events.len() == 0 {
            self
        } else {
            self.after(events.drop_last()).step(events.last()).0
        }
    }

    /// The outcomes the job hands over while it is told `events`, in order.
    pub open spec fn outcomes(self, events: Seq<EventView>) -> Seq<OutcomeView>
        decreases events.len(),
    {
        if events.len() == 0 {
            Seq::empty()
        } else {
            let before = self.outcomes(events.drop_last());
            match self.after(events.drop_last()).step(events.last()).1 {
                Some(ActionView::Emit(outcome)) => before.push(outcome),
                _ => before,
            }
        }
    }

    /// What holds of every job that was started from `fresh`: nothing is
    /// being written for a job that reports differences, a difference is
    /// rendered only for such a job and only for a file, and differences
    /// against standard input got no further than the start.
    pub open spec fn consistent(self) -> bool {
        &&& self.phase is Writing ==> !self.check
        &&& self.phase is Diffing ==> self.check && self.entry is File
        &&& (self.phase is Reading || self.phase is Formatting) && self.entry is Stdin
            ==> !self.check
    }

    /// The events that answer every request a job can make, in the order
    /// the requests come.
    pub open spec fn answers(
        read: Result<Seq<char>, Seq<char>>,
        formatted: Result<Seq<char>, Seq<char>>,
        diff: Result<Option<Seq<u8>>, Seq<char>>,
        written: Result<(), Seq<char>>,
    ) -> Seq<EventView> {
        seq![
            EventView::Started,
            EventView::Read(read),
            EventView::Formatted(formatted),
            EventView::Diffed(diff),
            EventView::Written(written),
        ]
    }
}

/// A finished job stays as it is and asks for nothing, whatever it is told.
pub proof fn lemma_finished_job_is_silent(job: JobView, event: EventView)
    requires
        job.phase is Finished,
    ensures
        job.step(event) == (job, None::<ActionView>),
{
}

/// A job hands over an outcome exactly in the step that finishes it.
pub proof fn lemma_outcome_ends_job(job: JobView, event: EventView)
    ensures
        job.step(event).1 matches Some(ActionView::Emit(_)) <==> !(job.phase is Finished)
            && job.step(event).0.phase is Finished,
{
}

/// An event the job is waiting for always gets an action in return; any
/// other event changes nothing.
pub proof fn lemma_only_awaited_events_count(job: JobView, event: EventView)
    ensures
        job.awaits(event) ==> job.step(event).1 is Some && job.step(event).0.phase != job.phase,
        !job.awaits(event) ==> job.step(event) == (job, None::<ActionView>),
{
}

/// Whatever a job is told, and in whatever order, it hands over at most one
/// outcome, and exactly one once it is finished.
pub proof fn lemma_one_outcome_per_job(job: JobView, events: Seq<EventView>)
    requires
        !(job.phase is Finished),
    ensures
        job.outcomes(events).len() == if job.after(events).phase is Finished {
            1nat
        } else {
            0nat
        },
    decreases events.len(),
{
    if events.len() > 0 {
        let before = events.drop_last();
        lemma_one_outcome_per_job(job, before);
        lemma_outcome_ends_job(job.after(before), events.last());
        if job.after(before).phase is Finished {
            lemma_finished_job_is_silent(job.after(before), events.last());
        }
    }
}

/// A job whose every request is answered finishes, on every path: whether
/// each step succeeds or fails, the job ends with exactly one outcome.
pub proof fn lemma_answered_job_ends(
    entry: EntryView,
    check: bool,
    color: bool,
    range: Option<FormatRange>,
    read: Result<Seq<char>, Seq<char>>,
    formatted: Result<Seq<char>, Seq<char>>,
    diff: Result<Option<Seq<u8>>, Seq<char>>,
    written: Result<(), Seq<char>>,
)
    ensures
        ({
            let job = JobView::fresh(entry, check, color, range);
            let events = JobView::answers(read, formatted, diff, written);
            job.after(events).phase is Finished && job.outcomes(events).len() == 1
        }),
{
    let job = JobView::fresh(entry, check, color, range);
    let events = JobView::answers(read, formatted, diff, written);
    let e4 = events.drop_last();
    let e3 = e4.drop_last();
    let e2 = e3.drop_last();
    let e1 = e2.drop_last();
    let e0 = e1.drop_last();
    assert(job.after(e0) == job);
    assert(job.after(e1) == job.step(EventView::Started).0);
    assert(job.after(e2) == job.after(e1).step(EventView::Read(read)).0);
    assert(job.after(e3) == job.after(e2).step(EventView::Formatted(formatted)).0);
    assert(job.after(e4) == job.after(e3).step(EventView::Diffed(diff)).0);
    lemma_one_outcome_per_job(job, events);
}

/// What a job is about and the settings it runs under never change.
pub proof fn lemma_settings_never_change(job: JobView, events: Seq<EventView>)
    ensures
        job.after(events).entry == job.entry,
        job.after(events).check == job.check,
        job.after(events).color == job.color,
        job.after(events).range == job.range,
    decreases events.len(),
{
    if events.len() > 0 {
        lemma_settings_never_change(job, events.drop_last());
    }
}

/// Every step keeps a job consistent.
pub proof fn lemma_step_keeps_consistent(job: JobView, event: EventView)
    requires
        job.consistent(),
    ensures
        job.step(event).0.consistent(),
{
}

/// A job started from `fresh` is consistent whatever it is told.
pub proof fn lemma_started_job_is_consistent(
    entry: EntryView,
    check: bool,
    color: bool,
    range: Option<FormatRange>,
    events: Seq<EventView>,
)
    ensures
        JobView::fresh(entry, check, color, range).after(events).consistent(),
    decreases events.len(),
{
    if events.len() > 0 {
        lemma_started_job_is_consistent(entry, check, color, range, events.drop_last());
        lemma_step_keeps_consistent(
            JobView::fresh(entry, check, color, range).after(events.drop_last()),
            events.last(),
        );
    }
}

/// A job that reports differences never asks for anything to be written:
/// not to the file it is about, and not to standard output.
pub proof fn lemma_check_never_writes(
    entry: EntryView,
    color: bool,
    range: Option<FormatRange>,
    events: Seq<EventView>,
    event: EventView,
)
    ensures
        ({
            let job = JobView::fresh(entry, true, color, range).after(events);
            job.step(event).1 matches Some(action) ==> !action.is_write()
        }),
{
    lemma_started_job_is_consistent(entry, true, color, range, events);
    lemma_settings_never_change(JobView::fresh(entry, true, color, range), events);
}

/// A job asks to write only what the formatter returned, only where the
/// source came from, and only when reading and formatting both succeeded.
pub proof fn lemma_writes_follow_formatting(job: JobView, event: EventView)
    ensures
        match job.step(event).1 {
            Some(ActionView::WriteFile { path, contents }) => job.phase is Formatting
                && !job.check && job.entry == EntryView::File(path) && event
                == EventView::Formatted(Ok(contents)),
            Some(ActionView::WriteStdout { contents }) => job.phase is Formatting && job.entry
                is Stdin && event == EventView::Formatted(Ok(contents)),
            _ => true,
        },
{
}

/// One formatting job: what it is about, the settings it runs under, and
/// how far it has come.
#[derive(Clone, Debug, PartialEq, Eq)]
pub struct Job {
    entry: DiscoveredEntry,
    check: bool,
    color: bool,
    range: Option<FormatRange>,
    phase: JobPhase,
    source: String,
}

impl View for Job {
    type V = JobView;

    closed spec fn view(&self) -> JobView {
        JobView {
            entry: self.entry@,
            check: self.check,
            color: self.color,
            range: self.range,
            phase: self.phase,
            source: self.source@,
        }
    }
}

/// The text that reports a failed read of `entry`.
fn read_context_text(entry: &DiscoveredEntry) -> (context: String)
    ensures
        context@ == read_context(entry@),
{
    match entry {
        DiscoveredEntry::Stdin => String::from_str("Could not format from stdin"),
        DiscoveredEntry::File(path) => join("Failed to read ", path.as_str()),
    }
}

/// The text that reports a failed formatting of `entry`.
fn format_context_text(entry: &DiscoveredEntry) -> (context: String)
    ensures
        context@ == format_context(entry@),
{
    match entry {
        DiscoveredEntry::Stdin => String::from_str("Failed to format from stdin"),
        DiscoveredEntry::File(path) => join("Could not format file ", path.as_str()),
    }
}

/// The text that reports a failed write for `entry`.
fn write_context_text(entry: &DiscoveredEntry) -> (context: String)
    ensures
        context@ == write_context(entry@),
{
    match entry {
        DiscoveredEntry::Stdin => String::from_str("Could not output to stdout"),
        DiscoveredEntry::File(path) => join("Could not write to ", path.as_str()),
    }
}

/// The line above the rendered difference of the file at `path`.
fn diff_header_text(path: &str) -> (header: String)
    ensures
        header@ == diff_header(path@),
{
    let mut header = join("Diff in ", path);
    header.append(":");
    header
}

impl Job {
    /// A job for `entry` that has not started.
    pub fn new(entry: DiscoveredEntry, check: bool, color: bool, range: Option<FormatRange>) -> (job:
        Job)
        ensures
            job@ == JobView::fresh(entry@, check, color, range),
    {
        Job { entry, check, color, range, phase: JobPhase::Pending, source: String::new() }
    }

    /// Where the job stands.
    pub fn phase(&self) -> (phase: JobPhase)
        ensures
            phase == self@.phase,
    {
        self.phase
    }

    /// Whether the job has handed over its outcome.
    pub fn is_finished(&self) -> (done: bool)
        ensures
            done == (self@.phase is Finished),
    {
        match self.phase {
            JobPhase::Finished => true,
            _ => false,
        }
    }

    /// What the job is about.
    pub fn entry(&self) -> (entry: &DiscoveredEntry)
        ensures
            entry@ == self@.entry,
    {
        &self.entry
    }

    fn at(self, phase: JobPhase, source: String) -> (next: Job)
        ensures
            next@ == self@.at(phase, source@),
    {
        Job {
            entry: self.entry,
            check: self.check,
            color: self.color,
            range: self.range,
            phase,
            source,
        }
    }

    fn ended(self, outcome: JobOutcome) -> (next: (Job, Option<JobAction>))
        ensures
            (next.0@, action_view(next.1)) == self@.ended(outcome@),
    {
        (self.at(JobPhase::Finished, String::new()), Some(JobAction::Emit(outcome)))
    }

    fn failed(self, context: String, cause: String) -> (next: (Job, Option<JobAction>))
        ensures
            (next.0@, action_view(next.1)) == self@.failed(context@, cause@),
    {
        let message = explain(context.as_str(), cause.as_str());
        self.ended(JobOutcome::Failed(message))
    }

    fn start(self) -> (next: (Job, Option<JobAction>))
        ensures
            (next.0@, action_view(next.1)) == self@.start(),
    {
        let path = match &self.entry {
            DiscoveredEntry::Stdin => None,
            DiscoveredEntry::File(path) => Some(path.clone()),
        };
        match path {
            None => if self.check {
                let message = String::from_str(
                    "warning: `--check` cannot be used whilst reading from stdin",
                );
                self.ended(JobOutcome::Failed(message))
            } else {
                (self.at(JobPhase::Reading, String::new()), Some(JobAction::ReadStdin))
            },
            Some(path) => (
                self.at(JobPhase::Reading, String::new()),
                Some(JobAction::ReadFile { path }),
            ),
        }
    }

    fn after_read(self, read: Result<String, String>) -> (next: (Job, Option<JobAction>))
        ensures
            (next.0@, action_view(next.1)) == self@.after_read(
                match read {
                    Ok(text) => Ok(text@),
                    Err(cause) => Err(cause@),
                },
            ),
    {
        match read {
            Ok(source) => {
                let is_file = match &self.entry {
                    DiscoveredEntry::File(_) => true,
                    DiscoveredEntry::Stdin => false,
                };
                let held = if self.check && is_file {
                    source.clone()
                } else {
                    String::new()
                };
                let range = self.range;
                (self.at(JobPhase::Formatting, held), Some(JobAction::Format { source, range }))
            },
            Err(cause) => {
                let context = read_context_text(&self.entry);
                self.failed(context, cause)
            },
        }
    }

    fn after_format(self, formatted: Result<String, String>) -> (next: (Job, Option<JobAction>))
        ensures
            (next.0@, action_view(next.1)) == self@.after_format(
                match formatted {
                    Ok(text) => Ok(text@),
                    Err(cause) => Err(cause@),
                },
            ),
    {
        match formatted {
            Ok(formatted) => {
                let path = match &self.entry {
                    DiscoveredEntry::Stdin => None,
                    DiscoveredEntry::File(path) => Some(path.clone()),
                };
                match path {
                    None => (
                        self.at(JobPhase::Writing, String::new()),
                        Some(JobAction::WriteStdout { contents: formatted }),
                    ),
                    Some(path) => if self.check {
                        let action = JobAction::Diff {
                            source: self.source.clone(),
                            formatted,
                            context_lines: DIFF_CONTEXT_LINES,
                            header: diff_header_text(path.as_str()),
                            color: self.color,
                        };
                        (self.at(JobPhase::Diffing, String::new()), Some(action))
                    } else {
                        (
                            self.at(JobPhase::Writing, String::new()),
                            Some(JobAction::WriteFile { path, contents: formatted }),
                        )
                    },
                }
            },
            Err(cause) => {
                let context = format_context_text(&self.entry);
                self.failed(context, cause)
            },
        }
    }

    fn after_diff(self, diff: Result<Option<Vec<u8>>, String>) -> (next: (Job, Option<JobAction>))
        ensures
            (next.0@, action_view(next.1)) == self@.after_diff(
                match diff {
                    Ok(Some(bytes)) => Ok(Some(bytes@)),
                    Ok(None) => Ok(None),
                    Err(cause) => Err(cause@),
                },
            ),
    {
        match diff {
            Ok(Some(bytes)) => self.ended(JobOutcome::DiffAvailable(bytes)),
            Ok(None) => self.ended(JobOutcome::Completed),
            Err(cause) => self.failed(String::from_str("Failed to create diff"), cause),
        }
    }

    fn after_write(self, written: Result<(), String>) -> (next: (Job, Option<JobAction>))
        ensures
            (next.0@, action_view(next.1)) == self@.after_write(
                match written {
                    Ok(()) => Ok(()),
                    Err(cause) => Err(cause@),
                },
            ),
    {
        match written {
            Ok(()) => self.ended(JobOutcome::Completed),
            Err(cause) => {
                let context = write_context_text(&self.entry);
                self.failed(context, cause)
            },
        }
    }

    /// Tells the job what happened and learns what it asks for next.
    ///
    /// An event the job is not waiting for leaves it as it is and asks for
    /// nothing. Once the job has asked to emit its outcome it is finished
    /// and asks for nothing more.
    pub fn step(self, event: JobEvent) -> (next: (Job, Option<JobAction>))
        ensures
            (next.0@, action_view(next.1)) == self@.step(event@),
    {
        match event {
            JobEvent::Started => match self.phase {
                JobPhase::Pending => self.start(),
                _ => (self, None),
            },
            JobEvent::Read(read) => match self.phase {
                JobPhase::Reading => self.after_read(read),
                _ => (self, None),
            },
            JobEvent::Formatted(formatted) => match self.phase {
                JobPhase::Formatting => self.after_format(formatted),
                _ => (self, None),
            },
            JobEvent::Diffed(diff) => match self.phase {
                JobPhase::Diffing => self.after_diff(diff),
                _ => (self, None),
            },
            JobEvent::Written(written) => match self.phase {
                JobPhase::Writing => self.after_write(written),
                _ => (self, None),
            },
        }
    }
}

} // verus!
