//! The controller of a run: it admits the options, decides what becomes of
//! each thing discovery yields, lets the sink act on each outcome, and keeps
//! the status that becomes the exit code.

use vstd::prelude::*;
use ignore::overrides::Override;
use crate::entry::{DiscoveredEntry, EntryView, JobOutcome, OutcomeView};
use crate::filter::{survives, survives_filter};
use crate::job::{Job, JobView};
use crate::options::{range_of, FormatRange, RunError, RunErrorView, RunOptions};
use crate::overrides::{build_overrides, buildable, built_from, refuses};
use crate::text::join;

verus! {

/// What traversal yields, one at a time, in plain values.
#[derive(Clone, Debug, PartialEq, Eq)]
pub enum Discovery {
    /// A root was the marker for standard input.
    Stdin,
    /// A path was reached; `is_file` tells whether a regular file is there.
    Path { path: String, is_file: bool },
    /// An entry could not be visited. Traversal goes on.
    Failure { reason: String },
}

/// A `Discovery` with its texts as sequences.
pub enum DiscoveryView {
    Stdin,
    Path { path: Seq<char>, is_file: bool },
    Failure { reason: Seq<char> },
}

impl View for Discovery {
    type V = DiscoveryView;

    open spec fn view(&self) -> DiscoveryView {
        match self {
            Discovery::Stdin => DiscoveryView::Stdin,
            Discovery::Path { path, is_file } => DiscoveryView::Path {
                path: path@,
                is_file: *is_file,
            },
            Discovery::Failure { reason } => DiscoveryView::Failure { reason: reason@ },
        }
    }
}

/// What the controller does with one discovery.
#[derive(Clone, Debug, PartialEq, Eq)]
pub enum Dispatch {
    /// Nothing: the path is no regular file, or the filter dropped it.
    Skip,
    /// Hand the job to the worker pool.
    Schedule(Job),
    /// Print the message to the error stream.
    Report { message: String },
}

/// A `Dispatch` as mathematics.
pub enum DispatchView {
    Skip,
    Schedule(JobView),
    Report { message: Seq<char> },
}

impl View for Dispatch {
    type V = DispatchView;

    open spec fn view(&self) -> DispatchView {
        match self {
            Dispatch::Skip => DispatchView::Skip,
            Dispatch::Schedule(job) => DispatchView::Schedule(job@),
            Dispatch::Report { message } => DispatchView::Report { message: message@ },
        }
    }
}

/// What the sink does with one outcome.
#[derive(Clone, Debug, PartialEq, Eq)]
pub enum SinkAction {
    Nothing,
    /// Write the rendered difference, whole, to the output stream.
    WriteDiff(Vec<u8>),
    /// Print the message to the error stream.
    LogError(String),
}

/// A `SinkAction` with its payload as a sequence.
pub enum SinkView {
    Nothing,
    WriteDiff(Seq<u8>),
    LogError(Seq<char>),
}

impl View for SinkAction {
    type V = SinkView;

    open spec fn view(&self) -> SinkView {
        match self {
            SinkAction::Nothing => SinkView::Nothing,
            SinkAction::WriteDiff(diff) => SinkView::WriteDiff(diff@),
            SinkAction::LogError(message) => SinkView::LogError(message@),
        }
    }
}

/// The name of the per-directory file whose patterns keep traversal out of
/// matching paths.
pub const IGNORE_FILE_NAME: &'static str = ".styluaignore";

/// How traversal is to be set up. Roots themselves are always visited;
/// these settings govern what is reached below them.
#[derive(Clone, Copy, Debug, PartialEq, Eq)]
pub struct WalkSettings {
    /// Hidden files and directories are visited like any other.
    pub include_hidden: bool,
    /// Ignore files in the directories above a root apply as well.
    pub parent_ignores: bool,
    /// Ignore files of version control are not consulted.
    pub vcs_ignores: bool,
    /// The name of the per-directory ignore file that is honoured.
    pub ignore_file_name: &'static str,
}

/// The settings every traversal uses.
pub open spec fn walk_settings_of() -> WalkSettings {
    WalkSettings {
        include_hidden: true,
        parent_ignores: true,
        vcs_ignores: false,
        ignore_file_name: IGNORE_FILE_NAME,
    }
}

/// What the sink does once it has tried to write a difference: a failed
/// write is logged and goes no further.
pub open spec fn after_diff_write(written: Result<(), Seq<char>>) -> SinkView {
    match written {
        Ok(()) => SinkView::Nothing,
        Err(cause) => SinkView::LogError(cause),
    }
}

/// The line that reports an entry traversal could not visit.
pub open spec fn walk_failure_message(reason: Seq<char>) -> Seq<char> {
    "error: could not walk: "@ + reason
}

/// What becomes of one discovery under the given settings.
///
/// Standard input always becomes a job. A path becomes a job when a regular
/// file is there and the filter keeps it. A failure is reported.
pub open spec fn dispatch_of(
    roots: Seq<Seq<char>>,
    default_glob_in_use: bool,
    check: bool,
    color: bool,
    range: Option<FormatRange>,
    found: DiscoveryView,
) -> DispatchView {
    match found {
        DiscoveryView::Stdin => DispatchView::Schedule(
            JobView::fresh(EntryView::Stdin, check, color, range),
        ),
        DiscoveryView::Path { path, is_file } => if is_file && survives(
            roots,
            default_glob_in_use,
            path,
        ) {
            DispatchView::Schedule(JobView::fresh(EntryView::File(path), check, color, range))
        } else {
            DispatchView::Skip
        },
        DiscoveryView::Failure { reason } => DispatchView::Report {
            message: walk_failure_message(reason),
        },
    }
}

/// What the sink does with an outcome: nothing for a clean one, the
/// difference to the output stream, the failure to the error stream.
pub open spec fn sink_action_of(outcome: OutcomeView) -> SinkView {
    match outcome {
        OutcomeView::Completed => SinkView::Nothing,
        OutcomeView::DiffAvailable(diff) => SinkView::WriteDiff(diff),
        OutcomeView::Failed(message) => SinkView::LogError(message),
    }
}

/// Something the controller is told during a run.
pub enum RunEvent {
    Found(DiscoveryView),
    Outcome(OutcomeView),
}

impl RunEvent {
    /// An event spoils the run when traversal failed on an entry, or a job
    /// ended with a difference or a failure.
    pub open spec fn spoils(self) -> bool {
        match self {
            RunEvent::Found(found) => found is Failure,
            RunEvent::Outcome(outcome) => !outcome.is_clean(),
        }
    }
}

/// Whether a run that had `failed` before has failed after `event`.
pub open spec fn failed_after(failed: bool, event: RunEvent) -> bool {
    failed || event.spoils()
}

/// Whether a run that had `failed` before has failed after `events`, oldest
/// first.
pub open spec fn failed_after_all(failed: bool, events: Seq<RunEvent>) -> bool
    decreases events.len(),
{
    if events.len() == 0 {
        failed
    } else {
        failed_after(failed_after_all(failed, events.drop_last()), events.last())
    }
}

/// The exit code of a run: 0 for success, 1 for failure.
pub open spec fn exit_code_of(failed: bool) -> int {
    if failed {
        1
    } else {
        0
    }
}

/// The exit status of a run. It starts as success, turns to failure with the
/// first event that spoils the run, and never turns back.
#[derive(Clone, Copy, Debug, PartialEq, Eq)]
pub struct RunStatus {
    failed: bool,
}

impl View for RunStatus {
    type V = bool;

    /// Whether failure was recorded.
    closed spec fn view(&self) -> bool {
        self.failed
    }
}

impl RunStatus {
    /// The status of a run that has seen nothing yet.
    pub fn new() -> (status: RunStatus)
        ensures
            !status@,
    {
        RunStatus { failed: false }
    }

    /// Records failure if `spoiled`; otherwise the status stays as it is.
    pub fn record(&mut self, spoiled: bool)
        ensures
            final(self)@ == (old(self)@ || spoiled),
    {
        if spoiled {
            self.failed = true;
        }
    }

    /// Whether failure was recorded.
    pub fn has_failed(&self) -> (failed: bool)
        ensures
            failed == self@,
    {
        self.failed
    }

    /// The exit code: 0 for success, 1 for failure.
    pub fn exit_code(&self) -> (code: i32)
        ensures
            code == exit_code_of(self@),
    {
        if self.failed {
            1
        } else {
            0
        }
    }
}

/// Failure is never taken back: a run that has failed stays failed whatever
/// follows.
pub proof fn lemma_failure_is_kept(events: Seq<RunEvent>)
    ensures
        failed_after_all(true, events),
    decreases events.len(),
{
    if events.len() > 0 {
        lemma_failure_is_kept(events.drop_last());
    }
}

/// After any sequence of events a run has failed exactly when it had failed
/// before or one of the events spoils it.
pub proof fn lemma_failed_after_all(failed: bool, events: Seq<RunEvent>)
    ensures
        failed_after_all(failed, events) == (failed || exists|i: int|
            0 <= i < events.len() && (#[trigger] events[i]).spoils()),
    decreases events.len(),
{
    if events.len() > 0 {
        let before = events.drop_last();
        lemma_failed_after_all(failed, before);
        if exists|i: int| 0 <= i < before.len() && (#[trigger] before[i]).spoils() {
            let i = choose|i: int| 0 <= i < before.len() && (#[trigger] before[i]).spoils();
            assert(events[i] == before[i]);
        }
        if events.last().spoils() {
            assert(events[events.len() - 1].spoils());
        }
        if exists|i: int| 0 <= i < events.len() && (#[trigger] events[i]).spoils() {
            let i = choose|i: int| 0 <= i < events.len() && (#[trigger] events[i]).spoils();
            if i < before.len() {
                assert(before[i] == events[i]);
            }
        }
    }
}

/// A run in progress: its settings, which never change, and its status.
#[derive(Clone, Debug, PartialEq, Eq)]
pub struct Run {
    options: RunOptions,
    status: RunStatus,
}

impl Run {
    /// The settings of the run.
    pub closed spec fn options(&self) -> RunOptions {
        self.options
    }

    /// Whether the run has failed so far.
    pub closed spec fn failed(&self) -> bool {
        self.status@
    }

    /// What becomes of `found` in this run.
    pub open spec fn dispatch(&self, found: DiscoveryView) -> DispatchView {
        dispatch_of(
            self.options().roots(),
            self.options().default_glob_in_use(),
            self.options().check,
            self.options().color,
            range_of(self.options().range_start, self.options().range_end),
            found,
        )
    }

    /// Admits the settings of a run. A run without roots is refused before
    /// anything else happens.
    pub fn new(options: RunOptions) -> (run: Result<Run, RunError>)
        ensures
            run is Ok <==> options.well_formed(),
            run matches Ok(started) ==> started.options() == options && !started.failed(),
            run matches Err(error) ==> error@ == RunErrorView::NoFiles,
    {
        if options.has_roots() {
            Ok(Run { options, status: RunStatus::new() })
        } else {
            Err(RunError::NoFiles)
        }
    }

    /// The settings of the run.
    pub fn settings(&self) -> (options: &RunOptions)
        ensures
            *options == self.options(),
    {
        &self.options
    }

    /// How traversal is to be set up for this run.
    pub fn walk_settings(&self) -> (settings: WalkSettings)
        ensures
            settings == walk_settings_of(),
    {
        WalkSettings {
            include_hidden: true,
            parent_ignores: true,
            vcs_ignores: false,
            ignore_file_name: IGNORE_FILE_NAME,
        }
    }

    /// The range that every job of the run is restricted to.
    pub fn range(&self) -> (range: Option<FormatRange>)
        ensures
            range == range_of(self.options().range_start, self.options().range_end),
    {
        self.options.range()
    }

    /// The override matcher for traversal, built relative to `root`; `None`
    /// when no include pattern was given. Only a pattern that is refused,
    /// or kept globs that cannot be combined, end in an error.
    pub fn overrides(&self, root: &str) -> (result: Result<Option<Override>, RunError>)
        ensures
            match self.options().patterns() {
                None => result == Ok::<Option<Override>, RunError>(None),
                Some(patterns) => {
                    &&& result is Ok <==> buildable(patterns)
                    &&& match result {
                        Ok(Some(matcher)) => built_from(matcher, root@, patterns),
                        Ok(None) => false,
                        Err(error) => refuses(patterns, error@),
                    }
                },
            },
    {
        match &self.options.glob {
            None => Ok(None),
            Some(patterns) => match build_overrides(root, patterns) {
                Ok(matcher) => Ok(Some(matcher)),
                Err(error) => Err(error),
            },
        }
    }

    /// Decides what becomes of one discovery, and records failure when
    /// traversal could not visit an entry.
    pub fn discover(&mut self, found: Discovery) -> (dispatch: Dispatch)
        ensures
            final(self).options() == old(self).options(),
            final(self).failed() == failed_after(old(self).failed(), RunEvent::Found(found@)),
            dispatch@ == old(self).dispatch(found@),
            found matches Discovery::Path { path, is_file } && is_file && old(
                self,
            ).options().roots().contains(path@) ==> dispatch is Schedule,
    {
        match found {
            Discovery::Stdin => Dispatch::Schedule(self.job_for(DiscoveredEntry::Stdin)),
            Discovery::Path { path, is_file } => {
                if is_file && survives_filter(
                    &self.options.files,
                    self.options.uses_default_glob(),
                    path.as_str(),
                ) {
                    Dispatch::Schedule(self.job_for(DiscoveredEntry::File(path)))
                } else {
                    Dispatch::Skip
                }
            },
            Discovery::Failure { reason } => {
                self.status.record(true);
                Dispatch::Report { message: join("error: could not walk: ", reason.as_str()) }
            },
        }
    }

    /// Lets the sink act on one outcome, and records failure unless the
    /// outcome is clean.
    pub fn observe(&mut self, outcome: JobOutcome) -> (action: SinkAction)
        ensures
            final(self).options() == old(self).options(),
            final(self).failed() == failed_after(old(self).failed(), RunEvent::Outcome(outcome@)),
            action@ == sink_action_of(outcome@),
    {
        match outcome {
            JobOutcome::Completed => SinkAction::Nothing,
            JobOutcome::DiffAvailable(diff) => {
                self.status.record(true);
                SinkAction::WriteDiff(diff)
            },
            JobOutcome::Failed(message) => {
                self.status.record(true);
                SinkAction::LogError(message)
            },
        }
    }

    /// Tells the sink how writing a difference went. A failure is logged;
    /// the status of the run, already failed by the difference, is not
    /// touched.
    pub fn diff_written(&self, written: Result<(), String>) -> (action: SinkAction)
        ensures
            action@ == after_diff_write(
                match written {
                    Ok(()) => Ok(()),
                    Err(cause) => Err(cause@),
                },
            ),
    {
        match written {
            Ok(()) => SinkAction::Nothing,
            Err(cause) => SinkAction::LogError(cause),
        }
    }

    /// The status of the run as it stands.
    pub fn status(&self) -> (status: RunStatus)
        ensures
            status@ == self.failed(),
    {
        self.status
    }

    /// The exit code of the run as it stands: 0 for success, 1 for failure.
    pub fn exit_code(&self) -> (code: i32)
        ensures
            code == exit_code_of(self.failed()),
    {
        self.status.exit_code()
    }

    fn job_for(&self, entry: DiscoveredEntry) -> (job: Job)
        ensures
            job@ == JobView::fresh(
                entry@,
                self.options().check,
                self.options().color,
                range_of(self.options().range_start, self.options().range_end),
            ),
    {
        Job::new(entry, self.options.check, self.options.color, self.options.range())
    }
}

} // verus!
