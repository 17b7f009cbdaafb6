//! What discovery yields and what a job ends with.

use vstd::prelude::*;

verus! {

/// One thing to format: standard input, or the file at a path.
#[derive(Clone, Debug, PartialEq, Eq)]
pub enum DiscoveredEntry {
    Stdin,
    File(String),
}

/// A `DiscoveredEntry` with its path as a sequence.
pub enum EntryView {
    Stdin,
    File(Seq<char>),
}

impl View for DiscoveredEntry {
    type V = EntryView;

    open spec fn view(&self) -> EntryView {
        match self {
            DiscoveredEntry::Stdin => EntryView::Stdin,
            DiscoveredEntry::File(path) => EntryView::File(path@),
        }
    }
}

/// The result of one job. Every job ends with exactly one.
#[derive(Clone, Debug, PartialEq, Eq)]
pub enum JobOutcome {
    /// The formatted text was written or streamed, or there was no
    /// difference to report.
    Completed,
    /// The formatted text differs from the source; the rendered difference
    /// is carried along.
    DiffAvailable(Vec<u8>),
    /// Reading, formatting, rendering or writing failed; the message names
    /// the step and its cause.
    Failed(String),
}

/// A `JobOutcome` with its payload as a sequence.
pub enum OutcomeView {
    Completed,
    DiffAvailable(Seq<u8>),
    Failed(Seq<char>),
}

impl View for JobOutcome {
    type V = OutcomeView;

    open spec fn view(&self) -> OutcomeView {
        match self {
            JobOutcome::Completed => OutcomeView::Completed,
            JobOutcome::DiffAvailable(diff) => OutcomeView::DiffAvailable(diff@),
            JobOutcome::Failed(message) => OutcomeView::Failed(message@),
        }
    }
}

impl OutcomeView {
    /// An outcome is clean when it reports neither a difference nor a failure.
    pub open spec fn is_clean(self) -> bool {
        self is Completed
    }
}

} // verus!
