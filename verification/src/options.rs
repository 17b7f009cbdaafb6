//! What a run is asked to do, and the reasons it may refuse to start.

use vstd::prelude::*;
use vstd::string::StringExecFns;
use crate::text::{explain, join, with_context};

verus! {

/// The part of an input that formatting is restricted to. A missing bound
/// leaves that side open.
#[derive(Clone, Copy, Debug, PartialEq, Eq)]
pub struct FormatRange {
    pub start: Option<usize>,
    pub end: Option<usize>,
}

/// The range that two optional bounds describe: none when both are missing,
/// otherwise the range that holds exactly those bounds.
pub open spec fn range_of(start: Option<usize>, end: Option<usize>) -> Option<FormatRange> {
    if start is Some || end is Some {
        Some(FormatRange { start, end })
    } else {
        None
    }
}

impl FormatRange {
    /// Builds the range for the given bounds; `None` stands for the whole input.
    pub fn from_bounds(start: Option<usize>, end: Option<usize>) -> (range: Option<FormatRange>)
        ensures
            range == range_of(start, end),
    {
        if start.is_some() || end.is_some() {
            Some(FormatRange { start, end })
        } else {
            None
        }
    }
}

/// The settings of one run. They are fixed before the run starts and shared,
/// unchanged, by every job.
#[derive(Clone, Debug, PartialEq, Eq)]
pub struct RunOptions {
    /// The roots to process: files, directories, or the marker for standard input.
    pub files: Vec<String>,
    /// Report differences instead of rewriting files.
    pub check: bool,
    /// Include patterns that replace the default extension filter.
    pub glob: Option<Vec<String>>,
    pub range_start: Option<usize>,
    pub range_end: Option<usize>,
    /// The size of the worker pool.
    pub num_threads: usize,
    pub verbose: bool,
    /// Whether rendered differences are coloured.
    pub color: bool,
}

/// The texts of a list of strings.
pub open spec fn texts(list: Seq<String>) -> Seq<Seq<char>> {
    list.map_values(|s: String| s@)
}

impl RunOptions {
    /// The roots, as texts.
    pub open spec fn roots(&self) -> Seq<Seq<char>> {
        texts(self.files@)
    }

    /// The include patterns, as texts, when any were given.
    pub open spec fn patterns(&self) -> Option<Seq<Seq<char>>> {
        match self.glob {
            Some(list) => Some(texts(list@)),
            None => None,
        }
    }

    /// A run can start only with at least one root.
    pub open spec fn well_formed(&self) -> bool {
        self.files@.len() > 0
    }

    /// The default extension filter applies exactly when no include pattern
    /// was given.
    pub open spec fn default_glob_in_use(&self) -> bool {
        self.glob is None
    }

    /// Whether at least one root was given.
    pub fn has_roots(&self) -> (yes: bool)
        ensures
            yes == self.well_formed(),
    {
        self.files.len() > 0
    }

    /// Whether discovered paths are held to the default extension.
    pub fn uses_default_glob(&self) -> (yes: bool)
        ensures
            yes == self.default_glob_in_use(),
    {
        self.glob.is_none()
    }

    /// The range that formatting is restricted to, if any bound was given.
    pub fn range(&self) -> (range: Option<FormatRange>)
        ensures
            range == range_of(self.range_start, self.range_end),
    {
        FormatRange::from_bounds(self.range_start, self.range_end)
    }
}

/// Why a run did not start. None of these touches a file.
#[derive(Clone, Debug, PartialEq, Eq)]
pub enum RunError {
    /// No root was given.
    NoFiles,
    /// An include pattern could not be parsed.
    BadGlob { pattern: String, reason: String },
    /// The include patterns parsed one by one but could not be combined.
    Overrides { reason: String },
    /// The configuration, or the directory the run starts in, could not be
    /// resolved.
    Setup { reason: String },
}

/// A `RunError` with its texts as sequences.
pub enum RunErrorView {
    NoFiles,
    BadGlob { pattern: Seq<char>, reason: Seq<char> },
    Overrides { reason: Seq<char> },
    Setup { reason: Seq<char> },
}

impl View for RunError {
    type V = RunErrorView;

    open spec fn view(&self) -> RunErrorView {
        match self {
            RunError::NoFiles => RunErrorView::NoFiles,
            RunError::BadGlob { pattern, reason } => RunErrorView::BadGlob {
                pattern: pattern@,
                reason: reason@,
            },
            RunError::Overrides { reason } => RunErrorView::Overrides { reason: reason@ },
            RunError::Setup { reason } => RunErrorView::Setup { reason: reason@ },
        }
    }
}

impl RunErrorView {
    /// The line that reports this error.
    pub open spec fn message(self) -> Seq<char> {
        match self {
            RunErrorView::NoFiles => "error: no files provided"@,
            RunErrorView::BadGlob { pattern, reason } => with_context(
                "error: cannot parse glob pattern "@ + pattern,
                reason,
            ),
            RunErrorView::Overrides { reason } => reason,
            RunErrorView::Setup { reason } => reason,
        }
    }
}

impl RunError {
    /// The error of a run whose configuration, or starting directory, could
    /// not be resolved for the given reason.
    pub fn setup(reason: String) -> (error: RunError)
        ensures
            error@ == (RunErrorView::Setup { reason: reason@ }),
    {
        RunError::Setup { reason }
    }

    /// The exit code of a run that did not start: always 1.
    pub fn exit_code(&self) -> (code: i32)
        ensures
            code == 1,
    {
        1
    }

    /// The line that reports this error.
    pub fn message(&self) -> (line: String)
        ensures
            line@ == self@.message(),
    {
        match self {
            RunError::NoFiles => String::from_str("error: no files provided"),
            RunError::BadGlob { pattern, reason } => {
                let context = join("error: cannot parse glob pattern ", pattern.as_str());
                explain(context.as_str(), reason.as_str())
            },
            RunError::Overrides { reason } => reason.clone(),
            RunError::Setup { reason } => reason.clone(),
        }
    }
}

} // verus!
