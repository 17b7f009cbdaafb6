//! What a run guarantees, from discovery to the exit code.
//!
//! Each statement here is about the models that the contracts of the
//! executable functions speak of, and is proved from them.

use vstd::prelude::*;
use crate::entry::{EntryView, OutcomeView};
use crate::filter::survives;
use crate::job::{
    diff_header, lemma_one_outcome_per_job, stdin_check_message, ActionView, EventView, JobView,
    DIFF_CONTEXT_LINES,
};
use crate::options::FormatRange;
use crate::run::{
    exit_code_of, failed_after, failed_after_all, lemma_failed_after_all, sink_action_of,
    DiscoveryView, DispatchView, Run, RunEvent, SinkView,
};

verus! {

/// Whether a discovery survives: standard input always does, a path does
/// when a regular file is there and the filter keeps it.
pub open spec fn survives_discovery(run: Run, found: DiscoveryView) -> bool {
    match found {
        DiscoveryView::Stdin => true,
        DiscoveryView::Path { path, is_file } => is_file && survives(
            run.options().roots(),
            run.options().default_glob_in_use(),
            path,
        ),
        DiscoveryView::Failure { .. } => false,
    }
}

/// The job that a run schedules for `found`, if it schedules one.
pub open spec fn job_for(run: Run, found: DiscoveryView) -> Option<JobView> {
    match run.dispatch(found) {
        DispatchView::Schedule(job) => Some(job),
        _ => None,
    }
}

/// The jobs that a run schedules for `founds`, in order.
pub open spec fn scheduled(run: Run, founds: Seq<DiscoveryView>) -> Seq<JobView> {
    founds.filter_map(|found: DiscoveryView| job_for(run, found))
}

/// The number of outcomes that `jobs` hand over when each job is told the
/// events at its position in `told`.
pub open spec fn outcome_count(jobs: Seq<JobView>, told: Seq<Seq<EventView>>) -> nat
    decreases jobs.len(),
{
    if jobs.len() == 0 {
        0
    } else {
        outcome_count(jobs.drop_last(), told.drop_last()) + jobs.last().outcomes(told.last()).len()
    }
}

/// A run schedules one job for each discovery that survives, none for any
/// other, and every job it schedules has yet to start.
pub proof fn lemma_one_job_per_survivor(run: Run, founds: Seq<DiscoveryView>)
    ensures
        scheduled(run, founds).len() == founds.filter(
            |found: DiscoveryView| survives_discovery(run, found),
        ).len(),
        forall|i: int|
            0 <= i < scheduled(run, founds).len() ==> (#[trigger] scheduled(
                run,
                founds,
            )[i]).phase is Pending,
    decreases founds.len(),
{
    reveal(Seq::filter);
    if founds.len() > 0 {
        lemma_one_job_per_survivor(run, founds.drop_last());
        assert(survives_discovery(run, founds.last()) <==> job_for(run, founds.last()) is Some);
    }
}

/// Jobs that have yet to start and are told enough to finish hand over as
/// many outcomes as there are jobs: one each.
pub proof fn lemma_one_outcome_each(jobs: Seq<JobView>, told: Seq<Seq<EventView>>)
    requires
        told.len() == jobs.len(),
        forall|i: int| 0 <= i < jobs.len() ==> (#[trigger] jobs[i]).phase is Pending,
        forall|i: int| 0 <= i < jobs.len() ==> jobs[i].after(#[trigger] told[i]).phase is Finished,
    ensures
        outcome_count(jobs, told) == jobs.len(),
    decreases jobs.len(),
{
    if jobs.len() > 0 {
        let last = jobs.len() - 1;
        assert(jobs[last].phase is Pending);
        assert(jobs[last].after(told[last]).phase is Finished);
        lemma_one_outcome_per_job(jobs.last(), told.last());
        assert forall|i: int| 0 <= i < jobs.drop_last().len() implies jobs.drop_last()[i].after(
            #[trigger] told.drop_last()[i],
        ).phase is Finished by {
            assert(jobs[i].after(told[i]).phase is Finished);
        }
        lemma_one_outcome_each(jobs.drop_last(), told.drop_last());
    }
}

/// When every scheduled job runs to its end, the run sees exactly as many
/// outcomes as discoveries survived.
pub proof fn lemma_one_outcome_per_survivor(
    run: Run,
    founds: Seq<DiscoveryView>,
    told: Seq<Seq<EventView>>,
)
    requires
        told.len() == scheduled(run, founds).len(),
        forall|i: int|
            0 <= i < told.len() ==> scheduled(run, founds)[i].after(
                #[trigger] told[i],
            ).phase is Finished,
    ensures
        outcome_count(scheduled(run, founds), told) == founds.filter(
            |found: DiscoveryView| survives_discovery(run, found),
        ).len(),
{
    lemma_one_job_per_survivor(run, founds);
    lemma_one_outcome_each(scheduled(run, founds), told);
}

/// A file whose formatted text shows no difference leaves no trace in a run
/// that reports differences: the file is read, formatted and compared,
/// nothing is written, the outcome is clean, the sink does nothing, and the
/// exit code is what it was.
pub proof fn lemma_unchanged_file_is_clean(
    path: Seq<char>,
    color: bool,
    range: Option<FormatRange>,
    source: Seq<char>,
    formatted: Seq<char>,
    failed: bool,
)
    ensures
        ({
            let job = JobView::fresh(EntryView::File(path), true, color, range);
            let (job, first) = job.step(EventView::Started);
            let (job, second) = job.step(EventView::Read(Ok(source)));
            let (job, third) = job.step(EventView::Formatted(Ok(formatted)));
            let (job, fourth) = job.step(EventView::Diffed(Ok(None)));
            &&& first == Some(ActionView::ReadFile { path })
            &&& second == Some(ActionView::Format { source, range })
            &&& third == Some(
                ActionView::Diff {
                    source,
                    formatted,
                    context_lines: DIFF_CONTEXT_LINES,
                    header: diff_header(path),
                    color,
                },
            )
            &&& fourth == Some(ActionView::Emit(OutcomeView::Completed))
            &&& job.phase is Finished
        }),
        sink_action_of(OutcomeView::Completed) == SinkView::Nothing,
        failed_after(failed, RunEvent::Outcome(OutcomeView::Completed)) == failed,
{
}

/// A file whose formatted text differs, in a run that reports differences:
/// nothing is written to the file, the difference is rendered under a
/// header that names the file's path, the sink writes exactly that
/// difference, and the run has failed.
pub proof fn lemma_changed_file_is_reported(
    path: Seq<char>,
    color: bool,
    range: Option<FormatRange>,
    source: Seq<char>,
    formatted: Seq<char>,
    diff: Seq<u8>,
    failed: bool,
)
    ensures
        ({
            let job = JobView::fresh(EntryView::File(path), true, color, range);
            let (job, first) = job.step(EventView::Started);
            let (job, second) = job.step(EventView::Read(Ok(source)));
            let (job, third) = job.step(EventView::Formatted(Ok(formatted)));
            let (job, fourth) = job.step(EventView::Diffed(Ok(Some(diff))));
            &&& first == Some(ActionView::ReadFile { path })
            &&& second == Some(ActionView::Format { source, range })
            &&& third == Some(
                ActionView::Diff {
                    source,
                    formatted,
                    context_lines: DIFF_CONTEXT_LINES,
                    header: diff_header(path),
                    color,
                },
            )
            &&& fourth == Some(ActionView::Emit(OutcomeView::DiffAvailable(diff)))
            &&& job.phase is Finished
        }),
        sink_action_of(OutcomeView::DiffAvailable(diff)) == SinkView::WriteDiff(diff),
        failed_after(failed, RunEvent::Outcome(OutcomeView::DiffAvailable(diff))),
{
}

/// A file in a run that rewrites: the file at the same path is overwritten
/// with the formatted text, the outcome is clean, the sink does nothing,
/// and the exit code is what it was.
pub proof fn lemma_file_is_rewritten(
    path: Seq<char>,
    color: bool,
    range: Option<FormatRange>,
    source: Seq<char>,
    formatted: Seq<char>,
    failed: bool,
)
    ensures
        ({
            let job = JobView::fresh(EntryView::File(path), false, color, range);
            let (job, first) = job.step(EventView::Started);
            let (job, second) = job.step(EventView::Read(Ok(source)));
            let (job, third) = job.step(EventView::Formatted(Ok(formatted)));
            let (job, fourth) = job.step(EventView::Written(Ok(())));
            &&& first == Some(ActionView::ReadFile { path })
            &&& second == Some(ActionView::Format { source, range })
            &&& third == Some(ActionView::WriteFile { path, contents: formatted })
            &&& fourth == Some(ActionView::Emit(OutcomeView::Completed))
            &&& job.phase is Finished
        }),
        sink_action_of(OutcomeView::Completed) == SinkView::Nothing,
        failed_after(failed, RunEvent::Outcome(OutcomeView::Completed)) == failed,
{
}

/// Standard input in a run that rewrites: the formatted text goes to
/// standard output and nowhere else.
pub proof fn lemma_stdin_is_streamed(
    color: bool,
    range: Option<FormatRange>,
    source: Seq<char>,
    formatted: Seq<char>,
)
    ensures
        ({
            let job = JobView::fresh(EntryView::Stdin, false, color, range);
            let (job, first) = job.step(EventView::Started);
            let (job, second) = job.step(EventView::Read(Ok(source)));
            let (job, third) = job.step(EventView::Formatted(Ok(formatted)));
            let (job, fourth) = job.step(EventView::Written(Ok(())));
            &&& first == Some(ActionView::ReadStdin)
            &&& second == Some(ActionView::Format { source, range })
            &&& third == Some(ActionView::WriteStdout { contents: formatted })
            &&& fourth == Some(ActionView::Emit(OutcomeView::Completed))
            &&& job.phase is Finished
        }),
{
}

/// Differences against standard input are refused at the start: the job
/// asks for nothing to be read or written, ends with a failure that says
/// so, the sink logs it, and the run has failed. Nothing else in the run is
/// touched.
pub proof fn lemma_stdin_check_is_refused(color: bool, range: Option<FormatRange>, failed: bool)
    ensures
        ({
            let job = JobView::fresh(EntryView::Stdin, true, color, range);
            let (job, first) = job.step(EventView::Started);
            &&& first == Some(ActionView::Emit(OutcomeView::Failed(stdin_check_message())))
            &&& job.phase is Finished
        }),
        sink_action_of(OutcomeView::Failed(stdin_check_message())) == SinkView::LogError(
            stdin_check_message(),
        ),
        failed_after(failed, RunEvent::Outcome(OutcomeView::Failed(stdin_check_message()))),
{
}

/// The exit code of a run that was told `events` is 0 exactly when no event
/// spoils it, and 1 otherwise.
pub proof fn lemma_exit_code_of_run(events: Seq<RunEvent>)
    ensures
        exit_code_of(failed_after_all(false, events)) == (if exists|i: int|
            0 <= i < events.len() && (#[trigger] events[i]).spoils() {
            1int
        } else {
            0int
        }),
{
    lemma_failed_after_all(false, events);
}

} // verus!
