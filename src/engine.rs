//! The run's phases and the events that their outcomes produce. The caller
//! performs each phase's work and reports its outcome; the orchestrator
//! decides the next phase and what the consumer is told.
use vstd::prelude::*;

use crate::manifest::{FileInfo, Info};
use crate::plan::{local_has, must_download, synchronized, lemma_synchronized_plan_empty, DiffPlan};
use crate::progress::{AbortCause, DownloadCoordinator, ProgressEvent};
use crate::scan::is_ignored;

verus! {

/// Where a run stands.
#[derive(Clone, Copy, Debug, PartialEq, Eq, Structural)]
pub enum Phase {
    Idle,
    FetchingManifest,
    Scanning,
    Planning,
    Downloading,
    CleaningUp,
    Done,
    Aborted,
}

/// Whether no further work follows `p`.
pub open spec fn is_terminal(p: Phase) -> bool {
    p == Phase::Done || p == Phase::Aborted
}

/// The phase that follows `p` when its work succeeds.
pub open spec fn successor(p: Phase) -> Phase {
    match p {
        Phase::Idle => Phase::FetchingManifest,
        Phase::FetchingManifest => Phase::Scanning,
        Phase::Scanning => Phase::Planning,
        Phase::Planning => Phase::Downloading,
        Phase::Downloading => Phase::CleaningUp,
        Phase::CleaningUp => Phase::Done,
        Phase::Done => Phase::Done,
        Phase::Aborted => Phase::Aborted,
    }
}

/// The events that the outcome of phase `p` produces.
pub open spec fn events_after(p: Phase, outcome: Result<(), AbortCause>) -> Seq<ProgressEvent> {
    match outcome {
        Err(cause) => seq![ProgressEvent::Aborted(cause)],
        Ok(()) => if p == Phase::CleaningUp {
            seq![ProgressEvent::CleanupComplete, ProgressEvent::UpdateComplete]
        } else {
            Seq::empty()
        },
    }
}

/// Sequences the phases of one run.
pub struct Orchestrator {
    pub phase: Phase,
}

impl Orchestrator {
    /// A run that has not started.
    pub fn new() -> (r: Orchestrator)
        ensures
            r.phase == Phase::Idle,
    {
        Orchestrator { phase: Phase::Idle }
    }

    /// The current phase.
    pub fn phase(&self) -> (r: Phase)
        ensures
            r == self.phase,
    {
        self.phase
    }

    /// Whether the run has ended.
    pub fn finished(&self) -> (r: bool)
        ensures
            r == is_terminal(self.phase),
    {
        self.phase == Phase::Done || self.phase == Phase::Aborted
    }

    /// Takes the outcome of the current phase's work: success moves to the
    /// next phase, failure ends the run with an `Aborted` event and no further
    /// work. Ending the cleanup phase reports `CleanupComplete` and then
    /// `UpdateComplete`.
    pub fn advance(&mut self, outcome: Result<(), AbortCause>) -> (r: Vec<ProgressEvent>)
        requires
            !is_terminal(old(self).phase),
        ensures
            r@ == events_after(old(self).phase, outcome),
            final(self).phase == match outcome {
                Ok(()) => successor(old(self).phase),
                Err(_) => Phase::Aborted,
            },
    {
        let mut r: Vec<ProgressEvent> = Vec::new();
        match outcome {
            Err(cause) => {
                self.phase = Phase::Aborted;
                r.push(ProgressEvent::Aborted(cause));
                assert(r@ =~= seq![ProgressEvent::Aborted(cause)]);
            },
            Ok(()) => {
                let next = match self.phase {
                    Phase::Idle => Phase::FetchingManifest,
                    Phase::FetchingManifest => Phase::Scanning,
                    Phase::Scanning => Phase::Planning,
                    Phase::Planning => Phase::Downloading,
                    Phase::Downloading => Phase::CleaningUp,
                    Phase::CleaningUp => Phase::Done,
                    Phase::Done => Phase::Done,
                    Phase::Aborted => Phase::Aborted,
                };
                if self.phase == Phase::CleaningUp {
                    r.push(ProgressEvent::CleanupComplete);
                    r.push(ProgressEvent::UpdateComplete);
                    assert(r@ =~= seq![ProgressEvent::CleanupComplete, ProgressEvent::UpdateComplete]);
                } else {
                    assert(r@ =~= Seq::<ProgressEvent>::empty());
                }
                self.phase = next;
            },
        }
        r
    }
}

/// The coordinator `c` runs the download list of `plan`, entry for entry.
pub open spec fn runs_plan(c: DownloadCoordinator, plan: DiffPlan) -> bool {
    &&& c.transfers@.len() == plan.to_download@.len()
    &&& forall|k: int|
        0 <= k < c.transfers@.len() ==> (#[trigger] c.transfers@[k]).entry == plan.to_download@[k]
}

/// When every transfer of a plan has finished, each manifest entry that is not
/// ignored is either already present locally with its hash, or is the entry of
/// a finished transfer, whose content was checked against that hash.
pub proof fn lemma_completeness(
    info: Info,
    local: Seq<FileInfo>,
    plan: DiffPlan,
    c: DownloadCoordinator,
)
    requires
        plan.is_plan_of(info, local),
        runs_plan(c, plan),
        c.wf(),
        c.complete(),
    ensures
        forall|i: int|
            0 <= i < info.files@.len() && !is_ignored(
                (#[trigger] info.files@[i]).path@,
                info.ignored_files@,
            ) ==> local_has(local, info.files@[i].path@, info.files@[i].hash@) || exists|k: int|
                0 <= k < c.transfers@.len() && (#[trigger] c.transfers@[k]).entry
                    == info.files@[i] && c.transfers@[k].finished,
{
    let dl = |e: FileInfo| must_download(info.ignored_files@, local, e);
    assert forall|i: int|
        0 <= i < info.files@.len() && !is_ignored(
            (#[trigger] info.files@[i]).path@,
            info.ignored_files@,
        ) implies local_has(local, info.files@[i].path@, info.files@[i].hash@) || exists|k: int|
        0 <= k < c.transfers@.len() && (#[trigger] c.transfers@[k]).entry == info.files@[i]
            && c.transfers@[k].finished by {
        if !local_has(local, info.files@[i].path@, info.files@[i].hash@) {
            assert(dl(info.files@[i]));
            info.files@.lemma_filter_contains(dl, i);
            let k = choose|k: int|
                0 <= k < plan.to_download@.len() && plan.to_download@[k] == info.files@[i];
            assert(c.transfers@[k].entry == info.files@[i]);
        }
    }
}

/// Against an installation that already matches the manifest, a run has no
/// transfer (so no file is registered and no progress is reported), is
/// complete from the start, and deletes nothing.
pub proof fn lemma_synchronized_run_is_quiet(
    info: Info,
    local: Seq<FileInfo>,
    plan: DiffPlan,
    c: DownloadCoordinator,
)
    requires
        plan.is_plan_of(info, local),
        synchronized(info, local),
        runs_plan(c, plan),
    ensures
        c.transfers@.len() == 0,
        c.complete(),
        plan.to_delete@.len() == 0,
{
    lemma_synchronized_plan_empty(info, local, plan);
}

} // verus!
