//! The durable Unity migration run as a state machine: each step takes what
//! the last effect answered and names the next effect. The caller performs
//! the effects and feeds their answers back.

use vstd::prelude::*;

use crate::migration::{
    cancel_honoured, evidence_equal, recovery_required, recovery_required_error, evidence_same, failure_for_work, migration_failure, migration_honours_cancel,
    migration_next_work, phase_after_work, migration_checkpoint_after, migration_error, require_safe_writer,
    work_for_phase, M7UnityMigrationError, M7UnityMigrationErrorCode, MigrationFailure, MigrationWork,
    UnityMigrationEvidence, UnityMigrationPhase, UnityMigrationReobservation, UnityMigrationRecoveryDisposition,
};
use crate::unity::UnityWriterStateKind;
use crate::registry::ProjectObservation;

verus! {

/// What the run waits for.
#[derive(Clone, Copy, Debug, PartialEq, Eq, Structural)]
pub enum MigrationRunStage {
    /// The project lock is being taken.
    Locking,
    /// The cancellation request is being read.
    CheckingCancel,
    /// A closing effect runs; its answer ends the run.
    Finishing,
    /// The launch intent is being recorded.
    RecordingLaunchIntent,
    /// The target Editor is being spawned.
    Spawning,
    /// The spawn checkpoint is being recorded.
    RecordingStarted,
    /// The run waits for the Editor to exit.
    Waiting,
    /// The exit checkpoint is being recorded.
    RecordingExited,
    /// A piece of work runs.
    Working,
    /// The checkpoint after a piece of work is being recorded.
    RecordingWork,
    /// The project is being looked up for the preflight.
    LookingUpProject,
    /// The target installation is being looked up for the preflight.
    LookingUpInstallation,
    /// The project's Unity writer is being observed for the preflight.
    ObservingWriter,
    /// The plan is being revalidated against the project and installation.
    Revalidating,
    /// The reobserved project is being read again before its commit.
    Resuming,
    /// The recovery-required mark is being recorded.
    MarkingRecovery,
    /// The project is being observed after the launch intent.
    Observing,
    /// Changed pending evidence is being recorded.
    RecordingPending,
    /// The run waits before the next observation.
    Pausing,
    /// The reobserved project is being recorded.
    RecordingReobserved,
    /// The reobserved project is being committed.
    Committing,
    /// The unchanged evidence is being recorded.
    RecordingUnchanged,
    /// The run has ended.
    Ended,
}

/// A migration run: its stage, recorded phase, current evidence, the
/// reobserved project waiting to be committed, and the work in flight.
pub struct MigrationRunState {
    pub stage: MigrationRunStage,
    pub phase: UnityMigrationPhase,
    pub evidence: UnityMigrationEvidence,
    pub observation: Option<ProjectObservation>,
    pub work: MigrationWork,
}

/// What the last effect answered.
pub enum MigrationRunEvent {
    /// A cancellation request was read.
    CancelChecked { requested: bool },
    /// Whether the project was found for the preflight.
    ProjectFound { found: bool },
    /// Whether the target installation was found for the preflight.
    InstallationFound { found: bool },
    /// The writer state of the project, or `None` when it could not be observed.
    WriterObserved { state: Option<UnityWriterStateKind> },
    /// The plan's revalidation, or why it failed.
    Revalidated { result: Result<(), M7UnityMigrationError> },
    /// The project reobserved again on resume, or `None` when it could not be.
    Reobserved { reobserved: Option<UnityMigrationReobservation> },
    /// A piece of work ran: the new evidence, or why the work failed.
    Performed { outcome: Result<UnityMigrationEvidence, M7UnityMigrationError> },
    /// The project was observed after the launch intent; `None` when no
    /// disposition could be had.
    Observed { disposition: Option<UnityMigrationRecoveryDisposition> },
    /// The effect completed.
    Done,
    /// The store failed with this error.
    Failed { error: M7UnityMigrationError },
}

/// The next effect. Checkpoints, work, observation and the recovery mark
/// use the run's current evidence; a commit uses the run's reobserved
/// project with that evidence.
#[derive(Clone, Copy, Debug)]
pub enum MigrationRunAction {
    LockProject,
    CheckCancelled,
    FinishCancelled,
    FinishSuccess,
    RecordCheckpoint { phase: UnityMigrationPhase },
    Perform { work: MigrationWork },
    LookupProject,
    LookupInstallation,
    ObserveWriter,
    Revalidate,
    ResumeReobserved,
    FailBeforeIntent { failure: M7UnityMigrationError },
    MarkRecoveryRequired,
    Observe,
    Pause,
    CommitProject,
    FailUnchanged,
    /// The run ended with this result.
    Finish { result: Result<(), M7UnityMigrationError> },
    /// The run has already ended, or the answer did not fit the stage.
    Idle,
}

/// Ends the run with a result.
pub open spec fn migration_finish(s: MigrationRunState, result: Result<(), M7UnityMigrationError>) -> (
    MigrationRunState,
    MigrationRunAction,
) {
    (MigrationRunState { stage: MigrationRunStage::Ended, ..s }, MigrationRunAction::Finish { result })
}

/// Moves the run to a stage with an effect.
pub open spec fn migration_go(s: MigrationRunState, stage: MigrationRunStage, action: MigrationRunAction) -> (
    MigrationRunState,
    MigrationRunAction,
) {
    (MigrationRunState { stage, ..s }, action)
}

/// The work at the recorded phase: stop, finish, observe, record the launch
/// intent before a spawn, or run the work.
pub open spec fn migration_dispatch(s: MigrationRunState) -> (MigrationRunState, MigrationRunAction) {
    match work_for_phase(s.phase) {
        MigrationWork::Halt => migration_finish(s, Err(recovery_required_error())),
        MigrationWork::FinishSuccess => migration_go(s, MigrationRunStage::Finishing, MigrationRunAction::FinishSuccess),
        MigrationWork::ObserveAfterLaunch => migration_go(s, MigrationRunStage::Observing, MigrationRunAction::Observe),
        MigrationWork::Spawn => migration_go(
            s,
            MigrationRunStage::RecordingLaunchIntent,
            MigrationRunAction::RecordCheckpoint { phase: UnityMigrationPhase::LaunchIntent },
        ),
        MigrationWork::Preflight => (
            MigrationRunState { stage: MigrationRunStage::LookingUpProject, work: MigrationWork::Preflight, ..s },
            MigrationRunAction::LookupProject,
        ),
        MigrationWork::ResumeReobserved => (
            MigrationRunState { stage: MigrationRunStage::Resuming, work: MigrationWork::ResumeReobserved, ..s },
            MigrationRunAction::ResumeReobserved,
        ),
        w => (MigrationRunState { stage: MigrationRunStage::Working, work: w, ..s }, MigrationRunAction::Perform { work: w }),
    }
}

/// Fails a preflight plainly: nothing has touched the project yet.
pub open spec fn migration_preflight_failed(s: MigrationRunState, failure: M7UnityMigrationError) -> (
    MigrationRunState,
    MigrationRunAction,
) {
    migration_go(s, MigrationRunStage::Finishing, MigrationRunAction::FailBeforeIntent { failure })
}

/// The head of the run's loop: read the cancellation request where it is
/// honoured, else go on with the work at the recorded phase.
pub open spec fn migration_resume(s: MigrationRunState) -> (MigrationRunState, MigrationRunAction) {
    if cancel_honoured(s.phase, s.evidence.preparation_kind@) {
        migration_go(s, MigrationRunStage::CheckingCancel, MigrationRunAction::CheckCancelled)
    } else {
        migration_dispatch(s)
    }
}

/// A run that begins at a recorded phase with its evidence: a run recorded
/// as needing recovery stops at once; any other takes the project lock.
pub open spec fn migration_started(phase: UnityMigrationPhase, evidence: UnityMigrationEvidence) -> (
    MigrationRunState,
    MigrationRunAction,
) {
    let s = MigrationRunState {
        stage: MigrationRunStage::Locking,
        phase,
        evidence,
        observation: None,
        work: work_for_phase(phase),
    };
    if work_for_phase(phase) == MigrationWork::Halt {
        migration_finish(s, Err(recovery_required_error()))
    } else {
        (s, MigrationRunAction::LockProject)
    }
}

/// The answer to a closing effect ends the run with that answer.
pub open spec fn migration_closing(s: MigrationRunState, e: MigrationRunEvent, on_done: Result<(), M7UnityMigrationError>) -> (
    MigrationRunState,
    MigrationRunAction,
) {
    match e {
        MigrationRunEvent::Done => migration_finish(s, on_done),
        MigrationRunEvent::Failed { error } => migration_finish(s, Err(error)),
        _ => (s, MigrationRunAction::Idle),
    }
}

/// What an observation after the launch intent leads to.
pub open spec fn migration_observed(s: MigrationRunState, disposition: Option<UnityMigrationRecoveryDisposition>) -> (
    MigrationRunState,
    MigrationRunAction,
) {
    match disposition {
        None => migration_go(s, MigrationRunStage::MarkingRecovery, MigrationRunAction::MarkRecoveryRequired),
        Some(UnityMigrationRecoveryDisposition::Pending(next)) => if evidence_same(next, s.evidence) {
            (
                MigrationRunState { stage: MigrationRunStage::Pausing, evidence: next, ..s },
                MigrationRunAction::Pause,
            )
        } else {
            (
                MigrationRunState { stage: MigrationRunStage::RecordingPending, evidence: next, ..s },
                MigrationRunAction::RecordCheckpoint { phase: s.phase },
            )
        },
        Some(UnityMigrationRecoveryDisposition::ProjectReady(reobserved)) => (
            MigrationRunState {
                stage: MigrationRunStage::RecordingReobserved,
                evidence: reobserved.evidence,
                observation: Some(reobserved.observation),
                ..s
            },
            MigrationRunAction::RecordCheckpoint { phase: UnityMigrationPhase::ProjectReobserved },
        ),
        Some(UnityMigrationRecoveryDisposition::SafelyUnchanged(last)) => (
            MigrationRunState { stage: MigrationRunStage::RecordingUnchanged, evidence: last, ..s },
            MigrationRunAction::RecordCheckpoint { phase: s.phase },
        ),
        Some(UnityMigrationRecoveryDisposition::RecoveryRequired(last)) => (
            MigrationRunState { stage: MigrationRunStage::MarkingRecovery, evidence: last, ..s },
            MigrationRunAction::MarkRecoveryRequired,
        ),
    }
}

/// What a finished piece of work leads to.
pub open spec fn migration_performed(s: MigrationRunState, outcome: Result<UnityMigrationEvidence, M7UnityMigrationError>) -> (
    MigrationRunState,
    MigrationRunAction,
) {
    match outcome {
        Ok(next) => match phase_after_work(s.work) {
            Some(c) => (
                MigrationRunState { stage: MigrationRunStage::RecordingWork, evidence: next, ..s },
                MigrationRunAction::RecordCheckpoint { phase: c },
            ),
            None => migration_resume(MigrationRunState { evidence: next, ..s }),
        },
        Err(failure) => match failure_for_work(s.work) {
            MigrationFailure::FailBeforeIntent => migration_go(
                s,
                MigrationRunStage::Finishing,
                MigrationRunAction::FailBeforeIntent { failure },
            ),
            MigrationFailure::ObserveAfterLaunch => migration_resume(
                MigrationRunState { phase: UnityMigrationPhase::LaunchIntent, ..s },
            ),
            MigrationFailure::MarkRecoveryRequired => migration_go(
                s,
                MigrationRunStage::MarkingRecovery,
                MigrationRunAction::MarkRecoveryRequired,
            ),
        },
    }
}

/// One step of a migration run.
pub open spec fn migration_next(s: MigrationRunState, e: MigrationRunEvent) -> (MigrationRunState, MigrationRunAction) {
    let idle = (s, MigrationRunAction::Idle);
    match s.stage {
        MigrationRunStage::Ended => idle,
        MigrationRunStage::Finishing => migration_closing(s, e, Ok(())),
        MigrationRunStage::MarkingRecovery => migration_closing(s, e, Err(recovery_required_error())),
        _ => match e {
            MigrationRunEvent::Failed { error } => migration_finish(s, Err(error)),
            MigrationRunEvent::Done => match s.stage {
                MigrationRunStage::Locking => migration_resume(s),
                MigrationRunStage::RecordingLaunchIntent => (
                    MigrationRunState {
                        stage: MigrationRunStage::Spawning,
                        phase: UnityMigrationPhase::LaunchIntent,
                        work: MigrationWork::Spawn,
                        ..s
                    },
                    MigrationRunAction::Perform { work: MigrationWork::Spawn },
                ),
                MigrationRunStage::RecordingStarted => (
                    MigrationRunState { stage: MigrationRunStage::Waiting, work: MigrationWork::Wait, ..s },
                    MigrationRunAction::Perform { work: MigrationWork::Wait },
                ),
                MigrationRunStage::RecordingExited => migration_resume(
                    MigrationRunState { phase: UnityMigrationPhase::UnityExited, ..s },
                ),
                MigrationRunStage::RecordingWork => match phase_after_work(s.work) {
                    Some(c) => migration_resume(MigrationRunState { phase: c, ..s }),
                    None => migration_resume(s),
                },
                MigrationRunStage::RecordingPending => migration_go(s, MigrationRunStage::Pausing, MigrationRunAction::Pause),
                MigrationRunStage::Pausing => migration_go(s, MigrationRunStage::Observing, MigrationRunAction::Observe),
                MigrationRunStage::RecordingReobserved => migration_go(
                    s,
                    MigrationRunStage::Committing,
                    MigrationRunAction::CommitProject,
                ),
                MigrationRunStage::Committing => migration_resume(
                    MigrationRunState { phase: UnityMigrationPhase::StateCommitted, ..s },
                ),
                MigrationRunStage::RecordingUnchanged => migration_go(
                    s,
                    MigrationRunStage::Finishing,
                    MigrationRunAction::FailUnchanged,
                ),
                _ => idle,
            },
            MigrationRunEvent::CancelChecked { requested } => if s.stage == MigrationRunStage::CheckingCancel {
                if requested {
                    migration_go(s, MigrationRunStage::Finishing, MigrationRunAction::FinishCancelled)
                } else {
                    migration_dispatch(s)
                }
            } else {
                idle
            },
            MigrationRunEvent::Performed { outcome } => match s.stage {
                MigrationRunStage::Spawning => match outcome {
                    Ok(started) => (
                        MigrationRunState { stage: MigrationRunStage::RecordingStarted, evidence: started, ..s },
                        MigrationRunAction::RecordCheckpoint { phase: UnityMigrationPhase::UnityStarted },
                    ),
                    Err(_) => migration_resume(s),
                },
                MigrationRunStage::Waiting => match outcome {
                    Ok(exited) => (
                        MigrationRunState { stage: MigrationRunStage::RecordingExited, evidence: exited, ..s },
                        MigrationRunAction::RecordCheckpoint { phase: UnityMigrationPhase::UnityExited },
                    ),
                    Err(_) => migration_go(s, MigrationRunStage::MarkingRecovery, MigrationRunAction::MarkRecoveryRequired),
                },
                MigrationRunStage::Working => migration_performed(s, outcome),
                _ => idle,
            },
            MigrationRunEvent::ProjectFound { found } => if s.stage != MigrationRunStage::LookingUpProject {
                idle
            } else if found {
                migration_go(s, MigrationRunStage::LookingUpInstallation, MigrationRunAction::LookupInstallation)
            } else {
                migration_preflight_failed(s, migration_error(M7UnityMigrationErrorCode::ProjectNotRegistered))
            },
            MigrationRunEvent::InstallationFound { found } => if s.stage != MigrationRunStage::LookingUpInstallation {
                idle
            } else if found {
                migration_go(s, MigrationRunStage::ObservingWriter, MigrationRunAction::ObserveWriter)
            } else {
                migration_preflight_failed(s, migration_error(M7UnityMigrationErrorCode::InstallationNotFound))
            },
            MigrationRunEvent::WriterObserved { state } => if s.stage != MigrationRunStage::ObservingWriter {
                idle
            } else {
                match state {
                    None => migration_preflight_failed(s, migration_error(M7UnityMigrationErrorCode::Internal)),
                    Some(w) => if w == UnityWriterStateKind::NotObserved {
                        migration_go(s, MigrationRunStage::Revalidating, MigrationRunAction::Revalidate)
                    } else {
                        migration_preflight_failed(s, migration_error(M7UnityMigrationErrorCode::ProjectRunning))
                    },
                }
            },
            MigrationRunEvent::Revalidated { result } => if s.stage != MigrationRunStage::Revalidating {
                idle
            } else {
                match result {
                    Err(failure) => migration_preflight_failed(s, failure),
                    Ok(()) => migration_go(
                        s,
                        MigrationRunStage::RecordingWork,
                        MigrationRunAction::RecordCheckpoint { phase: UnityMigrationPhase::PreflightComplete },
                    ),
                }
            },
            MigrationRunEvent::Reobserved { reobserved } => if s.stage != MigrationRunStage::Resuming {
                idle
            } else {
                match reobserved {
                    None => migration_go(s, MigrationRunStage::MarkingRecovery, MigrationRunAction::MarkRecoveryRequired),
                    Some(r) => (
                        MigrationRunState {
                            stage: MigrationRunStage::Committing,
                            evidence: r.evidence,
                            observation: Some(r.observation),
                            ..s
                        },
                        MigrationRunAction::CommitProject,
                    ),
                }
            },
            MigrationRunEvent::Observed { disposition } => if s.stage == MigrationRunStage::Observing {
                migration_observed(s, disposition)
            } else {
                idle
            },
        },
    }
}


fn finish_exec(s: MigrationRunState, result: Result<(), M7UnityMigrationError>) -> (r: (MigrationRunState, MigrationRunAction))
    ensures
        r == migration_finish(s, result),
{
    (MigrationRunState { stage: MigrationRunStage::Ended, ..s }, MigrationRunAction::Finish { result })
}

fn go_exec(s: MigrationRunState, stage: MigrationRunStage, action: MigrationRunAction) -> (r: (MigrationRunState, MigrationRunAction))
    ensures
        r == migration_go(s, stage, action),
{
    (MigrationRunState { stage, ..s }, action)
}

fn dispatch_exec(s: MigrationRunState) -> (r: (MigrationRunState, MigrationRunAction))
    ensures
        r == migration_dispatch(s),
{
    let work = migration_next_work(s.phase);
    match work {
        MigrationWork::Halt => finish_exec(s, Err(recovery_required())),
        MigrationWork::FinishSuccess => go_exec(s, MigrationRunStage::Finishing, MigrationRunAction::FinishSuccess),
        MigrationWork::ObserveAfterLaunch => go_exec(s, MigrationRunStage::Observing, MigrationRunAction::Observe),
        MigrationWork::Spawn => go_exec(
            s,
            MigrationRunStage::RecordingLaunchIntent,
            MigrationRunAction::RecordCheckpoint { phase: UnityMigrationPhase::LaunchIntent },
        ),
        MigrationWork::Preflight => (
            MigrationRunState { stage: MigrationRunStage::LookingUpProject, work: MigrationWork::Preflight, ..s },
            MigrationRunAction::LookupProject,
        ),
        MigrationWork::ResumeReobserved => (
            MigrationRunState { stage: MigrationRunStage::Resuming, work: MigrationWork::ResumeReobserved, ..s },
            MigrationRunAction::ResumeReobserved,
        ),
        w => (MigrationRunState { stage: MigrationRunStage::Working, work: w, ..s }, MigrationRunAction::Perform { work: w }),
    }
}

fn resume_exec(s: MigrationRunState) -> (r: (MigrationRunState, MigrationRunAction))
    ensures
        r == migration_resume(s),
{
    if migration_honours_cancel(s.phase, s.evidence.preparation_kind.as_str()) {
        go_exec(s, MigrationRunStage::CheckingCancel, MigrationRunAction::CheckCancelled)
    } else {
        dispatch_exec(s)
    }
}

/// Begins a run at its recorded phase with its evidence.
pub fn migration_start(phase: UnityMigrationPhase, evidence: UnityMigrationEvidence) -> (r: (MigrationRunState, MigrationRunAction))
    ensures
        r == migration_started(phase, evidence),
{
    let work = migration_next_work(phase);
    let s = MigrationRunState { stage: MigrationRunStage::Locking, phase, evidence, observation: None, work };
    if work == MigrationWork::Halt {
        finish_exec(s, Err(recovery_required()))
    } else {
        (s, MigrationRunAction::LockProject)
    }
}

fn closing_exec(s: MigrationRunState, e: MigrationRunEvent, on_done: Result<(), M7UnityMigrationError>) -> (r: (MigrationRunState, MigrationRunAction))
    ensures
        r == migration_closing(s, e, on_done),
{
    match e {
        MigrationRunEvent::Done => finish_exec(s, on_done),
        MigrationRunEvent::Failed { error } => finish_exec(s, Err(error)),
        _ => (s, MigrationRunAction::Idle),
    }
}

fn observed_exec(s: MigrationRunState, disposition: Option<UnityMigrationRecoveryDisposition>) -> (r: (MigrationRunState, MigrationRunAction))
    ensures
        r == migration_observed(s, disposition),
{
    match disposition {
        None => go_exec(s, MigrationRunStage::MarkingRecovery, MigrationRunAction::MarkRecoveryRequired),
        Some(UnityMigrationRecoveryDisposition::Pending(next)) => {
            let phase = s.phase;
            if evidence_equal(&next, &s.evidence) {
                (MigrationRunState { stage: MigrationRunStage::Pausing, evidence: next, ..s }, MigrationRunAction::Pause)
            } else {
                (
                    MigrationRunState { stage: MigrationRunStage::RecordingPending, evidence: next, ..s },
                    MigrationRunAction::RecordCheckpoint { phase },
                )
            }
        },
        Some(UnityMigrationRecoveryDisposition::ProjectReady(reobserved)) => (
            MigrationRunState {
                stage: MigrationRunStage::RecordingReobserved,
                evidence: reobserved.evidence,
                observation: Some(reobserved.observation),
                ..s
            },
            MigrationRunAction::RecordCheckpoint { phase: UnityMigrationPhase::ProjectReobserved },
        ),
        Some(UnityMigrationRecoveryDisposition::SafelyUnchanged(last)) => {
            let phase = s.phase;
            (
                MigrationRunState { stage: MigrationRunStage::RecordingUnchanged, evidence: last, ..s },
                MigrationRunAction::RecordCheckpoint { phase },
            )
        },
        Some(UnityMigrationRecoveryDisposition::RecoveryRequired(last)) => (
            MigrationRunState { stage: MigrationRunStage::MarkingRecovery, evidence: last, ..s },
            MigrationRunAction::MarkRecoveryRequired,
        ),
    }
}

fn performed_exec(s: MigrationRunState, outcome: Result<UnityMigrationEvidence, M7UnityMigrationError>) -> (r: (MigrationRunState, MigrationRunAction))
    ensures
        r == migration_performed(s, outcome),
{
    match outcome {
        Ok(next) => match migration_checkpoint_after(s.work) {
            Some(c) => (
                MigrationRunState { stage: MigrationRunStage::RecordingWork, evidence: next, ..s },
                MigrationRunAction::RecordCheckpoint { phase: c },
            ),
            None => resume_exec(MigrationRunState { evidence: next, ..s }),
        },
        Err(failure) => match migration_failure(s.work) {
            MigrationFailure::FailBeforeIntent => go_exec(
                s,
                MigrationRunStage::Finishing,
                MigrationRunAction::FailBeforeIntent { failure },
            ),
            MigrationFailure::ObserveAfterLaunch => resume_exec(
                MigrationRunState { phase: UnityMigrationPhase::LaunchIntent, ..s },
            ),
            MigrationFailure::MarkRecoveryRequired => go_exec(
                s,
                MigrationRunStage::MarkingRecovery,
                MigrationRunAction::MarkRecoveryRequired,
            ),
        },
    }
}

fn done_exec(s: MigrationRunState) -> (r: (MigrationRunState, MigrationRunAction))
    requires
        s.stage != MigrationRunStage::Ended,
        s.stage != MigrationRunStage::Finishing,
        s.stage != MigrationRunStage::MarkingRecovery,
    ensures
        r == migration_next(s, MigrationRunEvent::Done),
{
    match s.stage {
        MigrationRunStage::Locking => resume_exec(s),
        MigrationRunStage::RecordingLaunchIntent => (
            MigrationRunState {
                stage: MigrationRunStage::Spawning,
                phase: UnityMigrationPhase::LaunchIntent,
                work: MigrationWork::Spawn,
                ..s
            },
            MigrationRunAction::Perform { work: MigrationWork::Spawn },
        ),
        MigrationRunStage::RecordingStarted => (
            MigrationRunState { stage: MigrationRunStage::Waiting, work: MigrationWork::Wait, ..s },
            MigrationRunAction::Perform { work: MigrationWork::Wait },
        ),
        MigrationRunStage::RecordingExited => resume_exec(MigrationRunState { phase: UnityMigrationPhase::UnityExited, ..s }),
        MigrationRunStage::RecordingWork => match migration_checkpoint_after(s.work) {
            Some(c) => resume_exec(MigrationRunState { phase: c, ..s }),
            None => resume_exec(s),
        },
        MigrationRunStage::RecordingPending => go_exec(s, MigrationRunStage::Pausing, MigrationRunAction::Pause),
        MigrationRunStage::Pausing => go_exec(s, MigrationRunStage::Observing, MigrationRunAction::Observe),
        MigrationRunStage::RecordingReobserved => go_exec(s, MigrationRunStage::Committing, MigrationRunAction::CommitProject),
        MigrationRunStage::Committing => resume_exec(MigrationRunState { phase: UnityMigrationPhase::StateCommitted, ..s }),
        MigrationRunStage::RecordingUnchanged => go_exec(s, MigrationRunStage::Finishing, MigrationRunAction::FailUnchanged),
        _ => (s, MigrationRunAction::Idle),
    }
}

/// One step of a migration run: from what the last effect answered to the
/// run's next state and effect.
pub fn migration_step(s: MigrationRunState, e: MigrationRunEvent) -> (r: (MigrationRunState, MigrationRunAction))
    ensures
        r == migration_next(s, e),
{
    match s.stage {
        MigrationRunStage::Ended => (s, MigrationRunAction::Idle),
        MigrationRunStage::Finishing => closing_exec(s, e, Ok(())),
        MigrationRunStage::MarkingRecovery => closing_exec(s, e, Err(recovery_required())),
        _ => match e {
            MigrationRunEvent::Failed { error } => finish_exec(s, Err(error)),
            MigrationRunEvent::Done => done_exec(s),
            MigrationRunEvent::CancelChecked { requested } => if s.stage == MigrationRunStage::CheckingCancel {
                if requested {
                    go_exec(s, MigrationRunStage::Finishing, MigrationRunAction::FinishCancelled)
                } else {
                    dispatch_exec(s)
                }
            } else {
                (s, MigrationRunAction::Idle)
            },
            MigrationRunEvent::Performed { outcome } => match s.stage {
                MigrationRunStage::Spawning => match outcome {
                    Ok(started) => (
                        MigrationRunState { stage: MigrationRunStage::RecordingStarted, evidence: started, ..s },
                        MigrationRunAction::RecordCheckpoint { phase: UnityMigrationPhase::UnityStarted },
                    ),
                    Err(_) => resume_exec(s),
                },
                MigrationRunStage::Waiting => match outcome {
                    Ok(exited) => (
                        MigrationRunState { stage: MigrationRunStage::RecordingExited, evidence: exited, ..s },
                        MigrationRunAction::RecordCheckpoint { phase: UnityMigrationPhase::UnityExited },
                    ),
                    Err(_) => go_exec(s, MigrationRunStage::MarkingRecovery, MigrationRunAction::MarkRecoveryRequired),
                },
                MigrationRunStage::Working => performed_exec(s, outcome),
                _ => (s, MigrationRunAction::Idle),
            },
            MigrationRunEvent::ProjectFound { found } => if s.stage != MigrationRunStage::LookingUpProject {
                (s, MigrationRunAction::Idle)
            } else if found {
                go_exec(s, MigrationRunStage::LookingUpInstallation, MigrationRunAction::LookupInstallation)
            } else {
                let failure = M7UnityMigrationError::new(M7UnityMigrationErrorCode::ProjectNotRegistered);
                go_exec(s, MigrationRunStage::Finishing, MigrationRunAction::FailBeforeIntent { failure })
            },
            MigrationRunEvent::InstallationFound { found } => if s.stage != MigrationRunStage::LookingUpInstallation {
                (s, MigrationRunAction::Idle)
            } else if found {
                go_exec(s, MigrationRunStage::ObservingWriter, MigrationRunAction::ObserveWriter)
            } else {
                let failure = M7UnityMigrationError::new(M7UnityMigrationErrorCode::InstallationNotFound);
                go_exec(s, MigrationRunStage::Finishing, MigrationRunAction::FailBeforeIntent { failure })
            },
            MigrationRunEvent::WriterObserved { state } => {
                if s.stage != MigrationRunStage::ObservingWriter {
                    return (s, MigrationRunAction::Idle);
                }
                match state {
                    None => {
                        let failure = M7UnityMigrationError::new(M7UnityMigrationErrorCode::Internal);
                        go_exec(s, MigrationRunStage::Finishing, MigrationRunAction::FailBeforeIntent { failure })
                    },
                    Some(w) => match require_safe_writer(w) {
                        Ok(()) => go_exec(s, MigrationRunStage::Revalidating, MigrationRunAction::Revalidate),
                        Err(failure) => go_exec(
                            s,
                            MigrationRunStage::Finishing,
                            MigrationRunAction::FailBeforeIntent { failure },
                        ),
                    },
                }
            },
            MigrationRunEvent::Revalidated { result } => {
                if s.stage != MigrationRunStage::Revalidating {
                    return (s, MigrationRunAction::Idle);
                }
                match result {
                    Err(failure) => go_exec(s, MigrationRunStage::Finishing, MigrationRunAction::FailBeforeIntent { failure }),
                    Ok(()) => go_exec(
                        s,
                        MigrationRunStage::RecordingWork,
                        MigrationRunAction::RecordCheckpoint { phase: UnityMigrationPhase::PreflightComplete },
                    ),
                }
            },
            MigrationRunEvent::Reobserved { reobserved } => {
                if s.stage != MigrationRunStage::Resuming {
                    return (s, MigrationRunAction::Idle);
                }
                match reobserved {
                    None => go_exec(s, MigrationRunStage::MarkingRecovery, MigrationRunAction::MarkRecoveryRequired),
                    Some(r) => (
                        MigrationRunState {
                            stage: MigrationRunStage::Committing,
                            evidence: r.evidence,
                            observation: Some(r.observation),
                            ..s
                        },
                        MigrationRunAction::CommitProject,
                    ),
                }
            },
            MigrationRunEvent::Observed { disposition } => if s.stage == MigrationRunStage::Observing {
                observed_exec(s, disposition)
            } else {
                (s, MigrationRunAction::Idle)
            },
        },
    }
}


/// A migration run spawns the target Editor only right after its launch
/// intent was recorded; commits the project only right after recording the
/// reobserved project, or after reading it again on resume; records the
/// preflight, after revalidating, only when the plan passed; and ends a run it found
/// recorded as needing recovery without any other effect.
pub proof fn migration_run_spawns_and_commits_only_after_their_checkpoints(s: MigrationRunState, e: MigrationRunEvent)
    ensures
        migration_next(s, e).1 matches MigrationRunAction::Perform { work: MigrationWork::Spawn }
            ==> s.stage == MigrationRunStage::RecordingLaunchIntent,
        migration_next(s, e).1 is CommitProject ==> s.stage == MigrationRunStage::RecordingReobserved || (s.stage
            == MigrationRunStage::Resuming && e matches MigrationRunEvent::Reobserved { reobserved: Some(_) }),
        s.stage == MigrationRunStage::Revalidating ==> (migration_next(s, e).1 matches MigrationRunAction::RecordCheckpoint {
            phase: UnityMigrationPhase::PreflightComplete,
        } <==> e matches MigrationRunEvent::Revalidated { result: Ok(()) }),
        forall|phase: UnityMigrationPhase, evidence: UnityMigrationEvidence|
            phase == UnityMigrationPhase::RecoveryRequired ==> (#[trigger] migration_started(phase, evidence)).1
                is Finish,
{
}


/// A cancellation the owner requested where the run checks for one ends the
/// migration cancelled and successfully, with no further work; without a
/// request the run goes on to its work.
pub proof fn migration_cancellation_ends_cancelled(s: MigrationRunState)
    requires
        s.stage == MigrationRunStage::CheckingCancel,
    ensures
        migration_next(s, MigrationRunEvent::CancelChecked { requested: true }).1 is FinishCancelled,
        migration_next(migration_next(s, MigrationRunEvent::CancelChecked { requested: true }).0, MigrationRunEvent::Done).1
            matches MigrationRunAction::Finish { result: Ok(()) },
        !(migration_next(s, MigrationRunEvent::CancelChecked { requested: false }).1 is FinishCancelled),
{
}

} // verus!
