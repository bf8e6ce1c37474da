//! Durable project directory delete: plans, the phases of a delete
//! Operation, the checks that gate it and the decisions of its worker.

use vstd::prelude::*;

use crate::access::AccessContext;
use crate::domain::{IdempotencyKey, Permission, PrincipalId, Revision};
use crate::ids::{OperationId, PlanId, ProjectId};
use crate::registry::{M3Error, M3ErrorCode, ProjectRecord};
use crate::unity::{UnityWriterState, UnityWriterStateKind};

verus! {

/// How long a project delete plan stays valid.
pub const PROJECT_DELETE_PLAN_EXPIRY_MS: u64 = 900_000;

#[derive(Clone, Debug, PartialEq, Eq)]
pub struct ProjectDeletePlanDraft {
    pub plan_id: PlanId,
    pub project: ProjectRecord,
    pub root_identity: Vec<u8>,
    pub canonical_parent_path: String,
    pub parent_identity: Vec<u8>,
    pub parent_identity_sha256: [u8; 32],
    pub normalized_leaf: String,
    pub project_marker_sha256: [u8; 32],
    pub writer_evidence: UnityWriterState,
    pub profile_version: u32,
    pub plan_fingerprint: [u8; 32],
    pub plan_json: String,
    pub plan_idempotency_key: IdempotencyKey,
    pub created_at_ms: u64,
    pub expires_at_ms: u64,
}

#[derive(Clone, Debug, PartialEq, Eq)]
pub struct ProjectDeletePlanRecord {
    pub draft: ProjectDeletePlanDraft,
    pub owner: PrincipalId,
}

#[derive(Clone, Debug, PartialEq, Eq)]
pub struct ProjectDeletePlanOutcome {
    pub plan: ProjectDeletePlanRecord,
    pub replayed: bool,
}

#[derive(Clone, Debug, PartialEq, Eq)]
pub struct ProjectDeleteApplyOutcome {
    pub operation_id: OperationId,
    pub project_id: ProjectId,
    pub replayed: bool,
    pub schedule: bool,
}

/// Durable checkpoint of a project delete Operation.
#[derive(Clone, Copy, Debug, PartialEq, Eq, Structural)]
pub enum ProjectDeletePhase {
    Accepted,
    PreflightComplete,
    QuarantineIntent,
    RootQuarantined,
    RegistryCommitIntent,
    StateCommitted,
    Deleting,
    CleanupComplete,
    RecoveryRequired,
}

/// The stable name of each `ProjectDeletePhase`.
pub open spec fn delete_phase_name(value: ProjectDeletePhase) -> Seq<char> {
    match value {
        ProjectDeletePhase::Accepted => "accepted"@,
        ProjectDeletePhase::PreflightComplete => "preflight_complete"@,
        ProjectDeletePhase::QuarantineIntent => "quarantine_intent"@,
        ProjectDeletePhase::RootQuarantined => "root_quarantined"@,
        ProjectDeletePhase::RegistryCommitIntent => "registry_commit_intent"@,
        ProjectDeletePhase::StateCommitted => "state_committed"@,
        ProjectDeletePhase::Deleting => "deleting"@,
        ProjectDeletePhase::CleanupComplete => "cleanup_complete"@,
        ProjectDeletePhase::RecoveryRequired => "recovery_required"@,
    }
}

impl ProjectDeletePhase {
    /// Stable transport-neutral name.
    pub fn as_str(self) -> (r: &'static str)
        ensures
            r@ == delete_phase_name(self),
    {
        match self {
            ProjectDeletePhase::Accepted => "accepted",
            ProjectDeletePhase::PreflightComplete => "preflight_complete",
            ProjectDeletePhase::QuarantineIntent => "quarantine_intent",
            ProjectDeletePhase::RootQuarantined => "root_quarantined",
            ProjectDeletePhase::RegistryCommitIntent => "registry_commit_intent",
            ProjectDeletePhase::StateCommitted => "state_committed",
            ProjectDeletePhase::Deleting => "deleting",
            ProjectDeletePhase::CleanupComplete => "cleanup_complete",
            ProjectDeletePhase::RecoveryRequired => "recovery_required",
        }
    }
}

#[derive(Clone, Debug, PartialEq, Eq)]
pub struct ProjectDeleteFilesystemEvidence {
    pub quarantine_locator: String,
    pub quarantine_identity: Option<Vec<u8>>,
    pub entry_count: Option<u64>,
    pub safe_evidence: Vec<String>,
}

#[derive(Clone, Debug, PartialEq, Eq)]
pub struct ProjectDeleteOperationRecord {
    pub plan: ProjectDeletePlanRecord,
    pub phase: ProjectDeletePhase,
    pub evidence: ProjectDeleteFilesystemEvidence,
}

/// Safe project delete failure codes.
#[derive(Clone, Copy, Debug, PartialEq, Eq, Structural)]
pub enum M7DeleteErrorCode {
    InvalidInput,
    PermissionDenied,
    ProjectNotRegistered,
    RevisionConflict,
    UnityProjectRunning,
    IdempotencyConflict,
    ProjectDeletePlanNotFound,
    ProjectDeletePlanStale,
    ProjectDeleteSourceMissing,
    ProjectDeleteSourceUnsafe,
    ProjectDeleteSourceChanged,
    ProjectDeleteRecoveryRequired,
    StoreUnavailable,
    Internal,
}

/// Safe project delete error.
#[derive(Clone, Copy, Debug, PartialEq, Eq, Structural)]
pub struct M7DeleteError(M7DeleteErrorCode);

impl M7DeleteError {
    pub closed spec fn spec_code(self) -> M7DeleteErrorCode {
        self.0
    }

    pub fn new(code: M7DeleteErrorCode) -> (r: Self)
        ensures
            r.spec_code() == code,
    {
        M7DeleteError(code)
    }

    pub fn code(self) -> (r: M7DeleteErrorCode)
        ensures
            r == self.spec_code(),
    {
        self.0
    }
}

/// Maps a project delete error code to the public name it is reported under.
pub open spec fn delete_error_name(code: M7DeleteErrorCode) -> Seq<char> {
    match code {
        M7DeleteErrorCode::InvalidInput => "invalid_request"@,
        M7DeleteErrorCode::PermissionDenied => "permission_denied"@,
        M7DeleteErrorCode::ProjectNotRegistered => "project_not_registered"@,
        M7DeleteErrorCode::RevisionConflict => "revision_conflict"@,
        M7DeleteErrorCode::UnityProjectRunning => "unity_project_running"@,
        M7DeleteErrorCode::IdempotencyConflict => "idempotency_conflict"@,
        M7DeleteErrorCode::ProjectDeletePlanNotFound => "project_delete_plan_not_found"@,
        M7DeleteErrorCode::ProjectDeletePlanStale => "project_delete_plan_stale"@,
        M7DeleteErrorCode::ProjectDeleteSourceMissing => "project_delete_source_missing"@,
        M7DeleteErrorCode::ProjectDeleteSourceUnsafe => "project_delete_source_unsafe"@,
        M7DeleteErrorCode::ProjectDeleteSourceChanged => "project_delete_source_changed"@,
        M7DeleteErrorCode::ProjectDeleteRecoveryRequired => "project_delete_recovery_required"@,
        M7DeleteErrorCode::StoreUnavailable => "store_unavailable"@,
        M7DeleteErrorCode::Internal => "internal_error"@,
    }
}

/// The public error name of a project delete failure code.
pub fn project_delete_error_name(code: M7DeleteErrorCode) -> (r: &'static str)
    ensures
        r@ == delete_error_name(code),
{
    match code {
        M7DeleteErrorCode::InvalidInput => "invalid_request",
        M7DeleteErrorCode::PermissionDenied => "permission_denied",
        M7DeleteErrorCode::ProjectNotRegistered => "project_not_registered",
        M7DeleteErrorCode::RevisionConflict => "revision_conflict",
        M7DeleteErrorCode::UnityProjectRunning => "unity_project_running",
        M7DeleteErrorCode::IdempotencyConflict => "idempotency_conflict",
        M7DeleteErrorCode::ProjectDeletePlanNotFound => "project_delete_plan_not_found",
        M7DeleteErrorCode::ProjectDeletePlanStale => "project_delete_plan_stale",
        M7DeleteErrorCode::ProjectDeleteSourceMissing => "project_delete_source_missing",
        M7DeleteErrorCode::ProjectDeleteSourceUnsafe => "project_delete_source_unsafe",
        M7DeleteErrorCode::ProjectDeleteSourceChanged => "project_delete_source_changed",
        M7DeleteErrorCode::ProjectDeleteRecoveryRequired => "project_delete_recovery_required",
        M7DeleteErrorCode::StoreUnavailable => "store_unavailable",
        M7DeleteErrorCode::Internal => "internal_error",
    }
}

/// Position of a delete phase in the durable sequence.
pub open spec fn delete_phase_rank(phase: ProjectDeletePhase) -> int {
    match phase {
        ProjectDeletePhase::Accepted => 0,
        ProjectDeletePhase::PreflightComplete => 1,
        ProjectDeletePhase::QuarantineIntent => 2,
        ProjectDeletePhase::RootQuarantined => 3,
        ProjectDeletePhase::RegistryCommitIntent => 4,
        ProjectDeletePhase::StateCommitted => 5,
        ProjectDeletePhase::Deleting => 6,
        ProjectDeletePhase::CleanupComplete => 7,
        ProjectDeletePhase::RecoveryRequired => 8,
    }
}

/// Phases from the quarantine intent on, when the project root may already be moved.
pub open spec fn delete_at_or_after_intent(phase: ProjectDeletePhase) -> bool {
    !(phase == ProjectDeletePhase::Accepted || phase == ProjectDeletePhase::PreflightComplete)
}

/// Whether a delete phase is at or after the quarantine intent.
pub fn delete_phase_at_or_after_intent(phase: ProjectDeletePhase) -> (r: bool)
    ensures
        r == delete_at_or_after_intent(phase),
{
    !(phase == ProjectDeletePhase::Accepted || phase == ProjectDeletePhase::PreflightComplete)
}

/// The effect a project delete run awaits the answer of.
#[derive(Clone, Copy, Debug, PartialEq, Eq, Structural)]
pub enum DeleteRunStage {
    Start,
    Beginning,
    Locking,
    Revalidating,
    Preflighting,
    PreflightRecorded,
    FirstCancelCheck,
    Rechecking,
    SecondCancelCheck,
    IntentRecorded,
    Quarantining,
    QuarantinedRecorded,
    ValidatingQuarantine,
    CommitIntentRecorded,
    Committing,
    DeletingRecorded,
    CleaningUp,
    CleanupRecorded,
    FinishingSuccess,
    Discarding,
    FinishingCancelled,
    Ended,
}

/// The state of a project delete run: its stage, the phase the store held
/// when it began and the last checkpoint it recorded.
#[derive(Clone, Copy, Debug, PartialEq, Eq, Structural)]
pub struct DeleteRun {
    pub stage: DeleteRunStage,
    pub start: ProjectDeletePhase,
    pub last_checkpoint: Option<ProjectDeletePhase>,
}

/// What the awaited effect of a delete run answered.
#[derive(Clone, Copy, Debug, PartialEq, Eq, Structural)]
pub enum DeleteRunEvent {
    /// The worker picked the Operation up.
    Started,
    /// The store began the Operation at this phase.
    Begun { phase: ProjectDeletePhase },
    /// Whether the owner asked to cancel the Operation.
    CancelChecked { requested: bool },
    /// The effect completed.
    Done,
    /// The effect failed.
    Failed { code: M7DeleteErrorCode },
}

/// The next effect of a project delete run.
#[derive(Clone, Copy, Debug, PartialEq, Eq, Structural)]
pub enum DeleteRunAction {
    Begin,
    LockResources,
    RevalidatePlan,
    Preflight,
    RecordCheckpoint { phase: ProjectDeletePhase },
    CheckCancelled,
    Quarantine,
    ValidateQuarantine,
    Commit,
    Cleanup,
    FinishSuccess,
    Discard,
    FinishCancelled,
    /// The run ended and the Operation succeeded or was cancelled.
    Succeed,
    /// The run ended and the Operation failed with this code.
    RecordFailure { code: M7DeleteErrorCode },
    /// The run has already ended.
    Idle,
}

/// A delete run that has not started yet.
pub fn delete_run_new() -> (r: DeleteRun)
    ensures
        r.stage == DeleteRunStage::Start,
        r.start == ProjectDeletePhase::Accepted,
        r.last_checkpoint is None,
{
    DeleteRun { stage: DeleteRunStage::Start, start: ProjectDeletePhase::Accepted, last_checkpoint: None }
}

/// Moves a delete run to a stage with an effect.
pub open spec fn delete_go(run: DeleteRun, stage: DeleteRunStage, action: DeleteRunAction) -> (DeleteRun, DeleteRunAction) {
    (DeleteRun { stage: stage, ..run }, action)
}

/// Moves a delete run to a stage with an effect.
pub fn delete_go_exec(run: DeleteRun, stage: DeleteRunStage, action: DeleteRunAction) -> (r: (DeleteRun, DeleteRunAction))
    ensures
        r == delete_go(run, stage, action),
{
    (DeleteRun { stage: stage, ..run }, action)
}

/// Records a delete checkpoint.
pub open spec fn delete_record(run: DeleteRun, stage: DeleteRunStage, phase: ProjectDeletePhase) -> (DeleteRun, DeleteRunAction) {
    (DeleteRun { stage: stage, last_checkpoint: Some(phase), ..run }, DeleteRunAction::RecordCheckpoint { phase: phase })
}

/// Records a delete checkpoint.
pub fn delete_record_exec(run: DeleteRun, stage: DeleteRunStage, phase: ProjectDeletePhase) -> (r: (DeleteRun, DeleteRunAction))
    ensures
        r == delete_record(run, stage, phase),
{
    (DeleteRun { stage: stage, last_checkpoint: Some(phase), ..run }, DeleteRunAction::RecordCheckpoint { phase: phase })
}

/// Ends a delete run with a failure.
pub open spec fn delete_end(run: DeleteRun, code: M7DeleteErrorCode) -> (DeleteRun, DeleteRunAction) {
    (DeleteRun { stage: DeleteRunStage::Ended, ..run }, DeleteRunAction::RecordFailure { code: code })
}

/// Ends a delete run with a failure.
pub fn delete_end_exec(run: DeleteRun, code: M7DeleteErrorCode) -> (r: (DeleteRun, DeleteRunAction))
    ensures
        r == delete_end(run, code),
{
    (DeleteRun { stage: DeleteRunStage::Ended, ..run }, DeleteRunAction::RecordFailure { code: code })
}

/// With the root quarantined: commit the deletion unless it is already committed, then record the deletion.
pub open spec fn delete_to_commit(run: DeleteRun) -> (DeleteRun, DeleteRunAction) {
    if !(run.start == ProjectDeletePhase::StateCommitted || run.start == ProjectDeletePhase::Deleting || run.start == ProjectDeletePhase::CleanupComplete) {
        delete_record(run, DeleteRunStage::CommitIntentRecorded, ProjectDeletePhase::RegistryCommitIntent)
    } else {
        delete_record(run, DeleteRunStage::DeletingRecorded, ProjectDeletePhase::Deleting)
    }
}

/// Continues a delete run at its commit.
pub fn delete_to_commit_exec(run: DeleteRun) -> (r: (DeleteRun, DeleteRunAction))
    ensures
        r == delete_to_commit(run),
{
    if !(run.start == ProjectDeletePhase::StateCommitted || run.start == ProjectDeletePhase::Deleting || run.start == ProjectDeletePhase::CleanupComplete) {
        delete_record_exec(run, DeleteRunStage::CommitIntentRecorded, ProjectDeletePhase::RegistryCommitIntent)
    } else {
        delete_record_exec(run, DeleteRunStage::DeletingRecorded, ProjectDeletePhase::Deleting)
    }
}

/// A root not yet quarantined is revalidated before its intent; a quarantined one is validated.
pub open spec fn delete_to_quarantine(run: DeleteRun) -> (DeleteRun, DeleteRunAction) {
    if run.start == ProjectDeletePhase::Accepted || run.start == ProjectDeletePhase::PreflightComplete {
        delete_go(run, DeleteRunStage::Rechecking, DeleteRunAction::RevalidatePlan)
    } else {
        delete_go(run, DeleteRunStage::ValidatingQuarantine, DeleteRunAction::ValidateQuarantine)
    }
}

/// Continues a delete run at its quarantine.
pub fn delete_to_quarantine_exec(run: DeleteRun) -> (r: (DeleteRun, DeleteRunAction))
    ensures
        r == delete_to_quarantine(run),
{
    if run.start == ProjectDeletePhase::Accepted || run.start == ProjectDeletePhase::PreflightComplete {
        delete_go_exec(run, DeleteRunStage::Rechecking, DeleteRunAction::RevalidatePlan)
    } else {
        delete_go_exec(run, DeleteRunStage::ValidatingQuarantine, DeleteRunAction::ValidateQuarantine)
    }
}

/// Before the quarantine intent a cancellation is honoured after the preflight.
pub open spec fn delete_to_first_cancel(run: DeleteRun) -> (DeleteRun, DeleteRunAction) {
    if !delete_at_or_after_intent(run.start) {
        delete_go(run, DeleteRunStage::FirstCancelCheck, DeleteRunAction::CheckCancelled)
    } else {
        delete_to_quarantine(run)
    }
}

/// Continues a delete run at its first cancellation check.
pub fn delete_to_first_cancel_exec(run: DeleteRun) -> (r: (DeleteRun, DeleteRunAction))
    ensures
        r == delete_to_first_cancel(run),
{
    if !delete_phase_at_or_after_intent(run.start) {
        delete_go_exec(run, DeleteRunStage::FirstCancelCheck, DeleteRunAction::CheckCancelled)
    } else {
        delete_to_quarantine_exec(run)
    }
}

/// The transition of a project delete run on the answer to its effect.
pub open spec fn delete_next(run: DeleteRun, event: DeleteRunEvent) -> (DeleteRun, DeleteRunAction) {
    match run.stage {
        DeleteRunStage::Start => match event {
            DeleteRunEvent::Started => delete_go(run, DeleteRunStage::Beginning, DeleteRunAction::Begin),
            _ => delete_end(run, M7DeleteErrorCode::Internal),
        },
        DeleteRunStage::Beginning => match event {
            DeleteRunEvent::Begun { phase } => (DeleteRun { stage: DeleteRunStage::Locking, start: phase, ..run }, DeleteRunAction::LockResources),
            DeleteRunEvent::Failed { code } => delete_end(run, code),
            _ => delete_end(run, M7DeleteErrorCode::Internal),
        },
        DeleteRunStage::Locking => match event {
            DeleteRunEvent::Done => if run.start == ProjectDeletePhase::CleanupComplete {
                delete_go(run, DeleteRunStage::FinishingSuccess, DeleteRunAction::FinishSuccess)
            } else if run.start == ProjectDeletePhase::Accepted {
                delete_go(run, DeleteRunStage::Revalidating, DeleteRunAction::RevalidatePlan)
            } else {
                delete_to_first_cancel(run)
            },
            DeleteRunEvent::Failed { code } => delete_end(run, code),
            _ => delete_end(run, M7DeleteErrorCode::Internal),
        },
        DeleteRunStage::Revalidating => match event {
            DeleteRunEvent::Done => delete_go(run, DeleteRunStage::Preflighting, DeleteRunAction::Preflight),
            DeleteRunEvent::Failed { code } => delete_end(run, code),
            _ => delete_end(run, M7DeleteErrorCode::Internal),
        },
        DeleteRunStage::Preflighting => match event {
            DeleteRunEvent::Done => delete_record(run, DeleteRunStage::PreflightRecorded, ProjectDeletePhase::PreflightComplete),
            DeleteRunEvent::Failed { code } => delete_end(run, code),
            _ => delete_end(run, M7DeleteErrorCode::Internal),
        },
        DeleteRunStage::PreflightRecorded => match event {
            DeleteRunEvent::Done => delete_to_first_cancel(run),
            DeleteRunEvent::Failed { code } => delete_end(run, code),
            _ => delete_end(run, M7DeleteErrorCode::Internal),
        },
        DeleteRunStage::FirstCancelCheck => match event {
            DeleteRunEvent::CancelChecked { requested } => if requested {
                delete_go(run, DeleteRunStage::Discarding, DeleteRunAction::Discard)
            } else {
                delete_to_quarantine(run)
            },
            DeleteRunEvent::Failed { code } => delete_end(run, code),
            _ => delete_end(run, M7DeleteErrorCode::Internal),
        },
        DeleteRunStage::Rechecking => match event {
            DeleteRunEvent::Done => delete_go(run, DeleteRunStage::SecondCancelCheck, DeleteRunAction::CheckCancelled),
            DeleteRunEvent::Failed { code } => delete_end(run, code),
            _ => delete_end(run, M7DeleteErrorCode::Internal),
        },
        DeleteRunStage::SecondCancelCheck => match event {
            DeleteRunEvent::CancelChecked { requested } => if requested {
                delete_go(run, DeleteRunStage::Discarding, DeleteRunAction::Discard)
            } else {
                delete_record(run, DeleteRunStage::IntentRecorded, ProjectDeletePhase::QuarantineIntent)
            },
            DeleteRunEvent::Failed { code } => delete_end(run, code),
            _ => delete_end(run, M7DeleteErrorCode::Internal),
        },
        DeleteRunStage::IntentRecorded => match event {
            DeleteRunEvent::Done => delete_go(run, DeleteRunStage::Quarantining, DeleteRunAction::Quarantine),
            DeleteRunEvent::Failed { code } => delete_end(run, code),
            _ => delete_end(run, M7DeleteErrorCode::Internal),
        },
        DeleteRunStage::Quarantining => match event {
            DeleteRunEvent::Done => delete_record(run, DeleteRunStage::QuarantinedRecorded, ProjectDeletePhase::RootQuarantined),
            DeleteRunEvent::Failed { code } => delete_end(run, code),
            _ => delete_end(run, M7DeleteErrorCode::Internal),
        },
        DeleteRunStage::QuarantinedRecorded => match event {
            DeleteRunEvent::Done => delete_to_commit(run),
            DeleteRunEvent::Failed { code } => delete_end(run, code),
            _ => delete_end(run, M7DeleteErrorCode::Internal),
        },
        DeleteRunStage::ValidatingQuarantine => match event {
            DeleteRunEvent::Done => delete_to_commit(run),
            DeleteRunEvent::Failed { code } => delete_end(run, code),
            _ => delete_end(run, M7DeleteErrorCode::Internal),
        },
        DeleteRunStage::CommitIntentRecorded => match event {
            DeleteRunEvent::Done => delete_go(run, DeleteRunStage::Committing, DeleteRunAction::Commit),
            DeleteRunEvent::Failed { code } => delete_end(run, code),
            _ => delete_end(run, M7DeleteErrorCode::Internal),
        },
        DeleteRunStage::Committing => match event {
            DeleteRunEvent::Done => delete_record(run, DeleteRunStage::DeletingRecorded, ProjectDeletePhase::Deleting),
            DeleteRunEvent::Failed { code } => delete_end(run, code),
            _ => delete_end(run, M7DeleteErrorCode::Internal),
        },
        DeleteRunStage::DeletingRecorded => match event {
            DeleteRunEvent::Done => delete_go(run, DeleteRunStage::CleaningUp, DeleteRunAction::Cleanup),
            DeleteRunEvent::Failed { code } => delete_end(run, code),
            _ => delete_end(run, M7DeleteErrorCode::Internal),
        },
        DeleteRunStage::CleaningUp => match event {
            DeleteRunEvent::Done => delete_record(run, DeleteRunStage::CleanupRecorded, ProjectDeletePhase::CleanupComplete),
            DeleteRunEvent::Failed { code } => delete_end(run, code),
            _ => delete_end(run, M7DeleteErrorCode::Internal),
        },
        DeleteRunStage::CleanupRecorded => match event {
            DeleteRunEvent::Done => delete_go(run, DeleteRunStage::FinishingSuccess, DeleteRunAction::FinishSuccess),
            DeleteRunEvent::Failed { code } => delete_end(run, code),
            _ => delete_end(run, M7DeleteErrorCode::Internal),
        },
        DeleteRunStage::FinishingSuccess => match event {
            DeleteRunEvent::Done => delete_go(run, DeleteRunStage::Ended, DeleteRunAction::Succeed),
            DeleteRunEvent::Failed { code } => delete_end(run, code),
            _ => delete_end(run, M7DeleteErrorCode::Internal),
        },
        DeleteRunStage::Discarding => match event {
            DeleteRunEvent::Done => delete_go(run, DeleteRunStage::FinishingCancelled, DeleteRunAction::FinishCancelled),
            DeleteRunEvent::Failed { code } => delete_end(run, code),
            _ => delete_end(run, M7DeleteErrorCode::Internal),
        },
        DeleteRunStage::FinishingCancelled => match event {
            DeleteRunEvent::Done => delete_go(run, DeleteRunStage::Ended, DeleteRunAction::Succeed),
            DeleteRunEvent::Failed { code } => delete_end(run, code),
            _ => delete_end(run, M7DeleteErrorCode::Internal),
        },
        DeleteRunStage::Ended => (run, DeleteRunAction::Idle),
    }
}

/// Decides the next effect of a project delete worker from the answer to the last one: a cleaned-up delete only finishes; a new one is revalidated and preflighted; before the quarantine intent cancellation is honoured twice; the root is quarantined after its intent, the deletion committed once, and the quarantined root removed only after the commit; any failure ends the run and records its error name.
pub fn delete_step(run: DeleteRun, event: DeleteRunEvent) -> (r: (DeleteRun, DeleteRunAction))
    ensures
        r == delete_next(run, event),
{
    match run.stage {
        DeleteRunStage::Start => match event {
            DeleteRunEvent::Started => delete_go_exec(run, DeleteRunStage::Beginning, DeleteRunAction::Begin),
            _ => delete_end_exec(run, M7DeleteErrorCode::Internal),
        },
        DeleteRunStage::Beginning => match event {
            DeleteRunEvent::Begun { phase } => (DeleteRun { stage: DeleteRunStage::Locking, start: phase, ..run }, DeleteRunAction::LockResources),
            DeleteRunEvent::Failed { code } => delete_end_exec(run, code),
            _ => delete_end_exec(run, M7DeleteErrorCode::Internal),
        },
        DeleteRunStage::Locking => match event {
            DeleteRunEvent::Done => if run.start == ProjectDeletePhase::CleanupComplete {
                delete_go_exec(run, DeleteRunStage::FinishingSuccess, DeleteRunAction::FinishSuccess)
            } else if run.start == ProjectDeletePhase::Accepted {
                delete_go_exec(run, DeleteRunStage::Revalidating, DeleteRunAction::RevalidatePlan)
            } else {
                delete_to_first_cancel_exec(run)
            },
            DeleteRunEvent::Failed { code } => delete_end_exec(run, code),
            _ => delete_end_exec(run, M7DeleteErrorCode::Internal),
        },
        DeleteRunStage::Revalidating => match event {
            DeleteRunEvent::Done => delete_go_exec(run, DeleteRunStage::Preflighting, DeleteRunAction::Preflight),
            DeleteRunEvent::Failed { code } => delete_end_exec(run, code),
            _ => delete_end_exec(run, M7DeleteErrorCode::Internal),
        },
        DeleteRunStage::Preflighting => match event {
            DeleteRunEvent::Done => delete_record_exec(run, DeleteRunStage::PreflightRecorded, ProjectDeletePhase::PreflightComplete),
            DeleteRunEvent::Failed { code } => delete_end_exec(run, code),
            _ => delete_end_exec(run, M7DeleteErrorCode::Internal),
        },
        DeleteRunStage::PreflightRecorded => match event {
            DeleteRunEvent::Done => delete_to_first_cancel_exec(run),
            DeleteRunEvent::Failed { code } => delete_end_exec(run, code),
            _ => delete_end_exec(run, M7DeleteErrorCode::Internal),
        },
        DeleteRunStage::FirstCancelCheck => match event {
            DeleteRunEvent::CancelChecked { requested } => if requested {
                delete_go_exec(run, DeleteRunStage::Discarding, DeleteRunAction::Discard)
            } else {
                delete_to_quarantine_exec(run)
            },
            DeleteRunEvent::Failed { code } => delete_end_exec(run, code),
            _ => delete_end_exec(run, M7DeleteErrorCode::Internal),
        },
        DeleteRunStage::Rechecking => match event {
            DeleteRunEvent::Done => delete_go_exec(run, DeleteRunStage::SecondCancelCheck, DeleteRunAction::CheckCancelled),
            DeleteRunEvent::Failed { code } => delete_end_exec(run, code),
            _ => delete_end_exec(run, M7DeleteErrorCode::Internal),
        },
        DeleteRunStage::SecondCancelCheck => match event {
            DeleteRunEvent::CancelChecked { requested } => if requested {
                delete_go_exec(run, DeleteRunStage::Discarding, DeleteRunAction::Discard)
            } else {
                delete_record_exec(run, DeleteRunStage::IntentRecorded, ProjectDeletePhase::QuarantineIntent)
            },
            DeleteRunEvent::Failed { code } => delete_end_exec(run, code),
            _ => delete_end_exec(run, M7DeleteErrorCode::Internal),
        },
        DeleteRunStage::IntentRecorded => match event {
            DeleteRunEvent::Done => delete_go_exec(run, DeleteRunStage::Quarantining, DeleteRunAction::Quarantine),
            DeleteRunEvent::Failed { code } => delete_end_exec(run, code),
            _ => delete_end_exec(run, M7DeleteErrorCode::Internal),
        },
        DeleteRunStage::Quarantining => match event {
            DeleteRunEvent::Done => delete_record_exec(run, DeleteRunStage::QuarantinedRecorded, ProjectDeletePhase::RootQuarantined),
            DeleteRunEvent::Failed { code } => delete_end_exec(run, code),
            _ => delete_end_exec(run, M7DeleteErrorCode::Internal),
        },
        DeleteRunStage::QuarantinedRecorded => match event {
            DeleteRunEvent::Done => delete_to_commit_exec(run),
            DeleteRunEvent::Failed { code } => delete_end_exec(run, code),
            _ => delete_end_exec(run, M7DeleteErrorCode::Internal),
        },
        DeleteRunStage::ValidatingQuarantine => match event {
            DeleteRunEvent::Done => delete_to_commit_exec(run),
            DeleteRunEvent::Failed { code } => delete_end_exec(run, code),
            _ => delete_end_exec(run, M7DeleteErrorCode::Internal),
        },
        DeleteRunStage::CommitIntentRecorded => match event {
            DeleteRunEvent::Done => delete_go_exec(run, DeleteRunStage::Committing, DeleteRunAction::Commit),
            DeleteRunEvent::Failed { code } => delete_end_exec(run, code),
            _ => delete_end_exec(run, M7DeleteErrorCode::Internal),
        },
        DeleteRunStage::Committing => match event {
            DeleteRunEvent::Done => delete_record_exec(run, DeleteRunStage::DeletingRecorded, ProjectDeletePhase::Deleting),
            DeleteRunEvent::Failed { code } => delete_end_exec(run, code),
            _ => delete_end_exec(run, M7DeleteErrorCode::Internal),
        },
        DeleteRunStage::DeletingRecorded => match event {
            DeleteRunEvent::Done => delete_go_exec(run, DeleteRunStage::CleaningUp, DeleteRunAction::Cleanup),
            DeleteRunEvent::Failed { code } => delete_end_exec(run, code),
            _ => delete_end_exec(run, M7DeleteErrorCode::Internal),
        },
        DeleteRunStage::CleaningUp => match event {
            DeleteRunEvent::Done => delete_record_exec(run, DeleteRunStage::CleanupRecorded, ProjectDeletePhase::CleanupComplete),
            DeleteRunEvent::Failed { code } => delete_end_exec(run, code),
            _ => delete_end_exec(run, M7DeleteErrorCode::Internal),
        },
        DeleteRunStage::CleanupRecorded => match event {
            DeleteRunEvent::Done => delete_go_exec(run, DeleteRunStage::FinishingSuccess, DeleteRunAction::FinishSuccess),
            DeleteRunEvent::Failed { code } => delete_end_exec(run, code),
            _ => delete_end_exec(run, M7DeleteErrorCode::Internal),
        },
        DeleteRunStage::FinishingSuccess => match event {
            DeleteRunEvent::Done => delete_go_exec(run, DeleteRunStage::Ended, DeleteRunAction::Succeed),
            DeleteRunEvent::Failed { code } => delete_end_exec(run, code),
            _ => delete_end_exec(run, M7DeleteErrorCode::Internal),
        },
        DeleteRunStage::Discarding => match event {
            DeleteRunEvent::Done => delete_go_exec(run, DeleteRunStage::FinishingCancelled, DeleteRunAction::FinishCancelled),
            DeleteRunEvent::Failed { code } => delete_end_exec(run, code),
            _ => delete_end_exec(run, M7DeleteErrorCode::Internal),
        },
        DeleteRunStage::FinishingCancelled => match event {
            DeleteRunEvent::Done => delete_go_exec(run, DeleteRunStage::Ended, DeleteRunAction::Succeed),
            DeleteRunEvent::Failed { code } => delete_end_exec(run, code),
            _ => delete_end_exec(run, M7DeleteErrorCode::Internal),
        },
        DeleteRunStage::Ended => (run, DeleteRunAction::Idle),
    }
}

/// The rank of the last checkpoint a delete run recorded, or -1.
pub open spec fn delete_last_rank(run: DeleteRun) -> int {
    match run.last_checkpoint {
        Some(p) => delete_phase_rank(p),
        None => -1,
    }
}

/// The states a project delete run can reach from a new one.
pub open spec fn delete_run_ok(run: DeleteRun) -> bool {
    let s = delete_phase_rank(run.start);
    let l = delete_last_rank(run);
    match run.stage {
        DeleteRunStage::Start | DeleteRunStage::Beginning => run.start == ProjectDeletePhase::Accepted && l == -1,
        DeleteRunStage::Locking => l == -1,
        DeleteRunStage::Revalidating | DeleteRunStage::Preflighting => run.start == ProjectDeletePhase::Accepted && l == -1,
        DeleteRunStage::PreflightRecorded => run.start == ProjectDeletePhase::Accepted && run.last_checkpoint == Some(ProjectDeletePhase::PreflightComplete),
        DeleteRunStage::FirstCancelCheck | DeleteRunStage::Rechecking | DeleteRunStage::SecondCancelCheck => s < 2 && l <= 1,
        DeleteRunStage::IntentRecorded | DeleteRunStage::Quarantining => s < 2 && run.last_checkpoint == Some(ProjectDeletePhase::QuarantineIntent),
        DeleteRunStage::QuarantinedRecorded => s < 2 && run.last_checkpoint == Some(ProjectDeletePhase::RootQuarantined),
        DeleteRunStage::ValidatingQuarantine => s >= 2 && run.start != ProjectDeletePhase::CleanupComplete && l == -1,
        DeleteRunStage::CommitIntentRecorded | DeleteRunStage::Committing => !(run.start == ProjectDeletePhase::StateCommitted || run.start
            == ProjectDeletePhase::Deleting || run.start == ProjectDeletePhase::CleanupComplete) && run.last_checkpoint == Some(
            ProjectDeletePhase::RegistryCommitIntent,
        ),
        DeleteRunStage::DeletingRecorded | DeleteRunStage::CleaningUp => run.last_checkpoint == Some(ProjectDeletePhase::Deleting),
        DeleteRunStage::CleanupRecorded => run.last_checkpoint == Some(ProjectDeletePhase::CleanupComplete),
        DeleteRunStage::FinishingSuccess => true,
        DeleteRunStage::Discarding | DeleteRunStage::FinishingCancelled => s < 2 && l < 2,
        DeleteRunStage::Ended => true,
    }
}

/// Every step of a project delete run keeps it reachable.
pub proof fn delete_run_stays_ok(run: DeleteRun, event: DeleteRunEvent)
    requires
        delete_run_ok(run),
    ensures
        delete_run_ok(delete_next(run, event).0),
{
}

/// A project delete run records its checkpoints in strictly increasing
/// phase order.
pub proof fn delete_checkpoints_only_advance(run: DeleteRun, event: DeleteRunEvent)
    requires
        delete_run_ok(run),
    ensures
        delete_next(run, event).1 matches DeleteRunAction::RecordCheckpoint { phase } ==> delete_next(run, event).0.last_checkpoint
            == Some(phase) && delete_last_rank(run) < delete_phase_rank(phase),
{
}

/// A delete is abandoned only before its quarantine intent; the root is
/// quarantined only right after that intent is recorded; the deletion is
/// committed at most once; and the quarantined root is removed only once
/// the deletion is committed.
pub proof fn delete_removes_the_root_only_after_commit(run: DeleteRun, event: DeleteRunEvent)
    requires
        delete_run_ok(run),
    ensures
        delete_next(run, event).1 is Discard ==> delete_phase_rank(run.start) < 2 && delete_last_rank(run) < 2,
        delete_next(run, event).1 is Quarantine ==> run.last_checkpoint == Some(ProjectDeletePhase::QuarantineIntent),
        delete_next(run, event).1 is Commit ==> !(run.start == ProjectDeletePhase::StateCommitted || run.start == ProjectDeletePhase::Deleting
            || run.start == ProjectDeletePhase::CleanupComplete),
        delete_next(run, event).1 == (DeleteRunAction::RecordCheckpoint { phase: ProjectDeletePhase::Deleting }) ==> run.stage
            == DeleteRunStage::Committing || run.start == ProjectDeletePhase::StateCommitted || run.start == ProjectDeletePhase::Deleting,
        delete_next(run, event).1 is Cleanup ==> run.last_checkpoint == Some(ProjectDeletePhase::Deleting),
{
}

/// The delete code of a registry failure.
pub open spec fn delete_code_for_m3(code: M3ErrorCode) -> M7DeleteErrorCode {
    match code {
        M3ErrorCode::ProjectNotRegistered => M7DeleteErrorCode::ProjectNotRegistered,
        M3ErrorCode::StoreUnavailable => M7DeleteErrorCode::StoreUnavailable,
        _ => M7DeleteErrorCode::Internal,
    }
}

/// Maps a registry failure to a delete failure.
pub fn delete_error_from_m3(error: M3Error) -> (r: M7DeleteError)
    ensures
        r.spec_code() == delete_code_for_m3(error.spec_code()),
{
    match error.code() {
        M3ErrorCode::ProjectNotRegistered => M7DeleteError::new(M7DeleteErrorCode::ProjectNotRegistered),
        M3ErrorCode::StoreUnavailable => M7DeleteError::new(M7DeleteErrorCode::StoreUnavailable),
        _ => M7DeleteError::new(M7DeleteErrorCode::Internal),
    }
}

/// Deleting a project directory needs no Unity Editor on it: a confirmed
/// one is `unity_project_running`, a suspected or unknown one unsafe.
pub fn require_safe_delete_writer(state: UnityWriterStateKind) -> (r: Result<(), M7DeleteError>)
    ensures
        r is Ok <==> state == UnityWriterStateKind::NotObserved,
        r matches Err(e) ==> e.spec_code() == if state == UnityWriterStateKind::RunningConfirmed {
            M7DeleteErrorCode::UnityProjectRunning
        } else {
            M7DeleteErrorCode::ProjectDeleteSourceUnsafe
        },
{
    match state {
        UnityWriterStateKind::NotObserved => Ok(()),
        UnityWriterStateKind::RunningConfirmed => Err(M7DeleteError::new(M7DeleteErrorCode::UnityProjectRunning)),
        UnityWriterStateKind::RunningSuspected | UnityWriterStateKind::Unknown => Err(
            M7DeleteError::new(M7DeleteErrorCode::ProjectDeleteSourceUnsafe),
        ),
    }
}

/// Whether the caller is the built-in local owner.
fn delete_caller_is_owner(access: &AccessContext) -> (r: bool)
    ensures
        r == (access@.principal == "builtin:local-owner"@),
{
    let owner = PrincipalId::local_owner();
    crate::text::str_eq(access.principal().as_str(), owner.as_str())
}

/// Planning a delete needs the project-read and project-delete permissions
/// and the local owner.
pub fn authorize_delete_plan(access: &AccessContext) -> (r: Result<(), M7DeleteError>)
    ensures
        r is Ok <==> access@.permissions.contains(Permission::ProjectsRead) && access@.permissions.contains(
            Permission::ProjectsDelete,
        ) && access@.principal == "builtin:local-owner"@,
        r matches Err(e) ==> e.spec_code() == M7DeleteErrorCode::PermissionDenied,
{
    if access.require(Permission::ProjectsRead).is_err() || access.require(Permission::ProjectsDelete).is_err()
        || !delete_caller_is_owner(access) {
        return Err(M7DeleteError::new(M7DeleteErrorCode::PermissionDenied));
    }
    Ok(())
}

/// Applying a delete needs the project-delete permission and the local owner.
pub fn authorize_delete_apply(access: &AccessContext) -> (r: Result<(), M7DeleteError>)
    ensures
        r is Ok <==> access@.permissions.contains(Permission::ProjectsDelete) && access@.principal
            == "builtin:local-owner"@,
        r matches Err(e) ==> e.spec_code() == M7DeleteErrorCode::PermissionDenied,
{
    if access.require(Permission::ProjectsDelete).is_err() || !delete_caller_is_owner(access) {
        return Err(M7DeleteError::new(M7DeleteErrorCode::PermissionDenied));
    }
    Ok(())
}

/// Applying a delete needs the project at both the expected and the
/// planned revision.
pub fn delete_apply_revision_gate(current: Revision, expected: Revision, planned: Revision) -> (r: Result<(), M7DeleteError>)
    ensures
        r is Ok <==> current == expected && current == planned,
        r matches Err(e) ==> e.spec_code() == M7DeleteErrorCode::RevisionConflict,
{
    if current != expected || current != planned {
        return Err(M7DeleteError::new(M7DeleteErrorCode::RevisionConflict));
    }
    Ok(())
}


/// A cancellation the owner requested before the quarantine intent abandons
/// the delete and leaves the project in place: at either cancellation check
/// the run discards its preparation and then finishes cancelled, recording
/// no checkpoint and taking no step toward quarantine.
pub proof fn delete_cancellation_keeps_the_project(run: DeleteRun)
    requires
        run.stage == DeleteRunStage::FirstCancelCheck || run.stage == DeleteRunStage::SecondCancelCheck,
    ensures
        delete_next(run, DeleteRunEvent::CancelChecked { requested: true }).1 is Discard,
        delete_next(run, DeleteRunEvent::CancelChecked { requested: true }).0.last_checkpoint == run.last_checkpoint,
        delete_next(delete_next(run, DeleteRunEvent::CancelChecked { requested: true }).0, DeleteRunEvent::Done).1 is FinishCancelled,
        delete_next(
            delete_next(delete_next(run, DeleteRunEvent::CancelChecked { requested: true }).0, DeleteRunEvent::Done).0,
            DeleteRunEvent::Done,
        ).1 is Succeed,
        !(delete_next(run, DeleteRunEvent::CancelChecked { requested: false }).1 is Discard),
{
}

} // verus!
