//! Durable project copy: plans, the phases of a copy Operation, the
//! checks that gate it and the decisions of its worker.

use vstd::prelude::*;

use crate::access::AccessContext;
use crate::domain::{IdempotencyKey, Permission, PrincipalId, Revision};
use crate::ids::{OperationId, PlanId, ProjectId};
use crate::registry::{M3Error, M3ErrorCode, ProjectObservation, ProjectRecord};
use crate::unity::{UnityWriterState, UnityWriterStateKind};

verus! {

/// How long a project copy plan stays valid.
pub const PROJECT_COPY_PLAN_EXPIRY_MS: u64 = 900_000;

#[derive(Clone, Debug, PartialEq, Eq)]
pub struct ProjectCopyPlanDraft {
    pub plan_id: PlanId,
    pub source_project: ProjectRecord,
    pub source_root_identity: Vec<u8>,
    pub target_parent_path: String,
    pub target_parent_identity: Vec<u8>,
    pub target_parent_identity_sha256: [u8; 32],
    pub target_leaf: String,
    pub target_project_id: ProjectId,
    pub writer_evidence: UnityWriterState,
    pub profile_version: u32,
    pub plan_fingerprint: [u8; 32],
    pub plan_json: String,
    pub plan_idempotency_key: IdempotencyKey,
    pub created_at_ms: u64,
    pub expires_at_ms: u64,
}

#[derive(Clone, Debug, PartialEq, Eq)]
pub struct ProjectCopyPlanRecord {
    pub draft: ProjectCopyPlanDraft,
    pub owner: PrincipalId,
}

#[derive(Clone, Debug, PartialEq, Eq)]
pub struct ProjectCopyPlanOutcome {
    pub plan: ProjectCopyPlanRecord,
    pub replayed: bool,
}

#[derive(Clone, Debug, PartialEq, Eq)]
pub struct ProjectCopyApplyOutcome {
    pub operation_id: OperationId,
    pub target_project_id: ProjectId,
    pub replayed: bool,
    pub schedule: bool,
}

/// Durable checkpoint of a project copy Operation.
#[derive(Clone, Copy, Debug, PartialEq, Eq, Structural)]
pub enum ProjectCopyPhase {
    Accepted,
    InventoryReady,
    Staging,
    StagingComplete,
    PublishIntent,
    TargetPublished,
    ProjectRegistryCommitIntent,
    StateCommitted,
    CleanupComplete,
    RecoveryRequired,
}

/// The stable name of each `ProjectCopyPhase`.
pub open spec fn copy_phase_name(value: ProjectCopyPhase) -> Seq<char> {
    match value {
        ProjectCopyPhase::Accepted => "accepted"@,
        ProjectCopyPhase::InventoryReady => "inventory_ready"@,
        ProjectCopyPhase::Staging => "staging"@,
        ProjectCopyPhase::StagingComplete => "staging_complete"@,
        ProjectCopyPhase::PublishIntent => "publish_intent"@,
        ProjectCopyPhase::TargetPublished => "target_published"@,
        ProjectCopyPhase::ProjectRegistryCommitIntent => "project_registry_commit_intent"@,
        ProjectCopyPhase::StateCommitted => "state_committed"@,
        ProjectCopyPhase::CleanupComplete => "cleanup_complete"@,
        ProjectCopyPhase::RecoveryRequired => "recovery_required"@,
    }
}

impl ProjectCopyPhase {
    /// Stable transport-neutral name.
    pub fn as_str(self) -> (r: &'static str)
        ensures
            r@ == copy_phase_name(self),
    {
        match self {
            ProjectCopyPhase::Accepted => "accepted",
            ProjectCopyPhase::InventoryReady => "inventory_ready",
            ProjectCopyPhase::Staging => "staging",
            ProjectCopyPhase::StagingComplete => "staging_complete",
            ProjectCopyPhase::PublishIntent => "publish_intent",
            ProjectCopyPhase::TargetPublished => "target_published",
            ProjectCopyPhase::ProjectRegistryCommitIntent => "project_registry_commit_intent",
            ProjectCopyPhase::StateCommitted => "state_committed",
            ProjectCopyPhase::CleanupComplete => "cleanup_complete",
            ProjectCopyPhase::RecoveryRequired => "recovery_required",
        }
    }
}

#[derive(Clone, Debug, PartialEq, Eq)]
pub struct ProjectCopyInventoryEvidence {
    pub private_locator: String,
    pub sha256: [u8; 32],
    pub byte_length: u64,
    pub owner_marker: String,
    pub entry_count: u64,
    pub total_regular_file_bytes: u64,
}

#[derive(Clone, Debug, PartialEq, Eq)]
pub struct ProjectCopyOperationRecord {
    pub plan: ProjectCopyPlanRecord,
    pub phase: ProjectCopyPhase,
    pub inventory: Option<ProjectCopyInventoryEvidence>,
    pub published: Option<PublishedProjectCopy>,
}

#[derive(Clone, Debug, PartialEq, Eq)]
pub struct PublishedProjectCopy {
    pub observation: ProjectObservation,
    pub target_identity: Vec<u8>,
}

/// Safe project copy failure codes.
#[derive(Clone, Copy, Debug, PartialEq, Eq, Structural)]
pub enum M7CopyErrorCode {
    InvalidInput,
    PermissionDenied,
    ProjectNotRegistered,
    RevisionConflict,
    UnityProjectRunning,
    IdempotencyConflict,
    ProjectCopyPlanNotFound,
    ProjectCopyPlanStale,
    ProjectCopyTargetExists,
    ProjectCopyTargetUnsafe,
    ProjectCopySourceUnsafe,
    ProjectCopySourceChanged,
    ProjectCopyLimitExceeded,
    ProjectCopyRecoveryRequired,
    StoreUnavailable,
    Internal,
}

/// Safe project copy error.
#[derive(Clone, Copy, Debug, PartialEq, Eq, Structural)]
pub struct M7CopyError(M7CopyErrorCode);

impl M7CopyError {
    pub closed spec fn spec_code(self) -> M7CopyErrorCode {
        self.0
    }

    pub fn new(code: M7CopyErrorCode) -> (r: Self)
        ensures
            r.spec_code() == code,
    {
        M7CopyError(code)
    }

    pub fn code(self) -> (r: M7CopyErrorCode)
        ensures
            r == self.spec_code(),
    {
        self.0
    }
}

/// Maps a project copy error code to the public name it is reported under.
pub open spec fn copy_error_name(code: M7CopyErrorCode) -> Seq<char> {
    match code {
        M7CopyErrorCode::InvalidInput => "invalid_request"@,
        M7CopyErrorCode::PermissionDenied => "permission_denied"@,
        M7CopyErrorCode::ProjectNotRegistered => "project_not_registered"@,
        M7CopyErrorCode::RevisionConflict => "revision_conflict"@,
        M7CopyErrorCode::UnityProjectRunning => "unity_project_running"@,
        M7CopyErrorCode::IdempotencyConflict => "idempotency_conflict"@,
        M7CopyErrorCode::ProjectCopyPlanNotFound => "project_copy_plan_not_found"@,
        M7CopyErrorCode::ProjectCopyPlanStale => "project_copy_plan_stale"@,
        M7CopyErrorCode::ProjectCopyTargetExists => "project_copy_target_exists"@,
        M7CopyErrorCode::ProjectCopyTargetUnsafe => "project_copy_target_unsafe"@,
        M7CopyErrorCode::ProjectCopySourceUnsafe => "project_copy_source_unsafe"@,
        M7CopyErrorCode::ProjectCopySourceChanged => "project_copy_source_changed"@,
        M7CopyErrorCode::ProjectCopyLimitExceeded => "project_copy_limit_exceeded"@,
        M7CopyErrorCode::ProjectCopyRecoveryRequired => "project_copy_recovery_required"@,
        M7CopyErrorCode::StoreUnavailable => "store_unavailable"@,
        M7CopyErrorCode::Internal => "internal_error"@,
    }
}

/// The public error name of a project copy failure code.
pub fn project_copy_error_name(code: M7CopyErrorCode) -> (r: &'static str)
    ensures
        r@ == copy_error_name(code),
{
    match code {
        M7CopyErrorCode::InvalidInput => "invalid_request",
        M7CopyErrorCode::PermissionDenied => "permission_denied",
        M7CopyErrorCode::ProjectNotRegistered => "project_not_registered",
        M7CopyErrorCode::RevisionConflict => "revision_conflict",
        M7CopyErrorCode::UnityProjectRunning => "unity_project_running",
        M7CopyErrorCode::IdempotencyConflict => "idempotency_conflict",
        M7CopyErrorCode::ProjectCopyPlanNotFound => "project_copy_plan_not_found",
        M7CopyErrorCode::ProjectCopyPlanStale => "project_copy_plan_stale",
        M7CopyErrorCode::ProjectCopyTargetExists => "project_copy_target_exists",
        M7CopyErrorCode::ProjectCopyTargetUnsafe => "project_copy_target_unsafe",
        M7CopyErrorCode::ProjectCopySourceUnsafe => "project_copy_source_unsafe",
        M7CopyErrorCode::ProjectCopySourceChanged => "project_copy_source_changed",
        M7CopyErrorCode::ProjectCopyLimitExceeded => "project_copy_limit_exceeded",
        M7CopyErrorCode::ProjectCopyRecoveryRequired => "project_copy_recovery_required",
        M7CopyErrorCode::StoreUnavailable => "store_unavailable",
        M7CopyErrorCode::Internal => "internal_error",
    }
}

/// Position of a copy phase in the durable sequence.
pub open spec fn copy_phase_rank(phase: ProjectCopyPhase) -> int {
    match phase {
        ProjectCopyPhase::Accepted => 0,
        ProjectCopyPhase::InventoryReady => 1,
        ProjectCopyPhase::Staging => 2,
        ProjectCopyPhase::StagingComplete => 3,
        ProjectCopyPhase::PublishIntent => 4,
        ProjectCopyPhase::TargetPublished => 5,
        ProjectCopyPhase::ProjectRegistryCommitIntent => 6,
        ProjectCopyPhase::StateCommitted => 7,
        ProjectCopyPhase::CleanupComplete => 8,
        ProjectCopyPhase::RecoveryRequired => 9,
    }
}

/// Phases from the publish intent on, when a copy may already be published.
pub open spec fn copy_at_or_after_intent(phase: ProjectCopyPhase) -> bool {
    phase == ProjectCopyPhase::PublishIntent || phase == ProjectCopyPhase::TargetPublished || phase == ProjectCopyPhase::ProjectRegistryCommitIntent
        || phase == ProjectCopyPhase::StateCommitted || phase == ProjectCopyPhase::CleanupComplete || phase == ProjectCopyPhase::RecoveryRequired
}

/// Whether a copy phase is at or after the publish intent.
pub fn phase_at_or_after_intent(phase: ProjectCopyPhase) -> (r: bool)
    ensures
        r == copy_at_or_after_intent(phase),
{
    phase == ProjectCopyPhase::PublishIntent || phase == ProjectCopyPhase::TargetPublished || phase == ProjectCopyPhase::ProjectRegistryCommitIntent
        || phase == ProjectCopyPhase::StateCommitted || phase == ProjectCopyPhase::CleanupComplete || phase == ProjectCopyPhase::RecoveryRequired
}

/// The effect a project copy run awaits the answer of.
#[derive(Clone, Copy, Debug, PartialEq, Eq, Structural)]
pub enum CopyRunStage {
    Start,
    Beginning,
    Locking,
    Revalidating,
    Inventorying,
    InventoryRecorded,
    FirstCancelCheck,
    StagingRecorded,
    Staging,
    StagingCompleteRecorded,
    SecondCancelCheck,
    Verifying,
    IntentRecorded,
    Publishing,
    PublishedRecorded,
    Validating,
    CommitIntentRecorded,
    Completing,
    CleaningUp,
    FinishingSuccess,
    Discarding,
    FinishingCancelled,
    Ended,
}

/// The state of a project copy run: its stage, the phase the store held
/// when it began, whether the inventory is known and the last checkpoint
/// it recorded.
#[derive(Clone, Copy, Debug, PartialEq, Eq, Structural)]
pub struct CopyRun {
    pub stage: CopyRunStage,
    pub start: ProjectCopyPhase,
    pub has_inventory: bool,
    pub last_checkpoint: Option<ProjectCopyPhase>,
}

/// What the awaited effect of a copy run answered.
#[derive(Clone, Copy, Debug, PartialEq, Eq, Structural)]
pub enum CopyRunEvent {
    /// The worker picked the Operation up.
    Started,
    /// The store began the Operation at this phase, with or without its inventory.
    Begun { phase: ProjectCopyPhase, has_inventory: bool },
    /// Whether the owner asked to cancel the Operation.
    CancelChecked { requested: bool },
    /// The effect completed.
    Done,
    /// The effect failed.
    Failed { code: M7CopyErrorCode },
}

/// The next effect of a project copy run.
#[derive(Clone, Copy, Debug, PartialEq, Eq, Structural)]
pub enum CopyRunAction {
    Begin,
    LockResources,
    RevalidatePlan,
    TakeInventory,
    RecordCheckpoint { phase: ProjectCopyPhase },
    CheckCancelled,
    Stage,
    VerifySource,
    Publish,
    ValidatePublished,
    Complete,
    Cleanup,
    FinishSuccess,
    Discard,
    FinishCancelled,
    /// The run ended and the Operation succeeded or was cancelled.
    Succeed,
    /// The run ended and the Operation failed with this code.
    RecordFailure { code: M7CopyErrorCode },
    /// The run has already ended.
    Idle,
}

/// A copy run that has not started yet.
pub fn copy_run_new() -> (r: CopyRun)
    ensures
        r.stage == CopyRunStage::Start,
        r.start == ProjectCopyPhase::Accepted,
        !r.has_inventory,
        r.last_checkpoint is None,
{
    CopyRun { stage: CopyRunStage::Start, start: ProjectCopyPhase::Accepted, has_inventory: false, last_checkpoint: None }
}

/// Moves a copy run to a stage with an effect.
pub open spec fn copy_go(run: CopyRun, stage: CopyRunStage, action: CopyRunAction) -> (CopyRun, CopyRunAction) {
    (CopyRun { stage: stage, ..run }, action)
}

/// Moves a copy run to a stage with an effect.
pub fn copy_go_exec(run: CopyRun, stage: CopyRunStage, action: CopyRunAction) -> (r: (CopyRun, CopyRunAction))
    ensures
        r == copy_go(run, stage, action),
{
    (CopyRun { stage: stage, ..run }, action)
}

/// Records a copy checkpoint.
pub open spec fn copy_record(run: CopyRun, stage: CopyRunStage, phase: ProjectCopyPhase) -> (CopyRun, CopyRunAction) {
    (CopyRun { stage: stage, last_checkpoint: Some(phase), ..run }, CopyRunAction::RecordCheckpoint { phase: phase })
}

/// Records a copy checkpoint.
pub fn copy_record_exec(run: CopyRun, stage: CopyRunStage, phase: ProjectCopyPhase) -> (r: (CopyRun, CopyRunAction))
    ensures
        r == copy_record(run, stage, phase),
{
    (CopyRun { stage: stage, last_checkpoint: Some(phase), ..run }, CopyRunAction::RecordCheckpoint { phase: phase })
}

/// Ends a copy run with a failure.
pub open spec fn copy_end(run: CopyRun, code: M7CopyErrorCode) -> (CopyRun, CopyRunAction) {
    (CopyRun { stage: CopyRunStage::Ended, ..run }, CopyRunAction::RecordFailure { code: code })
}

/// Ends a copy run with a failure.
pub fn copy_end_exec(run: CopyRun, code: M7CopyErrorCode) -> (r: (CopyRun, CopyRunAction))
    ensures
        r == copy_end(run, code),
{
    (CopyRun { stage: CopyRunStage::Ended, ..run }, CopyRunAction::RecordFailure { code: code })
}

/// With the published target known: record the commit intent unless the project is already committed, then clean up.
pub open spec fn copy_to_commit(run: CopyRun) -> (CopyRun, CopyRunAction) {
    if run.start != ProjectCopyPhase::StateCommitted {
        copy_record(run, CopyRunStage::CommitIntentRecorded, ProjectCopyPhase::ProjectRegistryCommitIntent)
    } else {
        copy_go(run, CopyRunStage::CleaningUp, CopyRunAction::Cleanup)
    }
}

/// Continues a copy run at its commit.
pub fn copy_to_commit_exec(run: CopyRun) -> (r: (CopyRun, CopyRunAction))
    ensures
        r == copy_to_commit(run),
{
    if run.start != ProjectCopyPhase::StateCommitted {
        copy_record_exec(run, CopyRunStage::CommitIntentRecorded, ProjectCopyPhase::ProjectRegistryCommitIntent)
    } else {
        copy_go_exec(run, CopyRunStage::CleaningUp, CopyRunAction::Cleanup)
    }
}

/// A target found published is validated; any other is published.
pub open spec fn copy_to_publish(run: CopyRun) -> (CopyRun, CopyRunAction) {
    if run.start == ProjectCopyPhase::TargetPublished || run.start == ProjectCopyPhase::ProjectRegistryCommitIntent || run.start
        == ProjectCopyPhase::StateCommitted || run.start == ProjectCopyPhase::RecoveryRequired {
        copy_go(run, CopyRunStage::Validating, CopyRunAction::ValidatePublished)
    } else {
        copy_go(run, CopyRunStage::Publishing, CopyRunAction::Publish)
    }
}

/// Continues a copy run at its publication.
pub fn copy_to_publish_exec(run: CopyRun) -> (r: (CopyRun, CopyRunAction))
    ensures
        r == copy_to_publish(run),
{
    if run.start == ProjectCopyPhase::TargetPublished || run.start == ProjectCopyPhase::ProjectRegistryCommitIntent || run.start
        == ProjectCopyPhase::StateCommitted || run.start == ProjectCopyPhase::RecoveryRequired {
        copy_go_exec(run, CopyRunStage::Validating, CopyRunAction::ValidatePublished)
    } else {
        copy_go_exec(run, CopyRunStage::Publishing, CopyRunAction::Publish)
    }
}

/// Before the publish intent the source is verified again and the intent recorded.
pub open spec fn copy_to_verify(run: CopyRun) -> (CopyRun, CopyRunAction) {
    if run.start == ProjectCopyPhase::Accepted || run.start == ProjectCopyPhase::InventoryReady || run.start == ProjectCopyPhase::Staging || run.start
        == ProjectCopyPhase::StagingComplete {
        copy_go(run, CopyRunStage::Verifying, CopyRunAction::VerifySource)
    } else {
        copy_to_publish(run)
    }
}

/// Continues a copy run at its source verification.
pub fn copy_to_verify_exec(run: CopyRun) -> (r: (CopyRun, CopyRunAction))
    ensures
        r == copy_to_verify(run),
{
    if run.start == ProjectCopyPhase::Accepted || run.start == ProjectCopyPhase::InventoryReady || run.start == ProjectCopyPhase::Staging || run.start
        == ProjectCopyPhase::StagingComplete {
        copy_go_exec(run, CopyRunStage::Verifying, CopyRunAction::VerifySource)
    } else {
        copy_to_publish_exec(run)
    }
}

/// Before the publish intent a cancellation is honoured after staging.
pub open spec fn copy_to_second_cancel(run: CopyRun) -> (CopyRun, CopyRunAction) {
    if !copy_at_or_after_intent(run.start) {
        copy_go(run, CopyRunStage::SecondCancelCheck, CopyRunAction::CheckCancelled)
    } else {
        copy_to_verify(run)
    }
}

/// Continues a copy run at its second cancellation check.
pub fn copy_to_second_cancel_exec(run: CopyRun) -> (r: (CopyRun, CopyRunAction))
    ensures
        r == copy_to_second_cancel(run),
{
    if !phase_at_or_after_intent(run.start) {
        copy_go_exec(run, CopyRunStage::SecondCancelCheck, CopyRunAction::CheckCancelled)
    } else {
        copy_to_verify_exec(run)
    }
}

/// A copy not yet staged records its staging and stages the target.
pub open spec fn copy_to_staging(run: CopyRun) -> (CopyRun, CopyRunAction) {
    if run.start == ProjectCopyPhase::Accepted || run.start == ProjectCopyPhase::InventoryReady || run.start == ProjectCopyPhase::Staging {
        copy_record(run, CopyRunStage::StagingRecorded, ProjectCopyPhase::Staging)
    } else {
        copy_to_second_cancel(run)
    }
}

/// Continues a copy run at its staging.
pub fn copy_to_staging_exec(run: CopyRun) -> (r: (CopyRun, CopyRunAction))
    ensures
        r == copy_to_staging(run),
{
    if run.start == ProjectCopyPhase::Accepted || run.start == ProjectCopyPhase::InventoryReady || run.start == ProjectCopyPhase::Staging {
        copy_record_exec(run, CopyRunStage::StagingRecorded, ProjectCopyPhase::Staging)
    } else {
        copy_to_second_cancel_exec(run)
    }
}

/// Before the publish intent a cancellation is honoured once the inventory is known.
pub open spec fn copy_to_first_cancel(run: CopyRun) -> (CopyRun, CopyRunAction) {
    if !copy_at_or_after_intent(run.start) {
        copy_go(run, CopyRunStage::FirstCancelCheck, CopyRunAction::CheckCancelled)
    } else {
        copy_to_staging(run)
    }
}

/// Continues a copy run at its first cancellation check.
pub fn copy_to_first_cancel_exec(run: CopyRun) -> (r: (CopyRun, CopyRunAction))
    ensures
        r == copy_to_first_cancel(run),
{
    if !phase_at_or_after_intent(run.start) {
        copy_go_exec(run, CopyRunStage::FirstCancelCheck, CopyRunAction::CheckCancelled)
    } else {
        copy_to_staging_exec(run)
    }
}

/// The transition of a project copy run on the answer to its effect.
pub open spec fn copy_next(run: CopyRun, event: CopyRunEvent) -> (CopyRun, CopyRunAction) {
    match run.stage {
        CopyRunStage::Start => match event {
            CopyRunEvent::Started => copy_go(run, CopyRunStage::Beginning, CopyRunAction::Begin),
            _ => copy_end(run, M7CopyErrorCode::Internal),
        },
        CopyRunStage::Beginning => match event {
            CopyRunEvent::Begun { phase, has_inventory } => (
                CopyRun { stage: CopyRunStage::Locking, start: phase, has_inventory: has_inventory, ..run },
                CopyRunAction::LockResources,
            ),
            CopyRunEvent::Failed { code } => copy_end(run, code),
            _ => copy_end(run, M7CopyErrorCode::Internal),
        },
        CopyRunStage::Locking => match event {
            CopyRunEvent::Done => if run.start == ProjectCopyPhase::CleanupComplete {
                copy_go(run, CopyRunStage::Ended, CopyRunAction::Succeed)
            } else if !run.has_inventory {
                copy_go(run, CopyRunStage::Revalidating, CopyRunAction::RevalidatePlan)
            } else {
                copy_to_first_cancel(run)
            },
            CopyRunEvent::Failed { code } => copy_end(run, code),
            _ => copy_end(run, M7CopyErrorCode::Internal),
        },
        CopyRunStage::Revalidating => match event {
            CopyRunEvent::Done => copy_go(run, CopyRunStage::Inventorying, CopyRunAction::TakeInventory),
            CopyRunEvent::Failed { code } => copy_end(run, code),
            _ => copy_end(run, M7CopyErrorCode::Internal),
        },
        CopyRunStage::Inventorying => match event {
            CopyRunEvent::Done => copy_record(CopyRun { has_inventory: true, ..run }, CopyRunStage::InventoryRecorded, ProjectCopyPhase::InventoryReady),
            CopyRunEvent::Failed { code } => copy_end(run, code),
            _ => copy_end(run, M7CopyErrorCode::Internal),
        },
        CopyRunStage::InventoryRecorded => match event {
            CopyRunEvent::Done => copy_to_first_cancel(run),
            CopyRunEvent::Failed { code } => copy_end(run, code),
            _ => copy_end(run, M7CopyErrorCode::Internal),
        },
        CopyRunStage::FirstCancelCheck => match event {
            CopyRunEvent::CancelChecked { requested } => if requested {
                copy_go(run, CopyRunStage::Discarding, CopyRunAction::Discard)
            } else {
                copy_to_staging(run)
            },
            CopyRunEvent::Failed { code } => copy_end(run, code),
            _ => copy_end(run, M7CopyErrorCode::Internal),
        },
        CopyRunStage::StagingRecorded => match event {
            CopyRunEvent::Done => copy_go(run, CopyRunStage::Staging, CopyRunAction::Stage),
            CopyRunEvent::Failed { code } => copy_end(run, code),
            _ => copy_end(run, M7CopyErrorCode::Internal),
        },
        CopyRunStage::Staging => match event {
            CopyRunEvent::Done => copy_record(run, CopyRunStage::StagingCompleteRecorded, ProjectCopyPhase::StagingComplete),
            CopyRunEvent::Failed { code } => copy_end(run, code),
            _ => copy_end(run, M7CopyErrorCode::Internal),
        },
        CopyRunStage::StagingCompleteRecorded => match event {
            CopyRunEvent::Done => copy_to_second_cancel(run),
            CopyRunEvent::Failed { code } => copy_end(run, code),
            _ => copy_end(run, M7CopyErrorCode::Internal),
        },
        CopyRunStage::SecondCancelCheck => match event {
            CopyRunEvent::CancelChecked { requested } => if requested {
                copy_go(run, CopyRunStage::Discarding, CopyRunAction::Discard)
            } else {
                copy_to_verify(run)
            },
            CopyRunEvent::Failed { code } => copy_end(run, code),
            _ => copy_end(run, M7CopyErrorCode::Internal),
        },
        CopyRunStage::Verifying => match event {
            CopyRunEvent::Done => copy_record(run, CopyRunStage::IntentRecorded, ProjectCopyPhase::PublishIntent),
            CopyRunEvent::Failed { code } => copy_end(run, code),
            _ => copy_end(run, M7CopyErrorCode::Internal),
        },
        CopyRunStage::IntentRecorded => match event {
            CopyRunEvent::Done => copy_to_publish(run),
            CopyRunEvent::Failed { code } => copy_end(run, code),
            _ => copy_end(run, M7CopyErrorCode::Internal),
        },
        CopyRunStage::Publishing => match event {
            CopyRunEvent::Done => copy_record(run, CopyRunStage::PublishedRecorded, ProjectCopyPhase::TargetPublished),
            CopyRunEvent::Failed { code } => copy_end(run, code),
            _ => copy_end(run, M7CopyErrorCode::Internal),
        },
        CopyRunStage::PublishedRecorded => match event {
            CopyRunEvent::Done => copy_to_commit(run),
            CopyRunEvent::Failed { code } => copy_end(run, code),
            _ => copy_end(run, M7CopyErrorCode::Internal),
        },
        CopyRunStage::Validating => match event {
            CopyRunEvent::Done => copy_to_commit(run),
            CopyRunEvent::Failed { code } => copy_end(run, code),
            _ => copy_end(run, M7CopyErrorCode::Internal),
        },
        CopyRunStage::CommitIntentRecorded => match event {
            CopyRunEvent::Done => copy_go(run, CopyRunStage::Completing, CopyRunAction::Complete),
            CopyRunEvent::Failed { code } => copy_end(run, code),
            _ => copy_end(run, M7CopyErrorCode::Internal),
        },
        CopyRunStage::Completing => match event {
            CopyRunEvent::Done => copy_go(run, CopyRunStage::CleaningUp, CopyRunAction::Cleanup),
            CopyRunEvent::Failed { code } => copy_end(run, code),
            _ => copy_end(run, M7CopyErrorCode::Internal),
        },
        CopyRunStage::CleaningUp => match event {
            CopyRunEvent::Done => copy_go(run, CopyRunStage::FinishingSuccess, CopyRunAction::FinishSuccess),
            CopyRunEvent::Failed { code } => copy_end(run, code),
            _ => copy_end(run, M7CopyErrorCode::Internal),
        },
        CopyRunStage::FinishingSuccess => match event {
            CopyRunEvent::Done => copy_go(run, CopyRunStage::Ended, CopyRunAction::Succeed),
            CopyRunEvent::Failed { code } => copy_end(run, code),
            _ => copy_end(run, M7CopyErrorCode::Internal),
        },
        CopyRunStage::Discarding => match event {
            CopyRunEvent::Done => copy_go(run, CopyRunStage::FinishingCancelled, CopyRunAction::FinishCancelled),
            CopyRunEvent::Failed { code } => copy_end(run, code),
            _ => copy_end(run, M7CopyErrorCode::Internal),
        },
        CopyRunStage::FinishingCancelled => match event {
            CopyRunEvent::Done => copy_go(run, CopyRunStage::Ended, CopyRunAction::Succeed),
            CopyRunEvent::Failed { code } => copy_end(run, code),
            _ => copy_end(run, M7CopyErrorCode::Internal),
        },
        CopyRunStage::Ended => (run, CopyRunAction::Idle),
    }
}

/// Decides the next effect of a project copy worker from the answer to the last one: a cleaned-up copy ends at once; the inventory is taken when missing; before the publish intent cancellation is honoured twice; the source is verified before the intent; a target found published is validated instead of published again; a committed project is not committed twice; any failure ends the run and records its error name.
pub fn copy_step(run: CopyRun, event: CopyRunEvent) -> (r: (CopyRun, CopyRunAction))
    ensures
        r == copy_next(run, event),
{
    match run.stage {
        CopyRunStage::Start => match event {
            CopyRunEvent::Started => copy_go_exec(run, CopyRunStage::Beginning, CopyRunAction::Begin),
            _ => copy_end_exec(run, M7CopyErrorCode::Internal),
        },
        CopyRunStage::Beginning => match event {
            CopyRunEvent::Begun { phase, has_inventory } => (
                CopyRun { stage: CopyRunStage::Locking, start: phase, has_inventory: has_inventory, ..run },
                CopyRunAction::LockResources,
            ),
            CopyRunEvent::Failed { code } => copy_end_exec(run, code),
            _ => copy_end_exec(run, M7CopyErrorCode::Internal),
        },
        CopyRunStage::Locking => match event {
            CopyRunEvent::Done => if run.start == ProjectCopyPhase::CleanupComplete {
                copy_go_exec(run, CopyRunStage::Ended, CopyRunAction::Succeed)
            } else if !run.has_inventory {
                copy_go_exec(run, CopyRunStage::Revalidating, CopyRunAction::RevalidatePlan)
            } else {
                copy_to_first_cancel_exec(run)
            },
            CopyRunEvent::Failed { code } => copy_end_exec(run, code),
            _ => copy_end_exec(run, M7CopyErrorCode::Internal),
        },
        CopyRunStage::Revalidating => match event {
            CopyRunEvent::Done => copy_go_exec(run, CopyRunStage::Inventorying, CopyRunAction::TakeInventory),
            CopyRunEvent::Failed { code } => copy_end_exec(run, code),
            _ => copy_end_exec(run, M7CopyErrorCode::Internal),
        },
        CopyRunStage::Inventorying => match event {
            CopyRunEvent::Done => copy_record_exec(CopyRun { has_inventory: true, ..run }, CopyRunStage::InventoryRecorded, ProjectCopyPhase::InventoryReady),
            CopyRunEvent::Failed { code } => copy_end_exec(run, code),
            _ => copy_end_exec(run, M7CopyErrorCode::Internal),
        },
        CopyRunStage::InventoryRecorded => match event {
            CopyRunEvent::Done => copy_to_first_cancel_exec(run),
            CopyRunEvent::Failed { code } => copy_end_exec(run, code),
            _ => copy_end_exec(run, M7CopyErrorCode::Internal),
        },
        CopyRunStage::FirstCancelCheck => match event {
            CopyRunEvent::CancelChecked { requested } => if requested {
                copy_go_exec(run, CopyRunStage::Discarding, CopyRunAction::Discard)
            } else {
                copy_to_staging_exec(run)
            },
            CopyRunEvent::Failed { code } => copy_end_exec(run, code),
            _ => copy_end_exec(run, M7CopyErrorCode::Internal),
        },
        CopyRunStage::StagingRecorded => match event {
            CopyRunEvent::Done => copy_go_exec(run, CopyRunStage::Staging, CopyRunAction::Stage),
            CopyRunEvent::Failed { code } => copy_end_exec(run, code),
            _ => copy_end_exec(run, M7CopyErrorCode::Internal),
        },
        CopyRunStage::Staging => match event {
            CopyRunEvent::Done => copy_record_exec(run, CopyRunStage::StagingCompleteRecorded, ProjectCopyPhase::StagingComplete),
            CopyRunEvent::Failed { code } => copy_end_exec(run, code),
            _ => copy_end_exec(run, M7CopyErrorCode::Internal),
        },
        CopyRunStage::StagingCompleteRecorded => match event {
            CopyRunEvent::Done => copy_to_second_cancel_exec(run),
            CopyRunEvent::Failed { code } => copy_end_exec(run, code),
            _ => copy_end_exec(run, M7CopyErrorCode::Internal),
        },
        CopyRunStage::SecondCancelCheck => match event {
            CopyRunEvent::CancelChecked { requested } => if requested {
                copy_go_exec(run, CopyRunStage::Discarding, CopyRunAction::Discard)
            } else {
                copy_to_verify_exec(run)
            },
            CopyRunEvent::Failed { code } => copy_end_exec(run, code),
            _ => copy_end_exec(run, M7CopyErrorCode::Internal),
        },
        CopyRunStage::Verifying => match event {
            CopyRunEvent::Done => copy_record_exec(run, CopyRunStage::IntentRecorded, ProjectCopyPhase::PublishIntent),
            CopyRunEvent::Failed { code } => copy_end_exec(run, code),
            _ => copy_end_exec(run, M7CopyErrorCode::Internal),
        },
        CopyRunStage::IntentRecorded => match event {
            CopyRunEvent::Done => copy_to_publish_exec(run),
            CopyRunEvent::Failed { code } => copy_end_exec(run, code),
            _ => copy_end_exec(run, M7CopyErrorCode::Internal),
        },
        CopyRunStage::Publishing => match event {
            CopyRunEvent::Done => copy_record_exec(run, CopyRunStage::PublishedRecorded, ProjectCopyPhase::TargetPublished),
            CopyRunEvent::Failed { code } => copy_end_exec(run, code),
            _ => copy_end_exec(run, M7CopyErrorCode::Internal),
        },
        CopyRunStage::PublishedRecorded => match event {
            CopyRunEvent::Done => copy_to_commit_exec(run),
            CopyRunEvent::Failed { code } => copy_end_exec(run, code),
            _ => copy_end_exec(run, M7CopyErrorCode::Internal),
        },
        CopyRunStage::Validating => match event {
            CopyRunEvent::Done => copy_to_commit_exec(run),
            CopyRunEvent::Failed { code } => copy_end_exec(run, code),
            _ => copy_end_exec(run, M7CopyErrorCode::Internal),
        },
        CopyRunStage::CommitIntentRecorded => match event {
            CopyRunEvent::Done => copy_go_exec(run, CopyRunStage::Completing, CopyRunAction::Complete),
            CopyRunEvent::Failed { code } => copy_end_exec(run, code),
            _ => copy_end_exec(run, M7CopyErrorCode::Internal),
        },
        CopyRunStage::Completing => match event {
            CopyRunEvent::Done => copy_go_exec(run, CopyRunStage::CleaningUp, CopyRunAction::Cleanup),
            CopyRunEvent::Failed { code } => copy_end_exec(run, code),
            _ => copy_end_exec(run, M7CopyErrorCode::Internal),
        },
        CopyRunStage::CleaningUp => match event {
            CopyRunEvent::Done => copy_go_exec(run, CopyRunStage::FinishingSuccess, CopyRunAction::FinishSuccess),
            CopyRunEvent::Failed { code } => copy_end_exec(run, code),
            _ => copy_end_exec(run, M7CopyErrorCode::Internal),
        },
        CopyRunStage::FinishingSuccess => match event {
            CopyRunEvent::Done => copy_go_exec(run, CopyRunStage::Ended, CopyRunAction::Succeed),
            CopyRunEvent::Failed { code } => copy_end_exec(run, code),
            _ => copy_end_exec(run, M7CopyErrorCode::Internal),
        },
        CopyRunStage::Discarding => match event {
            CopyRunEvent::Done => copy_go_exec(run, CopyRunStage::FinishingCancelled, CopyRunAction::FinishCancelled),
            CopyRunEvent::Failed { code } => copy_end_exec(run, code),
            _ => copy_end_exec(run, M7CopyErrorCode::Internal),
        },
        CopyRunStage::FinishingCancelled => match event {
            CopyRunEvent::Done => copy_go_exec(run, CopyRunStage::Ended, CopyRunAction::Succeed),
            CopyRunEvent::Failed { code } => copy_end_exec(run, code),
            _ => copy_end_exec(run, M7CopyErrorCode::Internal),
        },
        CopyRunStage::Ended => (run, CopyRunAction::Idle),
    }
}

/// The rank of the last checkpoint a run recorded, or -1.
pub open spec fn copy_last_rank(run: CopyRun) -> int {
    match run.last_checkpoint {
        Some(p) => copy_phase_rank(p),
        None => -1,
    }
}

/// The states a project copy run can reach from a new one.
pub open spec fn copy_run_ok(run: CopyRun) -> bool {
    let s = copy_phase_rank(run.start);
    let l = copy_last_rank(run);
    let live = run.start != ProjectCopyPhase::CleanupComplete;
    match run.stage {
        CopyRunStage::Start | CopyRunStage::Beginning => run.start == ProjectCopyPhase::Accepted && l == -1,
        CopyRunStage::Locking => l == -1,
        CopyRunStage::Revalidating | CopyRunStage::Inventorying => run.start != ProjectCopyPhase::CleanupComplete && l == -1,
        CopyRunStage::InventoryRecorded => run.start != ProjectCopyPhase::CleanupComplete && run.last_checkpoint == Some(ProjectCopyPhase::InventoryReady),
        CopyRunStage::FirstCancelCheck => live && s < 4 && l <= 1,
        CopyRunStage::StagingRecorded | CopyRunStage::Staging => live && s <= 2 && run.last_checkpoint == Some(ProjectCopyPhase::Staging),
        CopyRunStage::StagingCompleteRecorded => live && s <= 2 && run.last_checkpoint == Some(ProjectCopyPhase::StagingComplete),
        CopyRunStage::SecondCancelCheck => live && s < 4 && l <= 3 && l != 2,
        CopyRunStage::Verifying => live && s <= 3 && l <= 3 && l != 2,
        CopyRunStage::IntentRecorded => live && s <= 3 && run.last_checkpoint == Some(ProjectCopyPhase::PublishIntent),
        CopyRunStage::Publishing => live && s <= 4 && (run.last_checkpoint == Some(ProjectCopyPhase::PublishIntent) || l <= 1),
        CopyRunStage::Validating => s >= 5 && run.start != ProjectCopyPhase::CleanupComplete && l <= 1,
        CopyRunStage::PublishedRecorded => live && run.last_checkpoint == Some(ProjectCopyPhase::TargetPublished),
        CopyRunStage::CommitIntentRecorded | CopyRunStage::Completing => live && run.start != ProjectCopyPhase::StateCommitted && run.last_checkpoint == Some(
            ProjectCopyPhase::ProjectRegistryCommitIntent,
        ),
        CopyRunStage::CleaningUp | CopyRunStage::FinishingSuccess => live,
        CopyRunStage::Discarding | CopyRunStage::FinishingCancelled => live && s < 4 && l < 4,
        CopyRunStage::Ended => true,
    }
}

/// Every step of a project copy run keeps it reachable.
pub proof fn copy_run_stays_ok(run: CopyRun, event: CopyRunEvent)
    requires
        copy_run_ok(run),
    ensures
        copy_run_ok(copy_next(run, event).0),
{
}

/// A project copy run records its checkpoints in strictly increasing phase order.
pub proof fn copy_checkpoints_only_advance(run: CopyRun, event: CopyRunEvent)
    requires
        copy_run_ok(run),
    ensures
        copy_next(run, event).1 matches CopyRunAction::RecordCheckpoint { phase } ==> copy_next(run, event).0.last_checkpoint
            == Some(phase) && copy_last_rank(run) < copy_phase_rank(phase),
{
}

/// A copy is discarded only while neither the store nor the run has reached
/// the publish intent; a published target is never published again, and a
/// committed project is never committed again.
pub proof fn copy_never_discards_or_republishes_a_published_target(run: CopyRun, event: CopyRunEvent)
    requires
        copy_run_ok(run),
    ensures
        copy_next(run, event).1 is Discard ==> copy_phase_rank(run.start) < 4 && copy_last_rank(run) < 4,
        copy_next(run, event).1 is Publish ==> copy_phase_rank(run.start) <= 4,
        copy_next(run, event).1 is Complete ==> run.start != ProjectCopyPhase::StateCommitted,
{
}

/// The copy code of a registry failure.
pub open spec fn copy_code_for_m3(code: M3ErrorCode) -> M7CopyErrorCode {
    match code {
        M3ErrorCode::ProjectNotRegistered => M7CopyErrorCode::ProjectNotRegistered,
        M3ErrorCode::StoreUnavailable => M7CopyErrorCode::StoreUnavailable,
        _ => M7CopyErrorCode::Internal,
    }
}

/// Maps a registry failure to a copy failure.
pub fn copy_error_from_m3(error: M3Error) -> (r: M7CopyError)
    ensures
        r.spec_code() == copy_code_for_m3(error.spec_code()),
{
    match error.code() {
        M3ErrorCode::ProjectNotRegistered => M7CopyError::new(M7CopyErrorCode::ProjectNotRegistered),
        M3ErrorCode::StoreUnavailable => M7CopyError::new(M7CopyErrorCode::StoreUnavailable),
        _ => M7CopyError::new(M7CopyErrorCode::Internal),
    }
}

/// Planning or applying a copy needs the project-read and project-create
/// permissions and the local owner.
pub fn authorize_copy(access: &AccessContext) -> (r: Result<(), M7CopyError>)
    ensures
        r is Ok <==> access@.permissions.contains(Permission::ProjectsRead) && access@.permissions.contains(
            Permission::ProjectsCreate,
        ) && access@.principal == "builtin:local-owner"@,
        r matches Err(e) ==> e.spec_code() == M7CopyErrorCode::PermissionDenied,
{
    if access.require(Permission::ProjectsRead).is_err() || access.require(Permission::ProjectsCreate).is_err() {
        return Err(M7CopyError::new(M7CopyErrorCode::PermissionDenied));
    }
    let owner = PrincipalId::local_owner();
    if !crate::text::str_eq(access.principal().as_str(), owner.as_str()) {
        return Err(M7CopyError::new(M7CopyErrorCode::PermissionDenied));
    }
    Ok(())
}

/// The source of a copy plan must be at the expected revision and not open
/// in a running Unity Editor.
pub fn copy_plan_gate(current: Revision, expected: Revision, writer: UnityWriterStateKind) -> (r: Result<(), M7CopyError>)
    ensures
        r is Ok <==> current == expected && writer != UnityWriterStateKind::RunningConfirmed,
        r matches Err(e) ==> e.spec_code() == if current != expected {
            M7CopyErrorCode::RevisionConflict
        } else {
            M7CopyErrorCode::UnityProjectRunning
        },
{
    if current != expected {
        return Err(M7CopyError::new(M7CopyErrorCode::RevisionConflict));
    }
    if writer == UnityWriterStateKind::RunningConfirmed {
        return Err(M7CopyError::new(M7CopyErrorCode::UnityProjectRunning));
    }
    Ok(())
}

/// Applying a copy needs the source at both the expected and the planned
/// revision, and not open in a running Unity Editor.
pub fn copy_apply_gate(
    current: Revision,
    expected: Revision,
    planned: Revision,
    writer: UnityWriterStateKind,
) -> (r: Result<(), M7CopyError>)
    ensures
        r is Ok <==> current == expected && current == planned && writer != UnityWriterStateKind::RunningConfirmed,
        r matches Err(e) ==> e.spec_code() == if current != expected || current != planned {
            M7CopyErrorCode::RevisionConflict
        } else {
            M7CopyErrorCode::UnityProjectRunning
        },
{
    if current != expected || current != planned {
        return Err(M7CopyError::new(M7CopyErrorCode::RevisionConflict));
    }
    if writer == UnityWriterStateKind::RunningConfirmed {
        return Err(M7CopyError::new(M7CopyErrorCode::UnityProjectRunning));
    }
    Ok(())
}


/// A cancellation the owner requested before the publish intent abandons
/// the copy: at either cancellation check the staged copy is discarded, the
/// Operation then finishes cancelled, and no step toward verifying or
/// publishing the target is taken; without a request the copy goes on and
/// nothing is discarded.
pub proof fn copy_cancellation_discards_the_copy(run: CopyRun)
    requires
        run.stage == CopyRunStage::FirstCancelCheck || run.stage == CopyRunStage::SecondCancelCheck,
    ensures
        copy_next(run, CopyRunEvent::CancelChecked { requested: true }).1 is Discard,
        copy_next(copy_next(run, CopyRunEvent::CancelChecked { requested: true }).0, CopyRunEvent::Done).1 is FinishCancelled,
        copy_next(
            copy_next(copy_next(run, CopyRunEvent::CancelChecked { requested: true }).0, CopyRunEvent::Done).0,
            CopyRunEvent::Done,
        ).1 is Succeed,
        !(copy_next(run, CopyRunEvent::CancelChecked { requested: false }).1 is Discard),
        !(copy_next(run, CopyRunEvent::CancelChecked { requested: false }).1 is FinishCancelled),
{
}

} // verus!
