//! Managed native backups: records, restore plans, the durable phases of
//! create and restore operations, and the decisions of their workers.

use std::sync::atomic::AtomicU8;
use std::sync::Arc;
use vstd::prelude::*;

use crate::access::AccessContext;
use crate::domain::{IdempotencyKey, Permission, PrincipalId, Revision};
use crate::ids::{BackupId, OperationId, PlanId, ProjectId};
use crate::registry::ProjectObservation;

verus! {

/// Archive compression requested for a backup.
#[derive(Clone, Copy, Debug, PartialEq, Eq, Structural)]
pub enum BackupCompression {
    Store,
    Fast,
    Maximum,
}

/// The stable name of each `BackupCompression`.
pub open spec fn compression_name(value: BackupCompression) -> Seq<char> {
    match value {
        BackupCompression::Store => "store"@,
        BackupCompression::Fast => "fast"@,
        BackupCompression::Maximum => "maximum"@,
    }
}

impl BackupCompression {
    /// Stable transport-neutral name.
    pub fn as_str(self) -> (r: &'static str)
        ensures
            r@ == compression_name(self),
    {
        match self {
            BackupCompression::Store => "store",
            BackupCompression::Fast => "fast",
            BackupCompression::Maximum => "maximum",
        }
    }
}

#[derive(Clone, Debug, PartialEq, Eq)]
pub struct BackupRecord {
    pub backup_id: BackupId,
    pub source_project_id: ProjectId,
    pub archive_sha256: [u8; 32],
    pub archive_bytes: u64,
    pub format_version: u32,
    pub created_at_ms: u64,
    pub compression_mode: BackupCompression,
    pub exclude_vpm_packages: bool,
}

#[derive(Clone, Debug, PartialEq, Eq)]
pub struct StoredBackupRecord {
    pub record: BackupRecord,
    pub archive_locator: String,
    pub file_identity_key: Vec<u8>,
}

#[derive(Clone, Debug, PartialEq, Eq)]
pub struct BackupCursor {
    pub created_at_ms: u64,
    pub backup_id: BackupId,
}

#[derive(Clone, Debug, PartialEq, Eq)]
pub struct BackupPage {
    pub backups: Vec<BackupRecord>,
    pub next_cursor: Option<BackupCursor>,
}

#[derive(Clone, Debug, PartialEq, Eq)]
pub struct BackupCreateRequest {
    pub backup_id: BackupId,
    pub project_id: ProjectId,
    pub expected_revision: Revision,
    pub compression_mode: BackupCompression,
    pub exclude_vpm_packages: bool,
    pub created_at_ms: u64,
}

#[derive(Clone, Debug, PartialEq, Eq)]
pub struct BackupCreateOutcome {
    pub operation_id: OperationId,
    pub backup_id: BackupId,
    pub replayed: bool,
    pub schedule: bool,
}

/// Durable checkpoint of a backup create Operation.
#[derive(Clone, Copy, Debug, PartialEq, Eq, Structural)]
pub enum BackupPhase {
    Accepted,
    InventoryReady,
    Archiving,
    ArchiveReady,
    PublishIntent,
    ArchivePublished,
    StateCommitted,
}

#[derive(Clone, Debug, PartialEq, Eq)]
pub struct BackupArchiveEvidence {
    pub archive_sha256: [u8; 32],
    pub archive_bytes: u64,
    pub source_project_fingerprint: [u8; 32],
}

#[derive(Clone, Debug, PartialEq, Eq)]
pub struct BackupOperationRecord {
    pub owner: PrincipalId,
    pub request: BackupCreateRequest,
    pub phase: BackupPhase,
    pub evidence: Option<BackupArchiveEvidence>,
}

#[derive(Clone, Debug, PartialEq, Eq)]
pub struct PublishedBackup {
    pub archive_locator: String,
    pub file_identity_key: Vec<u8>,
}

#[derive(Clone, Debug, PartialEq, Eq)]
pub struct RestoreExcludedPackage {
    pub package_id: String,
    pub version: String,
}

#[derive(Clone, Debug, PartialEq, Eq)]
pub struct BackupRestoreTarget {
    pub parent: String,
    pub leaf: String,
    pub must_be_absent: bool,
}

#[derive(Clone, Debug, PartialEq, Eq)]
pub struct BackupRestorePlanDraft {
    pub plan_id: PlanId,
    pub project_id: ProjectId,
    pub backup_id: BackupId,
    pub archive_sha256: [u8; 32],
    pub archive_file_identity: Vec<u8>,
    pub archive_bytes: u64,
    pub manifest_fingerprint: [u8; 32],
    pub exclude_vpm_packages: bool,
    pub excluded_packages: Vec<RestoreExcludedPackage>,
    pub target: BackupRestoreTarget,
    pub target_parent_identity: Vec<u8>,
    pub expected_unity_project_json: String,
    pub plan_fingerprint: [u8; 32],
    pub plan_json: String,
}

#[derive(Clone, Debug, PartialEq, Eq)]
pub struct BackupRestorePlanRecord {
    pub draft: BackupRestorePlanDraft,
    pub owner: PrincipalId,
    pub created_at_ms: u64,
}

#[derive(Clone, Debug, PartialEq, Eq)]
pub struct BackupRestorePlanOutcome {
    pub plan_id: PlanId,
    pub project_id: ProjectId,
    pub backup_id: BackupId,
    pub target: BackupRestoreTarget,
    pub archive_sha256: [u8; 32],
    pub packages_require_resolve: bool,
    pub excluded_packages: Vec<RestoreExcludedPackage>,
    pub plan_fingerprint: [u8; 32],
}

#[derive(Clone, Debug, PartialEq, Eq)]
pub struct BackupRestoreApplyOutcome {
    pub operation_id: OperationId,
    pub project_id: ProjectId,
    pub replayed: bool,
    pub schedule: bool,
}

/// Durable checkpoint of a backup restore Operation.
#[derive(Clone, Copy, Debug, PartialEq, Eq, Structural)]
pub enum BackupRestorePhase {
    Accepted,
    ArchiveVerified,
    Extracting,
    StagingComplete,
    PublishIntent,
    TargetPublished,
    ProjectRegistryCommitIntent,
    StateCommitted,
}

/// The stable name of each `BackupRestorePhase`.
pub open spec fn restore_phase_name(value: BackupRestorePhase) -> Seq<char> {
    match value {
        BackupRestorePhase::Accepted => "accepted"@,
        BackupRestorePhase::ArchiveVerified => "archive_verified"@,
        BackupRestorePhase::Extracting => "extracting"@,
        BackupRestorePhase::StagingComplete => "staging_complete"@,
        BackupRestorePhase::PublishIntent => "publish_intent"@,
        BackupRestorePhase::TargetPublished => "target_published"@,
        BackupRestorePhase::ProjectRegistryCommitIntent => "project_registry_commit_intent"@,
        BackupRestorePhase::StateCommitted => "state_committed"@,
    }
}

impl BackupRestorePhase {
    /// Stable transport-neutral name.
    pub fn as_str(self) -> (r: &'static str)
        ensures
            r@ == restore_phase_name(self),
    {
        match self {
            BackupRestorePhase::Accepted => "accepted",
            BackupRestorePhase::ArchiveVerified => "archive_verified",
            BackupRestorePhase::Extracting => "extracting",
            BackupRestorePhase::StagingComplete => "staging_complete",
            BackupRestorePhase::PublishIntent => "publish_intent",
            BackupRestorePhase::TargetPublished => "target_published",
            BackupRestorePhase::ProjectRegistryCommitIntent => "project_registry_commit_intent",
            BackupRestorePhase::StateCommitted => "state_committed",
        }
    }
}

#[derive(Clone, Debug, PartialEq, Eq)]
pub struct BackupRestoreOperationRecord {
    pub plan: BackupRestorePlanRecord,
    pub phase: BackupRestorePhase,
}

#[derive(Clone, Debug, PartialEq, Eq)]
pub struct RestoredProject {
    pub project_id: ProjectId,
    pub observation: ProjectObservation,
    pub target_identity: Vec<u8>,
    pub project_fingerprint: [u8; 32],
}

/// Safe backup failure codes.
#[derive(Clone, Copy, Debug, PartialEq, Eq, Structural)]
pub enum M5BackupErrorCode {
    InvalidInput,
    PermissionDenied,
    BackupNotFound,
    ProjectNotRegistered,
    RevisionConflict,
    IdempotencyConflict,
    UnityProjectRunning,
    BackupSourceUnsafe,
    BackupLimitExceeded,
    ProjectChangedDuringBackup,
    BackupIntegrityMismatch,
    BackupRestorePlanNotFound,
    BackupRestorePlanStale,
    BackupRestoreTargetExists,
    BackupRestoreTargetUnsafe,
    BackupRestoreRecoveryRequired,
    RecoveryRequired,
    StoreUnavailable,
    Internal,
}

/// Safe backup error.
#[derive(Clone, Copy, Debug, PartialEq, Eq, Structural)]
pub struct M5BackupError {
    code: M5BackupErrorCode,
}

impl M5BackupError {
    pub closed spec fn spec_code(self) -> M5BackupErrorCode {
        self.code
    }

    pub fn new(code: M5BackupErrorCode) -> (r: Self)
        ensures
            r.spec_code() == code,
    {
        M5BackupError { code }
    }

    pub fn code(&self) -> (r: M5BackupErrorCode)
        ensures
            r == self.spec_code(),
    {
        self.code
    }
}

/// The public error name of each `M5BackupErrorCode`.
pub open spec fn backup_error_name(code: M5BackupErrorCode) -> Seq<char> {
    match code {
        M5BackupErrorCode::InvalidInput => "invalid_request"@,
        M5BackupErrorCode::PermissionDenied => "permission_denied"@,
        M5BackupErrorCode::BackupNotFound => "backup_not_found"@,
        M5BackupErrorCode::ProjectNotRegistered => "project_not_registered"@,
        M5BackupErrorCode::RevisionConflict => "revision_conflict"@,
        M5BackupErrorCode::IdempotencyConflict => "idempotency_conflict"@,
        M5BackupErrorCode::UnityProjectRunning => "unity_project_running"@,
        M5BackupErrorCode::BackupSourceUnsafe => "backup_source_unsafe"@,
        M5BackupErrorCode::BackupLimitExceeded => "backup_archive_limit_exceeded"@,
        M5BackupErrorCode::ProjectChangedDuringBackup => "project_changed_during_backup"@,
        M5BackupErrorCode::BackupIntegrityMismatch => "backup_integrity_mismatch"@,
        M5BackupErrorCode::BackupRestorePlanNotFound => "backup_restore_plan_not_found"@,
        M5BackupErrorCode::BackupRestorePlanStale => "backup_restore_plan_stale"@,
        M5BackupErrorCode::BackupRestoreTargetExists => "backup_target_exists"@,
        M5BackupErrorCode::BackupRestoreTargetUnsafe => "backup_target_invalid"@,
        M5BackupErrorCode::BackupRestoreRecoveryRequired => "backup_restore_recovery_required"@,
        M5BackupErrorCode::RecoveryRequired => "backup_unavailable"@,
        M5BackupErrorCode::StoreUnavailable => "store_unavailable"@,
        M5BackupErrorCode::Internal => "internal_error"@,
    }
}

/// The public error name of a backup failure code.
pub fn error_name(code: M5BackupErrorCode) -> (r: &'static str)
    ensures
        r@ == backup_error_name(code),
{
    match code {
        M5BackupErrorCode::InvalidInput => "invalid_request",
        M5BackupErrorCode::PermissionDenied => "permission_denied",
        M5BackupErrorCode::BackupNotFound => "backup_not_found",
        M5BackupErrorCode::ProjectNotRegistered => "project_not_registered",
        M5BackupErrorCode::RevisionConflict => "revision_conflict",
        M5BackupErrorCode::IdempotencyConflict => "idempotency_conflict",
        M5BackupErrorCode::UnityProjectRunning => "unity_project_running",
        M5BackupErrorCode::BackupSourceUnsafe => "backup_source_unsafe",
        M5BackupErrorCode::BackupLimitExceeded => "backup_archive_limit_exceeded",
        M5BackupErrorCode::ProjectChangedDuringBackup => "project_changed_during_backup",
        M5BackupErrorCode::BackupIntegrityMismatch => "backup_integrity_mismatch",
        M5BackupErrorCode::BackupRestorePlanNotFound => "backup_restore_plan_not_found",
        M5BackupErrorCode::BackupRestorePlanStale => "backup_restore_plan_stale",
        M5BackupErrorCode::BackupRestoreTargetExists => "backup_target_exists",
        M5BackupErrorCode::BackupRestoreTargetUnsafe => "backup_target_invalid",
        M5BackupErrorCode::BackupRestoreRecoveryRequired => "backup_restore_recovery_required",
        M5BackupErrorCode::RecoveryRequired => "backup_unavailable",
        M5BackupErrorCode::StoreUnavailable => "store_unavailable",
        M5BackupErrorCode::Internal => "internal_error",
    }
}

/// The effect a backup create run awaits the answer of.
#[derive(Clone, Copy, Debug, PartialEq, Eq, Structural)]
pub enum BackupRunStage {
    Start,
    FirstCancelCheck,
    Beginning,
    Locking,
    LoadingProject,
    ObservingWriter,
    Inventorying,
    InventoryRecorded,
    CancelBeforeArchive,
    ArchivingRecorded,
    Archiving,
    CancelAfterArchiveFailure,
    ArchiveReadyRecorded,
    CancelBeforeIntent,
    IntentRecorded,
    Publishing,
    PublishedRecorded,
    Completing,
    DiscardingPartial,
    FinishingCancelled,
    Ended,
}

/// The state of a backup create run: its stage, the phase the store held
/// when it began, whether archive evidence is known, the last checkpoint it
/// recorded and the error of a failed archive awaiting a cancellation check.
#[derive(Clone, Copy, Debug, PartialEq, Eq, Structural)]
pub struct BackupRun {
    pub stage: BackupRunStage,
    pub start: BackupPhase,
    pub has_evidence: bool,
    pub last_checkpoint: Option<BackupPhase>,
    pub archive_error: M5BackupErrorCode,
}

/// What the awaited effect answered.
#[derive(Clone, Copy, Debug, PartialEq, Eq, Structural)]
pub enum BackupRunEvent {
    /// The worker picked the Operation up.
    Started,
    /// Whether the owner asked to cancel the Operation.
    CancelChecked { requested: bool },
    /// The store began the Operation at this phase, with or without evidence.
    Begun { phase: BackupPhase, has_evidence: bool },
    /// The source project was read.
    ProjectLoaded { revision_matches: bool },
    /// The source project's Unity writer was observed.
    WriterObserved { running_confirmed: bool },
    /// The effect completed.
    Done,
    /// The effect failed.
    Failed { code: M5BackupErrorCode },
}

/// The next effect of a backup create run.
#[derive(Clone, Copy, Debug, PartialEq, Eq, Structural)]
pub enum BackupRunAction {
    CheckCancelled,
    Begin,
    LockProject,
    LoadProject,
    ObserveWriter,
    TakeInventory,
    RecordCheckpoint { phase: BackupPhase },
    Archive,
    DiscardPartial,
    Publish,
    Complete,
    FinishCancelled,
    /// The run ended and the Operation succeeded or was cancelled.
    Succeed,
    /// The run ended and the Operation waits for recovery.
    DeferRecovery,
    /// The run ended and the Operation failed with this code.
    RecordFailure { code: M5BackupErrorCode },
    /// The run has already ended.
    Idle,
}

/// A run that has not started yet.
pub fn backup_run_new() -> (r: BackupRun)
    ensures
        r == (BackupRun {
            stage: BackupRunStage::Start,
            start: BackupPhase::Accepted,
            has_evidence: false,
            last_checkpoint: None,
            archive_error: M5BackupErrorCode::Internal,
        }),
{
    BackupRun {
        stage: BackupRunStage::Start,
        start: BackupPhase::Accepted,
        has_evidence: false,
        last_checkpoint: None,
        archive_error: M5BackupErrorCode::Internal,
    }
}

/// Moves a run to a stage with an effect.
pub open spec fn backup_go(run: BackupRun, stage: BackupRunStage, action: BackupRunAction) -> (BackupRun, BackupRunAction) {
    (BackupRun { stage: stage, ..run }, action)
}

/// Moves a run to a stage with an effect.
pub fn backup_go_exec(run: BackupRun, stage: BackupRunStage, action: BackupRunAction) -> (r: (BackupRun, BackupRunAction))
    ensures
        r == backup_go(run, stage, action),
{
    (BackupRun { stage: stage, ..run }, action)
}

/// Records a checkpoint.
pub open spec fn backup_record(run: BackupRun, stage: BackupRunStage, phase: BackupPhase) -> (BackupRun, BackupRunAction) {
    (BackupRun { stage: stage, last_checkpoint: Some(phase), ..run }, BackupRunAction::RecordCheckpoint { phase: phase })
}

/// Records a checkpoint.
pub fn backup_record_exec(run: BackupRun, stage: BackupRunStage, phase: BackupPhase) -> (r: (BackupRun, BackupRunAction))
    ensures
        r == backup_record(run, stage, phase),
{
    (BackupRun { stage: stage, last_checkpoint: Some(phase), ..run }, BackupRunAction::RecordCheckpoint { phase: phase })
}

/// Ends a run with a failure: a recovery-required one is deferred, any other recorded.
pub open spec fn backup_end(run: BackupRun, code: M5BackupErrorCode) -> (BackupRun, BackupRunAction) {
    if code == M5BackupErrorCode::RecoveryRequired {
        (BackupRun { stage: BackupRunStage::Ended, ..run }, BackupRunAction::DeferRecovery)
    } else {
        (BackupRun { stage: BackupRunStage::Ended, ..run }, BackupRunAction::RecordFailure { code: code })
    }
}

/// Ends a run with a failure.
pub fn backup_end_exec(run: BackupRun, code: M5BackupErrorCode) -> (r: (BackupRun, BackupRunAction))
    ensures
        r == backup_end(run, code),
{
    if code == M5BackupErrorCode::RecoveryRequired {
        (BackupRun { stage: BackupRunStage::Ended, ..run }, BackupRunAction::DeferRecovery)
    } else {
        (BackupRun { stage: BackupRunStage::Ended, ..run }, BackupRunAction::RecordFailure { code: code })
    }
}

/// Past the archive: without evidence the Operation needs recovery; a ready archive is cancellable until the publish intent; later phases publish or recover.
pub open spec fn backup_evidence_gate(run: BackupRun) -> (BackupRun, BackupRunAction) {
    if !run.has_evidence {
        backup_end(run, M5BackupErrorCode::RecoveryRequired)
    } else if run.start == BackupPhase::ArchiveReady {
        backup_go(run, BackupRunStage::CancelBeforeIntent, BackupRunAction::CheckCancelled)
    } else {
        backup_go(run, BackupRunStage::Publishing, BackupRunAction::Publish)
    }
}

/// Past the archive step.
pub fn backup_evidence_gate_exec(run: BackupRun) -> (r: (BackupRun, BackupRunAction))
    ensures
        r == backup_evidence_gate(run),
{
    if !run.has_evidence {
        backup_end_exec(run, M5BackupErrorCode::RecoveryRequired)
    } else if run.start == BackupPhase::ArchiveReady {
        backup_go_exec(run, BackupRunStage::CancelBeforeIntent, BackupRunAction::CheckCancelled)
    } else {
        backup_go_exec(run, BackupRunStage::Publishing, BackupRunAction::Publish)
    }
}

/// The transition of a backup create run on the answer to its effect.
pub open spec fn backup_next(run: BackupRun, event: BackupRunEvent) -> (BackupRun, BackupRunAction) {
    match run.stage {
        BackupRunStage::Start => match event {
            BackupRunEvent::Started => backup_go(run, BackupRunStage::FirstCancelCheck, BackupRunAction::CheckCancelled),
            _ => backup_end(run, M5BackupErrorCode::Internal),
        },
        BackupRunStage::FirstCancelCheck => match event {
            BackupRunEvent::CancelChecked { requested } => if requested {
                backup_go(run, BackupRunStage::FinishingCancelled, BackupRunAction::FinishCancelled)
            } else {
                backup_go(run, BackupRunStage::Beginning, BackupRunAction::Begin)
            },
            BackupRunEvent::Failed { .. } => backup_end(run, M5BackupErrorCode::StoreUnavailable),
            _ => backup_end(run, M5BackupErrorCode::Internal),
        },
        BackupRunStage::Beginning => match event {
            BackupRunEvent::Begun { phase, has_evidence } => (
                BackupRun { stage: BackupRunStage::Locking, start: phase, has_evidence: has_evidence, ..run },
                BackupRunAction::LockProject,
            ),
            BackupRunEvent::Failed { code } => backup_end(run, code),
            _ => backup_end(run, M5BackupErrorCode::Internal),
        },
        BackupRunStage::Locking => match event {
            BackupRunEvent::Done => backup_go(run, BackupRunStage::LoadingProject, BackupRunAction::LoadProject),
            BackupRunEvent::Failed { code } => backup_end(run, code),
            _ => backup_end(run, M5BackupErrorCode::Internal),
        },
        BackupRunStage::LoadingProject => match event {
            BackupRunEvent::ProjectLoaded { revision_matches } => if revision_matches {
                backup_go(run, BackupRunStage::ObservingWriter, BackupRunAction::ObserveWriter)
            } else {
                backup_end(run, M5BackupErrorCode::RevisionConflict)
            },
            BackupRunEvent::Failed { .. } => backup_end(run, M5BackupErrorCode::ProjectNotRegistered),
            _ => backup_end(run, M5BackupErrorCode::Internal),
        },
        BackupRunStage::ObservingWriter => match event {
            BackupRunEvent::WriterObserved { running_confirmed } => if running_confirmed {
                backup_end(run, M5BackupErrorCode::UnityProjectRunning)
            } else if run.start == BackupPhase::Accepted || run.start == BackupPhase::InventoryReady || run.start == BackupPhase::Archiving {
                backup_go(run, BackupRunStage::Inventorying, BackupRunAction::TakeInventory)
            } else {
                backup_evidence_gate(run)
            },
            BackupRunEvent::Failed { code } => backup_end(run, code),
            _ => backup_end(run, M5BackupErrorCode::Internal),
        },
        BackupRunStage::Inventorying => match event {
            BackupRunEvent::Done => backup_record(run, BackupRunStage::InventoryRecorded, BackupPhase::InventoryReady),
            BackupRunEvent::Failed { code } => backup_end(run, code),
            _ => backup_end(run, M5BackupErrorCode::Internal),
        },
        BackupRunStage::InventoryRecorded => match event {
            BackupRunEvent::Done => backup_go(run, BackupRunStage::CancelBeforeArchive, BackupRunAction::CheckCancelled),
            BackupRunEvent::Failed { code } => backup_end(run, code),
            _ => backup_end(run, M5BackupErrorCode::Internal),
        },
        BackupRunStage::CancelBeforeArchive => match event {
            BackupRunEvent::CancelChecked { requested } => if requested {
                backup_go(run, BackupRunStage::FinishingCancelled, BackupRunAction::FinishCancelled)
            } else {
                backup_record(run, BackupRunStage::ArchivingRecorded, BackupPhase::Archiving)
            },
            BackupRunEvent::Failed { .. } => backup_end(run, M5BackupErrorCode::StoreUnavailable),
            _ => backup_end(run, M5BackupErrorCode::Internal),
        },
        BackupRunStage::ArchivingRecorded => match event {
            BackupRunEvent::Done => backup_go(run, BackupRunStage::Archiving, BackupRunAction::Archive),
            BackupRunEvent::Failed { code } => backup_end(run, code),
            _ => backup_end(run, M5BackupErrorCode::Internal),
        },
        BackupRunStage::Archiving => match event {
            BackupRunEvent::Done => backup_record(
                BackupRun { has_evidence: true, ..run },
                BackupRunStage::ArchiveReadyRecorded,
                BackupPhase::ArchiveReady,
            ),
            BackupRunEvent::Failed { code } => (
                BackupRun { stage: BackupRunStage::CancelAfterArchiveFailure, archive_error: code, ..run },
                BackupRunAction::CheckCancelled,
            ),
            _ => backup_end(run, M5BackupErrorCode::Internal),
        },
        BackupRunStage::CancelAfterArchiveFailure => match event {
            BackupRunEvent::CancelChecked { requested } => if requested {
                backup_go(run, BackupRunStage::DiscardingPartial, BackupRunAction::DiscardPartial)
            } else {
                backup_end(run, run.archive_error)
            },
            BackupRunEvent::Failed { .. } => backup_end(run, M5BackupErrorCode::StoreUnavailable),
            _ => backup_end(run, M5BackupErrorCode::Internal),
        },
        BackupRunStage::ArchiveReadyRecorded => match event {
            BackupRunEvent::Done => backup_go(run, BackupRunStage::CancelBeforeIntent, BackupRunAction::CheckCancelled),
            BackupRunEvent::Failed { code } => backup_end(run, code),
            _ => backup_end(run, M5BackupErrorCode::Internal),
        },
        BackupRunStage::CancelBeforeIntent => match event {
            BackupRunEvent::CancelChecked { requested } => if requested {
                backup_go(run, BackupRunStage::DiscardingPartial, BackupRunAction::DiscardPartial)
            } else {
                backup_record(run, BackupRunStage::IntentRecorded, BackupPhase::PublishIntent)
            },
            BackupRunEvent::Failed { .. } => backup_end(run, M5BackupErrorCode::StoreUnavailable),
            _ => backup_end(run, M5BackupErrorCode::Internal),
        },
        BackupRunStage::IntentRecorded => match event {
            BackupRunEvent::Done => backup_go(run, BackupRunStage::Publishing, BackupRunAction::Publish),
            BackupRunEvent::Failed { code } => backup_end(run, code),
            _ => backup_end(run, M5BackupErrorCode::Internal),
        },
        BackupRunStage::Publishing => match event {
            BackupRunEvent::Done => backup_record(run, BackupRunStage::PublishedRecorded, BackupPhase::ArchivePublished),
            BackupRunEvent::Failed { code } => backup_end(run, code),
            _ => backup_end(run, M5BackupErrorCode::Internal),
        },
        BackupRunStage::PublishedRecorded => match event {
            BackupRunEvent::Done => backup_go(run, BackupRunStage::Completing, BackupRunAction::Complete),
            BackupRunEvent::Failed { code } => backup_end(run, code),
            _ => backup_end(run, M5BackupErrorCode::Internal),
        },
        BackupRunStage::Completing => match event {
            BackupRunEvent::Done => backup_go(run, BackupRunStage::Ended, BackupRunAction::Succeed),
            BackupRunEvent::Failed { code } => backup_end(run, code),
            _ => backup_end(run, M5BackupErrorCode::Internal),
        },
        BackupRunStage::DiscardingPartial => match event {
            BackupRunEvent::Done => backup_go(run, BackupRunStage::FinishingCancelled, BackupRunAction::FinishCancelled),
            BackupRunEvent::Failed { code } => backup_end(run, code),
            _ => backup_end(run, M5BackupErrorCode::Internal),
        },
        BackupRunStage::FinishingCancelled => match event {
            BackupRunEvent::Done => backup_go(run, BackupRunStage::Ended, BackupRunAction::Succeed),
            BackupRunEvent::Failed { .. } => backup_end(run, M5BackupErrorCode::StoreUnavailable),
            _ => backup_end(run, M5BackupErrorCode::Internal),
        },
        BackupRunStage::Ended => (run, BackupRunAction::Idle),
    }
}

/// Decides the next effect of a backup create worker from the answer to
/// the last one: cancellation is checked before the Operation begins, after
/// the inventory, after a failed archive and before the publish intent; a
/// failure ends the run, deferring recovery or recording its error name.
pub fn backup_step(run: BackupRun, event: BackupRunEvent) -> (r: (BackupRun, BackupRunAction))
    ensures
        r == backup_next(run, event),
{
    match run.stage {
        BackupRunStage::Start => match event {
            BackupRunEvent::Started => backup_go_exec(run, BackupRunStage::FirstCancelCheck, BackupRunAction::CheckCancelled),
            _ => backup_end_exec(run, M5BackupErrorCode::Internal),
        },
        BackupRunStage::FirstCancelCheck => match event {
            BackupRunEvent::CancelChecked { requested } => if requested {
                backup_go_exec(run, BackupRunStage::FinishingCancelled, BackupRunAction::FinishCancelled)
            } else {
                backup_go_exec(run, BackupRunStage::Beginning, BackupRunAction::Begin)
            },
            BackupRunEvent::Failed { .. } => backup_end_exec(run, M5BackupErrorCode::StoreUnavailable),
            _ => backup_end_exec(run, M5BackupErrorCode::Internal),
        },
        BackupRunStage::Beginning => match event {
            BackupRunEvent::Begun { phase, has_evidence } => (
                BackupRun { stage: BackupRunStage::Locking, start: phase, has_evidence: has_evidence, ..run },
                BackupRunAction::LockProject,
            ),
            BackupRunEvent::Failed { code } => backup_end_exec(run, code),
            _ => backup_end_exec(run, M5BackupErrorCode::Internal),
        },
        BackupRunStage::Locking => match event {
            BackupRunEvent::Done => backup_go_exec(run, BackupRunStage::LoadingProject, BackupRunAction::LoadProject),
            BackupRunEvent::Failed { code } => backup_end_exec(run, code),
            _ => backup_end_exec(run, M5BackupErrorCode::Internal),
        },
        BackupRunStage::LoadingProject => match event {
            BackupRunEvent::ProjectLoaded { revision_matches } => if revision_matches {
                backup_go_exec(run, BackupRunStage::ObservingWriter, BackupRunAction::ObserveWriter)
            } else {
                backup_end_exec(run, M5BackupErrorCode::RevisionConflict)
            },
            BackupRunEvent::Failed { .. } => backup_end_exec(run, M5BackupErrorCode::ProjectNotRegistered),
            _ => backup_end_exec(run, M5BackupErrorCode::Internal),
        },
        BackupRunStage::ObservingWriter => match event {
            BackupRunEvent::WriterObserved { running_confirmed } => if running_confirmed {
                backup_end_exec(run, M5BackupErrorCode::UnityProjectRunning)
            } else if run.start == BackupPhase::Accepted || run.start == BackupPhase::InventoryReady || run.start == BackupPhase::Archiving {
                backup_go_exec(run, BackupRunStage::Inventorying, BackupRunAction::TakeInventory)
            } else {
                backup_evidence_gate_exec(run)
            },
            BackupRunEvent::Failed { code } => backup_end_exec(run, code),
            _ => backup_end_exec(run, M5BackupErrorCode::Internal),
        },
        BackupRunStage::Inventorying => match event {
            BackupRunEvent::Done => backup_record_exec(run, BackupRunStage::InventoryRecorded, BackupPhase::InventoryReady),
            BackupRunEvent::Failed { code } => backup_end_exec(run, code),
            _ => backup_end_exec(run, M5BackupErrorCode::Internal),
        },
        BackupRunStage::InventoryRecorded => match event {
            BackupRunEvent::Done => backup_go_exec(run, BackupRunStage::CancelBeforeArchive, BackupRunAction::CheckCancelled),
            BackupRunEvent::Failed { code } => backup_end_exec(run, code),
            _ => backup_end_exec(run, M5BackupErrorCode::Internal),
        },
        BackupRunStage::CancelBeforeArchive => match event {
            BackupRunEvent::CancelChecked { requested } => if requested {
                backup_go_exec(run, BackupRunStage::FinishingCancelled, BackupRunAction::FinishCancelled)
            } else {
                backup_record_exec(run, BackupRunStage::ArchivingRecorded, BackupPhase::Archiving)
            },
            BackupRunEvent::Failed { .. } => backup_end_exec(run, M5BackupErrorCode::StoreUnavailable),
            _ => backup_end_exec(run, M5BackupErrorCode::Internal),
        },
        BackupRunStage::ArchivingRecorded => match event {
            BackupRunEvent::Done => backup_go_exec(run, BackupRunStage::Archiving, BackupRunAction::Archive),
            BackupRunEvent::Failed { code } => backup_end_exec(run, code),
            _ => backup_end_exec(run, M5BackupErrorCode::Internal),
        },
        BackupRunStage::Archiving => match event {
            BackupRunEvent::Done => backup_record_exec(
                BackupRun { has_evidence: true, ..run },
                BackupRunStage::ArchiveReadyRecorded,
                BackupPhase::ArchiveReady,
            ),
            BackupRunEvent::Failed { code } => (
                BackupRun { stage: BackupRunStage::CancelAfterArchiveFailure, archive_error: code, ..run },
                BackupRunAction::CheckCancelled,
            ),
            _ => backup_end_exec(run, M5BackupErrorCode::Internal),
        },
        BackupRunStage::CancelAfterArchiveFailure => match event {
            BackupRunEvent::CancelChecked { requested } => if requested {
                backup_go_exec(run, BackupRunStage::DiscardingPartial, BackupRunAction::DiscardPartial)
            } else {
                backup_end_exec(run, run.archive_error)
            },
            BackupRunEvent::Failed { .. } => backup_end_exec(run, M5BackupErrorCode::StoreUnavailable),
            _ => backup_end_exec(run, M5BackupErrorCode::Internal),
        },
        BackupRunStage::ArchiveReadyRecorded => match event {
            BackupRunEvent::Done => backup_go_exec(run, BackupRunStage::CancelBeforeIntent, BackupRunAction::CheckCancelled),
            BackupRunEvent::Failed { code } => backup_end_exec(run, code),
            _ => backup_end_exec(run, M5BackupErrorCode::Internal),
        },
        BackupRunStage::CancelBeforeIntent => match event {
            BackupRunEvent::CancelChecked { requested } => if requested {
                backup_go_exec(run, BackupRunStage::DiscardingPartial, BackupRunAction::DiscardPartial)
            } else {
                backup_record_exec(run, BackupRunStage::IntentRecorded, BackupPhase::PublishIntent)
            },
            BackupRunEvent::Failed { .. } => backup_end_exec(run, M5BackupErrorCode::StoreUnavailable),
            _ => backup_end_exec(run, M5BackupErrorCode::Internal),
        },
        BackupRunStage::IntentRecorded => match event {
            BackupRunEvent::Done => backup_go_exec(run, BackupRunStage::Publishing, BackupRunAction::Publish),
            BackupRunEvent::Failed { code } => backup_end_exec(run, code),
            _ => backup_end_exec(run, M5BackupErrorCode::Internal),
        },
        BackupRunStage::Publishing => match event {
            BackupRunEvent::Done => backup_record_exec(run, BackupRunStage::PublishedRecorded, BackupPhase::ArchivePublished),
            BackupRunEvent::Failed { code } => backup_end_exec(run, code),
            _ => backup_end_exec(run, M5BackupErrorCode::Internal),
        },
        BackupRunStage::PublishedRecorded => match event {
            BackupRunEvent::Done => backup_go_exec(run, BackupRunStage::Completing, BackupRunAction::Complete),
            BackupRunEvent::Failed { code } => backup_end_exec(run, code),
            _ => backup_end_exec(run, M5BackupErrorCode::Internal),
        },
        BackupRunStage::Completing => match event {
            BackupRunEvent::Done => backup_go_exec(run, BackupRunStage::Ended, BackupRunAction::Succeed),
            BackupRunEvent::Failed { code } => backup_end_exec(run, code),
            _ => backup_end_exec(run, M5BackupErrorCode::Internal),
        },
        BackupRunStage::DiscardingPartial => match event {
            BackupRunEvent::Done => backup_go_exec(run, BackupRunStage::FinishingCancelled, BackupRunAction::FinishCancelled),
            BackupRunEvent::Failed { code } => backup_end_exec(run, code),
            _ => backup_end_exec(run, M5BackupErrorCode::Internal),
        },
        BackupRunStage::FinishingCancelled => match event {
            BackupRunEvent::Done => backup_go_exec(run, BackupRunStage::Ended, BackupRunAction::Succeed),
            BackupRunEvent::Failed { .. } => backup_end_exec(run, M5BackupErrorCode::StoreUnavailable),
            _ => backup_end_exec(run, M5BackupErrorCode::Internal),
        },
        BackupRunStage::Ended => (run, BackupRunAction::Idle),
    }
}


/// Position of a backup phase in the durable sequence.
pub open spec fn backup_phase_rank(phase: BackupPhase) -> int {
    match phase {
        BackupPhase::Accepted => 0,
        BackupPhase::InventoryReady => 1,
        BackupPhase::Archiving => 2,
        BackupPhase::ArchiveReady => 3,
        BackupPhase::PublishIntent => 4,
        BackupPhase::ArchivePublished => 5,
        BackupPhase::StateCommitted => 6,
    }
}

/// Whether a run has begun the Operation in the store.
pub open spec fn backup_run_begun(stage: BackupRunStage) -> bool {
    !(stage == BackupRunStage::Start || stage == BackupRunStage::FirstCancelCheck || stage
        == BackupRunStage::Beginning)
}

/// Whether the run found or recorded the publish intent: from then on the
/// archive may already be published and the backup is no longer abandoned.
pub open spec fn backup_intent_reached(run: BackupRun) -> bool {
    ||| (run.last_checkpoint matches Some(p) && backup_phase_rank(p) >= 4)
    ||| (backup_run_begun(run.stage) && backup_phase_rank(run.start) >= 4)
}

/// The states a backup create run can reach from a new one.
pub open spec fn backup_run_ok(run: BackupRun) -> bool {
    let early = backup_phase_rank(run.start) <= 2;
    match run.stage {
        BackupRunStage::Start | BackupRunStage::FirstCancelCheck | BackupRunStage::Beginning => run.start
            == BackupPhase::Accepted && run.last_checkpoint is None,
        BackupRunStage::Locking | BackupRunStage::LoadingProject | BackupRunStage::ObservingWriter => run.last_checkpoint is None,
        BackupRunStage::Inventorying => early && run.last_checkpoint is None,
        BackupRunStage::InventoryRecorded | BackupRunStage::CancelBeforeArchive => early && run.last_checkpoint
            == Some(BackupPhase::InventoryReady),
        BackupRunStage::ArchivingRecorded | BackupRunStage::Archiving | BackupRunStage::CancelAfterArchiveFailure => early
            && run.last_checkpoint == Some(BackupPhase::Archiving),
        BackupRunStage::ArchiveReadyRecorded => early && run.has_evidence && run.last_checkpoint == Some(
            BackupPhase::ArchiveReady,
        ),
        BackupRunStage::CancelBeforeIntent => run.has_evidence && ((early && run.last_checkpoint == Some(
            BackupPhase::ArchiveReady,
        )) || (run.last_checkpoint is None && run.start == BackupPhase::ArchiveReady)),
        BackupRunStage::IntentRecorded => run.has_evidence && run.last_checkpoint == Some(BackupPhase::PublishIntent),
        BackupRunStage::Publishing => run.has_evidence && (run.last_checkpoint == Some(BackupPhase::PublishIntent) || (
        run.last_checkpoint is None && backup_phase_rank(run.start) >= 4)),
        BackupRunStage::PublishedRecorded | BackupRunStage::Completing => run.has_evidence && run.last_checkpoint
            == Some(BackupPhase::ArchivePublished),
        BackupRunStage::DiscardingPartial | BackupRunStage::FinishingCancelled => !backup_intent_reached(run),
        BackupRunStage::Ended => true,
    }
}

/// A new run is a reachable one.
pub proof fn backup_run_starts_ok()
    ensures
        backup_run_ok(
            BackupRun {
                stage: BackupRunStage::Start,
                start: BackupPhase::Accepted,
                has_evidence: false,
                last_checkpoint: None,
                archive_error: M5BackupErrorCode::Internal,
            },
        ),
{
}

/// Every step of a backup create run keeps it reachable.
pub proof fn backup_run_stays_ok(run: BackupRun, event: BackupRunEvent)
    requires
        backup_run_ok(run),
    ensures
        backup_run_ok(backup_next(run, event).0),
{
}

/// A backup create run records its checkpoints in strictly increasing
/// phase order.
pub proof fn backup_checkpoints_only_advance(run: BackupRun, event: BackupRunEvent)
    requires
        backup_run_ok(run),
    ensures
        backup_next(run, event).1 matches BackupRunAction::RecordCheckpoint { phase } ==> backup_next(
            run,
            event,
        ).0.last_checkpoint == Some(phase) && (run.last_checkpoint matches Some(p) ==> backup_phase_rank(p)
            < backup_phase_rank(phase)),
{
}

/// A backup is discarded or finished as cancelled only before its publish
/// intent was recorded or found.
pub proof fn backup_cancels_only_before_publish_intent(run: BackupRun, event: BackupRunEvent)
    requires
        backup_run_ok(run),
    ensures
        (backup_next(run, event).1 is DiscardPartial || backup_next(run, event).1 is FinishCancelled)
            ==> !backup_intent_reached(run),
{
}

/// A backup archive is published only with its archive evidence known.
pub proof fn backup_publishes_only_with_evidence(run: BackupRun, event: BackupRunEvent)
    requires
        backup_run_ok(run),
    ensures
        backup_next(run, event).1 is Publish ==> run.has_evidence,
{
}
/// The effect a backup restore run awaits the answer of.
#[derive(Clone, Copy, Debug, PartialEq, Eq, Structural)]
pub enum RestoreRunStage {
    Start,
    Beginning,
    ValidatingCommitted,
    Resolving,
    Preparing,
    VerifiedRecorded,
    Locking,
    FirstCancelCheck,
    StagingForDiscard,
    ExtractingRecorded,
    Staging,
    StagingCompleteRecorded,
    SecondCancelCheck,
    IntentRecorded,
    Publishing,
    PublishedRecorded,
    ValidatingPublished,
    CommitIntentRecorded,
    Completing,
    Finalizing,
    FinishingSuccess,
    DiscardingStaged,
    FinishingCancelled,
    Ended,
}

/// The state of a backup restore run: its stage, the phase the store held
/// when it began and the last checkpoint it recorded.
#[derive(Clone, Copy, Debug, PartialEq, Eq, Structural)]
pub struct RestoreRun {
    pub stage: RestoreRunStage,
    pub start: BackupRestorePhase,
    pub last_checkpoint: Option<BackupRestorePhase>,
}

/// What the awaited effect of a restore run answered.
#[derive(Clone, Copy, Debug, PartialEq, Eq, Structural)]
pub enum RestoreRunEvent {
    /// The worker picked the Operation up.
    Started,
    /// The store began the Operation at this phase.
    Begun { phase: BackupRestorePhase },
    /// Whether the owner asked to cancel the Operation.
    CancelChecked { requested: bool },
    /// The effect completed.
    Done,
    /// The effect failed.
    Failed { code: M5BackupErrorCode },
}

/// The next effect of a backup restore run.
#[derive(Clone, Copy, Debug, PartialEq, Eq, Structural)]
pub enum RestoreRunAction {
    Begin,
    ValidatePublished,
    ResolveResource,
    Prepare,
    RecordCheckpoint { phase: BackupRestorePhase },
    LockResource,
    CheckCancelled,
    Stage,
    DiscardStaged,
    Publish,
    Complete,
    Finalize,
    FinishSuccess,
    FinishCancelled,
    /// The run ended and the Operation succeeded or was cancelled.
    Succeed,
    /// The run ended and the Operation failed with this code.
    RecordFailure { code: M5BackupErrorCode },
    /// The run has already ended.
    Idle,
}

/// A restore run that has not started yet.
pub fn restore_run_new() -> (r: RestoreRun)
    ensures
        r.stage == RestoreRunStage::Start,
        r.start == BackupRestorePhase::Accepted,
        r.last_checkpoint is None,
{
    RestoreRun { stage: RestoreRunStage::Start, start: BackupRestorePhase::Accepted, last_checkpoint: None }
}

/// Moves a restore run to a stage with an effect.
pub open spec fn restore_go(run: RestoreRun, stage: RestoreRunStage, action: RestoreRunAction) -> (RestoreRun, RestoreRunAction) {
    (RestoreRun { stage: stage, ..run }, action)
}

/// Moves a restore run to a stage with an effect.
pub fn restore_go_exec(run: RestoreRun, stage: RestoreRunStage, action: RestoreRunAction) -> (r: (RestoreRun, RestoreRunAction))
    ensures
        r == restore_go(run, stage, action),
{
    (RestoreRun { stage: stage, ..run }, action)
}

/// Records a restore checkpoint.
pub open spec fn restore_record(run: RestoreRun, stage: RestoreRunStage, phase: BackupRestorePhase) -> (RestoreRun, RestoreRunAction) {
    (RestoreRun { stage: stage, last_checkpoint: Some(phase), ..run }, RestoreRunAction::RecordCheckpoint { phase: phase })
}

/// Records a restore checkpoint.
pub fn restore_record_exec(run: RestoreRun, stage: RestoreRunStage, phase: BackupRestorePhase) -> (r: (RestoreRun, RestoreRunAction))
    ensures
        r == restore_record(run, stage, phase),
{
    (RestoreRun { stage: stage, last_checkpoint: Some(phase), ..run }, RestoreRunAction::RecordCheckpoint { phase: phase })
}

/// Ends a restore run with a failure.
pub open spec fn restore_end(run: RestoreRun, code: M5BackupErrorCode) -> (RestoreRun, RestoreRunAction) {
    (RestoreRun { stage: RestoreRunStage::Ended, ..run }, RestoreRunAction::RecordFailure { code: code })
}

/// Ends a restore run with a failure.
pub fn restore_end_exec(run: RestoreRun, code: M5BackupErrorCode) -> (r: (RestoreRun, RestoreRunAction))
    ensures
        r == restore_end(run, code),
{
    (RestoreRun { stage: RestoreRunStage::Ended, ..run }, RestoreRunAction::RecordFailure { code: code })
}

/// Phases at which a restore still stages and publishes its target.
pub open spec fn restore_before_publish(phase: BackupRestorePhase) -> bool {
    phase == BackupRestorePhase::Accepted || phase == BackupRestorePhase::ArchiveVerified || phase == BackupRestorePhase::Extracting || phase
        == BackupRestorePhase::StagingComplete || phase == BackupRestorePhase::PublishIntent
}

/// Whether a restore still stages and publishes its target.
pub fn restore_before_publish_exec(phase: BackupRestorePhase) -> (r: bool)
    ensures
        r == restore_before_publish(phase),
{
    phase == BackupRestorePhase::Accepted || phase == BackupRestorePhase::ArchiveVerified || phase == BackupRestorePhase::Extracting || phase
        == BackupRestorePhase::StagingComplete || phase == BackupRestorePhase::PublishIntent
}

/// Phases at which the first cancellation check of a restore is honoured.
pub open spec fn restore_cancellable(phase: BackupRestorePhase) -> bool {
    phase == BackupRestorePhase::Accepted || phase == BackupRestorePhase::ArchiveVerified || phase == BackupRestorePhase::Extracting || phase
        == BackupRestorePhase::StagingComplete
}

/// Whether the first cancellation check of a restore is honoured.
pub fn restore_cancellable_exec(phase: BackupRestorePhase) -> (r: bool)
    ensures
        r == restore_cancellable(phase),
{
    phase == BackupRestorePhase::Accepted || phase == BackupRestorePhase::ArchiveVerified || phase == BackupRestorePhase::Extracting || phase
        == BackupRestorePhase::StagingComplete
}

/// The transition of a backup restore run on the answer to its effect.
pub open spec fn restore_next(run: RestoreRun, event: RestoreRunEvent) -> (RestoreRun, RestoreRunAction) {
    match run.stage {
        RestoreRunStage::Start => match event {
            RestoreRunEvent::Started => restore_go(run, RestoreRunStage::Beginning, RestoreRunAction::Begin),
            _ => restore_end(run, M5BackupErrorCode::Internal),
        },
        RestoreRunStage::Beginning => match event {
            RestoreRunEvent::Begun { phase } => if phase == BackupRestorePhase::StateCommitted {
                (RestoreRun { stage: RestoreRunStage::ValidatingCommitted, start: phase, ..run }, RestoreRunAction::ValidatePublished)
            } else {
                (RestoreRun { stage: RestoreRunStage::Resolving, start: phase, ..run }, RestoreRunAction::ResolveResource)
            },
            RestoreRunEvent::Failed { code } => restore_end(run, code),
            _ => restore_end(run, M5BackupErrorCode::Internal),
        },
        RestoreRunStage::ValidatingCommitted => match event {
            RestoreRunEvent::Done => restore_go(run, RestoreRunStage::Finalizing, RestoreRunAction::Finalize),
            RestoreRunEvent::Failed { code } => restore_end(run, code),
            _ => restore_end(run, M5BackupErrorCode::Internal),
        },
        RestoreRunStage::Resolving => match event {
            RestoreRunEvent::Done => restore_go(run, RestoreRunStage::Preparing, RestoreRunAction::Prepare),
            RestoreRunEvent::Failed { code } => restore_end(run, code),
            _ => restore_end(run, M5BackupErrorCode::Internal),
        },
        RestoreRunStage::Preparing => match event {
            RestoreRunEvent::Done => if run.start == BackupRestorePhase::Accepted {
                restore_record(run, RestoreRunStage::VerifiedRecorded, BackupRestorePhase::ArchiveVerified)
            } else {
                restore_go(run, RestoreRunStage::Locking, RestoreRunAction::LockResource)
            },
            RestoreRunEvent::Failed { code } => restore_end(run, code),
            _ => restore_end(run, M5BackupErrorCode::Internal),
        },
        RestoreRunStage::VerifiedRecorded => match event {
            RestoreRunEvent::Done => restore_go(run, RestoreRunStage::Locking, RestoreRunAction::LockResource),
            RestoreRunEvent::Failed { code } => restore_end(run, code),
            _ => restore_end(run, M5BackupErrorCode::Internal),
        },
        RestoreRunStage::Locking => match event {
            RestoreRunEvent::Done => if restore_before_publish(run.start) {
                restore_go(run, RestoreRunStage::FirstCancelCheck, RestoreRunAction::CheckCancelled)
            } else {
                restore_go(run, RestoreRunStage::ValidatingPublished, RestoreRunAction::ValidatePublished)
            },
            RestoreRunEvent::Failed { code } => restore_end(run, code),
            _ => restore_end(run, M5BackupErrorCode::Internal),
        },
        RestoreRunStage::FirstCancelCheck => match event {
            RestoreRunEvent::CancelChecked { requested } => if requested && restore_cancellable(run.start) {
                restore_go(run, RestoreRunStage::StagingForDiscard, RestoreRunAction::Stage)
            } else {
                restore_record(run, RestoreRunStage::ExtractingRecorded, BackupRestorePhase::Extracting)
            },
            RestoreRunEvent::Failed { .. } => restore_end(run, M5BackupErrorCode::StoreUnavailable),
            _ => restore_end(run, M5BackupErrorCode::Internal),
        },
        RestoreRunStage::StagingForDiscard => match event {
            RestoreRunEvent::Done => restore_go(run, RestoreRunStage::DiscardingStaged, RestoreRunAction::DiscardStaged),
            RestoreRunEvent::Failed { code } => restore_end(run, code),
            _ => restore_end(run, M5BackupErrorCode::Internal),
        },
        RestoreRunStage::ExtractingRecorded => match event {
            RestoreRunEvent::Done => restore_go(run, RestoreRunStage::Staging, RestoreRunAction::Stage),
            RestoreRunEvent::Failed { code } => restore_end(run, code),
            _ => restore_end(run, M5BackupErrorCode::Internal),
        },
        RestoreRunStage::Staging => match event {
            RestoreRunEvent::Done => restore_record(run, RestoreRunStage::StagingCompleteRecorded, BackupRestorePhase::StagingComplete),
            RestoreRunEvent::Failed { code } => restore_end(run, code),
            _ => restore_end(run, M5BackupErrorCode::Internal),
        },
        RestoreRunStage::StagingCompleteRecorded => match event {
            RestoreRunEvent::Done => restore_go(run, RestoreRunStage::SecondCancelCheck, RestoreRunAction::CheckCancelled),
            RestoreRunEvent::Failed { code } => restore_end(run, code),
            _ => restore_end(run, M5BackupErrorCode::Internal),
        },
        RestoreRunStage::SecondCancelCheck => match event {
            RestoreRunEvent::CancelChecked { requested } => if requested {
                restore_go(run, RestoreRunStage::DiscardingStaged, RestoreRunAction::DiscardStaged)
            } else {
                restore_record(run, RestoreRunStage::IntentRecorded, BackupRestorePhase::PublishIntent)
            },
            RestoreRunEvent::Failed { .. } => restore_end(run, M5BackupErrorCode::StoreUnavailable),
            _ => restore_end(run, M5BackupErrorCode::Internal),
        },
        RestoreRunStage::IntentRecorded => match event {
            RestoreRunEvent::Done => restore_go(run, RestoreRunStage::Publishing, RestoreRunAction::Publish),
            RestoreRunEvent::Failed { code } => restore_end(run, code),
            _ => restore_end(run, M5BackupErrorCode::Internal),
        },
        RestoreRunStage::Publishing => match event {
            RestoreRunEvent::Done => restore_record(run, RestoreRunStage::PublishedRecorded, BackupRestorePhase::TargetPublished),
            RestoreRunEvent::Failed { code } => restore_end(run, code),
            _ => restore_end(run, M5BackupErrorCode::Internal),
        },
        RestoreRunStage::PublishedRecorded => match event {
            RestoreRunEvent::Done => restore_record(run, RestoreRunStage::CommitIntentRecorded, BackupRestorePhase::ProjectRegistryCommitIntent),
            RestoreRunEvent::Failed { code } => restore_end(run, code),
            _ => restore_end(run, M5BackupErrorCode::Internal),
        },
        RestoreRunStage::ValidatingPublished => match event {
            RestoreRunEvent::Done => restore_record(run, RestoreRunStage::CommitIntentRecorded, BackupRestorePhase::ProjectRegistryCommitIntent),
            RestoreRunEvent::Failed { code } => restore_end(run, code),
            _ => restore_end(run, M5BackupErrorCode::Internal),
        },
        RestoreRunStage::CommitIntentRecorded => match event {
            RestoreRunEvent::Done => restore_go(run, RestoreRunStage::Completing, RestoreRunAction::Complete),
            RestoreRunEvent::Failed { code } => restore_end(run, code),
            _ => restore_end(run, M5BackupErrorCode::Internal),
        },
        RestoreRunStage::Completing => match event {
            RestoreRunEvent::Done => restore_go(run, RestoreRunStage::Finalizing, RestoreRunAction::Finalize),
            RestoreRunEvent::Failed { code } => restore_end(run, code),
            _ => restore_end(run, M5BackupErrorCode::Internal),
        },
        RestoreRunStage::Finalizing => match event {
            RestoreRunEvent::Done => restore_go(run, RestoreRunStage::FinishingSuccess, RestoreRunAction::FinishSuccess),
            RestoreRunEvent::Failed { code } => restore_end(run, code),
            _ => restore_end(run, M5BackupErrorCode::Internal),
        },
        RestoreRunStage::FinishingSuccess => match event {
            RestoreRunEvent::Done => restore_go(run, RestoreRunStage::Ended, RestoreRunAction::Succeed),
            RestoreRunEvent::Failed { code } => restore_end(run, code),
            _ => restore_end(run, M5BackupErrorCode::Internal),
        },
        RestoreRunStage::DiscardingStaged => match event {
            RestoreRunEvent::Done => restore_go(run, RestoreRunStage::FinishingCancelled, RestoreRunAction::FinishCancelled),
            RestoreRunEvent::Failed { code } => restore_end(run, code),
            _ => restore_end(run, M5BackupErrorCode::Internal),
        },
        RestoreRunStage::FinishingCancelled => match event {
            RestoreRunEvent::Done => restore_go(run, RestoreRunStage::Ended, RestoreRunAction::Succeed),
            RestoreRunEvent::Failed { .. } => restore_end(run, M5BackupErrorCode::StoreUnavailable),
            _ => restore_end(run, M5BackupErrorCode::Internal),
        },
        RestoreRunStage::Ended => (run, RestoreRunAction::Idle),
    }
}

/// Decides the next effect of a backup restore worker from the answer to the last one: a committed restore is only revalidated and finalized; an earlier one is resolved, prepared, staged with two cancellation checks, published and committed; any failure ends the run and records its error name.
pub fn restore_step(run: RestoreRun, event: RestoreRunEvent) -> (r: (RestoreRun, RestoreRunAction))
    ensures
        r == restore_next(run, event),
{
    match run.stage {
        RestoreRunStage::Start => match event {
            RestoreRunEvent::Started => restore_go_exec(run, RestoreRunStage::Beginning, RestoreRunAction::Begin),
            _ => restore_end_exec(run, M5BackupErrorCode::Internal),
        },
        RestoreRunStage::Beginning => match event {
            RestoreRunEvent::Begun { phase } => if phase == BackupRestorePhase::StateCommitted {
                (RestoreRun { stage: RestoreRunStage::ValidatingCommitted, start: phase, ..run }, RestoreRunAction::ValidatePublished)
            } else {
                (RestoreRun { stage: RestoreRunStage::Resolving, start: phase, ..run }, RestoreRunAction::ResolveResource)
            },
            RestoreRunEvent::Failed { code } => restore_end_exec(run, code),
            _ => restore_end_exec(run, M5BackupErrorCode::Internal),
        },
        RestoreRunStage::ValidatingCommitted => match event {
            RestoreRunEvent::Done => restore_go_exec(run, RestoreRunStage::Finalizing, RestoreRunAction::Finalize),
            RestoreRunEvent::Failed { code } => restore_end_exec(run, code),
            _ => restore_end_exec(run, M5BackupErrorCode::Internal),
        },
        RestoreRunStage::Resolving => match event {
            RestoreRunEvent::Done => restore_go_exec(run, RestoreRunStage::Preparing, RestoreRunAction::Prepare),
            RestoreRunEvent::Failed { code } => restore_end_exec(run, code),
            _ => restore_end_exec(run, M5BackupErrorCode::Internal),
        },
        RestoreRunStage::Preparing => match event {
            RestoreRunEvent::Done => if run.start == BackupRestorePhase::Accepted {
                restore_record_exec(run, RestoreRunStage::VerifiedRecorded, BackupRestorePhase::ArchiveVerified)
            } else {
                restore_go_exec(run, RestoreRunStage::Locking, RestoreRunAction::LockResource)
            },
            RestoreRunEvent::Failed { code } => restore_end_exec(run, code),
            _ => restore_end_exec(run, M5BackupErrorCode::Internal),
        },
        RestoreRunStage::VerifiedRecorded => match event {
            RestoreRunEvent::Done => restore_go_exec(run, RestoreRunStage::Locking, RestoreRunAction::LockResource),
            RestoreRunEvent::Failed { code } => restore_end_exec(run, code),
            _ => restore_end_exec(run, M5BackupErrorCode::Internal),
        },
        RestoreRunStage::Locking => match event {
            RestoreRunEvent::Done => if restore_before_publish_exec(run.start) {
                restore_go_exec(run, RestoreRunStage::FirstCancelCheck, RestoreRunAction::CheckCancelled)
            } else {
                restore_go_exec(run, RestoreRunStage::ValidatingPublished, RestoreRunAction::ValidatePublished)
            },
            RestoreRunEvent::Failed { code } => restore_end_exec(run, code),
            _ => restore_end_exec(run, M5BackupErrorCode::Internal),
        },
        RestoreRunStage::FirstCancelCheck => match event {
            RestoreRunEvent::CancelChecked { requested } => if requested && restore_cancellable_exec(run.start) {
                restore_go_exec(run, RestoreRunStage::StagingForDiscard, RestoreRunAction::Stage)
            } else {
                restore_record_exec(run, RestoreRunStage::ExtractingRecorded, BackupRestorePhase::Extracting)
            },
            RestoreRunEvent::Failed { .. } => restore_end_exec(run, M5BackupErrorCode::StoreUnavailable),
            _ => restore_end_exec(run, M5BackupErrorCode::Internal),
        },
        RestoreRunStage::StagingForDiscard => match event {
            RestoreRunEvent::Done => restore_go_exec(run, RestoreRunStage::DiscardingStaged, RestoreRunAction::DiscardStaged),
            RestoreRunEvent::Failed { code } => restore_end_exec(run, code),
            _ => restore_end_exec(run, M5BackupErrorCode::Internal),
        },
        RestoreRunStage::ExtractingRecorded => match event {
            RestoreRunEvent::Done => restore_go_exec(run, RestoreRunStage::Staging, RestoreRunAction::Stage),
            RestoreRunEvent::Failed { code } => restore_end_exec(run, code),
            _ => restore_end_exec(run, M5BackupErrorCode::Internal),
        },
        RestoreRunStage::Staging => match event {
            RestoreRunEvent::Done => restore_record_exec(run, RestoreRunStage::StagingCompleteRecorded, BackupRestorePhase::StagingComplete),
            RestoreRunEvent::Failed { code } => restore_end_exec(run, code),
            _ => restore_end_exec(run, M5BackupErrorCode::Internal),
        },
        RestoreRunStage::StagingCompleteRecorded => match event {
            RestoreRunEvent::Done => restore_go_exec(run, RestoreRunStage::SecondCancelCheck, RestoreRunAction::CheckCancelled),
            RestoreRunEvent::Failed { code } => restore_end_exec(run, code),
            _ => restore_end_exec(run, M5BackupErrorCode::Internal),
        },
        RestoreRunStage::SecondCancelCheck => match event {
            RestoreRunEvent::CancelChecked { requested } => if requested {
                restore_go_exec(run, RestoreRunStage::DiscardingStaged, RestoreRunAction::DiscardStaged)
            } else {
                restore_record_exec(run, RestoreRunStage::IntentRecorded, BackupRestorePhase::PublishIntent)
            },
            RestoreRunEvent::Failed { .. } => restore_end_exec(run, M5BackupErrorCode::StoreUnavailable),
            _ => restore_end_exec(run, M5BackupErrorCode::Internal),
        },
        RestoreRunStage::IntentRecorded => match event {
            RestoreRunEvent::Done => restore_go_exec(run, RestoreRunStage::Publishing, RestoreRunAction::Publish),
            RestoreRunEvent::Failed { code } => restore_end_exec(run, code),
            _ => restore_end_exec(run, M5BackupErrorCode::Internal),
        },
        RestoreRunStage::Publishing => match event {
            RestoreRunEvent::Done => restore_record_exec(run, RestoreRunStage::PublishedRecorded, BackupRestorePhase::TargetPublished),
            RestoreRunEvent::Failed { code } => restore_end_exec(run, code),
            _ => restore_end_exec(run, M5BackupErrorCode::Internal),
        },
        RestoreRunStage::PublishedRecorded => match event {
            RestoreRunEvent::Done => restore_record_exec(run, RestoreRunStage::CommitIntentRecorded, BackupRestorePhase::ProjectRegistryCommitIntent),
            RestoreRunEvent::Failed { code } => restore_end_exec(run, code),
            _ => restore_end_exec(run, M5BackupErrorCode::Internal),
        },
        RestoreRunStage::ValidatingPublished => match event {
            RestoreRunEvent::Done => restore_record_exec(run, RestoreRunStage::CommitIntentRecorded, BackupRestorePhase::ProjectRegistryCommitIntent),
            RestoreRunEvent::Failed { code } => restore_end_exec(run, code),
            _ => restore_end_exec(run, M5BackupErrorCode::Internal),
        },
        RestoreRunStage::CommitIntentRecorded => match event {
            RestoreRunEvent::Done => restore_go_exec(run, RestoreRunStage::Completing, RestoreRunAction::Complete),
            RestoreRunEvent::Failed { code } => restore_end_exec(run, code),
            _ => restore_end_exec(run, M5BackupErrorCode::Internal),
        },
        RestoreRunStage::Completing => match event {
            RestoreRunEvent::Done => restore_go_exec(run, RestoreRunStage::Finalizing, RestoreRunAction::Finalize),
            RestoreRunEvent::Failed { code } => restore_end_exec(run, code),
            _ => restore_end_exec(run, M5BackupErrorCode::Internal),
        },
        RestoreRunStage::Finalizing => match event {
            RestoreRunEvent::Done => restore_go_exec(run, RestoreRunStage::FinishingSuccess, RestoreRunAction::FinishSuccess),
            RestoreRunEvent::Failed { code } => restore_end_exec(run, code),
            _ => restore_end_exec(run, M5BackupErrorCode::Internal),
        },
        RestoreRunStage::FinishingSuccess => match event {
            RestoreRunEvent::Done => restore_go_exec(run, RestoreRunStage::Ended, RestoreRunAction::Succeed),
            RestoreRunEvent::Failed { code } => restore_end_exec(run, code),
            _ => restore_end_exec(run, M5BackupErrorCode::Internal),
        },
        RestoreRunStage::DiscardingStaged => match event {
            RestoreRunEvent::Done => restore_go_exec(run, RestoreRunStage::FinishingCancelled, RestoreRunAction::FinishCancelled),
            RestoreRunEvent::Failed { code } => restore_end_exec(run, code),
            _ => restore_end_exec(run, M5BackupErrorCode::Internal),
        },
        RestoreRunStage::FinishingCancelled => match event {
            RestoreRunEvent::Done => restore_go_exec(run, RestoreRunStage::Ended, RestoreRunAction::Succeed),
            RestoreRunEvent::Failed { .. } => restore_end_exec(run, M5BackupErrorCode::StoreUnavailable),
            _ => restore_end_exec(run, M5BackupErrorCode::Internal),
        },
        RestoreRunStage::Ended => (run, RestoreRunAction::Idle),
    }
}


/// Position of a restore phase in the durable sequence.
pub open spec fn restore_phase_rank(phase: BackupRestorePhase) -> int {
    match phase {
        BackupRestorePhase::Accepted => 0,
        BackupRestorePhase::ArchiveVerified => 1,
        BackupRestorePhase::Extracting => 2,
        BackupRestorePhase::StagingComplete => 3,
        BackupRestorePhase::PublishIntent => 4,
        BackupRestorePhase::TargetPublished => 5,
        BackupRestorePhase::ProjectRegistryCommitIntent => 6,
        BackupRestorePhase::StateCommitted => 7,
    }
}

/// Whether the run has itself recorded a checkpoint at or after `rank`.
pub open spec fn restore_recorded_at_least(run: RestoreRun, rank: int) -> bool {
    run.last_checkpoint matches Some(p) && restore_phase_rank(p) >= rank
}

/// The states a backup restore run can reach from a new one.
pub open spec fn restore_run_ok(run: RestoreRun) -> bool {
    let none = run.last_checkpoint is None;
    match run.stage {
        RestoreRunStage::Start | RestoreRunStage::Beginning => run.start == BackupRestorePhase::Accepted && none,
        RestoreRunStage::ValidatingCommitted => run.start == BackupRestorePhase::StateCommitted && none,
        RestoreRunStage::Resolving | RestoreRunStage::Preparing => run.start != BackupRestorePhase::StateCommitted && none,
        RestoreRunStage::VerifiedRecorded => run.start == BackupRestorePhase::Accepted && run.last_checkpoint == Some(
            BackupRestorePhase::ArchiveVerified,
        ),
        RestoreRunStage::Locking | RestoreRunStage::FirstCancelCheck | RestoreRunStage::StagingForDiscard
        | RestoreRunStage::ValidatingPublished => run.start != BackupRestorePhase::StateCommitted && (none
            || run.last_checkpoint == Some(BackupRestorePhase::ArchiveVerified)),
        RestoreRunStage::ExtractingRecorded | RestoreRunStage::Staging => run.last_checkpoint == Some(
            BackupRestorePhase::Extracting,
        ),
        RestoreRunStage::StagingCompleteRecorded | RestoreRunStage::SecondCancelCheck => run.last_checkpoint == Some(
            BackupRestorePhase::StagingComplete,
        ),
        RestoreRunStage::IntentRecorded | RestoreRunStage::Publishing => run.last_checkpoint == Some(
            BackupRestorePhase::PublishIntent,
        ),
        RestoreRunStage::PublishedRecorded => run.last_checkpoint == Some(BackupRestorePhase::TargetPublished),
        RestoreRunStage::CommitIntentRecorded | RestoreRunStage::Completing => run.last_checkpoint == Some(
            BackupRestorePhase::ProjectRegistryCommitIntent,
        ),
        RestoreRunStage::Finalizing | RestoreRunStage::FinishingSuccess => run.last_checkpoint == Some(
            BackupRestorePhase::ProjectRegistryCommitIntent,
        ) || (none && run.start == BackupRestorePhase::StateCommitted),
        RestoreRunStage::DiscardingStaged | RestoreRunStage::FinishingCancelled => !restore_recorded_at_least(run, 4),
        RestoreRunStage::Ended => true,
    }
}

/// Every step of a backup restore run keeps it reachable.
pub proof fn restore_run_stays_ok(run: RestoreRun, event: RestoreRunEvent)
    requires
        restore_run_ok(run),
    ensures
        restore_run_ok(restore_next(run, event).0),
{
}

/// A restore run records its checkpoints in strictly increasing phase order.
pub proof fn restore_checkpoints_only_advance(run: RestoreRun, event: RestoreRunEvent)
    requires
        restore_run_ok(run),
    ensures
        restore_next(run, event).1 matches RestoreRunAction::RecordCheckpoint { phase } ==> restore_next(
            run,
            event,
        ).0.last_checkpoint == Some(phase) && (run.last_checkpoint matches Some(p) ==> restore_phase_rank(p)
            < restore_phase_rank(phase)),
{
}

/// A restore run discards its staging, or finishes as cancelled, only
/// before it records its own publish intent; it publishes only right after
/// recording that intent.
pub proof fn restore_cancels_only_before_publish_intent(run: RestoreRun, event: RestoreRunEvent)
    requires
        restore_run_ok(run),
    ensures
        (restore_next(run, event).1 is DiscardStaged || restore_next(run, event).1 is FinishCancelled)
            ==> !restore_recorded_at_least(run, 4),
        restore_next(run, event).1 is Publish ==> run.last_checkpoint == Some(BackupRestorePhase::PublishIntent),
{
}

/// A restore is finalized only once its project is committed: after the run
/// committed it, or when the store already held it committed.
pub proof fn restore_finalizes_only_committed(run: RestoreRun, event: RestoreRunEvent)
    requires
        restore_run_ok(run),
    ensures
        restore_next(run, event).1 is Finalize ==> run.last_checkpoint == Some(
            BackupRestorePhase::ProjectRegistryCommitIntent,
        ) || run.start == BackupRestorePhase::StateCommitted,
{
}


/// Cancellation flag shared between a backup worker and its archiver.
#[derive(Clone, Debug)]
pub struct BackupCancellation(Arc<AtomicU8>);

impl Default for BackupCancellation {
    fn default() -> (r: Self) {
        BackupCancellation(Arc::new(AtomicU8::new(0)))
    }
}

impl BackupCancellation {
    /// Whether the owner asked the archiver to stop.
    pub fn cancelled(&self) -> (r: bool) {
        let state: u8 = (*self.0).load(std::sync::atomic::Ordering::Acquire);
        state == 1
    }

    /// Asks the archiver to stop.
    pub fn cancel(&self) {
        (*self.0).store(1, std::sync::atomic::Ordering::Release);
    }

    /// Tells the cancellation monitor that archiving is over.
    pub fn stop(&self) {
        (*self.0).store(2, std::sync::atomic::Ordering::Release);
    }

    /// Whether archiving is over.
    pub fn stopped(&self) -> (r: bool) {
        let state: u8 = (*self.0).load(std::sync::atomic::Ordering::Acquire);
        state == 2
    }
}

/// A backup listing asks for 1 to 1000 records.
pub fn validate_backup_list_limit(limit: u32) -> (r: Result<(), M5BackupError>)
    ensures
        r is Ok <==> 1 <= limit <= 1000,
        r matches Err(e) ==> e.spec_code() == M5BackupErrorCode::InvalidInput,
{
    if limit < 1 || limit > 1000 {
        return Err(M5BackupError::new(M5BackupErrorCode::InvalidInput));
    }
    Ok(())
}

/// The public records of a list of stored backups.
pub open spec fn backup_records_of(v: Seq<StoredBackupRecord>) -> Seq<BackupRecord> {
    v.map_values(|s: StoredBackupRecord| s.record)
}

/// Builds a backup page from the store's answer to a listing of
/// `limit + 1` records: at most `limit` records in store order, and a
/// cursor at the last kept one when the store had more.
pub fn backup_page(records: Vec<StoredBackupRecord>, limit: u32) -> (r: BackupPage)
    requires
        1 <= limit <= 1000,
        records@.len() <= limit + 1,
    ensures
        r.backups@ == backup_records_of(
            if records@.len() > limit {
                records@.drop_last()
            } else {
                records@
            },
        ),
        r.next_cursor == if records@.len() > limit {
            Some(
                BackupCursor {
                    created_at_ms: records@[limit - 1].record.created_at_ms,
                    backup_id: records@[limit - 1].record.backup_id,
                },
            )
        } else {
            None
        },
{
    let mut records = records;
    let has_more = records.len() > limit as usize;
    if has_more {
        records.pop();
    }
    let ghost kept = records@;
    let mut reversed: Vec<BackupRecord> = Vec::new();
    while records.len() > 0
        invariant
            records@.len() + reversed@.len() == kept.len(),
            records@ == kept.take(records@.len() as int),
            forall|i: int|
                0 <= i < reversed@.len() ==> reversed@[i] == kept[kept.len() - 1 - i].record,
        decreases records@.len(),
    {
        let last = records.pop().unwrap();
        reversed.push(last.record);
    }
    let mut backups: Vec<BackupRecord> = Vec::new();
    while reversed.len() > 0
        invariant
            reversed@.len() + backups@.len() == kept.len(),
            forall|i: int| 0 <= i < reversed@.len() ==> reversed@[i] == kept[kept.len() - 1 - i].record,
            forall|i: int| 0 <= i < backups@.len() ==> backups@[i] == kept[i].record,
        decreases reversed@.len(),
    {
        let next = reversed.pop().unwrap();
        backups.push(next);
    }
    proof {
        assert(backups@ =~= backup_records_of(kept));
    }
    let next_cursor = if has_more && backups.len() > 0 {
        let last = &backups[backups.len() - 1];
        Some(BackupCursor { created_at_ms: last.created_at_ms, backup_id: last.backup_id })
    } else {
        None
    };
    BackupPage { backups, next_cursor }
}

/// The backup code that stands for a refused permission.
pub fn require_backup_permission(access: &AccessContext, permission: Permission) -> (r: Result<(), M5BackupError>)
    ensures
        r is Ok <==> access@.permissions.contains(permission),
        r matches Err(e) ==> e.spec_code() == M5BackupErrorCode::PermissionDenied,
{
    if access.require(permission).is_err() {
        return Err(M5BackupError::new(M5BackupErrorCode::PermissionDenied));
    }
    Ok(())
}

/// Whether the caller is the built-in local owner.
pub fn is_local_owner(access: &AccessContext) -> (r: bool)
    ensures
        r == (access@.principal == "builtin:local-owner"@),
{
    let owner = PrincipalId::local_owner();
    crate::text::str_eq(access.principal().as_str(), owner.as_str())
}

/// Creating a backup needs the backup-manage and project-read permissions.
pub fn authorize_backup_create(access: &AccessContext) -> (r: Result<(), M5BackupError>)
    ensures
        r is Ok <==> access@.permissions.contains(Permission::BackupsManage) && access@.permissions.contains(
            Permission::ProjectsRead,
        ),
        r matches Err(e) ==> e.spec_code() == M5BackupErrorCode::PermissionDenied,
{
    require_backup_permission(access, Permission::BackupsManage)?;
    require_backup_permission(access, Permission::ProjectsRead)
}

/// Planning a restore needs the backup-read and project-create permissions
/// and the local owner.
pub fn authorize_restore_plan(access: &AccessContext) -> (r: Result<(), M5BackupError>)
    ensures
        r is Ok <==> access@.permissions.contains(Permission::BackupsRead) && access@.permissions.contains(
            Permission::ProjectsCreate,
        ) && access@.principal == "builtin:local-owner"@,
        r matches Err(e) ==> e.spec_code() == M5BackupErrorCode::PermissionDenied,
{
    require_backup_permission(access, Permission::BackupsRead)?;
    require_backup_permission(access, Permission::ProjectsCreate)?;
    if !is_local_owner(access) {
        return Err(M5BackupError::new(M5BackupErrorCode::PermissionDenied));
    }
    Ok(())
}

/// Applying a restore needs the backup-read, backup-manage and
/// project-create permissions and the local owner.
pub fn authorize_restore_apply(access: &AccessContext) -> (r: Result<(), M5BackupError>)
    ensures
        r is Ok <==> access@.permissions.contains(Permission::BackupsRead) && access@.permissions.contains(
            Permission::BackupsManage,
        ) && access@.permissions.contains(Permission::ProjectsCreate) && access@.principal
            == "builtin:local-owner"@,
        r matches Err(e) ==> e.spec_code() == M5BackupErrorCode::PermissionDenied,
{
    require_backup_permission(access, Permission::BackupsRead)?;
    require_backup_permission(access, Permission::BackupsManage)?;
    require_backup_permission(access, Permission::ProjectsCreate)?;
    if !is_local_owner(access) {
        return Err(M5BackupError::new(M5BackupErrorCode::PermissionDenied));
    }
    Ok(())
}

/// What a stored restore plan tells its planner.
pub fn restore_plan_outcome(plan: BackupRestorePlanRecord) -> (r: BackupRestorePlanOutcome)
    ensures
        r.plan_id == plan.draft.plan_id,
        r.project_id == plan.draft.project_id,
        r.backup_id == plan.draft.backup_id,
        r.target == plan.draft.target,
        r.archive_sha256 == plan.draft.archive_sha256,
        r.packages_require_resolve == plan.draft.exclude_vpm_packages,
        r.excluded_packages == plan.draft.excluded_packages,
        r.plan_fingerprint == plan.draft.plan_fingerprint,
{
    let draft = plan.draft;
    BackupRestorePlanOutcome {
        plan_id: draft.plan_id,
        project_id: draft.project_id,
        backup_id: draft.backup_id,
        target: draft.target,
        archive_sha256: draft.archive_sha256,
        packages_require_resolve: draft.exclude_vpm_packages,
        excluded_packages: draft.excluded_packages,
        plan_fingerprint: draft.plan_fingerprint,
    }
}

/// The stored record of a published backup archive, in format version 1.
pub fn stored_backup_record(
    request: &BackupCreateRequest,
    evidence: &BackupArchiveEvidence,
    published: PublishedBackup,
) -> (r: StoredBackupRecord)
    ensures
        r.record.backup_id == request.backup_id,
        r.record.source_project_id == request.project_id,
        r.record.archive_sha256 == evidence.archive_sha256,
        r.record.archive_bytes == evidence.archive_bytes,
        r.record.format_version == 1,
        r.record.created_at_ms == request.created_at_ms,
        r.record.compression_mode == request.compression_mode,
        r.record.exclude_vpm_packages == request.exclude_vpm_packages,
        r.archive_locator == published.archive_locator,
        r.file_identity_key == published.file_identity_key,
{
    StoredBackupRecord {
        record: BackupRecord {
            backup_id: request.backup_id,
            source_project_id: request.project_id,
            archive_sha256: evidence.archive_sha256,
            archive_bytes: evidence.archive_bytes,
            format_version: 1,
            created_at_ms: request.created_at_ms,
            compression_mode: request.compression_mode,
            exclude_vpm_packages: request.exclude_vpm_packages,
        },
        archive_locator: published.archive_locator,
        file_identity_key: published.file_identity_key,
    }
}

/// A backup is taken only of the revision its caller asked for: once the
/// project is loaded at another revision the run ends with
/// `revision_conflict`, and the Unity writer (the first step toward the
/// inventory and the archive) is observed only after a load at the expected
/// revision.
pub proof fn backup_only_of_the_expected_revision(run: BackupRun, event: BackupRunEvent)
    ensures
        run.stage == BackupRunStage::LoadingProject ==> backup_next(
            run,
            BackupRunEvent::ProjectLoaded { revision_matches: false },
        ).1 == (BackupRunAction::RecordFailure { code: M5BackupErrorCode::RevisionConflict }),
        run.stage == BackupRunStage::LoadingProject ==> backup_next(
            run,
            BackupRunEvent::ProjectLoaded { revision_matches: false },
        ).0.stage == BackupRunStage::Ended,
        backup_next(run, event).1 is ObserveWriter ==> run.stage == BackupRunStage::LoadingProject
            && event == (BackupRunEvent::ProjectLoaded { revision_matches: true }),
{
}


/// An owner's cancellation before the publish intent ends a backup
/// cancelled: before anything was archived the Operation finishes cancelled
/// at once; once archiving began, the partial archive is discarded first and
/// the Operation then finishes cancelled. Without a request nothing is
/// discarded and the run does not finish cancelled.
pub proof fn backup_cancellation_ends_cancelled(run: BackupRun)
    ensures
        (run.stage == BackupRunStage::FirstCancelCheck || run.stage == BackupRunStage::CancelBeforeArchive)
            ==> backup_next(run, BackupRunEvent::CancelChecked { requested: true }).1 is FinishCancelled,
        (run.stage == BackupRunStage::CancelAfterArchiveFailure || run.stage == BackupRunStage::CancelBeforeIntent) ==> {
            let discarding = backup_next(run, BackupRunEvent::CancelChecked { requested: true });
            &&& discarding.1 is DiscardPartial
            &&& backup_next(discarding.0, BackupRunEvent::Done).1 is FinishCancelled
        },
        (run.stage == BackupRunStage::FirstCancelCheck || run.stage == BackupRunStage::CancelBeforeArchive
            || run.stage == BackupRunStage::CancelAfterArchiveFailure || run.stage == BackupRunStage::CancelBeforeIntent)
            ==> !(backup_next(run, BackupRunEvent::CancelChecked { requested: false }).1 is FinishCancelled)
            && !(backup_next(run, BackupRunEvent::CancelChecked { requested: false }).1 is DiscardPartial),
{
}

/// An owner's cancellation of a restore before its publish intent discards
/// what was staged and finishes cancelled; at the first check this holds
/// while the restore is still at a cancellable phase.
pub proof fn restore_cancellation_discards_the_staging(run: RestoreRun)
    ensures
        run.stage == RestoreRunStage::SecondCancelCheck ==> {
            let discarding = restore_next(run, RestoreRunEvent::CancelChecked { requested: true });
            &&& discarding.1 is DiscardStaged
            &&& restore_next(discarding.0, RestoreRunEvent::Done).1 is FinishCancelled
        },
        run.stage == RestoreRunStage::FirstCancelCheck && restore_cancellable(run.start) ==> {
            let staging = restore_next(run, RestoreRunEvent::CancelChecked { requested: true });
            let discarding = restore_next(staging.0, RestoreRunEvent::Done);
            &&& discarding.1 is DiscardStaged
            &&& restore_next(discarding.0, RestoreRunEvent::Done).1 is FinishCancelled
        },
        (run.stage == RestoreRunStage::FirstCancelCheck || run.stage == RestoreRunStage::SecondCancelCheck) ==> !(
        restore_next(run, RestoreRunEvent::CancelChecked { requested: false }).1 is DiscardStaged),
{
}

} // verus!
