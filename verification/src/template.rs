//! Native templates: registry records, immutable plans, the checks that
//! gate their use and the decisions of the template apply worker.

use vstd::prelude::*;

use crate::access::AccessContext;
use crate::domain::{Permission, PrincipalId, Revision};
use crate::ids::{OperationId, PlanId, ProjectId, TemplateId};
use crate::registry::ProjectObservation;
use crate::unity::UnityWriterStateKind;

verus! {

/// Durable template source class.
#[derive(Clone, Copy, Debug, PartialEq, Eq, Structural)]
pub enum TemplateSourceKind {
    Builtin,
    User,
}

/// Public-safe Template registry row.
#[derive(Clone, Debug, PartialEq, Eq)]
pub struct TemplateRecord {
    pub template_id: TemplateId,
    pub source_kind: TemplateSourceKind,
    pub template_version: String,
    pub display_name: String,
    pub description: Option<String>,
    pub provenance: String,
    pub manifest_json: String,
    pub bundle_sha256: [u8; 32],
    pub manifest_fingerprint: [u8; 32],
    pub favorite: bool,
    pub revision: Revision,
    pub created_at_ms: u64,
    pub updated_at_ms: u64,
}

/// Registry row exactly represented by State Schema v4; presentation fields are derived from the
#[derive(Clone, Debug, PartialEq, Eq)]
pub struct StoredTemplateRecord {
    pub template_id: TemplateId,
    pub source_kind: TemplateSourceKind,
    pub template_version: String,
    pub manifest_json: String,
    pub payload_locator: String,
    pub bundle_sha256: [u8; 32],
    pub favorite: bool,
    pub revision: Revision,
    pub created_at_ms: u64,
    pub updated_at_ms: u64,
}

/// Opaque stable Template page cursor.
#[derive(Clone, Debug, PartialEq, Eq)]
pub struct TemplateCursor {
    pub updated_at_ms: u64,
    pub template_id: TemplateId,
}

/// Bounded Template registry page.
#[derive(Clone, Debug, PartialEq, Eq)]
pub struct TemplatePage {
    pub templates: Vec<TemplateRecord>,
    pub next_cursor: Option<TemplateCursor>,
}

/// Strict inspection result plus private adapter evidence used to freeze a Plan.
#[derive(Clone, Debug, PartialEq, Eq)]
pub struct TemplateBundleEvidence {
    pub template_id: TemplateId,
    pub template_version: String,
    pub display_name: String,
    pub description: Option<String>,
    pub provenance: String,
    pub manifest_json: String,
    pub bundle_sha256: [u8; 32],
    pub manifest_fingerprint: [u8; 32],
    pub payload_tree_sha256: [u8; 32],
    pub entry_count: u64,
    pub total_bytes: u64,
    pub source_path: String,
    pub source_filesystem_identity: Vec<u8>,
}

/// Immutable template plan kind.
#[derive(Clone, Copy, Debug, PartialEq, Eq, Structural)]
pub enum TemplatePlanKind {
    Import,
    Derive,
    CreateProject,
}

/// Durable template plan lifecycle.
#[derive(Clone, Copy, Debug, PartialEq, Eq, Structural)]
pub enum TemplatePlanState {
    Unapplied,
    Applied,
}

/// Adapter-produced Plan payload and fingerprint ready for durable insertion.
#[derive(Clone, Debug, PartialEq, Eq)]
pub struct TemplatePlanDraft {
    pub kind: TemplatePlanKind,
    pub plan_json: String,
    pub plan_fingerprint: [u8; 32],
}

/// Durable immutable Template Plan.
#[derive(Clone, Debug, PartialEq, Eq)]
pub struct TemplatePlanRecord {
    pub plan_id: PlanId,
    pub owner: PrincipalId,
    pub kind: TemplatePlanKind,
    pub state: TemplatePlanState,
    pub plan_json: String,
    pub plan_fingerprint: [u8; 32],
    pub apply_operation_id: Option<OperationId>,
    pub created_at_ms: u64,
}

/// Accepted or replayed Template apply Operation.
#[derive(Clone, Debug, PartialEq, Eq)]
pub struct TemplateApplyOutcome {
    pub operation_id: OperationId,
    pub replayed: bool,
    pub schedule: bool,
}

/// Result produced only after an object is durably published.
#[derive(Clone, Debug, PartialEq, Eq)]
pub struct PublishedTemplate {
    pub record: StoredTemplateRecord,
}

/// Fully validated unpublished project image returned by the Template adapter.
#[derive(Clone, Debug, PartialEq, Eq)]
pub struct CreatedTemplateProject {
    pub project_id: ProjectId,
    pub observation: ProjectObservation,
}

/// Stable safe template failure codes.
#[derive(Clone, Copy, Debug, PartialEq, Eq, Structural)]
pub enum M5TemplateErrorCode {
    InvalidInput,
    PermissionDenied,
    TemplateNotFound,
    TemplateImmutable,
    TemplateConflict,
    TemplateRevisionConflict,
    TemplatePlanNotFound,
    TemplatePlanStale,
    TemplateBundleInvalid,
    TemplateBundleChanged,
    TemplateObjectMissing,
    TemplateTargetExists,
    ProjectNotRegistered,
    ProjectRunning,
    ProjectChangedDuringTemplateCreate,
    StoreUnavailable,
    Internal,
}

/// Safe template error with no path, archive entry or SQL detail.
#[derive(Clone, Copy, Debug, PartialEq, Eq, Structural)]
pub struct M5TemplateError {
    code: M5TemplateErrorCode,
}

impl M5TemplateError {
    pub closed spec fn spec_code(self) -> M5TemplateErrorCode {
        self.code
    }

    pub fn new(code: M5TemplateErrorCode) -> (r: Self)
        ensures
            r.spec_code() == code,
    {
        M5TemplateError { code }
    }

    pub fn code(&self) -> (r: M5TemplateErrorCode)
        ensures
            r == self.spec_code(),
    {
        self.code
    }
}

/// Maps a template error code to the public name it is reported under.
pub open spec fn template_error_spec_name(code: M5TemplateErrorCode) -> Seq<char> {
    match code {
        M5TemplateErrorCode::InvalidInput => "invalid_request"@,
        M5TemplateErrorCode::PermissionDenied => "permission_denied"@,
        M5TemplateErrorCode::TemplateNotFound => "template_not_found"@,
        M5TemplateErrorCode::TemplateImmutable => "template_builtin_immutable"@,
        M5TemplateErrorCode::TemplateConflict => "template_conflict"@,
        M5TemplateErrorCode::TemplateRevisionConflict => "revision_conflict"@,
        M5TemplateErrorCode::TemplatePlanNotFound => "template_plan_stale"@,
        M5TemplateErrorCode::TemplatePlanStale => "template_plan_stale"@,
        M5TemplateErrorCode::TemplateBundleInvalid => "template_bundle_invalid"@,
        M5TemplateErrorCode::TemplateBundleChanged => "template_digest_mismatch"@,
        M5TemplateErrorCode::TemplateObjectMissing => "template_payload_unavailable"@,
        M5TemplateErrorCode::TemplateTargetExists => "template_target_exists"@,
        M5TemplateErrorCode::ProjectNotRegistered => "project_not_registered"@,
        M5TemplateErrorCode::ProjectRunning => "unity_project_running"@,
        M5TemplateErrorCode::ProjectChangedDuringTemplateCreate => "project_changed_during_template_create"@,
        M5TemplateErrorCode::StoreUnavailable => "store_unavailable"@,
        M5TemplateErrorCode::Internal => "internal_error"@,
    }
}

/// Stable public error name of a template failure code.
pub fn template_error_name(code: M5TemplateErrorCode) -> (r: &'static str)
    ensures
        r@ == template_error_spec_name(code),
{
    match code {
        M5TemplateErrorCode::InvalidInput => "invalid_request",
        M5TemplateErrorCode::PermissionDenied => "permission_denied",
        M5TemplateErrorCode::TemplateNotFound => "template_not_found",
        M5TemplateErrorCode::TemplateImmutable => "template_builtin_immutable",
        M5TemplateErrorCode::TemplateConflict => "template_conflict",
        M5TemplateErrorCode::TemplateRevisionConflict => "revision_conflict",
        M5TemplateErrorCode::TemplatePlanNotFound => "template_plan_stale",
        M5TemplateErrorCode::TemplatePlanStale => "template_plan_stale",
        M5TemplateErrorCode::TemplateBundleInvalid => "template_bundle_invalid",
        M5TemplateErrorCode::TemplateBundleChanged => "template_digest_mismatch",
        M5TemplateErrorCode::TemplateObjectMissing => "template_payload_unavailable",
        M5TemplateErrorCode::TemplateTargetExists => "template_target_exists",
        M5TemplateErrorCode::ProjectNotRegistered => "project_not_registered",
        M5TemplateErrorCode::ProjectRunning => "unity_project_running",
        M5TemplateErrorCode::ProjectChangedDuringTemplateCreate => "project_changed_during_template_create",
        M5TemplateErrorCode::StoreUnavailable => "store_unavailable",
        M5TemplateErrorCode::Internal => "internal_error",
    }
}

/// The checkpoints of a project created from a template.
#[derive(Clone, Copy, Debug, PartialEq, Eq, Structural)]
pub enum TemplateCreateCheckpoint {
    StagingComplete,
    TargetPublishIntent,
    TargetPublished,
    ProjectRegistryCommitIntent,
}

/// The step number of each checkpoint of a template project create.
pub open spec fn create_checkpoint_step(c: TemplateCreateCheckpoint) -> u8 {
    match c {
        TemplateCreateCheckpoint::StagingComplete => 2,
        TemplateCreateCheckpoint::TargetPublishIntent => 3,
        TemplateCreateCheckpoint::TargetPublished => 4,
        TemplateCreateCheckpoint::ProjectRegistryCommitIntent => 5,
    }
}

/// The durable name of each checkpoint of a template project create.
pub open spec fn create_checkpoint_name(c: TemplateCreateCheckpoint) -> Seq<char> {
    match c {
        TemplateCreateCheckpoint::StagingComplete => "staging_complete"@,
        TemplateCreateCheckpoint::TargetPublishIntent => "target_publish_intent"@,
        TemplateCreateCheckpoint::TargetPublished => "target_published"@,
        TemplateCreateCheckpoint::ProjectRegistryCommitIntent => "project_registry_commit_intent"@,
    }
}

impl TemplateCreateCheckpoint {
    /// The step number stored with the checkpoint.
    pub fn step(self) -> (r: u8)
        ensures
            r == create_checkpoint_step(self),
    {
        match self {
            TemplateCreateCheckpoint::StagingComplete => 2,
            TemplateCreateCheckpoint::TargetPublishIntent => 3,
            TemplateCreateCheckpoint::TargetPublished => 4,
            TemplateCreateCheckpoint::ProjectRegistryCommitIntent => 5,
        }
    }

    /// The durable name stored with the checkpoint.
    pub fn name(self) -> (r: &'static str)
        ensures
            r@ == create_checkpoint_name(self),
    {
        match self {
            TemplateCreateCheckpoint::StagingComplete => "staging_complete",
            TemplateCreateCheckpoint::TargetPublishIntent => "target_publish_intent",
            TemplateCreateCheckpoint::TargetPublished => "target_published",
            TemplateCreateCheckpoint::ProjectRegistryCommitIntent => "project_registry_commit_intent",
        }
    }
}

/// The effect a template apply run awaits the answer of.
#[derive(Clone, Copy, Debug, PartialEq, Eq, Structural)]
pub enum TemplateRunStage {
    Start,
    FirstCancelCheck,
    Beginning,
    PublishingImport,
    ResolvingDerive,
    LockingDerive,
    LoadingDerive,
    ObservingDerive,
    PublishingDerive,
    PublishedCancelCheck,
    CompletingApply,
    ResolvingCreate,
    PreparingCreate,
    CreateCancelCheck,
    LockingCreate,
    StagingCreate,
    StagingRecorded,
    StagedCancelCheck,
    DiscardingStaged,
    IntentRecorded,
    PublishingCreate,
    PublishedRecorded,
    CommitIntentRecorded,
    CompletingCreate,
    FinishingCancelledEarly,
    FinishingCancelledApply,
    FinishingCancelledCreate,
    Ended,
}

/// The state of a template apply run: its stage and the last checkpoint of
/// a project create it recorded.
#[derive(Clone, Copy, Debug, PartialEq, Eq, Structural)]
pub struct TemplateRun {
    pub stage: TemplateRunStage,
    pub last_checkpoint: Option<TemplateCreateCheckpoint>,
}

/// What the awaited effect of a template run answered.
#[derive(Clone, Copy, Debug, PartialEq, Eq, Structural)]
pub enum TemplateRunEvent {
    /// The worker picked the Operation up.
    Started,
    /// Whether the owner asked to cancel the Operation.
    CancelChecked { requested: bool },
    /// The store began the Operation for a plan of this kind.
    Begun { kind: TemplatePlanKind },
    /// The source project's Unity writer was observed.
    WriterObserved { running_confirmed: bool },
    /// The effect completed.
    Done,
    /// The effect failed.
    Failed { code: M5TemplateErrorCode },
}

/// The next effect of a template apply run.
#[derive(Clone, Copy, Debug, PartialEq, Eq, Structural)]
pub enum TemplateRunAction {
    CheckCancelled,
    Begin,
    PublishImport,
    ResolveDeriveProject,
    LockProject,
    LoadProject,
    ObserveWriter,
    PublishDerive,
    CompleteApply,
    ResolveCreateResource,
    PrepareCreate,
    LockResource,
    StageCreate,
    RecordCheckpoint { checkpoint: TemplateCreateCheckpoint },
    DiscardStaged,
    PublishProject,
    CompleteProjectCreate,
    FinishCancelled,
    /// The run ended and the Operation succeeded or was cancelled.
    Succeed,
    /// The run ended; the Operation is failed with this code.
    RecordFailure { code: M5TemplateErrorCode },
    /// The run ended with this error, leaving the Operation to the store.
    Abort { code: M5TemplateErrorCode },
    /// The run has already ended.
    Idle,
}

/// A template apply run that has not started yet.
pub fn template_run_new() -> (r: TemplateRun)
    ensures
        r.stage == TemplateRunStage::Start,
        r.last_checkpoint is None,
{
    TemplateRun { stage: TemplateRunStage::Start, last_checkpoint: None }
}

/// Moves a template run to a stage with an effect.
pub open spec fn template_go(run: TemplateRun, stage: TemplateRunStage, action: TemplateRunAction) -> (TemplateRun, TemplateRunAction) {
    (TemplateRun { stage: stage, ..run }, action)
}

/// Moves a template run to a stage with an effect.
pub fn template_go_exec(run: TemplateRun, stage: TemplateRunStage, action: TemplateRunAction) -> (r: (TemplateRun, TemplateRunAction))
    ensures
        r == template_go(run, stage, action),
{
    (TemplateRun { stage: stage, ..run }, action)
}

/// Records a template create checkpoint.
pub open spec fn template_record(run: TemplateRun, stage: TemplateRunStage, checkpoint: TemplateCreateCheckpoint) -> (TemplateRun, TemplateRunAction) {
    (TemplateRun { stage: stage, last_checkpoint: Some(checkpoint) }, TemplateRunAction::RecordCheckpoint { checkpoint: checkpoint })
}

/// Records a template create checkpoint.
pub fn template_record_exec(run: TemplateRun, stage: TemplateRunStage, checkpoint: TemplateCreateCheckpoint) -> (r: (TemplateRun, TemplateRunAction))
    ensures
        r == template_record(run, stage, checkpoint),
{
    (TemplateRun { stage: stage, last_checkpoint: Some(checkpoint) }, TemplateRunAction::RecordCheckpoint { checkpoint: checkpoint })
}

/// Ends a template run, failing the Operation.
pub open spec fn template_fail(run: TemplateRun, code: M5TemplateErrorCode) -> (TemplateRun, TemplateRunAction) {
    (TemplateRun { stage: TemplateRunStage::Ended, ..run }, TemplateRunAction::RecordFailure { code: code })
}

/// Ends a template run, failing the Operation.
pub fn template_fail_exec(run: TemplateRun, code: M5TemplateErrorCode) -> (r: (TemplateRun, TemplateRunAction))
    ensures
        r == template_fail(run, code),
{
    (TemplateRun { stage: TemplateRunStage::Ended, ..run }, TemplateRunAction::RecordFailure { code: code })
}

/// Ends a template run with an error the Operation does not record.
pub open spec fn template_abort(run: TemplateRun, code: M5TemplateErrorCode) -> (TemplateRun, TemplateRunAction) {
    (TemplateRun { stage: TemplateRunStage::Ended, ..run }, TemplateRunAction::Abort { code: code })
}

/// Ends a template run with an unrecorded error.
pub fn template_abort_exec(run: TemplateRun, code: M5TemplateErrorCode) -> (r: (TemplateRun, TemplateRunAction))
    ensures
        r == template_abort(run, code),
{
    (TemplateRun { stage: TemplateRunStage::Ended, ..run }, TemplateRunAction::Abort { code: code })
}

/// The transition of a template apply run on the answer to its effect.
pub open spec fn template_next(run: TemplateRun, event: TemplateRunEvent) -> (TemplateRun, TemplateRunAction) {
    match run.stage {
        TemplateRunStage::Start => match event {
            TemplateRunEvent::Started => template_go(run, TemplateRunStage::FirstCancelCheck, TemplateRunAction::CheckCancelled),
            _ => template_abort(run, M5TemplateErrorCode::Internal),
        },
        TemplateRunStage::FirstCancelCheck => match event {
            TemplateRunEvent::CancelChecked { requested } => if requested {
                template_go(run, TemplateRunStage::FinishingCancelledEarly, TemplateRunAction::FinishCancelled)
            } else {
                template_go(run, TemplateRunStage::Beginning, TemplateRunAction::Begin)
            },
            TemplateRunEvent::Failed { .. } => template_abort(run, M5TemplateErrorCode::StoreUnavailable),
            _ => template_abort(run, M5TemplateErrorCode::Internal),
        },
        TemplateRunStage::Beginning => match event {
            TemplateRunEvent::Begun { kind } => match kind {
                TemplatePlanKind::Import => template_go(run, TemplateRunStage::PublishingImport, TemplateRunAction::PublishImport),
                TemplatePlanKind::Derive => template_go(run, TemplateRunStage::ResolvingDerive, TemplateRunAction::ResolveDeriveProject),
                TemplatePlanKind::CreateProject => template_go(run, TemplateRunStage::ResolvingCreate, TemplateRunAction::ResolveCreateResource),
            },
            TemplateRunEvent::Failed { code } => template_abort(run, code),
            _ => template_abort(run, M5TemplateErrorCode::Internal),
        },
        TemplateRunStage::PublishingImport => match event {
            TemplateRunEvent::Done => template_go(run, TemplateRunStage::PublishedCancelCheck, TemplateRunAction::CheckCancelled),
            TemplateRunEvent::Failed { code } => template_fail(run, code),
            _ => template_abort(run, M5TemplateErrorCode::Internal),
        },
        TemplateRunStage::ResolvingDerive => match event {
            TemplateRunEvent::Done => template_go(run, TemplateRunStage::LockingDerive, TemplateRunAction::LockProject),
            TemplateRunEvent::Failed { code } => template_fail(run, code),
            _ => template_abort(run, M5TemplateErrorCode::Internal),
        },
        TemplateRunStage::LockingDerive => match event {
            TemplateRunEvent::Done => template_go(run, TemplateRunStage::LoadingDerive, TemplateRunAction::LoadProject),
            TemplateRunEvent::Failed { code } => template_fail(run, code),
            _ => template_abort(run, M5TemplateErrorCode::Internal),
        },
        TemplateRunStage::LoadingDerive => match event {
            TemplateRunEvent::Done => template_go(run, TemplateRunStage::ObservingDerive, TemplateRunAction::ObserveWriter),
            TemplateRunEvent::Failed { .. } => template_fail(run, M5TemplateErrorCode::ProjectNotRegistered),
            _ => template_abort(run, M5TemplateErrorCode::Internal),
        },
        TemplateRunStage::ObservingDerive => match event {
            TemplateRunEvent::WriterObserved { running_confirmed } => if running_confirmed {
                template_fail(run, M5TemplateErrorCode::ProjectRunning)
            } else {
                template_go(run, TemplateRunStage::PublishingDerive, TemplateRunAction::PublishDerive)
            },
            TemplateRunEvent::Failed { code } => template_fail(run, code),
            _ => template_abort(run, M5TemplateErrorCode::Internal),
        },
        TemplateRunStage::PublishingDerive => match event {
            TemplateRunEvent::Done => template_go(run, TemplateRunStage::PublishedCancelCheck, TemplateRunAction::CheckCancelled),
            TemplateRunEvent::Failed { code } => template_fail(run, code),
            _ => template_abort(run, M5TemplateErrorCode::Internal),
        },
        TemplateRunStage::PublishedCancelCheck => match event {
            TemplateRunEvent::CancelChecked { requested } => if requested {
                template_go(run, TemplateRunStage::FinishingCancelledApply, TemplateRunAction::FinishCancelled)
            } else {
                template_go(run, TemplateRunStage::CompletingApply, TemplateRunAction::CompleteApply)
            },
            TemplateRunEvent::Failed { .. } => template_abort(run, M5TemplateErrorCode::StoreUnavailable),
            _ => template_abort(run, M5TemplateErrorCode::Internal),
        },
        TemplateRunStage::CompletingApply => match event {
            TemplateRunEvent::Done => template_go(run, TemplateRunStage::Ended, TemplateRunAction::Succeed),
            TemplateRunEvent::Failed { code } => template_abort(run, code),
            _ => template_abort(run, M5TemplateErrorCode::Internal),
        },
        TemplateRunStage::ResolvingCreate => match event {
            TemplateRunEvent::Done => template_go(run, TemplateRunStage::PreparingCreate, TemplateRunAction::PrepareCreate),
            TemplateRunEvent::Failed { code } => template_fail(run, code),
            _ => template_abort(run, M5TemplateErrorCode::Internal),
        },
        TemplateRunStage::PreparingCreate => match event {
            TemplateRunEvent::Done => template_go(run, TemplateRunStage::CreateCancelCheck, TemplateRunAction::CheckCancelled),
            TemplateRunEvent::Failed { code } => template_fail(run, code),
            _ => template_abort(run, M5TemplateErrorCode::Internal),
        },
        TemplateRunStage::CreateCancelCheck => match event {
            TemplateRunEvent::CancelChecked { requested } => if requested {
                template_go(run, TemplateRunStage::FinishingCancelledCreate, TemplateRunAction::FinishCancelled)
            } else {
                template_go(run, TemplateRunStage::LockingCreate, TemplateRunAction::LockResource)
            },
            TemplateRunEvent::Failed { .. } => template_fail(run, M5TemplateErrorCode::StoreUnavailable),
            _ => template_abort(run, M5TemplateErrorCode::Internal),
        },
        TemplateRunStage::LockingCreate => match event {
            TemplateRunEvent::Done => template_go(run, TemplateRunStage::StagingCreate, TemplateRunAction::StageCreate),
            TemplateRunEvent::Failed { code } => template_fail(run, code),
            _ => template_abort(run, M5TemplateErrorCode::Internal),
        },
        TemplateRunStage::StagingCreate => match event {
            TemplateRunEvent::Done => template_record(run, TemplateRunStage::StagingRecorded, TemplateCreateCheckpoint::StagingComplete),
            TemplateRunEvent::Failed { code } => template_fail(run, code),
            _ => template_abort(run, M5TemplateErrorCode::Internal),
        },
        TemplateRunStage::StagingRecorded => match event {
            TemplateRunEvent::Done => template_go(run, TemplateRunStage::StagedCancelCheck, TemplateRunAction::CheckCancelled),
            TemplateRunEvent::Failed { code } => template_fail(run, code),
            _ => template_abort(run, M5TemplateErrorCode::Internal),
        },
        TemplateRunStage::StagedCancelCheck => match event {
            TemplateRunEvent::CancelChecked { requested } => if requested {
                template_go(run, TemplateRunStage::DiscardingStaged, TemplateRunAction::DiscardStaged)
            } else {
                template_record(run, TemplateRunStage::IntentRecorded, TemplateCreateCheckpoint::TargetPublishIntent)
            },
            TemplateRunEvent::Failed { .. } => template_fail(run, M5TemplateErrorCode::StoreUnavailable),
            _ => template_abort(run, M5TemplateErrorCode::Internal),
        },
        TemplateRunStage::DiscardingStaged => match event {
            TemplateRunEvent::Done => template_go(run, TemplateRunStage::FinishingCancelledCreate, TemplateRunAction::FinishCancelled),
            TemplateRunEvent::Failed { code } => template_fail(run, code),
            _ => template_abort(run, M5TemplateErrorCode::Internal),
        },
        TemplateRunStage::IntentRecorded => match event {
            TemplateRunEvent::Done => template_go(run, TemplateRunStage::PublishingCreate, TemplateRunAction::PublishProject),
            TemplateRunEvent::Failed { code } => template_fail(run, code),
            _ => template_abort(run, M5TemplateErrorCode::Internal),
        },
        TemplateRunStage::PublishingCreate => match event {
            TemplateRunEvent::Done => template_record(run, TemplateRunStage::PublishedRecorded, TemplateCreateCheckpoint::TargetPublished),
            TemplateRunEvent::Failed { code } => template_fail(run, code),
            _ => template_abort(run, M5TemplateErrorCode::Internal),
        },
        TemplateRunStage::PublishedRecorded => match event {
            TemplateRunEvent::Done => template_record(run, TemplateRunStage::CommitIntentRecorded, TemplateCreateCheckpoint::ProjectRegistryCommitIntent),
            TemplateRunEvent::Failed { code } => template_fail(run, code),
            _ => template_abort(run, M5TemplateErrorCode::Internal),
        },
        TemplateRunStage::CommitIntentRecorded => match event {
            TemplateRunEvent::Done => template_go(run, TemplateRunStage::CompletingCreate, TemplateRunAction::CompleteProjectCreate),
            TemplateRunEvent::Failed { code } => template_fail(run, code),
            _ => template_abort(run, M5TemplateErrorCode::Internal),
        },
        TemplateRunStage::CompletingCreate => match event {
            TemplateRunEvent::Done => template_go(run, TemplateRunStage::Ended, TemplateRunAction::Succeed),
            TemplateRunEvent::Failed { code } => template_fail(run, code),
            _ => template_abort(run, M5TemplateErrorCode::Internal),
        },
        TemplateRunStage::FinishingCancelledEarly => match event {
            TemplateRunEvent::Done => template_go(run, TemplateRunStage::Ended, TemplateRunAction::Succeed),
            TemplateRunEvent::Failed { .. } => template_abort(run, M5TemplateErrorCode::StoreUnavailable),
            _ => template_abort(run, M5TemplateErrorCode::Internal),
        },
        TemplateRunStage::FinishingCancelledApply => match event {
            TemplateRunEvent::Done => template_go(run, TemplateRunStage::Ended, TemplateRunAction::Succeed),
            TemplateRunEvent::Failed { .. } => template_abort(run, M5TemplateErrorCode::StoreUnavailable),
            _ => template_abort(run, M5TemplateErrorCode::Internal),
        },
        TemplateRunStage::FinishingCancelledCreate => match event {
            TemplateRunEvent::Done => template_go(run, TemplateRunStage::Ended, TemplateRunAction::Succeed),
            TemplateRunEvent::Failed { .. } => template_fail(run, M5TemplateErrorCode::StoreUnavailable),
            _ => template_abort(run, M5TemplateErrorCode::Internal),
        },
        TemplateRunStage::Ended => (run, TemplateRunAction::Idle),
    }
}

/// The steps of a template run before and around an import or derive publication.
fn template_step_apply(run: TemplateRun, event: TemplateRunEvent) -> (r: (TemplateRun, TemplateRunAction))
    requires
        run.stage == TemplateRunStage::Start || run.stage == TemplateRunStage::FirstCancelCheck || run.stage == TemplateRunStage::Beginning || run.stage == TemplateRunStage::PublishingImport || run.stage == TemplateRunStage::ResolvingDerive || run.stage == TemplateRunStage::LockingDerive || run.stage == TemplateRunStage::LoadingDerive || run.stage == TemplateRunStage::ObservingDerive || run.stage == TemplateRunStage::PublishingDerive || run.stage == TemplateRunStage::PublishedCancelCheck || run.stage == TemplateRunStage::CompletingApply || run.stage == TemplateRunStage::FinishingCancelledEarly || run.stage == TemplateRunStage::FinishingCancelledApply || run.stage == TemplateRunStage::Ended,
    ensures
        r == template_next(run, event),
{
    match run.stage {
        TemplateRunStage::Start => match event {
            TemplateRunEvent::Started => template_go_exec(run, TemplateRunStage::FirstCancelCheck, TemplateRunAction::CheckCancelled),
            _ => template_abort_exec(run, M5TemplateErrorCode::Internal),
        },
        TemplateRunStage::FirstCancelCheck => match event {
            TemplateRunEvent::CancelChecked { requested } => if requested {
                template_go_exec(run, TemplateRunStage::FinishingCancelledEarly, TemplateRunAction::FinishCancelled)
            } else {
                template_go_exec(run, TemplateRunStage::Beginning, TemplateRunAction::Begin)
            },
            TemplateRunEvent::Failed { .. } => template_abort_exec(run, M5TemplateErrorCode::StoreUnavailable),
            _ => template_abort_exec(run, M5TemplateErrorCode::Internal),
        },
        TemplateRunStage::Beginning => match event {
            TemplateRunEvent::Begun { kind } => match kind {
                TemplatePlanKind::Import => template_go_exec(run, TemplateRunStage::PublishingImport, TemplateRunAction::PublishImport),
                TemplatePlanKind::Derive => template_go_exec(run, TemplateRunStage::ResolvingDerive, TemplateRunAction::ResolveDeriveProject),
                TemplatePlanKind::CreateProject => template_go_exec(run, TemplateRunStage::ResolvingCreate, TemplateRunAction::ResolveCreateResource),
            },
            TemplateRunEvent::Failed { code } => template_abort_exec(run, code),
            _ => template_abort_exec(run, M5TemplateErrorCode::Internal),
        },
        TemplateRunStage::PublishingImport => match event {
            TemplateRunEvent::Done => template_go_exec(run, TemplateRunStage::PublishedCancelCheck, TemplateRunAction::CheckCancelled),
            TemplateRunEvent::Failed { code } => template_fail_exec(run, code),
            _ => template_abort_exec(run, M5TemplateErrorCode::Internal),
        },
        TemplateRunStage::ResolvingDerive => match event {
            TemplateRunEvent::Done => template_go_exec(run, TemplateRunStage::LockingDerive, TemplateRunAction::LockProject),
            TemplateRunEvent::Failed { code } => template_fail_exec(run, code),
            _ => template_abort_exec(run, M5TemplateErrorCode::Internal),
        },
        TemplateRunStage::LockingDerive => match event {
            TemplateRunEvent::Done => template_go_exec(run, TemplateRunStage::LoadingDerive, TemplateRunAction::LoadProject),
            TemplateRunEvent::Failed { code } => template_fail_exec(run, code),
            _ => template_abort_exec(run, M5TemplateErrorCode::Internal),
        },
        TemplateRunStage::LoadingDerive => match event {
            TemplateRunEvent::Done => template_go_exec(run, TemplateRunStage::ObservingDerive, TemplateRunAction::ObserveWriter),
            TemplateRunEvent::Failed { .. } => template_fail_exec(run, M5TemplateErrorCode::ProjectNotRegistered),
            _ => template_abort_exec(run, M5TemplateErrorCode::Internal),
        },
        TemplateRunStage::ObservingDerive => match event {
            TemplateRunEvent::WriterObserved { running_confirmed } => if running_confirmed {
                template_fail_exec(run, M5TemplateErrorCode::ProjectRunning)
            } else {
                template_go_exec(run, TemplateRunStage::PublishingDerive, TemplateRunAction::PublishDerive)
            },
            TemplateRunEvent::Failed { code } => template_fail_exec(run, code),
            _ => template_abort_exec(run, M5TemplateErrorCode::Internal),
        },
        TemplateRunStage::PublishingDerive => match event {
            TemplateRunEvent::Done => template_go_exec(run, TemplateRunStage::PublishedCancelCheck, TemplateRunAction::CheckCancelled),
            TemplateRunEvent::Failed { code } => template_fail_exec(run, code),
            _ => template_abort_exec(run, M5TemplateErrorCode::Internal),
        },
        TemplateRunStage::PublishedCancelCheck => match event {
            TemplateRunEvent::CancelChecked { requested } => if requested {
                template_go_exec(run, TemplateRunStage::FinishingCancelledApply, TemplateRunAction::FinishCancelled)
            } else {
                template_go_exec(run, TemplateRunStage::CompletingApply, TemplateRunAction::CompleteApply)
            },
            TemplateRunEvent::Failed { .. } => template_abort_exec(run, M5TemplateErrorCode::StoreUnavailable),
            _ => template_abort_exec(run, M5TemplateErrorCode::Internal),
        },
        TemplateRunStage::CompletingApply => match event {
            TemplateRunEvent::Done => template_go_exec(run, TemplateRunStage::Ended, TemplateRunAction::Succeed),
            TemplateRunEvent::Failed { code } => template_abort_exec(run, code),
            _ => template_abort_exec(run, M5TemplateErrorCode::Internal),
        },
        TemplateRunStage::FinishingCancelledEarly => match event {
            TemplateRunEvent::Done => template_go_exec(run, TemplateRunStage::Ended, TemplateRunAction::Succeed),
            TemplateRunEvent::Failed { .. } => template_abort_exec(run, M5TemplateErrorCode::StoreUnavailable),
            _ => template_abort_exec(run, M5TemplateErrorCode::Internal),
        },
        TemplateRunStage::FinishingCancelledApply => match event {
            TemplateRunEvent::Done => template_go_exec(run, TemplateRunStage::Ended, TemplateRunAction::Succeed),
            TemplateRunEvent::Failed { .. } => template_abort_exec(run, M5TemplateErrorCode::StoreUnavailable),
            _ => template_abort_exec(run, M5TemplateErrorCode::Internal),
        },
        TemplateRunStage::Ended => (run, TemplateRunAction::Idle),
        _ => template_abort_exec(run, M5TemplateErrorCode::Internal),
    }
}

/// The steps of a template project create.
fn template_step_create(run: TemplateRun, event: TemplateRunEvent) -> (r: (TemplateRun, TemplateRunAction))
    requires
        run.stage == TemplateRunStage::ResolvingCreate || run.stage == TemplateRunStage::PreparingCreate || run.stage == TemplateRunStage::CreateCancelCheck || run.stage == TemplateRunStage::LockingCreate || run.stage == TemplateRunStage::StagingCreate || run.stage == TemplateRunStage::StagingRecorded || run.stage == TemplateRunStage::StagedCancelCheck || run.stage == TemplateRunStage::DiscardingStaged || run.stage == TemplateRunStage::IntentRecorded || run.stage == TemplateRunStage::PublishingCreate || run.stage == TemplateRunStage::PublishedRecorded || run.stage == TemplateRunStage::CommitIntentRecorded || run.stage == TemplateRunStage::CompletingCreate || run.stage == TemplateRunStage::FinishingCancelledCreate,
    ensures
        r == template_next(run, event),
{
    match run.stage {
        TemplateRunStage::ResolvingCreate => match event {
            TemplateRunEvent::Done => template_go_exec(run, TemplateRunStage::PreparingCreate, TemplateRunAction::PrepareCreate),
            TemplateRunEvent::Failed { code } => template_fail_exec(run, code),
            _ => template_abort_exec(run, M5TemplateErrorCode::Internal),
        },
        TemplateRunStage::PreparingCreate => match event {
            TemplateRunEvent::Done => template_go_exec(run, TemplateRunStage::CreateCancelCheck, TemplateRunAction::CheckCancelled),
            TemplateRunEvent::Failed { code } => template_fail_exec(run, code),
            _ => template_abort_exec(run, M5TemplateErrorCode::Internal),
        },
        TemplateRunStage::CreateCancelCheck => match event {
            TemplateRunEvent::CancelChecked { requested } => if requested {
                template_go_exec(run, TemplateRunStage::FinishingCancelledCreate, TemplateRunAction::FinishCancelled)
            } else {
                template_go_exec(run, TemplateRunStage::LockingCreate, TemplateRunAction::LockResource)
            },
            TemplateRunEvent::Failed { .. } => template_fail_exec(run, M5TemplateErrorCode::StoreUnavailable),
            _ => template_abort_exec(run, M5TemplateErrorCode::Internal),
        },
        TemplateRunStage::LockingCreate => match event {
            TemplateRunEvent::Done => template_go_exec(run, TemplateRunStage::StagingCreate, TemplateRunAction::StageCreate),
            TemplateRunEvent::Failed { code } => template_fail_exec(run, code),
            _ => template_abort_exec(run, M5TemplateErrorCode::Internal),
        },
        TemplateRunStage::StagingCreate => match event {
            TemplateRunEvent::Done => template_record_exec(run, TemplateRunStage::StagingRecorded, TemplateCreateCheckpoint::StagingComplete),
            TemplateRunEvent::Failed { code } => template_fail_exec(run, code),
            _ => template_abort_exec(run, M5TemplateErrorCode::Internal),
        },
        TemplateRunStage::StagingRecorded => match event {
            TemplateRunEvent::Done => template_go_exec(run, TemplateRunStage::StagedCancelCheck, TemplateRunAction::CheckCancelled),
            TemplateRunEvent::Failed { code } => template_fail_exec(run, code),
            _ => template_abort_exec(run, M5TemplateErrorCode::Internal),
        },
        TemplateRunStage::StagedCancelCheck => match event {
            TemplateRunEvent::CancelChecked { requested } => if requested {
                template_go_exec(run, TemplateRunStage::DiscardingStaged, TemplateRunAction::DiscardStaged)
            } else {
                template_record_exec(run, TemplateRunStage::IntentRecorded, TemplateCreateCheckpoint::TargetPublishIntent)
            },
            TemplateRunEvent::Failed { .. } => template_fail_exec(run, M5TemplateErrorCode::StoreUnavailable),
            _ => template_abort_exec(run, M5TemplateErrorCode::Internal),
        },
        TemplateRunStage::DiscardingStaged => match event {
            TemplateRunEvent::Done => template_go_exec(run, TemplateRunStage::FinishingCancelledCreate, TemplateRunAction::FinishCancelled),
            TemplateRunEvent::Failed { code } => template_fail_exec(run, code),
            _ => template_abort_exec(run, M5TemplateErrorCode::Internal),
        },
        TemplateRunStage::IntentRecorded => match event {
            TemplateRunEvent::Done => template_go_exec(run, TemplateRunStage::PublishingCreate, TemplateRunAction::PublishProject),
            TemplateRunEvent::Failed { code } => template_fail_exec(run, code),
            _ => template_abort_exec(run, M5TemplateErrorCode::Internal),
        },
        TemplateRunStage::PublishingCreate => match event {
            TemplateRunEvent::Done => template_record_exec(run, TemplateRunStage::PublishedRecorded, TemplateCreateCheckpoint::TargetPublished),
            TemplateRunEvent::Failed { code } => template_fail_exec(run, code),
            _ => template_abort_exec(run, M5TemplateErrorCode::Internal),
        },
        TemplateRunStage::PublishedRecorded => match event {
            TemplateRunEvent::Done => template_record_exec(run, TemplateRunStage::CommitIntentRecorded, TemplateCreateCheckpoint::ProjectRegistryCommitIntent),
            TemplateRunEvent::Failed { code } => template_fail_exec(run, code),
            _ => template_abort_exec(run, M5TemplateErrorCode::Internal),
        },
        TemplateRunStage::CommitIntentRecorded => match event {
            TemplateRunEvent::Done => template_go_exec(run, TemplateRunStage::CompletingCreate, TemplateRunAction::CompleteProjectCreate),
            TemplateRunEvent::Failed { code } => template_fail_exec(run, code),
            _ => template_abort_exec(run, M5TemplateErrorCode::Internal),
        },
        TemplateRunStage::CompletingCreate => match event {
            TemplateRunEvent::Done => template_go_exec(run, TemplateRunStage::Ended, TemplateRunAction::Succeed),
            TemplateRunEvent::Failed { code } => template_fail_exec(run, code),
            _ => template_abort_exec(run, M5TemplateErrorCode::Internal),
        },
        TemplateRunStage::FinishingCancelledCreate => match event {
            TemplateRunEvent::Done => template_go_exec(run, TemplateRunStage::Ended, TemplateRunAction::Succeed),
            TemplateRunEvent::Failed { .. } => template_fail_exec(run, M5TemplateErrorCode::StoreUnavailable),
            _ => template_abort_exec(run, M5TemplateErrorCode::Internal),
        },
        _ => template_abort_exec(run, M5TemplateErrorCode::Internal),
    }
}

/// Decides the next effect of the template apply worker from the answer to the last one: a cancelled Operation finishes before it begins; an import or derive is published and then completed unless cancelled meanwhile; a project create is resolved, prepared, staged and published after its intent, with cancellation honoured until that intent; failures of a publication, and of every project create step, are recorded, others only returned.
pub fn template_step(run: TemplateRun, event: TemplateRunEvent) -> (r: (TemplateRun, TemplateRunAction))
    ensures
        r == template_next(run, event),
{
    if run.stage == TemplateRunStage::Start || run.stage == TemplateRunStage::FirstCancelCheck || run.stage == TemplateRunStage::Beginning || run.stage == TemplateRunStage::PublishingImport || run.stage == TemplateRunStage::ResolvingDerive || run.stage == TemplateRunStage::LockingDerive || run.stage == TemplateRunStage::LoadingDerive || run.stage == TemplateRunStage::ObservingDerive || run.stage == TemplateRunStage::PublishingDerive || run.stage == TemplateRunStage::PublishedCancelCheck || run.stage == TemplateRunStage::CompletingApply || run.stage == TemplateRunStage::FinishingCancelledEarly || run.stage == TemplateRunStage::FinishingCancelledApply || run.stage == TemplateRunStage::Ended {
        template_step_apply(run, event)
    } else {
        template_step_create(run, event)
    }
}

/// Position of a template create checkpoint, or 0 before any.
pub open spec fn template_last_step(run: TemplateRun) -> int {
    match run.last_checkpoint {
        Some(c) => create_checkpoint_step(c) as int,
        None => 0,
    }
}

/// The states a template apply run can reach from a new one.
pub open spec fn template_run_ok(run: TemplateRun) -> bool {
    let l = template_last_step(run);
    match run.stage {
        TemplateRunStage::StagingRecorded | TemplateRunStage::StagedCancelCheck | TemplateRunStage::DiscardingStaged => l == 2,
        TemplateRunStage::IntentRecorded | TemplateRunStage::PublishingCreate => l == 3,
        TemplateRunStage::PublishedRecorded => l == 4,
        TemplateRunStage::CommitIntentRecorded | TemplateRunStage::CompletingCreate => l == 5,
        TemplateRunStage::FinishingCancelledCreate => l <= 2,
        TemplateRunStage::Ended => true,
        _ => l == 0,
    }
}

/// Every step of a template apply run keeps it reachable.
pub proof fn template_run_stays_ok(run: TemplateRun, event: TemplateRunEvent)
    requires
        template_run_ok(run),
    ensures
        template_run_ok(template_next(run, event).0),
{
}

/// A template project create records its checkpoints in increasing step
/// order, publishes its project only right after recording the publish
/// intent, and honours a cancellation only before that intent.
pub proof fn template_create_publishes_only_after_intent(run: TemplateRun, event: TemplateRunEvent)
    requires
        template_run_ok(run),
    ensures
        template_next(run, event).1 matches TemplateRunAction::RecordCheckpoint { checkpoint } ==> template_last_step(run)
            < create_checkpoint_step(checkpoint),
        template_next(run, event).1 is PublishProject ==> run.last_checkpoint == Some(TemplateCreateCheckpoint::TargetPublishIntent),
        (template_next(run, event).1 is DiscardStaged || template_next(run, event).1 is FinishCancelled)
            ==> template_last_step(run) <= 2,
{
}

/// The template code that stands for a refused permission.
pub fn require_template_permission(access: &AccessContext, permission: Permission) -> (r: Result<(), M5TemplateError>)
    ensures
        r is Ok <==> access@.permissions.contains(permission),
        r matches Err(e) ==> e.spec_code() == M5TemplateErrorCode::PermissionDenied,
{
    if access.require(permission).is_err() {
        return Err(M5TemplateError::new(M5TemplateErrorCode::PermissionDenied));
    }
    Ok(())
}

/// Requires a permission held by the built-in local owner.
pub fn require_template_owner(access: &AccessContext, permission: Permission) -> (r: Result<(), M5TemplateError>)
    ensures
        r is Ok <==> access@.permissions.contains(permission) && access@.principal == "builtin:local-owner"@,
        r matches Err(e) ==> e.spec_code() == M5TemplateErrorCode::PermissionDenied,
{
    require_template_permission(access, permission)?;
    let owner = PrincipalId::local_owner();
    if !crate::text::str_eq(access.principal().as_str(), owner.as_str()) {
        return Err(M5TemplateError::new(M5TemplateErrorCode::PermissionDenied));
    }
    Ok(())
}

/// A template listing asks for 1 to 1000 records.
pub fn validate_template_list_limit(limit: u32) -> (r: Result<(), M5TemplateError>)
    ensures
        r is Ok <==> 1 <= limit <= 1000,
        r matches Err(e) ==> e.spec_code() == M5TemplateErrorCode::InvalidInput,
{
    if limit < 1 || limit > 1000 {
        return Err(M5TemplateError::new(M5TemplateErrorCode::InvalidInput));
    }
    Ok(())
}

/// The cursor of a template page: at the last kept record when the store
/// returned more than `limit`.
pub fn template_page(templates: Vec<TemplateRecord>, limit: u32) -> (r: TemplatePage)
    requires
        1 <= limit <= 1000,
        templates@.len() <= limit + 1,
    ensures
        r.templates@ == if templates@.len() > limit {
            templates@.drop_last()
        } else {
            templates@
        },
        r.next_cursor == if templates@.len() > limit {
            Some(
                TemplateCursor {
                    updated_at_ms: templates@[limit - 1].updated_at_ms,
                    template_id: templates@[limit - 1].template_id,
                },
            )
        } else {
            None
        },
{
    let mut templates = templates;
    let has_more = templates.len() > limit as usize;
    if has_more {
        templates.pop();
    }
    let next_cursor = if has_more && templates.len() > 0 {
        let last = &templates[templates.len() - 1];
        Some(TemplateCursor { updated_at_ms: last.updated_at_ms, template_id: last.template_id })
    } else {
        None
    };
    TemplatePage { templates, next_cursor }
}

/// A built-in template cannot be overwritten by an import.
pub fn check_import_target(existing: &Option<StoredTemplateRecord>) -> (r: Result<(), M5TemplateError>)
    ensures
        r is Ok <==> !(existing matches Some(t) && t.source_kind == TemplateSourceKind::Builtin),
        r matches Err(e) ==> e.spec_code() == M5TemplateErrorCode::TemplateImmutable,
{
    if let Some(t) = existing {
        if t.source_kind == TemplateSourceKind::Builtin {
            return Err(M5TemplateError::new(M5TemplateErrorCode::TemplateImmutable));
        }
    }
    Ok(())
}

/// A plan is applied only by the use case of its kind.
pub fn require_plan_kind(plan: &TemplatePlanRecord, kind: TemplatePlanKind) -> (r: Result<(), M5TemplateError>)
    ensures
        r is Ok <==> plan.kind == kind,
        r matches Err(e) ==> e.spec_code() == M5TemplateErrorCode::InvalidInput,
{
    if plan.kind != kind {
        return Err(M5TemplateError::new(M5TemplateErrorCode::InvalidInput));
    }
    Ok(())
}

/// An optimistic template or project check: a revision other than the
/// expected one is a template revision conflict.
pub fn require_template_revision(current: Revision, expected: Revision) -> (r: Result<(), M5TemplateError>)
    ensures
        r is Ok <==> current == expected,
        r matches Err(e) ==> e.spec_code() == M5TemplateErrorCode::TemplateRevisionConflict,
{
    if current != expected {
        return Err(M5TemplateError::new(M5TemplateErrorCode::TemplateRevisionConflict));
    }
    Ok(())
}

/// Deriving a template from a project: no template may already hold the
/// identifier, no Unity Editor may run on the project, and the resolver
/// catalog must be complete.
pub fn derive_gate(template_exists: bool, writer: UnityWriterStateKind, catalog_complete: bool) -> (r: Result<(), M5TemplateError>)
    ensures
        r is Ok <==> !template_exists && writer != UnityWriterStateKind::RunningConfirmed && catalog_complete,
        r matches Err(e) ==> e.spec_code() == if template_exists {
            M5TemplateErrorCode::TemplateConflict
        } else if writer == UnityWriterStateKind::RunningConfirmed {
            M5TemplateErrorCode::ProjectRunning
        } else {
            M5TemplateErrorCode::TemplatePlanStale
        },
{
    if template_exists {
        return Err(M5TemplateError::new(M5TemplateErrorCode::TemplateConflict));
    }
    if writer == UnityWriterStateKind::RunningConfirmed {
        return Err(M5TemplateError::new(M5TemplateErrorCode::ProjectRunning));
    }
    if !catalog_complete {
        return Err(M5TemplateError::new(M5TemplateErrorCode::TemplatePlanStale));
    }
    Ok(())
}

} // verus!
