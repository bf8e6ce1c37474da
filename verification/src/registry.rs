//! Daemon status, project and repository registry records, the state
//! check Operation and its fingerprints.

use vstd::prelude::*;
use vstd::string::StringExecFns;

use crate::access::{ApplicationError, StoreError, StoreErrorKind};
use crate::domain::{OperationState, PrincipalId, Revision};
use crate::ids::{OperationId, ProjectId, RepositoryId};
use crate::packages::FilesystemPhase;

verus! {

/// States that exist in the system-status use case.
#[derive(Clone, Copy, Debug, PartialEq, Eq, Structural)]
pub enum SystemState {
    /// The daemon owns its endpoint and can serve queries.
    Ready,
}

/// The stable name of each system state.
pub open spec fn system_state_name(state: SystemState) -> Seq<char> {
    match state {
        SystemState::Ready => "ready"@,
    }
}

impl SystemState {
    /// Stable transport-neutral representation.
    pub fn as_str(self) -> (r: &'static str)
        ensures
            r@ == system_state_name(self),
    {
        match self {
            SystemState::Ready => "ready",
        }
    }
}

/// Minimal truthful daemon status.
#[derive(Clone, Copy, Debug, PartialEq, Eq, Structural)]
pub struct SystemStatus {
    state: SystemState,
}

impl SystemStatus {
    pub closed spec fn spec_state(self) -> SystemState {
        self.state
    }

    /// Returns the state exposed by the running daemon.
    pub fn state(self) -> (r: SystemState)
        ensures
            r == self.spec_state(),
    {
        self.state
    }
}

/// The one status the daemon reports: ready.
pub closed spec fn ready_status() -> SystemStatus {
    SystemStatus { state: SystemState::Ready }
}

/// Executes the `system.status` query: the daemon reports only that it is ready.
pub fn system_status() -> (r: SystemStatus)
    ensures
        r.spec_state() == SystemState::Ready,
        r == ready_status(),
{
    SystemStatus { state: SystemState::Ready }
}

/// Every `system.status` answer is the same value, whose state is ready:
/// a status is determined by its state, and the ready status is the only
/// one the query gives.
pub proof fn system_status_is_always_the_ready_status(a: SystemStatus)
    ensures
        ready_status().spec_state() == SystemState::Ready,
        a.spec_state() == SystemState::Ready <==> a == ready_status(),
{
}

/// Explicit project discovery mode frozen for M3.
#[derive(Clone, Copy, Debug, PartialEq, Eq, Structural)]
pub enum ProjectDiscoveryMode {
    ExactRoot,
    SearchParents,
}

/// Frozen marker-based M3 project type.
#[derive(Clone, Copy, Debug, PartialEq, Eq, Structural)]
pub enum ProjectType {
    Avatars,
    Worlds,
    VpmStarter,
    UpmAvatars,
    UpmWorlds,
    UpmStarter,
    LegacySdk2,
    LegacyWorlds,
    LegacyAvatars,
    Unknown,
}

/// State of one optional project manifest.
#[derive(Clone, Copy, Debug, PartialEq, Eq, Structural)]
pub enum ManifestState {
    Missing,
    Valid,
}

/// Raw dependency identity/value pair with no version semantics.
#[derive(Clone, Debug, PartialEq, Eq)]
pub struct DependencyIdentity {
    pub package_id: String,
    pub value: String,
}

/// Bounded parse issue safe for public DTOs and state.db.
#[derive(Clone, Debug, PartialEq, Eq, PartialOrd, Ord)]
pub struct ReadIssue {
    pub code: String,
    pub component: String,
    pub item: String,
    pub line: Option<u64>,
    pub column: Option<u64>,
}

/// Normalized project observation produced without modifying the project.
#[derive(Clone, Debug, PartialEq, Eq)]
pub struct ProjectObservation {
    pub root_path: String,
    pub path_identity_key: Vec<u8>,
    pub project_type: ProjectType,
    pub unity_version: String,
    pub unity_revision: Option<String>,
    pub vpm_manifest: ManifestState,
    pub upm_manifest: ManifestState,
    pub direct_dependencies: Vec<DependencyIdentity>,
    pub locked_dependencies: Vec<DependencyIdentity>,
    pub issues: Vec<ReadIssue>,
    pub observed_at_ms: u64,
}

/// Durable registered project record.
#[derive(Clone, Debug, PartialEq, Eq)]
pub struct ProjectRecord {
    pub project_id: ProjectId,
    pub observation: ProjectObservation,
    pub revision: Revision,
    pub registered_at_ms: u64,
    pub favorite: bool,
}

/// Local file or anonymous remote repository source.
#[derive(Clone, Debug, PartialEq, Eq)]
pub enum RepositorySource {
    Local { path: String },
    Remote { url: String },
}

/// Conditional HTTP validators stored separately from semantic state.
#[derive(Clone, Debug, PartialEq, Eq)]
pub struct RepositoryValidators {
    pub etag: Option<String>,
    pub last_modified: Option<String>,
}

/// Raw package/version display row; no SemVer meaning is implied.
#[derive(Clone, Debug, PartialEq, Eq)]
pub struct RepositoryPackageVersion {
    pub package_id: String,
    pub version: String,
    pub display_name: Option<String>,
    pub description: Option<String>,
    pub yanked: bool,
    pub unity: Option<String>,
    pub links: Option<RepositoryPackageLinks>,
    pub resolver: Option<ResolverPackageMetadata>,
}

#[derive(Clone, Debug, PartialEq, Eq)]
pub struct RepositoryPackageLinks {
    pub documentation: Option<String>,
    pub changelog: Option<String>,
}

/// Resolver-ready package metadata persisted only after a complete strict parse.
#[derive(Clone, Debug, PartialEq, Eq)]
pub struct ResolverPackageMetadata {
    pub semantic_version: String,
    pub author_name: String,
    pub author_email: String,
    pub artifact_url: String,
    pub zip_sha256: String,
    pub unity_release: Option<String>,
    pub dependencies_json: String,
    pub manifest_fingerprint: Vec<u8>,
    pub legacy_metadata_present: bool,
}

/// Completely parsed repository observation.
#[derive(Clone, Debug, PartialEq, Eq)]
pub struct RepositoryObservation {
    pub source: RepositorySource,
    pub source_identity_key: Vec<u8>,
    pub declared_id: Option<String>,
    pub name: Option<String>,
    pub declared_url: Option<String>,
    pub issues: Vec<ReadIssue>,
    pub packages: Vec<RepositoryPackageVersion>,
    pub validators: RepositoryValidators,
    pub refreshed_at_ms: u64,
}

/// Result of a conditional repository read.
#[derive(Clone, Debug, PartialEq, Eq)]
pub enum RepositoryReadOutcome {
    Fresh(RepositoryObservation),
    NotModified(RepositoryValidators),
}

/// Durable registered repository record.
#[derive(Clone, Debug, PartialEq, Eq)]
pub struct RepositoryRecord {
    pub repository_id: RepositoryId,
    pub observation: RepositoryObservation,
    pub revision: Revision,
    pub registered_at_ms: u64,
}

#[derive(Clone, Debug, PartialEq, Eq)]
pub struct RegistryCursor<I> {
    pub registered_at_ms: u64,
    pub id: I,
}

#[derive(Clone, Debug, PartialEq, Eq)]
pub struct PackageCursor {
    pub package_id: String,
    pub version: String,
}

#[derive(Clone, Debug, PartialEq, Eq)]
pub struct ProjectPage {
    pub projects: Vec<ProjectRecord>,
    pub next_cursor: Option<RegistryCursor<ProjectId>>,
}

#[derive(Clone, Debug, PartialEq, Eq)]
pub struct RepositoryPage {
    pub repositories: Vec<RepositoryRecord>,
    pub next_cursor: Option<RegistryCursor<RepositoryId>>,
}

#[derive(Clone, Debug, PartialEq, Eq)]
pub struct PackagePage {
    pub packages: Vec<RepositoryPackageVersion>,
    pub next_cursor: Option<PackageCursor>,
}

#[derive(Clone, Debug, PartialEq, Eq)]
pub struct SyncWrite<T> {
    pub value: T,
    pub replayed: bool,
}

#[derive(Clone, Debug, PartialEq, Eq)]
pub struct UnregisterResult<I> {
    pub id: I,
    pub revision: Revision,
    pub replayed: bool,
}

/// Stable M3 failure code; messages and technical sources stay adapter-private.
#[derive(Clone, Copy, Debug, PartialEq, Eq, Structural)]
pub enum M3ErrorCode {
    PathEncodingUnsupported,
    ProjectNotFound,
    ProjectNotRegistered,
    ProjectAlreadyRegistered,
    ProjectInaccessible,
    ProjectVersionMissing,
    ProjectVersionInvalid,
    ProjectManifestInvalid,
    RepositoryNotFound,
    RepositoryNotRegistered,
    RepositoryAlreadyRegistered,
    RepositorySourceInvalid,
    RepositoryInaccessible,
    RepositoryUnavailable,
    RepositoryDocumentInvalid,
    RepositoryDocumentTooLarge,
    RepositoryCredentialsUnsupported,
    RevisionConflict,
    IdempotencyConflict,
    PermissionDenied,
    StoreUnavailable,
    Internal,
}

/// Stable registry failure; messages and technical sources stay adapter-private.
#[derive(Clone, Copy, Debug, PartialEq, Eq, Structural)]
pub struct M3Error {
    code: M3ErrorCode,
}

impl M3Error {
    pub closed spec fn spec_code(self) -> M3ErrorCode {
        self.code
    }

    pub fn new(code: M3ErrorCode) -> (r: Self)
        ensures
            r.spec_code() == code,
    {
        M3Error { code }
    }

    pub fn code(&self) -> (r: M3ErrorCode)
        ensures
            r == self.spec_code(),
    {
        self.code
    }
}

/// Safe classification returned by one read-only database check phase.
#[derive(Clone, Copy, Debug, PartialEq, Eq, Structural)]
pub enum CheckClassification {
    NoIssues,
    IssuesDetected,
    IssuesTruncated,
}

/// Safe public result of the M2 state integrity check.
#[derive(Clone, Copy, Debug, PartialEq, Eq, Structural)]
pub struct StateCheckResult {
    pub integrity: CheckClassification,
    pub foreign_keys: CheckClassification,
}

/// Transport-neutral persisted Operation record.
#[derive(Clone, Debug, PartialEq, Eq)]
pub struct OperationRecord {
    pub operation_id: OperationId,
    pub kind: String,
    pub state: OperationState,
    pub revision: Revision,
    pub owner: PrincipalId,
    pub cancel_requested: bool,
    pub created_at_ms: u64,
    pub updated_at_ms: u64,
    pub started_at_ms: Option<u64>,
    pub completed_at_ms: Option<u64>,
    pub result_json: Option<String>,
    pub error_code: Option<String>,
    pub diagnostic_id: Option<String>,
    pub progress_phase: Option<FilesystemPhase>,
}

/// Opaque Operation pagination cursor used inside the application layer.
#[derive(Clone, Debug, PartialEq, Eq)]
pub struct OperationCursor {
    pub created_at_ms: u64,
    pub operation_id: OperationId,
}

/// One page of visible Operations.
#[derive(Clone, Debug, PartialEq, Eq)]
pub struct OperationPage {
    pub operations: Vec<OperationRecord>,
    pub next_cursor: Option<OperationCursor>,
}

/// Transport-neutral persisted Event record.
#[derive(Clone, Debug, PartialEq, Eq)]
pub struct EventRecord {
    pub sequence: u64,
    pub event_id: String,
    pub kind: String,
    pub aggregate_kind: String,
    pub aggregate_id: String,
    pub aggregate_revision: Revision,
    pub occurred_at_ms: u64,
    pub payload_json: String,
}

/// One page of visible Events.
#[derive(Clone, Debug, PartialEq, Eq)]
pub struct EventPage {
    pub events: Vec<EventRecord>,
    pub next_sequence: u64,
}

/// Result of atomically creating or replaying `state.check`.
#[derive(Clone, Debug, PartialEq, Eq)]
pub struct CreateOperationOutcome {
    pub operation_id: OperationId,
    pub replayed: bool,
    pub schedule: bool,
}


/// Versioned, typed, non-sensitive canonical fingerprint for `state.check`.
#[derive(Clone, Copy, Debug, PartialEq, Eq, Structural)]
pub struct StateCheckFingerprintV1;

impl StateCheckFingerprintV1 {
    /// The permanent fingerprint text.
    pub fn canonical_json(self) -> (r: &'static str)
        ensures
            r@ == "{\"version\":1}"@,
    {
        "{\"version\":1}"
    }
}

/// Versioned, typed, non-sensitive canonical fingerprint for `operations.cancel`.
#[derive(Clone, Debug, PartialEq, Eq)]
pub struct CancelOperationFingerprintV1 {
    operation_id: OperationId,
    expected_revision: Revision,
}

/// The canonical cancel fingerprint text: fields in a frozen order, the
/// revision in decimal and the Operation in its hyphenated form.
pub open spec fn cancel_fingerprint_text(operation: Seq<u8>, revision: int) -> Seq<char> {
    "{\"expectedRevision\":"@ + crate::text::decimal_text(revision as nat) + ",\"operationId\":\""@
        + crate::uuids::spec_uuid_hyphenated(operation) + "\",\"version\":1}"@
}

impl CancelOperationFingerprintV1 {
    pub closed spec fn spec_operation(self) -> Seq<u8> {
        self.operation_id@
    }

    pub closed spec fn spec_revision(self) -> int {
        self.expected_revision@
    }

    /// Creates the typed fingerprint after public input validation.
    pub fn new(operation_id: OperationId, expected_revision: Revision) -> (r: Self)
        ensures
            r.spec_operation() == operation_id@,
            r.spec_revision() == expected_revision@,
    {
        CancelOperationFingerprintV1 { operation_id, expected_revision }
    }

    /// Serializes the fields in the frozen order.
    pub fn canonical_json(&self) -> (r: String)
        ensures
            r@ == cancel_fingerprint_text(self.spec_operation(), self.spec_revision()),
    {
        let mut out = String::new();
        out.append("{\"expectedRevision\":");
        crate::text::append_decimal(&mut out, self.expected_revision.get());
        out.append(",\"operationId\":\"");
        let id = self.operation_id.to_string();
        out.append(id.as_str());
        out.append("\",\"version\":1}");
        out
    }
}

/// Page sizes accepted by listing queries.
pub open spec fn limit_ok(limit: u32) -> bool {
    1 <= limit <= 1_000
}

/// Rejects a page size outside 1..=1000 with `invalid_input`.
pub fn validate_limit(limit: u32) -> (r: Result<(), ApplicationError>)
    ensures
        r is Ok <==> limit_ok(limit),
        r matches Err(e) ==> e == ApplicationError::InvalidInput,
{
    if 1 <= limit && limit <= 1_000 {
        Ok(())
    } else {
        Err(ApplicationError::InvalidInput)
    }
}

/// Rejects a registry page size outside 1..=1000 with `internal`.
pub fn validate_m3_limit(limit: u32) -> (r: Result<(), M3Error>)
    ensures
        r is Ok <==> limit_ok(limit),
        r matches Err(e) ==> e.spec_code() == M3ErrorCode::Internal,
{
    if 1 <= limit && limit <= 1_000 {
        Ok(())
    } else {
        Err(M3Error::new(M3ErrorCode::Internal))
    }
}

/// Requires one registry permission, answering `permission_denied`.
pub fn require_m3(access: &crate::access::AccessContext, permission: crate::domain::Permission) -> (r: Result<(), M3Error>)
    ensures
        r is Ok <==> access@.permissions.contains(permission),
        r matches Err(e) ==> e.spec_code() == M3ErrorCode::PermissionDenied,
{
    if access.require(permission).is_err() {
        return Err(M3Error::new(M3ErrorCode::PermissionDenied));
    }
    Ok(())
}

/// Checks a listing request: a valid page size and a cursor instant that
/// fits signed 64-bit storage.
pub fn validate_operation_listing(cursor_created_at_ms: Option<u64>, limit: u32) -> (r: Result<(), ApplicationError>)
    ensures
        r is Ok <==> limit_ok(limit) && match cursor_created_at_ms {
            Some(t) => t <= i64::MAX,
            None => true,
        },
        r matches Err(e) ==> e == ApplicationError::InvalidInput,
{
    validate_limit(limit)?;
    if let Some(t) = cursor_created_at_ms {
        if t > 0x7fff_ffff_ffff_ffff {
            return Err(ApplicationError::InvalidInput);
        }
    }
    Ok(())
}

/// Checks an event listing request: a valid page size and a cursor that
/// fits signed 64-bit storage.
pub fn validate_event_listing(after_sequence: u64, limit: u32) -> (r: Result<(), ApplicationError>)
    ensures
        r is Ok <==> limit_ok(limit) && after_sequence <= i64::MAX,
        r matches Err(e) ==> e == ApplicationError::InvalidInput,
{
    validate_limit(limit)?;
    if after_sequence > 0x7fff_ffff_ffff_ffff {
        return Err(ApplicationError::InvalidInput);
    }
    Ok(())
}

/// The public failure code a state check worker records for a store failure.
pub open spec fn worker_failure_name(kind: StoreErrorKind) -> Seq<char> {
    if kind == StoreErrorKind::Unavailable {
        "store_unavailable"@
    } else {
        "internal_error"@
    }
}

/// Names the failure a state check worker records.
pub fn worker_failure_code(kind: StoreErrorKind) -> (r: &'static str)
    ensures
        r@ == worker_failure_name(kind),
{
    match kind {
        StoreErrorKind::Unavailable => "store_unavailable",
        _ => "internal_error",
    }
}

/// Progress of a state check worker.
#[derive(Clone, Copy, Debug, PartialEq, Eq, Structural)]
pub enum StateCheckPhase {
    Queued,
    Begun,
    IntegrityChecked,
    ForeignKeysChecked,
}

/// The next step a state check worker takes.
#[derive(Clone, Copy, Debug, PartialEq, Eq, Structural)]
pub enum StateCheckAction {
    FinishCancelled,
    Begin,
    CheckIntegrity,
    CheckForeignKeys,
    Finish,
}

/// The state check worker's decision: cancellation is honoured before the
/// Operation begins and after each check, never between beginning and the
/// integrity check; the result is recorded only after both checks.
pub fn state_check_next(phase: StateCheckPhase, cancellation_requested: bool) -> (r: StateCheckAction)
    ensures
        r == state_check_next_spec(phase, cancellation_requested),
{
    match phase {
        StateCheckPhase::Queued => if cancellation_requested {
            StateCheckAction::FinishCancelled
        } else {
            StateCheckAction::Begin
        },
        StateCheckPhase::Begun => StateCheckAction::CheckIntegrity,
        StateCheckPhase::IntegrityChecked => if cancellation_requested {
            StateCheckAction::FinishCancelled
        } else {
            StateCheckAction::CheckForeignKeys
        },
        StateCheckPhase::ForeignKeysChecked => if cancellation_requested {
            StateCheckAction::FinishCancelled
        } else {
            StateCheckAction::Finish
        },
    }
}

/// A state check records its result only once both checks ran, and every
/// checkpoint except the integrity check honours a cancellation request.
pub proof fn state_check_finishes_only_after_both_checks(phase: StateCheckPhase, cancel: bool)
    ensures
        state_check_next_spec(phase, cancel) == StateCheckAction::Finish ==> phase
            == StateCheckPhase::ForeignKeysChecked && !cancel,
        cancel && phase != StateCheckPhase::Begun ==> state_check_next_spec(phase, cancel)
            == StateCheckAction::FinishCancelled,
{
}

/// The decision `state_check_next` makes.
pub open spec fn state_check_next_spec(phase: StateCheckPhase, cancel: bool) -> StateCheckAction {
    match phase {
        StateCheckPhase::Queued => if cancel {
            StateCheckAction::FinishCancelled
        } else {
            StateCheckAction::Begin
        },
        StateCheckPhase::Begun => StateCheckAction::CheckIntegrity,
        StateCheckPhase::IntegrityChecked => if cancel {
            StateCheckAction::FinishCancelled
        } else {
            StateCheckAction::CheckForeignKeys
        },
        StateCheckPhase::ForeignKeysChecked => if cancel {
            StateCheckAction::FinishCancelled
        } else {
            StateCheckAction::Finish
        },
    }
}

/// A repository that was not modified keeps its revision: refreshing it at
/// another revision answers `revision_conflict`.
pub fn check_unmodified_refresh(current: Revision, expected: Revision) -> (r: Result<(), M3Error>)
    ensures
        r is Ok <==> current == expected,
        r matches Err(e) ==> e.spec_code() == M3ErrorCode::RevisionConflict,
{
    if current != expected {
        return Err(M3Error::new(M3ErrorCode::RevisionConflict));
    }
    Ok(())
}

} // verus!
