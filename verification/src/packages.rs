//! Package plans, change sets, filesystem journal phases and their errors.

use vstd::prelude::*;
use vstd::string::StringExecFns;
use vstd::string::StringSliceAdditionalSpecFns;

use crate::access::{AccessContext, StoreErrorKind};
use crate::registry::{M3Error, M3ErrorCode, ProjectObservation};
use crate::domain::{Permission, PrincipalId, Revision};
use crate::ids::{OperationId, PlanId, ProjectId};

verus! {

/// Most package mutations one change set may hold.
pub const MAX_PACKAGE_MUTATIONS: usize = 1_024;

/// Most dependency edges one change set may hold.
pub const MAX_DEPENDENCY_EDGES: usize = 4_096;

/// Requested package plan action.
#[derive(Clone, Copy, Debug, PartialEq, Eq, Structural)]
pub enum PlanAction {
    Install,
    Remove,
    Upgrade,
    Downgrade,
    Resolve,
}

/// The stable name of each `PlanAction`.
pub open spec fn plan_action_name(value: PlanAction) -> Seq<char> {
    match value {
        PlanAction::Install => "install"@,
        PlanAction::Remove => "remove"@,
        PlanAction::Upgrade => "upgrade"@,
        PlanAction::Downgrade => "downgrade"@,
        PlanAction::Resolve => "resolve"@,
    }
}

impl PlanAction {
    /// Stable transport-neutral name.
    pub fn as_str(self) -> (r: &'static str)
        ensures
            r@ == plan_action_name(self),
    {
        match self {
            PlanAction::Install => "install",
            PlanAction::Remove => "remove",
            PlanAction::Upgrade => "upgrade",
            PlanAction::Downgrade => "downgrade",
            PlanAction::Resolve => "resolve",
        }
    }
}

#[derive(Clone, Copy, Debug, PartialEq, Eq, Structural)]
pub enum PlanState {
    Unapplied,
    Applied,
}

#[derive(Clone, Debug, PartialEq, Eq)]
pub struct PackageSourcePin {
    pub repository_id: String,
    pub repository_revision: u64,
    pub source_identity: String,
    pub manifest_fingerprint: [u8; 32],
    pub package_id: String,
    pub version: String,
    pub artifact_url: String,
    pub archive_sha256: [u8; 32],
}

#[derive(Clone, Copy, Debug, PartialEq, Eq, Structural)]
pub enum PackageMutationKind {
    Install,
    Remove,
    Replace,
}

#[derive(Clone, Debug, PartialEq, Eq)]
pub struct PackageMutation {
    pub kind: PackageMutationKind,
    pub package_id: String,
    pub from_version: Option<String>,
    pub to_version: Option<String>,
    pub source: Option<PackageSourcePin>,
}

#[derive(Clone, Debug, PartialEq, Eq, PartialOrd, Ord)]
pub struct PackageDependencyEdge {
    pub from_package_id: String,
    pub to_package_id: String,
    pub range: String,
    pub direct: bool,
}

#[derive(Clone, Debug, PartialEq, Eq)]
pub struct PackageChangeSet {
    pub format_version: u32,
    pub mutations: Vec<PackageMutation>,
    pub dependency_edges: Vec<PackageDependencyEdge>,
    pub vpm_manifest_sha256: [u8; 32],
}

#[derive(Clone, Debug, PartialEq, Eq)]
pub struct PackagePlanDraft {
    pub project_id: ProjectId,
    pub action: PlanAction,
    pub project_revision: Revision,
    pub project_snapshot_fingerprint: [u8; 32],
    pub change_set_fingerprint: [u8; 32],
    pub change_set: PackageChangeSet,
    pub source_set: Vec<PackageSourcePin>,
}

#[derive(Clone, Debug, PartialEq, Eq)]
pub struct PackagePlanRecord {
    pub plan_id: PlanId,
    pub owner: PrincipalId,
    pub project_id: ProjectId,
    pub action: PlanAction,
    pub state: PlanState,
    pub project_revision: Revision,
    pub project_snapshot_fingerprint: [u8; 32],
    pub change_set_fingerprint: [u8; 32],
    pub change_set: PackageChangeSet,
    pub source_set: Vec<PackageSourcePin>,
    pub apply_operation_id: Option<OperationId>,
    pub created_at_ms: u64,
}

#[derive(Clone, Debug, PartialEq, Eq)]
pub struct ResolverCatalogEntry {
    pub repository_id: String,
    pub repository_revision: u64,
    pub repository_priority: u64,
    pub source_identity: String,
    pub package_id: String,
    pub version: String,
    pub yanked: bool,
    pub unity: Option<String>,
    pub author_name: String,
    pub author_email: String,
    pub artifact_url: String,
    pub zip_sha256: String,
    pub unity_release: Option<String>,
    pub dependencies_json: String,
    pub manifest_fingerprint: [u8; 32],
    pub legacy_metadata_present: bool,
}

#[derive(Clone, Debug, PartialEq, Eq)]
pub struct ResolverCatalog {
    pub entries: Vec<ResolverCatalogEntry>,
    pub complete: bool,
}

#[derive(Clone, Debug, PartialEq, Eq)]
pub struct PackagePlanRequest {
    pub action: PlanAction,
    pub project_id: ProjectId,
    pub expected_revision: Revision,
    pub package_id: Option<String>,
    pub version_range: Option<String>,
    pub repository_id: Option<String>,
    pub include_prerelease: bool,
}

#[derive(Clone, Debug, PartialEq, Eq)]
pub struct PackageApplyCompletion {
    pub project_observation: ProjectObservation,
    pub result_json: String,
}

#[derive(Clone, Debug, PartialEq, Eq)]
pub struct ApplyPlanOutcome {
    pub operation_id: OperationId,
    pub replayed: bool,
    pub schedule: bool,
}

/// Durable filesystem checkpoint of a project transaction.
#[derive(Clone, Copy, Debug, PartialEq, Eq, Structural)]
pub enum FilesystemPhase {
    Accepted,
    InventoryReady,
    Archiving,
    ArchiveReady,
    PublishIntent,
    ArchivePublished,
    ArchiveVerified,
    Extracting,
    Staging,
    StagingComplete,
    TargetPublished,
    ProjectRegistryCommitIntent,
    Extracted,
    Prepared,
    PackagesReplaced,
    VpmManifestCommitted,
    FilesystemCommitted,
    StateCommitted,
    CleanupComplete,
    RollingBack,
    RolledBack,
    RecoveryRequired,
}

/// The stable name of each `FilesystemPhase`.
pub open spec fn filesystem_phase_name(value: FilesystemPhase) -> Seq<char> {
    match value {
        FilesystemPhase::Accepted => "accepted"@,
        FilesystemPhase::InventoryReady => "inventory_ready"@,
        FilesystemPhase::Archiving => "archiving"@,
        FilesystemPhase::ArchiveReady => "archive_ready"@,
        FilesystemPhase::PublishIntent => "publish_intent"@,
        FilesystemPhase::ArchivePublished => "archive_published"@,
        FilesystemPhase::ArchiveVerified => "archive_verified"@,
        FilesystemPhase::Extracting => "extracting"@,
        FilesystemPhase::Staging => "staging"@,
        FilesystemPhase::StagingComplete => "staging_complete"@,
        FilesystemPhase::TargetPublished => "target_published"@,
        FilesystemPhase::ProjectRegistryCommitIntent => "project_registry_commit_intent"@,
        FilesystemPhase::Extracted => "extracted"@,
        FilesystemPhase::Prepared => "prepared"@,
        FilesystemPhase::PackagesReplaced => "packages_replaced"@,
        FilesystemPhase::VpmManifestCommitted => "vpm_manifest_committed"@,
        FilesystemPhase::FilesystemCommitted => "filesystem_committed"@,
        FilesystemPhase::StateCommitted => "state_committed"@,
        FilesystemPhase::CleanupComplete => "cleanup_complete"@,
        FilesystemPhase::RollingBack => "rolling_back"@,
        FilesystemPhase::RolledBack => "rolled_back"@,
        FilesystemPhase::RecoveryRequired => "recovery_required"@,
    }
}

impl FilesystemPhase {
    /// Stable transport-neutral name.
    pub fn as_str(self) -> (r: &'static str)
        ensures
            r@ == filesystem_phase_name(self),
    {
        match self {
            FilesystemPhase::Accepted => "accepted",
            FilesystemPhase::InventoryReady => "inventory_ready",
            FilesystemPhase::Archiving => "archiving",
            FilesystemPhase::ArchiveReady => "archive_ready",
            FilesystemPhase::PublishIntent => "publish_intent",
            FilesystemPhase::ArchivePublished => "archive_published",
            FilesystemPhase::ArchiveVerified => "archive_verified",
            FilesystemPhase::Extracting => "extracting",
            FilesystemPhase::Staging => "staging",
            FilesystemPhase::StagingComplete => "staging_complete",
            FilesystemPhase::TargetPublished => "target_published",
            FilesystemPhase::ProjectRegistryCommitIntent => "project_registry_commit_intent",
            FilesystemPhase::Extracted => "extracted",
            FilesystemPhase::Prepared => "prepared",
            FilesystemPhase::PackagesReplaced => "packages_replaced",
            FilesystemPhase::VpmManifestCommitted => "vpm_manifest_committed",
            FilesystemPhase::FilesystemCommitted => "filesystem_committed",
            FilesystemPhase::StateCommitted => "state_committed",
            FilesystemPhase::CleanupComplete => "cleanup_complete",
            FilesystemPhase::RollingBack => "rolling_back",
            FilesystemPhase::RolledBack => "rolled_back",
            FilesystemPhase::RecoveryRequired => "recovery_required",
        }
    }
}

/// Filesystem journal entry state.
#[derive(Clone, Copy, Debug, PartialEq, Eq, Structural)]
pub enum JournalState {
    Intent,
    Completed,
}

/// The stable name of each `JournalState`.
pub open spec fn journal_state_name(value: JournalState) -> Seq<char> {
    match value {
        JournalState::Intent => "intent"@,
        JournalState::Completed => "completed"@,
    }
}

impl JournalState {
    /// Stable transport-neutral name.
    pub fn as_str(self) -> (r: &'static str)
        ensures
            r@ == journal_state_name(self),
    {
        match self {
            JournalState::Intent => "intent",
            JournalState::Completed => "completed",
        }
    }
}

#[derive(Clone, Debug, PartialEq, Eq)]
pub struct FilesystemJournalEntry {
    pub operation_id: OperationId,
    pub step: u64,
    pub plan_id: PlanId,
    pub project_id: ProjectId,
    pub phase: FilesystemPhase,
    pub state: JournalState,
    pub project_identity_key: Vec<u8>,
    pub change_set_fingerprint: [u8; 32],
    pub evidence_json: String,
    pub updated_at_ms: u64,
}

/// Stable package error code.
#[derive(Clone, Copy, Debug, PartialEq, Eq, Structural)]
pub enum M4ErrorCode {
    InvalidInput,
    PermissionDenied,
    ProjectNotRegistered,
    RepositoryRefreshRequired,
    PackageNotFound,
    PackageVersionInvalid,
    PackageRangeInvalid,
    PackageDependencyMissing,
    PackageDependencyConflict,
    PackageUnityIncompatible,
    PackageSourceAmbiguous,
    PackageManifestInvalid,
    PackageHashRequired,
    PackageLegacyCleanupRequired,
    PackageVersionYanked,
    PlanNotFound,
    PlanStale,
    PlanTooLarge,
    IdempotencyConflict,
    RevisionConflict,
    ProjectChangedDuringApply,
    PackageIntegrityMismatch,
    PackageDownloadTooLarge,
    OfflineCacheMiss,
    PackageCacheCorrupt,
    PackageCacheQuotaExceeded,
    PackageArchiveInvalid,
    PackageArchiveUnsafePath,
    PackagePathCollision,
    PackageArchiveUnsupportedCompression,
    PackageArchiveLimitExceeded,
    RecoveryRequired,
    OperationCancelled,
    StoreUnavailable,
    Internal,
}

/// The stable name of each `M4ErrorCode`.
pub open spec fn m4_error_name(value: M4ErrorCode) -> Seq<char> {
    match value {
        M4ErrorCode::InvalidInput => "invalid_input"@,
        M4ErrorCode::PermissionDenied => "permission_denied"@,
        M4ErrorCode::ProjectNotRegistered => "project_not_registered"@,
        M4ErrorCode::RepositoryRefreshRequired => "repository_refresh_required"@,
        M4ErrorCode::PackageNotFound => "package_not_found"@,
        M4ErrorCode::PackageVersionInvalid => "package_version_invalid"@,
        M4ErrorCode::PackageRangeInvalid => "package_range_invalid"@,
        M4ErrorCode::PackageDependencyMissing => "package_dependency_missing"@,
        M4ErrorCode::PackageDependencyConflict => "package_dependency_conflict"@,
        M4ErrorCode::PackageUnityIncompatible => "package_unity_incompatible"@,
        M4ErrorCode::PackageSourceAmbiguous => "package_source_ambiguous"@,
        M4ErrorCode::PackageManifestInvalid => "package_manifest_invalid"@,
        M4ErrorCode::PackageHashRequired => "package_hash_required"@,
        M4ErrorCode::PackageLegacyCleanupRequired => "package_legacy_cleanup_required"@,
        M4ErrorCode::PackageVersionYanked => "package_version_yanked"@,
        M4ErrorCode::PlanNotFound => "plan_not_found"@,
        M4ErrorCode::PlanStale => "plan_stale"@,
        M4ErrorCode::PlanTooLarge => "plan_too_large"@,
        M4ErrorCode::IdempotencyConflict => "idempotency_conflict"@,
        M4ErrorCode::RevisionConflict => "revision_conflict"@,
        M4ErrorCode::ProjectChangedDuringApply => "project_changed_during_apply"@,
        M4ErrorCode::PackageIntegrityMismatch => "package_integrity_mismatch"@,
        M4ErrorCode::PackageDownloadTooLarge => "package_download_too_large"@,
        M4ErrorCode::OfflineCacheMiss => "offline_cache_miss"@,
        M4ErrorCode::PackageCacheCorrupt => "package_cache_corrupt"@,
        M4ErrorCode::PackageCacheQuotaExceeded => "package_cache_quota_exceeded"@,
        M4ErrorCode::PackageArchiveInvalid => "package_archive_invalid"@,
        M4ErrorCode::PackageArchiveUnsafePath => "package_path_invalid"@,
        M4ErrorCode::PackagePathCollision => "package_path_collision"@,
        M4ErrorCode::PackageArchiveUnsupportedCompression => "package_archive_unsupported_compression"@,
        M4ErrorCode::PackageArchiveLimitExceeded => "package_archive_limit_exceeded"@,
        M4ErrorCode::RecoveryRequired => "project_transaction_recovery_required"@,
        M4ErrorCode::OperationCancelled => "operation_cancelled"@,
        M4ErrorCode::StoreUnavailable => "store_unavailable"@,
        M4ErrorCode::Internal => "internal_error"@,
    }
}

impl M4ErrorCode {
    /// Stable transport-neutral name.
    pub fn as_str(self) -> (r: &'static str)
        ensures
            r@ == m4_error_name(self),
    {
        match self {
            M4ErrorCode::InvalidInput => "invalid_input",
            M4ErrorCode::PermissionDenied => "permission_denied",
            M4ErrorCode::ProjectNotRegistered => "project_not_registered",
            M4ErrorCode::RepositoryRefreshRequired => "repository_refresh_required",
            M4ErrorCode::PackageNotFound => "package_not_found",
            M4ErrorCode::PackageVersionInvalid => "package_version_invalid",
            M4ErrorCode::PackageRangeInvalid => "package_range_invalid",
            M4ErrorCode::PackageDependencyMissing => "package_dependency_missing",
            M4ErrorCode::PackageDependencyConflict => "package_dependency_conflict",
            M4ErrorCode::PackageUnityIncompatible => "package_unity_incompatible",
            M4ErrorCode::PackageSourceAmbiguous => "package_source_ambiguous",
            M4ErrorCode::PackageManifestInvalid => "package_manifest_invalid",
            M4ErrorCode::PackageHashRequired => "package_hash_required",
            M4ErrorCode::PackageLegacyCleanupRequired => "package_legacy_cleanup_required",
            M4ErrorCode::PackageVersionYanked => "package_version_yanked",
            M4ErrorCode::PlanNotFound => "plan_not_found",
            M4ErrorCode::PlanStale => "plan_stale",
            M4ErrorCode::PlanTooLarge => "plan_too_large",
            M4ErrorCode::IdempotencyConflict => "idempotency_conflict",
            M4ErrorCode::RevisionConflict => "revision_conflict",
            M4ErrorCode::ProjectChangedDuringApply => "project_changed_during_apply",
            M4ErrorCode::PackageIntegrityMismatch => "package_integrity_mismatch",
            M4ErrorCode::PackageDownloadTooLarge => "package_download_too_large",
            M4ErrorCode::OfflineCacheMiss => "offline_cache_miss",
            M4ErrorCode::PackageCacheCorrupt => "package_cache_corrupt",
            M4ErrorCode::PackageCacheQuotaExceeded => "package_cache_quota_exceeded",
            M4ErrorCode::PackageArchiveInvalid => "package_archive_invalid",
            M4ErrorCode::PackageArchiveUnsafePath => "package_path_invalid",
            M4ErrorCode::PackagePathCollision => "package_path_collision",
            M4ErrorCode::PackageArchiveUnsupportedCompression => "package_archive_unsupported_compression",
            M4ErrorCode::PackageArchiveLimitExceeded => "package_archive_limit_exceeded",
            M4ErrorCode::RecoveryRequired => "project_transaction_recovery_required",
            M4ErrorCode::OperationCancelled => "operation_cancelled",
            M4ErrorCode::StoreUnavailable => "store_unavailable",
            M4ErrorCode::Internal => "internal_error",
        }
    }
}


/// Package request failure: a stable code and an optional safe subreason.
#[derive(Clone, Debug, PartialEq, Eq)]
pub struct M4Error {
    code: M4ErrorCode,
    subreason: Option<String>,
}

impl M4Error {
    pub closed spec fn spec_code(self) -> M4ErrorCode {
        self.code
    }

    /// The error with this code and no subreason.
    pub closed spec fn plain(code: M4ErrorCode) -> M4Error {
        M4Error { code, subreason: None }
    }

    pub closed spec fn spec_subreason(self) -> Option<Seq<char>> {
        match self.subreason {
            Some(s) => Some(s@),
            None => None,
        }
    }

    /// An error with no subreason.
    pub fn new(code: M4ErrorCode) -> (r: Self)
        ensures
            r.spec_code() == code,
            r.spec_subreason() is None,
    {
        M4Error { code, subreason: None }
    }

    /// An error carrying a safe subreason.
    pub fn with_subreason(code: M4ErrorCode, subreason: &str) -> (r: Self)
        ensures
            r.spec_code() == code,
            r.spec_subreason() == Some(subreason@),
    {
        M4Error { code, subreason: Some(subreason.to_owned()) }
    }

    /// The stable code.
    pub fn code(&self) -> (r: M4ErrorCode)
        ensures
            r == self.spec_code(),
    {
        self.code
    }

    /// The subreason, when there is one.
    pub fn subreason(&self) -> (r: Option<&str>)
        ensures
            match r {
                Some(s) => self.spec_subreason() == Some(s@),
                None => self.spec_subreason() is None,
            },
    {
        match &self.subreason {
            Some(s) => Some(s.as_str()),
            None => None,
        }
    }
}

/// The package code that stands for each store failure.
pub open spec fn m4_code_for_store(kind: StoreErrorKind) -> M4ErrorCode {
    match kind {
        StoreErrorKind::RevisionConflict => M4ErrorCode::RevisionConflict,
        StoreErrorKind::IdempotencyConflict => M4ErrorCode::IdempotencyConflict,
        StoreErrorKind::Unavailable => M4ErrorCode::StoreUnavailable,
        _ => M4ErrorCode::Internal,
    }
}

impl From<StoreErrorKind> for M4Error {
    fn from(value: StoreErrorKind) -> (r: Self) {
        let code = match value {
            StoreErrorKind::RevisionConflict => M4ErrorCode::RevisionConflict,
            StoreErrorKind::IdempotencyConflict => M4ErrorCode::IdempotencyConflict,
            StoreErrorKind::Unavailable => M4ErrorCode::StoreUnavailable,
            StoreErrorKind::CorruptState
            | StoreErrorKind::OperationNotFound
            | StoreErrorKind::OperationNotCancellable => M4ErrorCode::Internal,
        };
        M4Error { code, subreason: None }
    }
}

impl vstd::std_specs::convert::FromSpecImpl<StoreErrorKind> for M4Error {
    open spec fn obeys_from_spec() -> bool {
        true
    }

    open spec fn from_spec(v: StoreErrorKind) -> M4Error {
        M4Error::plain(m4_code_for_store(v))
    }
}

/// Maps a store failure to a package error.
pub fn m4_error_from_store(kind: StoreErrorKind) -> (r: M4Error)
    ensures
        r.spec_code() == m4_code_for_store(kind),
        r.spec_subreason() is None,
{
    let code = match kind {
        StoreErrorKind::RevisionConflict => M4ErrorCode::RevisionConflict,
        StoreErrorKind::IdempotencyConflict => M4ErrorCode::IdempotencyConflict,
        StoreErrorKind::Unavailable => M4ErrorCode::StoreUnavailable,
        StoreErrorKind::CorruptState
        | StoreErrorKind::OperationNotFound
        | StoreErrorKind::OperationNotCancellable => M4ErrorCode::Internal,
    };
    M4Error::new(code)
}

/// Whether a change set is within the frozen format and size limits.
pub open spec fn change_set_in_bounds(c: PackageChangeSet) -> bool {
    &&& c.format_version == 1
    &&& c.mutations@.len() <= MAX_PACKAGE_MUTATIONS
    &&& c.dependency_edges@.len() <= MAX_DEPENDENCY_EDGES
}

impl PackageChangeSet {
    /// Rejects an unknown format or an oversized change set with
    /// `plan_too_large`; nothing is truncated.
    pub fn validate_bounds(&self) -> (r: Result<(), M4Error>)
        ensures
            r is Ok <==> change_set_in_bounds(*self),
            r matches Err(e) ==> e.spec_code() == M4ErrorCode::PlanTooLarge && e.spec_subreason() is None,
    {
        if self.format_version != 1 || self.mutations.len() > MAX_PACKAGE_MUTATIONS
            || self.dependency_edges.len() > MAX_DEPENDENCY_EDGES
        {
            return Err(M4Error::new(M4ErrorCode::PlanTooLarge));
        }
        Ok(())
    }
}

/// Requires one permission, answering `permission_denied`.
pub fn require_m4(access: &AccessContext, permission: Permission) -> (r: Result<(), M4Error>)
    ensures
        r is Ok <==> access@.permissions.contains(permission),
        r matches Err(e) ==> e.spec_code() == M4ErrorCode::PermissionDenied,
{
    if access.require(permission).is_err() {
        return Err(M4Error::new(M4ErrorCode::PermissionDenied));
    }
    Ok(())
}

/// The package code that stands for each registry failure.
pub open spec fn m4_code_for_m3(code: M3ErrorCode) -> M4ErrorCode {
    match code {
        M3ErrorCode::ProjectNotRegistered => M4ErrorCode::ProjectNotRegistered,
        M3ErrorCode::PermissionDenied => M4ErrorCode::PermissionDenied,
        M3ErrorCode::StoreUnavailable => M4ErrorCode::StoreUnavailable,
        _ => M4ErrorCode::Internal,
    }
}

/// Maps a registry failure to a package error.
pub fn map_m3_error(error: M3Error) -> (r: M4Error)
    ensures
        r.spec_code() == m4_code_for_m3(error.spec_code()),
{
    match error.code() {
        M3ErrorCode::ProjectNotRegistered => M4Error::new(M4ErrorCode::ProjectNotRegistered),
        M3ErrorCode::PermissionDenied => M4Error::new(M4ErrorCode::PermissionDenied),
        M3ErrorCode::StoreUnavailable => M4Error::new(M4ErrorCode::StoreUnavailable),
        _ => M4Error::new(M4ErrorCode::Internal),
    }
}

/// The reads a package plan needs.
pub open spec fn plan_permissions(access: crate::access::AccessView) -> bool {
    &&& access.permissions.contains(Permission::ProjectsRead)
    &&& access.permissions.contains(Permission::RepositoriesRead)
    &&& access.permissions.contains(Permission::PackagesRead)
}

/// Checks the caller may plan package changes.
pub fn require_plan_access(access: &AccessContext) -> (r: Result<(), M4Error>)
    ensures
        r is Ok <==> plan_permissions(access@),
        r matches Err(e) ==> e.spec_code() == M4ErrorCode::PermissionDenied,
{
    require_m4(access, Permission::ProjectsRead)?;
    require_m4(access, Permission::RepositoriesRead)?;
    require_m4(access, Permission::PackagesRead)?;
    Ok(())
}

/// Checks a plan request against the project it was made for: the project
/// must still be at the expected revision (`revision_conflict`), and every
/// action but removal needs a complete resolver catalog
/// (`repository_refresh_required`).
pub fn check_plan_request(
    project_revision: Revision,
    expected_revision: Revision,
    action: PlanAction,
    catalog_complete: bool,
) -> (r: Result<(), M4Error>)
    ensures
        project_revision != expected_revision ==> (r matches Err(e) && e.spec_code()
            == M4ErrorCode::RevisionConflict),
        project_revision == expected_revision && action != PlanAction::Remove && !catalog_complete
            ==> (r matches Err(e) && e.spec_code() == M4ErrorCode::RepositoryRefreshRequired),
        r is Ok <==> project_revision == expected_revision && (action == PlanAction::Remove
            || catalog_complete),
{
    if project_revision != expected_revision {
        return Err(M4Error::new(M4ErrorCode::RevisionConflict));
    }
    if action != PlanAction::Remove && !catalog_complete {
        return Err(M4Error::new(M4ErrorCode::RepositoryRefreshRequired));
    }
    Ok(())
}

/// Checks the caller may apply a plan: the plan reads, `packages.manage`,
/// and the built-in local owner only.
pub fn require_apply_access(access: &AccessContext) -> (r: Result<(), M4Error>)
    ensures
        r is Ok <==> plan_permissions(access@) && access@.permissions.contains(Permission::PackagesManage)
            && access@.principal == "builtin:local-owner"@,
        r matches Err(e) ==> e.spec_code() == M4ErrorCode::PermissionDenied,
{
    require_plan_access(access)?;
    require_m4(access, Permission::PackagesManage)?;
    let owner = PrincipalId::local_owner();
    if !crate::text::str_eq(access.principal().as_str(), owner.as_str()) {
        return Err(M4Error::new(M4ErrorCode::PermissionDenied));
    }
    Ok(())
}

/// What a package apply worker does after the adapter failed.
#[derive(Clone, Copy, Debug, PartialEq, Eq, Structural)]
pub enum ApplyFailureDisposition {
    /// The Operation was cancelled cooperatively: finish it cancelled.
    FinishCancelled,
    /// The project needs recovery: leave the Operation for recovery.
    AwaitRecovery,
    /// Any other failure: fail the Operation with the code's public name.
    Fail,
}

/// Decides how a failed package apply ends.
pub fn apply_failure_disposition(code: M4ErrorCode) -> (r: ApplyFailureDisposition)
    ensures
        r == if code == M4ErrorCode::OperationCancelled {
            ApplyFailureDisposition::FinishCancelled
        } else if code == M4ErrorCode::RecoveryRequired {
            ApplyFailureDisposition::AwaitRecovery
        } else {
            ApplyFailureDisposition::Fail
        },
{
    if code == M4ErrorCode::OperationCancelled {
        ApplyFailureDisposition::FinishCancelled
    } else if code == M4ErrorCode::RecoveryRequired {
        ApplyFailureDisposition::AwaitRecovery
    } else {
        ApplyFailureDisposition::Fail
    }
}

} // verus!
