//! Extension registry records, runtime leases and their errors.

use vstd::prelude::*;

use crate::access::ApplicationError;
use crate::domain::{PrincipalId, Revision};
use crate::ids::{OperationId, PlanId};
use crate::text::{is_ascii_digit, is_ascii_lower};
use vstd::string::StringSliceAdditionalSpecFns;

verus! {

/// Where an extension package came from.
#[derive(Clone, Copy, Debug, PartialEq, Eq, Structural)]
pub enum ExtensionSourceKind {
    NotApplicable,
    LocalOwnerSelected,
    FirstPartyPackaged,
}

/// Why a publisher is trusted.
#[derive(Clone, Copy, Debug, PartialEq, Eq, Structural)]
pub enum ExtensionTrustDecision {
    Official,
    UserApprovedForExtension,
}

/// Owner-selected lifecycle state.
#[derive(Clone, Copy, Debug, PartialEq, Eq, Structural)]
pub enum ExtensionDesiredState {
    InstalledDisabled,
    Enabled,
    Uninstalling,
}

/// Crash quarantine state.
#[derive(Clone, Copy, Debug, PartialEq, Eq, Structural)]
pub enum ExtensionQuarantineState {
    Clear,
    Quarantined,
}

/// Observed Host state.
#[derive(Clone, Copy, Debug, PartialEq, Eq, Structural)]
pub enum ExtensionRuntimeState {
    Stopped,
    Starting,
    Running,
    Stopping,
    Crashed,
}

/// What uninstall does with extension data.
#[derive(Clone, Copy, Debug, PartialEq, Eq, Structural)]
pub enum ExtensionDataDisposition {
    RetainData,
    DeleteData,
}

/// Portable UI protocol declared by a package.
#[derive(Clone, Copy, Debug, PartialEq, Eq, Structural)]
pub enum ExtensionUiProtocol {
    PortableV1,
}

/// The stable name of each `ExtensionUiProtocol`.
pub open spec fn ui_protocol_name(value: ExtensionUiProtocol) -> Seq<char> {
    match value {
        ExtensionUiProtocol::PortableV1 => "portable-v1"@,
    }
}

impl ExtensionUiProtocol {
    /// Stable transport-neutral name.
    pub fn as_str(self) -> (r: &'static str)
        ensures
            r@ == ui_protocol_name(self),
    {
        match self {
            ExtensionUiProtocol::PortableV1 => "portable-v1",
        }
    }
}

/// Filesystem journal entry state.
#[derive(Clone, Copy, Debug, PartialEq, Eq, Structural)]
pub enum ExtensionJournalState {
    Intent,
    Completed,
}

/// The stable name of each `ExtensionJournalState`.
pub open spec fn extension_journal_state_name(value: ExtensionJournalState) -> Seq<char> {
    match value {
        ExtensionJournalState::Intent => "intent"@,
        ExtensionJournalState::Completed => "completed"@,
    }
}

impl ExtensionJournalState {
    /// Stable transport-neutral name.
    pub fn as_str(self) -> (r: &'static str)
        ensures
            r@ == extension_journal_state_name(self),
    {
        match self {
            ExtensionJournalState::Intent => "intent",
            ExtensionJournalState::Completed => "completed",
        }
    }
}

/// Filesystem journal checkpoint of an install or uninstall.
#[derive(Clone, Copy, Debug, PartialEq, Eq, Structural)]
pub enum ExtensionJournalPhase {
    SourceVerified,
    ArchiveVerified,
    StagingComplete,
    PublishIntent,
    PackagePublished,
    GrantsRevoked,
    LeaseRevoked,
    HostStopped,
    PackageBackupIntent,
    PackageMovedToBackup,
    DataDeleteIntent,
    DataDeleted,
    StateCommitIntent,
    StateCommitted,
    CleanupComplete,
}

/// The stable name of each `ExtensionJournalPhase`.
pub open spec fn extension_journal_phase_name(value: ExtensionJournalPhase) -> Seq<char> {
    match value {
        ExtensionJournalPhase::SourceVerified => "source_verified"@,
        ExtensionJournalPhase::ArchiveVerified => "archive_verified"@,
        ExtensionJournalPhase::StagingComplete => "staging_complete"@,
        ExtensionJournalPhase::PublishIntent => "publish_intent"@,
        ExtensionJournalPhase::PackagePublished => "package_published"@,
        ExtensionJournalPhase::GrantsRevoked => "grants_revoked"@,
        ExtensionJournalPhase::LeaseRevoked => "lease_revoked"@,
        ExtensionJournalPhase::HostStopped => "host_stopped"@,
        ExtensionJournalPhase::PackageBackupIntent => "package_backup_intent"@,
        ExtensionJournalPhase::PackageMovedToBackup => "package_moved_to_backup"@,
        ExtensionJournalPhase::DataDeleteIntent => "data_delete_intent"@,
        ExtensionJournalPhase::DataDeleted => "data_deleted"@,
        ExtensionJournalPhase::StateCommitIntent => "state_commit_intent"@,
        ExtensionJournalPhase::StateCommitted => "state_committed"@,
        ExtensionJournalPhase::CleanupComplete => "cleanup_complete"@,
    }
}

impl ExtensionJournalPhase {
    /// Stable transport-neutral name.
    pub fn as_str(self) -> (r: &'static str)
        ensures
            r@ == extension_journal_phase_name(self),
    {
        match self {
            ExtensionJournalPhase::SourceVerified => "source_verified",
            ExtensionJournalPhase::ArchiveVerified => "archive_verified",
            ExtensionJournalPhase::StagingComplete => "staging_complete",
            ExtensionJournalPhase::PublishIntent => "publish_intent",
            ExtensionJournalPhase::PackagePublished => "package_published",
            ExtensionJournalPhase::GrantsRevoked => "grants_revoked",
            ExtensionJournalPhase::LeaseRevoked => "lease_revoked",
            ExtensionJournalPhase::HostStopped => "host_stopped",
            ExtensionJournalPhase::PackageBackupIntent => "package_backup_intent",
            ExtensionJournalPhase::PackageMovedToBackup => "package_moved_to_backup",
            ExtensionJournalPhase::DataDeleteIntent => "data_delete_intent",
            ExtensionJournalPhase::DataDeleted => "data_deleted",
            ExtensionJournalPhase::StateCommitIntent => "state_commit_intent",
            ExtensionJournalPhase::StateCommitted => "state_committed",
            ExtensionJournalPhase::CleanupComplete => "cleanup_complete",
        }
    }
}

/// Why a Host instance is started.
#[derive(Clone, Copy, Debug, PartialEq, Eq, Structural)]
pub enum ExtensionActivationKind {
    Background,
    InteractiveUi,
}

/// Why a Host instance is stopped.
#[derive(Clone, Copy, Debug, PartialEq, Eq, Structural)]
pub enum ExtensionStopReason {
    Disabled,
    PermissionRevoked,
    LeaseExpired,
    DaemonShutdown,
    Uninstalling,
    InteractiveUiIdle,
}

/// Stable extension error code.
#[derive(Clone, Copy, Debug, PartialEq, Eq, Structural)]
pub enum M6ErrorCode {
    InvalidInput,
    PermissionDenied,
    ManifestInvalid,
    PackageInvalid,
    PackageUntrusted,
    PublisherConfirmationRequired,
    SignatureInvalid,
    AlreadyInstalled,
    NotInstalled,
    ProjectNotFound,
    ScopeDenied,
    ApiUnsupported,
    InstanceStale,
    ResourceLimit,
    Crashed,
    Quarantined,
    PlanStale,
    DataQuotaExceeded,
    DataOwnerMismatch,
    RecoveryRequired,
    RevisionConflict,
    IdempotencyConflict,
    StoreUnavailable,
    Internal,
}

/// Safe extension error.
#[derive(Clone, Copy, Debug, PartialEq, Eq, Structural)]
pub struct M6Error {
    code: M6ErrorCode,
}

impl M6Error {
    pub closed spec fn spec_code(self) -> M6ErrorCode {
        self.code
    }

    pub fn new(code: M6ErrorCode) -> (r: Self)
        ensures
            r.spec_code() == code,
    {
        M6Error { code }
    }

    pub fn code(&self) -> (r: M6ErrorCode)
        ensures
            r == self.spec_code(),
    {
        self.code
    }
}

/// Verified package evidence frozen into an install plan.
#[derive(Clone, Debug, PartialEq, Eq)]
pub struct ExtensionPackageEvidence {
    pub source_kind: ExtensionSourceKind,
    pub source_locator: String,
    pub source_identity: Vec<u8>,
    pub extension_id: String,
    pub version: String,
    pub api_major: u32,
    pub profile_version: u32,
    pub package_digest: [u8; 32],
    pub manifest_digest: [u8; 32],
    pub component_digest: [u8; 32],
    pub publisher_fingerprint: String,
    pub required_permissions: Vec<String>,
    pub optional_permissions: Vec<String>,
    pub required_interfaces: Vec<String>,
    pub optional_interfaces: Vec<String>,
    pub ui_protocol: Option<ExtensionUiProtocol>,
}

/// Installed extension registry row.
#[derive(Clone, Debug, PartialEq, Eq)]
pub struct ExtensionRecord {
    pub extension_id: String,
    pub version: String,
    pub api_major: u32,
    pub package_digest: [u8; 32],
    pub publisher_fingerprint: String,
    pub trust_decision: ExtensionTrustDecision,
    pub desired_state: ExtensionDesiredState,
    pub quarantine_state: ExtensionQuarantineState,
    pub runtime_state: ExtensionRuntimeState,
    pub grant_revision: Revision,
    pub lifecycle_generation: Revision,
    pub revision: Revision,
    pub ui_protocol: Option<ExtensionUiProtocol>,
}

/// Whether a byte may occur inside an extension identifier label.
pub open spec fn extension_id_byte(b: u8) -> bool {
    is_ascii_lower(b) || is_ascii_digit(b) || b == 0x2d
}

/// A valid extension identifier: at most 255 bytes made of at least two
/// dot-separated labels, each label non-empty, of lowercase letters, digits
/// and `-`, and neither starting nor ending with `-`. Written over bytes: every
/// byte is a label byte or `.`, there is a `.`, the text neither starts nor
/// ends with `.` or `-`, and no `.` is next to a `.` or a `-`.
pub open spec fn valid_extension_id_bytes(s: Seq<u8>) -> bool {
    &&& 0 < s.len() <= 255
    &&& forall|i: int| 0 <= i < s.len() ==> extension_id_byte(#[trigger] s[i]) || s[i] == 0x2e
    &&& exists|i: int| 0 <= i < s.len() && #[trigger] s[i] == 0x2e
    &&& s[0] != 0x2e && s[0] != 0x2d
    &&& s[s.len() - 1] != 0x2e && s[s.len() - 1] != 0x2d
    &&& forall|i: int|
        0 <= i < s.len() - 1 ==> !(#[trigger] s[i] == 0x2e && (s[i + 1] == 0x2e || s[i + 1] == 0x2d))
            && !(s[i] == 0x2d && s[i + 1] == 0x2e)
}

/// Validates an extension identifier.
pub fn valid_extension_id(value: &str) -> (r: bool)
    ensures
        r == valid_extension_id_bytes(value.spec_bytes()),
{
    let bytes = value.as_bytes();
    let n = bytes.len();
    if n == 0 || n > 255 {
        return false;
    }
    if bytes[0] == 0x2e || bytes[0] == 0x2d || bytes[n - 1] == 0x2e || bytes[n - 1] == 0x2d {
        return false;
    }
    let mut has_dot = false;
    let mut i: usize = 0;
    while i < n
        invariant
            bytes@ == value.spec_bytes(),
            n == bytes@.len(),
            0 < n <= 255,
            bytes@[0] != 0x2e && bytes@[0] != 0x2d,
            bytes@[n - 1] != 0x2e && bytes@[n - 1] != 0x2d,
            i <= n,
            forall|j: int| 0 <= j < i ==> extension_id_byte(#[trigger] bytes@[j]) || bytes@[j] == 0x2e,
            has_dot <==> exists|j: int| 0 <= j < i && #[trigger] bytes@[j] == 0x2e,
            forall|j: int|
                0 <= j < i && j < n - 1 ==> !(#[trigger] bytes@[j] == 0x2e && (bytes@[j + 1] == 0x2e
                    || bytes@[j + 1] == 0x2d)) && !(bytes@[j] == 0x2d && bytes@[j + 1] == 0x2e),
        decreases n - i,
    {
        let b = bytes[i];
        if !((0x61 <= b && b <= 0x7a) || (0x30 <= b && b <= 0x39) || b == 0x2d || b == 0x2e) {
            assert(!(extension_id_byte(bytes@[i as int]) || bytes@[i as int] == 0x2e));
            return false;
        }
        if i + 1 < n {
            let c = bytes[i + 1];
            if (b == 0x2e && (c == 0x2e || c == 0x2d)) || (b == 0x2d && c == 0x2e) {
                assert(bytes@[i as int] == 0x2e && (bytes@[i + 1] == 0x2e || bytes@[i + 1] == 0x2d)
                    || bytes@[i as int] == 0x2d && bytes@[i + 1] == 0x2e);
                return false;
            }
        }
        if b == 0x2e {
            has_dot = true;
        }
        i = i + 1;
    }
    has_dot
}

/// Exclusive pagination cursor over extension identifiers.
#[derive(Clone, Debug, PartialEq, Eq)]
pub struct ExtensionCursor {
    last_extension_id: String,
}

impl ExtensionCursor {
    pub closed spec fn spec_last(self) -> Seq<char> {
        self.last_extension_id@
    }

    /// Validates the identifier that the next page starts after.
    pub fn new(last_extension_id: String) -> (r: Result<Self, M6Error>)
        ensures
            r is Ok <==> valid_extension_id_bytes(vstd::utf8::encode_utf8(last_extension_id@)),
            r matches Ok(c) ==> c.spec_last() == last_extension_id@,
            r matches Err(e) ==> e.spec_code() == M6ErrorCode::InvalidInput,
    {
        if !valid_extension_id(last_extension_id.as_str()) {
            return Err(M6Error::new(M6ErrorCode::InvalidInput));
        }
        Ok(ExtensionCursor { last_extension_id })
    }

    /// Returns the identifier that the next page starts after.
    pub fn last_extension_id(&self) -> (r: &str)
        ensures
            r@ == self.spec_last(),
    {
        self.last_extension_id.as_str()
    }
}

/// One page of installed extensions.
pub struct ExtensionPage {
    pub extensions: Vec<ExtensionRecord>,
    pub next_cursor: Option<ExtensionCursor>,
}

/// Durable immutable extension plan.
#[derive(Clone, Debug, PartialEq, Eq)]
pub struct ExtensionPlanRecord {
    pub plan_id: PlanId,
    pub owner: PrincipalId,
    pub action: String,
    pub state: String,
    pub evidence: ExtensionPackageEvidence,
    pub trust_decision: ExtensionTrustDecision,
    pub expected_revision: Option<Revision>,
    pub data_disposition: Option<ExtensionDataDisposition>,
    pub plan_fingerprint: [u8; 32],
    pub apply_operation_id: Option<OperationId>,
    pub created_at_ms: u64,
}

/// Install plan produced before durable insertion.
#[derive(Clone, Debug, PartialEq, Eq)]
pub struct ExtensionInstallPlanDraft {
    pub evidence: ExtensionPackageEvidence,
    pub trust_decision: ExtensionTrustDecision,
    pub expected_revision: Option<Revision>,
    pub plan_fingerprint: [u8; 32],
}

/// Uninstall plan produced before durable insertion.
#[derive(Clone, Debug, PartialEq, Eq)]
pub struct ExtensionUninstallPlanDraft {
    pub extension: ExtensionRecord,
    pub data_disposition: ExtensionDataDisposition,
    pub plan_fingerprint: [u8; 32],
}

/// Accepted or replayed extension apply operation.
#[derive(Clone, Debug, PartialEq, Eq)]
pub struct ExtensionApplyOutcome {
    pub operation_id: OperationId,
    pub replayed: bool,
    pub schedule: bool,
}

/// Filesystem journal entry of an extension operation.
#[derive(Clone, Debug, PartialEq, Eq)]
pub struct ExtensionFilesystemJournalEntry {
    pub operation_id: OperationId,
    pub step: u64,
    pub plan_id: PlanId,
    pub extension_id: String,
    pub action: String,
    pub phase: ExtensionJournalPhase,
    pub state: ExtensionJournalState,
    pub evidence_json: String,
    pub updated_at_ms: u64,
}

/// Result of one grant mutation.
#[derive(Clone, Debug, PartialEq, Eq)]
pub struct ExtensionGrantRecord {
    pub extension_id: String,
    pub permission: String,
    pub resource_kind: String,
    pub resource_id: String,
    pub granted: bool,
    pub grant_revision: Revision,
    pub replayed: bool,
}

/// Requested grant mutation.
#[derive(Clone, Debug, PartialEq, Eq)]
pub struct ExtensionGrantMutation {
    pub extension_id: String,
    pub permission: String,
    pub resource_kind: String,
    pub resource_id: String,
    pub expected_revision: Revision,
    pub grant: bool,
}

/// One stored extension data value.
#[derive(Clone, Debug, PartialEq, Eq)]
pub struct ExtensionDataValue {
    pub value: Vec<u8>,
    pub key_revision: Revision,
    pub namespace_revision: Revision,
}

/// Revisions after a data write.
#[derive(Clone, Copy, Debug, PartialEq, Eq, Structural)]
pub struct ExtensionDataWriteResult {
    pub key_revision: Revision,
    pub namespace_revision: Revision,
}

/// Runtime authority of one Host instance.
#[derive(Clone, Debug, PartialEq, Eq)]
pub struct ExtensionInstanceLease {
    pub lease_id: String,
    pub extension_id: String,
    pub instance_id: String,
    pub principal_id: PrincipalId,
    pub publisher_fingerprint: String,
    pub grant_revision: Revision,
    pub lifecycle_generation: Revision,
    pub daemon_epoch: String,
    pub expires_at_ms: u64,
}

/// Field-by-field equality of two leases by their text values.
pub open spec fn lease_same(a: ExtensionInstanceLease, b: ExtensionInstanceLease) -> bool {
    &&& a.lease_id@ == b.lease_id@
    &&& a.extension_id@ == b.extension_id@
    &&& a.instance_id@ == b.instance_id@
    &&& a.principal_id@ == b.principal_id@
    &&& a.publisher_fingerprint@ == b.publisher_fingerprint@
    &&& a.grant_revision == b.grant_revision
    &&& a.lifecycle_generation == b.lifecycle_generation
    &&& a.daemon_epoch@ == b.daemon_epoch@
    &&& a.expires_at_ms == b.expires_at_ms
}

impl ExtensionInstanceLease {
    /// Copies the lease.
    pub fn duplicate(&self) -> (r: Self)
        ensures
            lease_same(r, *self),
    {
        ExtensionInstanceLease {
            lease_id: self.lease_id.clone(),
            extension_id: self.extension_id.clone(),
            instance_id: self.instance_id.clone(),
            principal_id: self.principal_id.duplicate(),
            publisher_fingerprint: self.publisher_fingerprint.clone(),
            grant_revision: self.grant_revision,
            lifecycle_generation: self.lifecycle_generation,
            daemon_epoch: self.daemon_epoch.clone(),
            expires_at_ms: self.expires_at_ms,
        }
    }
}

/// Everything a Host needs to start one instance.
#[derive(Clone, Debug, PartialEq, Eq)]
pub struct ExtensionStartContext {
    pub lease: ExtensionInstanceLease,
    pub component_path: String,
    pub activation_kind: ExtensionActivationKind,
}

/// Result of polling the Host runtime.
#[derive(Clone, Debug, PartialEq, Eq)]
pub struct ExtensionRuntimePoll {
    pub active: Vec<ExtensionInstanceLease>,
    pub exited: Vec<ExtensionInstanceLease>,
}

/// Durable decision after a Host crash.
#[derive(Clone, Debug, PartialEq, Eq)]
pub struct ExtensionCrashDecision {
    pub extension_id: String,
    pub restart_delay_ms: Option<u64>,
    pub quarantined: bool,
}

/// Project summary exposed to an extension.
#[derive(Clone, Debug, PartialEq, Eq)]
pub struct ExtensionProjectSummary {
    pub project_id: String,
    pub display_name: String,
    pub kind: String,
    pub unity_version: Option<String>,
    pub revision: Revision,
}

/// Maps an access failure to the extension error space.
pub fn map_access(error: ApplicationError) -> (r: M6Error)
    ensures
        r.spec_code() == (if error is PermissionDenied {
            M6ErrorCode::PermissionDenied
        } else {
            M6ErrorCode::Internal
        }),
{
    match error {
        ApplicationError::PermissionDenied => M6Error::new(M6ErrorCode::PermissionDenied),
        _ => M6Error::new(M6ErrorCode::Internal),
    }
}

} // verus!
