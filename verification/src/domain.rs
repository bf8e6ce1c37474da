//! Pure domain values shared by every use case.

use vstd::prelude::*;

use crate::ids::{OperationId, ProjectId, RepositoryId};
use crate::text::bytes_of;
use vstd::string::StringSliceAdditionalSpecFns;

verus! {

/// Lifecycle state of a long-running operation.
#[derive(Clone, Copy, Debug, PartialEq, Eq, Structural)]
pub enum OperationState {
    Queued,
    Planning,
    WaitingForInput,
    Running,
    Cancelling,
    Succeeded,
    Failed,
    Cancelled,
    Interrupted,
    Recovering,
}

/// Frozen restart action for a persisted operation.
#[derive(Clone, Copy, Debug, PartialEq, Eq, Structural)]
pub enum RecoveryAction {
    RescheduleQueued,
    InterruptThenRecover,
    ResumeRecovery,
    LeaveTerminal,
    ReservedStateNotCreatedByM2,
}

/// The terminal, immutable states.
pub open spec fn state_is_terminal(s: OperationState) -> bool {
    s is Succeeded || s is Failed || s is Cancelled
}

/// The frozen table of permitted public transitions.
pub open spec fn transition_allowed(from: OperationState, to: OperationState) -> bool {
    match from {
        OperationState::Queued => to is Running || to is Cancelled,
        OperationState::Running => to is Cancelling || to is Succeeded || to is Failed
            || to is Interrupted,
        OperationState::Cancelling => to is Succeeded || to is Failed || to is Cancelled
            || to is Interrupted,
        OperationState::Interrupted => to is Recovering,
        OperationState::Recovering => to is Running || to is Cancelling || to is Failed
            || to is Cancelled || to is Interrupted,
        _ => false,
    }
}

/// The deterministic restart treatment of a persisted state.
pub open spec fn recovery_action_of(s: OperationState) -> RecoveryAction {
    match s {
        OperationState::Queued => RecoveryAction::RescheduleQueued,
        OperationState::Running | OperationState::Cancelling | OperationState::Recovering =>
            RecoveryAction::InterruptThenRecover,
        OperationState::Succeeded | OperationState::Failed | OperationState::Cancelled =>
            RecoveryAction::LeaveTerminal,
        OperationState::Interrupted => RecoveryAction::ResumeRecovery,
        OperationState::Planning | OperationState::WaitingForInput =>
            RecoveryAction::ReservedStateNotCreatedByM2,
    }
}

impl OperationState {
    /// Returns whether this state is immutable and terminal.
    pub fn is_terminal(self) -> (r: bool)
        ensures
            r == state_is_terminal(self),
    {
        match self {
            OperationState::Succeeded | OperationState::Failed | OperationState::Cancelled => true,
            _ => false,
        }
    }

    /// Returns whether the frozen state machine permits this public transition.
    pub fn can_transition_to(self, next: Self) -> (r: bool)
        ensures
            r == transition_allowed(self, next),
    {
        match self {
            OperationState::Queued => match next {
                OperationState::Running | OperationState::Cancelled => true,
                _ => false,
            },
            OperationState::Running => match next {
                OperationState::Cancelling | OperationState::Succeeded | OperationState::Failed
                | OperationState::Interrupted => true,
                _ => false,
            },
            OperationState::Cancelling => match next {
                OperationState::Succeeded | OperationState::Failed | OperationState::Cancelled
                | OperationState::Interrupted => true,
                _ => false,
            },
            OperationState::Interrupted => match next {
                OperationState::Recovering => true,
                _ => false,
            },
            OperationState::Recovering => match next {
                OperationState::Running | OperationState::Cancelling | OperationState::Failed
                | OperationState::Cancelled | OperationState::Interrupted => true,
                _ => false,
            },
            _ => false,
        }
    }

    /// Returns the deterministic restart treatment for a persisted state.
    pub fn recovery_action(self) -> (r: RecoveryAction)
        ensures
            r == recovery_action_of(self),
    {
        match self {
            OperationState::Queued => RecoveryAction::RescheduleQueued,
            OperationState::Running | OperationState::Cancelling | OperationState::Recovering =>
                RecoveryAction::InterruptThenRecover,
            OperationState::Succeeded | OperationState::Failed | OperationState::Cancelled =>
                RecoveryAction::LeaveTerminal,
            OperationState::Interrupted => RecoveryAction::ResumeRecovery,
            OperationState::Planning | OperationState::WaitingForInput =>
                RecoveryAction::ReservedStateNotCreatedByM2,
        }
    }
}

/// Terminal states are immutable: no transition leaves them.
pub proof fn terminal_states_have_no_transitions(from: OperationState, to: OperationState)
    requires
        state_is_terminal(from),
    ensures
        !transition_allowed(from, to),
{
}

/// Positive optimistic-concurrency revision bounded by signed 64-bit storage.
#[derive(Clone, Copy, Debug, PartialEq, Eq, PartialOrd, Ord, Hash, Structural)]
pub struct Revision(i64);

impl View for Revision {
    type V = int;

    closed spec fn view(&self) -> int {
        self.0 as int
    }
}

impl Revision {
    #[verifier::type_invariant]
    spec fn positive(self) -> bool {
        self.0 > 0
    }

    /// Initial revision for a newly visible aggregate.
    pub fn initial() -> (r: Revision)
        ensures
            r@ == 1,
    {
        Revision(1)
    }

    /// Two revisions with the same number are the same revision.
    pub proof fn lemma_view_injective(a: Revision, b: Revision)
        ensures
            (a@ == b@) <==> (a == b),
    {
    }

    /// Validates and constructs a public revision.
    pub fn new(value: u64) -> (r: Option<Self>)
        ensures
            r is Some <==> (1 <= value && value <= i64::MAX),
            r matches Some(x) ==> x@ == value,
    {
        if value == 0 || value > i64::MAX as u64 {
            None
        } else {
            Some(Revision(value as i64))
        }
    }

    /// Returns the public unsigned representation.
    pub fn get(self) -> (r: u64)
        ensures
            r == self@,
            1 <= r <= i64::MAX,
    {
        proof {
            use_type_invariant(&self);
        }
        self.0 as u64
    }

    /// Returns the next revision, or `None` at the signed 64-bit boundary.
    pub fn checked_next(self) -> (r: Option<Self>)
        ensures
            r is Some <==> self@ < i64::MAX,
            r matches Some(x) ==> x@ == self@ + 1,
    {
        proof {
            use_type_invariant(&self);
        }
        if self.0 < i64::MAX {
            Some(Revision(self.0 + 1))
        } else {
            None
        }
    }
}

/// Whether a text is a valid bounded identifier: non-empty, ASCII and at most `max` bytes.
pub open spec fn bounded_ascii_identifier(s: &str, max: int) -> bool {
    s@.len() > 0 && s.len() <= max && vstd::string::is_ascii(s)
}

/// Principal identifier supplied by an authenticated transport.
#[derive(Clone, Debug, PartialEq, Eq, PartialOrd, Ord, Hash)]
pub struct PrincipalId(String);

impl View for PrincipalId {
    type V = Seq<char>;

    closed spec fn view(&self) -> Seq<char> {
        self.0@
    }
}

impl PrincipalId {
    /// Built-in local owner Principal.
    pub const LOCAL_OWNER: &'static str = "builtin:local-owner";

    /// Constructs the built-in local owner Principal.
    pub fn local_owner() -> (r: Self)
        ensures
            r@ == "builtin:local-owner"@,
    {
        PrincipalId("builtin:local-owner".to_owned())
    }

    /// Creates a bounded Principal identifier.
    pub fn parse(value: &str) -> (r: Result<Self, DomainValueError>)
        ensures
            r is Ok <==> bounded_ascii_identifier(value, 128),
            r matches Ok(p) ==> p@ == value@,
            r matches Err(e) ==> e == DomainValueError::InvalidPrincipalId,
    {
        if value.is_empty() || value.len() > 128 || !value.is_ascii() {
            return Err(DomainValueError::InvalidPrincipalId);
        }
        Ok(PrincipalId(value.to_owned()))
    }

    /// Returns the stable identifier string.
    pub fn as_str(&self) -> (r: &str)
        ensures
            r@ == self@,
    {
        self.0.as_str()
    }

    /// Copies the identifier.
    pub fn duplicate(&self) -> (r: Self)
        ensures
            r@ == self@,
    {
        PrincipalId(self.0.clone())
    }
}

/// Bounded caller-supplied command idempotency key.
#[derive(Clone, Debug, PartialEq, Eq, Hash)]
pub struct IdempotencyKey(String);

impl View for IdempotencyKey {
    type V = Seq<char>;

    closed spec fn view(&self) -> Seq<char> {
        self.0@
    }
}

impl IdempotencyKey {
    /// Maximum UTF-8 byte length.
    pub const MAX_BYTES: usize = 128;

    /// Validates the non-empty ASCII key contract.
    pub fn parse(value: &str) -> (r: Result<Self, DomainValueError>)
        ensures
            r is Ok <==> bounded_ascii_identifier(value, 128),
            r matches Ok(k) ==> k@ == value@,
            r matches Err(e) ==> e == DomainValueError::InvalidIdempotencyKey,
    {
        if value.is_empty() || value.len() > 128 || !value.is_ascii() {
            return Err(DomainValueError::InvalidIdempotencyKey);
        }
        Ok(IdempotencyKey(value.to_owned()))
    }

    /// Returns the caller-supplied key.
    pub fn as_str(&self) -> (r: &str)
        ensures
            r@ == self@,
    {
        self.0.as_str()
    }
}

/// Permissions checked at every use-case boundary.
#[derive(Clone, Copy, Debug, PartialEq, Eq, Hash, Structural)]
pub enum Permission {
    StateCheck,
    OperationsRead,
    OperationsCancel,
    EventsRead,
    ActivityRead,
    DiagnosticsRead,
    SettingsRead,
    SettingsManage,
    ProjectsRead,
    ProjectsManage,
    RepositoriesRead,
    RepositoriesManage,
    PackagesRead,
    PackagesManage,
    UnityRead,
    UnityManage,
    UnityLaunch,
    ProjectsCreate,
    ProjectsDelete,
    ProjectsUnityMigrate,
    TemplatesRead,
    TemplatesManage,
    BackupsRead,
    BackupsManage,
    ExtensionsRead,
    ExtensionsManage,
    ExtensionsPermissionsManage,
    ExtensionsUiUse,
    BackgroundRun,
}

/// The frozen public name of a permission.
pub open spec fn permission_name(p: Permission) -> Seq<char> {
    match p {
        Permission::StateCheck => "state.check"@,
        Permission::OperationsRead => "operations.read"@,
        Permission::OperationsCancel => "operations.cancel"@,
        Permission::EventsRead => "events.read"@,
        Permission::ActivityRead => "activity.read"@,
        Permission::DiagnosticsRead => "diagnostics.read"@,
        Permission::SettingsRead => "settings.read"@,
        Permission::SettingsManage => "settings.manage"@,
        Permission::ProjectsRead => "projects.read"@,
        Permission::ProjectsManage => "projects.manage"@,
        Permission::RepositoriesRead => "repositories.read"@,
        Permission::RepositoriesManage => "repositories.manage"@,
        Permission::PackagesRead => "packages.read"@,
        Permission::PackagesManage => "packages.manage"@,
        Permission::UnityRead => "unity.read"@,
        Permission::UnityManage => "unity.manage"@,
        Permission::UnityLaunch => "unity.launch"@,
        Permission::ProjectsCreate => "projects.create"@,
        Permission::ProjectsDelete => "projects.delete"@,
        Permission::ProjectsUnityMigrate => "projects.unity.migrate"@,
        Permission::TemplatesRead => "templates.read"@,
        Permission::TemplatesManage => "templates.manage"@,
        Permission::BackupsRead => "backups.read"@,
        Permission::BackupsManage => "backups.manage"@,
        Permission::ExtensionsRead => "extensions.read"@,
        Permission::ExtensionsManage => "extensions.manage"@,
        Permission::ExtensionsPermissionsManage => "extensions.permissions.manage"@,
        Permission::ExtensionsUiUse => "extensions.ui.use"@,
        Permission::BackgroundRun => "background.run"@,
    }
}

impl Permission {
    /// Returns the frozen public permission name.
    pub fn as_str(self) -> (r: &'static str)
        ensures
            r@ == permission_name(self),
    {
        match self {
            Permission::StateCheck => "state.check",
            Permission::OperationsRead => "operations.read",
            Permission::OperationsCancel => "operations.cancel",
            Permission::EventsRead => "events.read",
            Permission::ActivityRead => "activity.read",
            Permission::DiagnosticsRead => "diagnostics.read",
            Permission::SettingsRead => "settings.read",
            Permission::SettingsManage => "settings.manage",
            Permission::ProjectsRead => "projects.read",
            Permission::ProjectsManage => "projects.manage",
            Permission::RepositoriesRead => "repositories.read",
            Permission::RepositoriesManage => "repositories.manage",
            Permission::PackagesRead => "packages.read",
            Permission::PackagesManage => "packages.manage",
            Permission::UnityRead => "unity.read",
            Permission::UnityManage => "unity.manage",
            Permission::UnityLaunch => "unity.launch",
            Permission::ProjectsCreate => "projects.create",
            Permission::ProjectsDelete => "projects.delete",
            Permission::ProjectsUnityMigrate => "projects.unity.migrate",
            Permission::TemplatesRead => "templates.read",
            Permission::TemplatesManage => "templates.manage",
            Permission::BackupsRead => "backups.read",
            Permission::BackupsManage => "backups.manage",
            Permission::ExtensionsRead => "extensions.read",
            Permission::ExtensionsManage => "extensions.manage",
            Permission::ExtensionsPermissionsManage => "extensions.permissions.manage",
            Permission::ExtensionsUiUse => "extensions.ui.use",
            Permission::BackgroundRun => "background.run",
        }
    }
}

/// Resource keys serialized by the in-process lock coordinator.
#[derive(Clone, Debug, PartialEq, Eq, Hash)]
pub enum ResourceKey {
    StateStore,
    Operation(OperationId),
    Project(ProjectId),
    Repository(RepositoryId),
    PackageCache([u8; 32]),
    ProjectCreate { parent_identity_sha256: [u8; 32], target_leaf: String },
    Extension(String),
}

/// The canonical byte sequence of a resource key, used for deterministic lock ordering.
pub open spec fn resource_key_bytes(k: ResourceKey) -> Seq<u8> {
    match k {
        ResourceKey::StateStore => bytes_of("state-store"),
        ResourceKey::Operation(id) => bytes_of("operation:") + id@,
        ResourceKey::Project(id) => bytes_of("project:") + id@,
        ResourceKey::Repository(id) => bytes_of("repository:") + id@,
        ResourceKey::PackageCache(digest) => bytes_of("package-cache:") + digest@,
        ResourceKey::ProjectCreate { parent_identity_sha256, target_leaf } => bytes_of(
            "project-create:",
        ) + parent_identity_sha256@ + seq![0x3au8] + vstd::utf8::encode_utf8(target_leaf@),
        ResourceKey::Extension(id) => bytes_of("extension:") + vstd::utf8::encode_utf8(id@),
    }
}

/// Appends bytes to a buffer.
pub fn append_bytes(buffer: &mut Vec<u8>, bytes: &[u8])
    ensures
        final(buffer)@ == old(buffer)@ + bytes@,
{
    let mut i: usize = 0;
    while i < bytes.len()
        invariant
            i <= bytes@.len(),
            buffer@ == old(buffer)@ + bytes@.subrange(0, i as int),
        decreases bytes@.len() - i,
    {
        buffer.push(bytes[i]);
        i = i + 1;
        assert(bytes@.subrange(0, i as int) =~= bytes@.subrange(0, i - 1 as int).push(bytes@[i - 1]));
    }
    assert(bytes@.subrange(0, bytes@.len() as int) =~= bytes@);
}

impl ResourceKey {
    /// Returns the canonical byte sequence used for deterministic multi-lock ordering.
    pub fn canonical_bytes(&self) -> (r: Vec<u8>)
        ensures
            r@ == resource_key_bytes(*self),
    {
        let mut bytes: Vec<u8> = Vec::new();
        match self {
            ResourceKey::StateStore => {
                append_bytes(&mut bytes, "state-store".as_bytes());
            },
            ResourceKey::Operation(id) => {
                append_bytes(&mut bytes, "operation:".as_bytes());
                let raw = id.as_uuid();
                append_bytes(&mut bytes, raw.as_slice());
            },
            ResourceKey::Project(id) => {
                append_bytes(&mut bytes, "project:".as_bytes());
                let raw = id.as_uuid();
                append_bytes(&mut bytes, raw.as_slice());
            },
            ResourceKey::Repository(id) => {
                append_bytes(&mut bytes, "repository:".as_bytes());
                let raw = id.as_uuid();
                append_bytes(&mut bytes, raw.as_slice());
            },
            ResourceKey::PackageCache(digest) => {
                append_bytes(&mut bytes, "package-cache:".as_bytes());
                append_bytes(&mut bytes, digest.as_slice());
            },
            ResourceKey::ProjectCreate { parent_identity_sha256, target_leaf } => {
                append_bytes(&mut bytes, "project-create:".as_bytes());
                append_bytes(&mut bytes, parent_identity_sha256.as_slice());
                bytes.push(0x3a);
                append_bytes(&mut bytes, target_leaf.as_str().as_bytes());
            },
            ResourceKey::Extension(id) => {
                append_bytes(&mut bytes, "extension:".as_bytes());
                append_bytes(&mut bytes, id.as_str().as_bytes());
            },
        }
        bytes
    }
}

/// Error returned when a bounded public domain value is invalid.
#[derive(Clone, Copy, Debug, PartialEq, Eq, Structural)]
pub enum DomainValueError {
    InvalidProjectId,
    InvalidRepositoryId,
    InvalidUnityInstallationId,
    InvalidUnityLaunchId,
    InvalidOperationId,
    InvalidPlanId,
    InvalidTemplateId,
    InvalidBackupId,
    InvalidUserPackageId,
    InvalidPrincipalId,
    InvalidIdempotencyKey,
}

impl DomainValueError {
    /// Human-readable description.
    pub fn message(self) -> (r: &'static str)
        ensures
            r@.len() > 0,
    {
        proof {
            reveal_strlit("invalid Project identifier");
            reveal_strlit("invalid Repository identifier");
            reveal_strlit("invalid Unity installation identifier");
            reveal_strlit("invalid Unity launch identifier");
            reveal_strlit("invalid Operation identifier");
            reveal_strlit("invalid Plan identifier");
            reveal_strlit("invalid Template identifier");
            reveal_strlit("invalid Backup identifier");
            reveal_strlit("invalid User Package identifier");
            reveal_strlit("invalid Principal identifier");
            reveal_strlit("invalid idempotency key");
        }
        match self {
            DomainValueError::InvalidProjectId => "invalid Project identifier",
            DomainValueError::InvalidRepositoryId => "invalid Repository identifier",
            DomainValueError::InvalidUnityInstallationId => "invalid Unity installation identifier",
            DomainValueError::InvalidUnityLaunchId => "invalid Unity launch identifier",
            DomainValueError::InvalidOperationId => "invalid Operation identifier",
            DomainValueError::InvalidPlanId => "invalid Plan identifier",
            DomainValueError::InvalidTemplateId => "invalid Template identifier",
            DomainValueError::InvalidBackupId => "invalid Backup identifier",
            DomainValueError::InvalidUserPackageId => "invalid User Package identifier",
            DomainValueError::InvalidPrincipalId => "invalid Principal identifier",
            DomainValueError::InvalidIdempotencyKey => "invalid idempotency key",
        }
    }
}

} // verus!
