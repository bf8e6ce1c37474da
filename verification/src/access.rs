//! Principal, granted permissions and exact resource scopes, revalidated at
//! every use-case boundary.

use vstd::prelude::*;

use crate::domain::{Permission, PrincipalId};
use crate::text::str_eq;

verus! {

/// Store failure category safe for application decisions.
#[derive(Clone, Copy, Debug, PartialEq, Eq, Structural)]
pub enum StoreErrorKind {
    Unavailable,
    OperationNotFound,
    RevisionConflict,
    IdempotencyConflict,
    OperationNotCancellable,
    CorruptState,
}

/// Safe persistence-port error without storage text or local paths.
#[derive(Clone, Copy, Debug, PartialEq, Eq, Structural)]
pub struct StoreError {
    kind: StoreErrorKind,
}

impl StoreError {
    pub closed spec fn spec_kind(self) -> StoreErrorKind {
        self.kind
    }

    /// Creates a safe store error category.
    pub fn new(kind: StoreErrorKind) -> (r: Self)
        ensures
            r.spec_kind() == kind,
    {
        StoreError { kind }
    }

    /// Returns the application-visible category.
    pub fn kind(self) -> (r: StoreErrorKind)
        ensures
            r == self.spec_kind(),
    {
        self.kind
    }
}

/// Application error categories mapped to public errors by adapters.
#[derive(Clone, Copy, Debug, PartialEq, Eq, Structural)]
pub enum ApplicationError {
    PermissionDenied,
    InvalidInput,
    Store(StoreErrorKind),
}

impl ApplicationError {
    /// Wraps a store error category.
    pub fn from_store(error: StoreError) -> (r: Self)
        ensures
            r == ApplicationError::Store(error.spec_kind()),
    {
        ApplicationError::Store(error.kind())
    }
}

/// Resource scopes granted for one kind of resource.
#[derive(Debug)]
pub enum AccessScopes {
    Nothing,
    All,
    Exact(Vec<String>),
}

/// Abstract value of a scope grant.
pub enum ScopeView {
    Nothing,
    Everything,
    Exact(Set<Seq<char>>),
}

/// The set of texts held by a vector of strings.
pub open spec fn string_set(v: Seq<String>) -> Set<Seq<char>> {
    v.map_values(|s: String| s@).to_set()
}

impl View for AccessScopes {
    type V = ScopeView;

    open spec fn view(&self) -> ScopeView {
        match self {
            AccessScopes::Nothing => ScopeView::Nothing,
            AccessScopes::All => ScopeView::Everything,
            AccessScopes::Exact(values) => ScopeView::Exact(string_set(values@)),
        }
    }
}

/// Whether a scope grant admits one resource.
pub open spec fn scope_admits(scope: ScopeView, resource: Seq<char>) -> bool {
    match scope {
        ScopeView::Nothing => false,
        ScopeView::Everything => true,
        ScopeView::Exact(values) => values.contains(resource),
    }
}

/// Copies a vector of strings.
pub fn clone_strings(v: &Vec<String>) -> (r: Vec<String>)
    ensures
        r@ == v@,
{
    let mut out: Vec<String> = Vec::new();
    let mut i: usize = 0;
    while i < v.len()
        invariant
            i <= v@.len(),
            out@ == v@.subrange(0, i as int),
        decreases v@.len() - i,
    {
        out.push(v[i].clone());
        i = i + 1;
        assert(out@ =~= v@.subrange(0, i as int));
    }
    assert(v@.subrange(0, v@.len() as int) =~= v@);
    out
}

impl AccessScopes {
    /// Copies the grant.
    pub fn duplicate(&self) -> (r: Self)
        ensures
            r@ == self@,
    {
        match self {
            AccessScopes::Nothing => AccessScopes::Nothing,
            AccessScopes::All => AccessScopes::All,
            AccessScopes::Exact(values) => AccessScopes::Exact(clone_strings(values)),
        }
    }
}

/// Whether `resource_id` is one of `values`.
pub fn contains_text(values: &Vec<String>, resource_id: &str) -> (r: bool)
    ensures
        r == string_set(values@).contains(resource_id@),
{
    let mut i: usize = 0;
    while i < values.len()
        invariant
            i <= values@.len(),
            forall|j: int| 0 <= j < i ==> values@[j]@ != resource_id@,
        decreases values@.len() - i,
    {
        if str_eq(values[i].as_str(), resource_id) {
            assert(values@.map_values(|s: String| s@)[i as int] == resource_id@);
            return true;
        }
        i = i + 1;
    }
    let ghost texts = values@.map_values(|s: String| s@);
    assert(!texts.contains(resource_id@)) by {
        assert forall|j: int| 0 <= j < texts.len() implies #[trigger] texts[j] != resource_id@ by {
            assert(texts[j] == values@[j]@);
        }
    }
    false
}

/// Revalidates a resource scope.
pub fn require_scope(scopes: &AccessScopes, resource_id: &str) -> (r: Result<(), ApplicationError>)
    ensures
        r is Ok <==> scope_admits(scopes@, resource_id@),
        r matches Err(e) ==> e == ApplicationError::PermissionDenied,
{
    match scopes {
        AccessScopes::All => Ok(()),
        AccessScopes::Exact(values) => {
            if contains_text(values, resource_id) {
                Ok(())
            } else {
                Err(ApplicationError::PermissionDenied)
            }
        },
        AccessScopes::Nothing => Err(ApplicationError::PermissionDenied),
    }
}

/// Abstract value of an access context.
pub struct AccessView {
    pub principal: Seq<char>,
    pub permissions: Set<Permission>,
    pub project_scopes: ScopeView,
    pub extension_scopes: ScopeView,
}

/// Principal and granted permissions supplied independently of client metadata.
#[derive(Debug)]
pub struct AccessContext {
    principal: PrincipalId,
    permissions: Vec<Permission>,
    project_read_scopes: AccessScopes,
    extension_ui_scopes: AccessScopes,
}

impl View for AccessContext {
    type V = AccessView;

    closed spec fn view(&self) -> AccessView {
        AccessView {
            principal: self.principal@,
            permissions: self.permissions@.to_set(),
            project_scopes: self.project_read_scopes@,
            extension_scopes: self.extension_ui_scopes@,
        }
    }
}

/// The permissions of the built-in local owner.
pub open spec fn local_owner_permissions() -> Set<Permission> {
    set![
        Permission::StateCheck,
        Permission::OperationsRead,
        Permission::OperationsCancel,
        Permission::EventsRead,
        Permission::ActivityRead,
        Permission::DiagnosticsRead,
        Permission::SettingsRead,
        Permission::SettingsManage,
        Permission::ProjectsRead,
        Permission::ProjectsManage,
        Permission::RepositoriesRead,
        Permission::RepositoriesManage,
        Permission::PackagesRead,
        Permission::PackagesManage,
        Permission::UnityRead,
        Permission::UnityManage,
        Permission::UnityLaunch,
        Permission::ProjectsCreate,
        Permission::ProjectsDelete,
        Permission::TemplatesRead,
        Permission::TemplatesManage,
        Permission::BackupsRead,
        Permission::BackupsManage,
        Permission::ExtensionsRead,
        Permission::ExtensionsManage,
        Permission::ExtensionsPermissionsManage,
        Permission::ExtensionsUiUse,
    ]
}

impl AccessContext {
    /// Creates an explicit access context with no resource scopes.
    pub fn new(principal: PrincipalId, permissions: &[Permission]) -> (r: Self)
        ensures
            r@.principal == principal@,
            r@.permissions == permissions@.to_set(),
            r@.project_scopes is Nothing,
            r@.extension_scopes is Nothing,
    {
        let mut granted: Vec<Permission> = Vec::new();
        let mut i: usize = 0;
        while i < permissions.len()
            invariant
                i <= permissions@.len(),
                granted@ == permissions@.subrange(0, i as int),
            decreases permissions@.len() - i,
        {
            granted.push(permissions[i]);
            i = i + 1;
            assert(granted@ =~= permissions@.subrange(0, i as int));
        }
        assert(permissions@.subrange(0, permissions@.len() as int) =~= permissions@);
        AccessContext {
            principal,
            permissions: granted,
            project_read_scopes: AccessScopes::Nothing,
            extension_ui_scopes: AccessScopes::Nothing,
        }
    }

    /// Creates the built-in official-client context with every resource in scope.
    pub fn local_owner() -> (r: Self)
        ensures
            r@.principal == "builtin:local-owner"@,
            r@.permissions == local_owner_permissions(),
            r@.project_scopes is Everything,
            r@.extension_scopes is Everything,
    {
        let permissions = vec![
            Permission::StateCheck,
            Permission::OperationsRead,
            Permission::OperationsCancel,
            Permission::EventsRead,
            Permission::ActivityRead,
            Permission::DiagnosticsRead,
            Permission::SettingsRead,
            Permission::SettingsManage,
            Permission::ProjectsRead,
            Permission::ProjectsManage,
            Permission::RepositoriesRead,
            Permission::RepositoriesManage,
            Permission::PackagesRead,
            Permission::PackagesManage,
            Permission::UnityRead,
            Permission::UnityManage,
            Permission::UnityLaunch,
            Permission::ProjectsCreate,
            Permission::ProjectsDelete,
            Permission::TemplatesRead,
            Permission::TemplatesManage,
            Permission::BackupsRead,
            Permission::BackupsManage,
            Permission::ExtensionsRead,
            Permission::ExtensionsManage,
            Permission::ExtensionsPermissionsManage,
            Permission::ExtensionsUiUse,
        ];
        let access = AccessContext {
            principal: PrincipalId::local_owner(),
            permissions,
            project_read_scopes: AccessScopes::All,
            extension_ui_scopes: AccessScopes::All,
        };
        assert(access.permissions@.to_set() =~= local_owner_permissions()) by {
            assert forall|p: Permission| access.permissions@.to_set().contains(p)
                <==> local_owner_permissions().contains(p) by {
                if local_owner_permissions().contains(p) {
                    assert(access.permissions@.contains(p));
                }
            }
        }
        access
    }

    /// Returns the authenticated Principal.
    pub fn principal(&self) -> (r: &PrincipalId)
        ensures
            r@ == self@.principal,
    {
        &self.principal
    }

    /// Revalidates one application permission.
    pub fn require(&self, permission: Permission) -> (r: Result<(), ApplicationError>)
        ensures
            r is Ok <==> self@.permissions.contains(permission),
            r matches Err(e) ==> e == ApplicationError::PermissionDenied,
    {
        let mut i: usize = 0;
        while i < self.permissions.len()
            invariant
                i <= self.permissions@.len(),
                forall|j: int| 0 <= j < i ==> self.permissions@[j] != permission,
            decreases self.permissions@.len() - i,
        {
            if self.permissions[i] == permission {
                assert(self.permissions@.contains(permission));
                return Ok(());
            }
            i = i + 1;
        }
        Err(ApplicationError::PermissionDenied)
    }

    /// Narrows a caller to exact project-read resources.
    pub fn with_project_read_scopes(self, project_ids: Vec<String>) -> (r: Self)
        ensures
            r@.principal == self@.principal,
            r@.permissions == self@.permissions,
            r@.project_scopes == ScopeView::Exact(string_set(project_ids@)),
            r@.extension_scopes == self@.extension_scopes,
    {
        AccessContext { project_read_scopes: AccessScopes::Exact(project_ids), ..self }
    }

    /// Narrows a caller to exact Portable UI extension resources.
    pub fn with_extension_ui_scopes(self, extension_ids: Vec<String>) -> (r: Self)
        ensures
            r@.principal == self@.principal,
            r@.permissions == self@.permissions,
            r@.project_scopes == self@.project_scopes,
            r@.extension_scopes == ScopeView::Exact(string_set(extension_ids@)),
    {
        AccessContext { extension_ui_scopes: AccessScopes::Exact(extension_ids), ..self }
    }

    /// Revalidates `projects.read` for one exact project resource.
    pub fn require_project_read_scope(&self, project_id: &str) -> (r: Result<(), ApplicationError>)
        ensures
            r is Ok <==> (self@.permissions.contains(Permission::ProjectsRead) && scope_admits(
                self@.project_scopes,
                project_id@,
            )),
            r matches Err(e) ==> e == ApplicationError::PermissionDenied,
    {
        self.require(Permission::ProjectsRead)?;
        require_scope(&self.project_read_scopes, project_id)
    }

    /// Revalidates `extensions.ui.use` for one exact extension resource.
    pub fn require_extension_ui_scope(&self, extension_id: &str) -> (r: Result<(), ApplicationError>)
        ensures
            r is Ok <==> (self@.permissions.contains(Permission::ExtensionsUiUse) && scope_admits(
                self@.extension_scopes,
                extension_id@,
            )),
            r matches Err(e) ==> e == ApplicationError::PermissionDenied,
    {
        self.require(Permission::ExtensionsUiUse)?;
        require_scope(&self.extension_ui_scopes, extension_id)
    }

    /// Copies the context.
    pub fn duplicate(&self) -> (r: Self)
        ensures
            r@ == self@,
    {
        let mut permissions: Vec<Permission> = Vec::new();
        let mut i: usize = 0;
        while i < self.permissions.len()
            invariant
                i <= self.permissions@.len(),
                permissions@ == self.permissions@.subrange(0, i as int),
            decreases self.permissions@.len() - i,
        {
            permissions.push(self.permissions[i]);
            i = i + 1;
            assert(permissions@ =~= self.permissions@.subrange(0, i as int));
        }
        assert(self.permissions@.subrange(0, self.permissions@.len() as int) =~= self.permissions@);
        AccessContext {
            principal: self.principal.duplicate(),
            permissions,
            project_read_scopes: self.project_read_scopes.duplicate(),
            extension_ui_scopes: self.extension_ui_scopes.duplicate(),
        }
    }
}

/// An exact scope admits exactly the listed resources: granting one resource
/// never admits another.
pub proof fn exact_scopes_do_not_expand(values: Seq<String>, resource: Seq<char>)
    ensures
        scope_admits(ScopeView::Exact(string_set(values)), resource) <==> exists|i: int|
            0 <= i < values.len() && values[i]@ == resource,
{
    let texts = values.map_values(|s: String| s@);
    if scope_admits(ScopeView::Exact(string_set(values)), resource) {
        assert(texts.contains(resource));
        let k = choose|k: int| 0 <= k < texts.len() && #[trigger] texts[k] == resource;
        assert(0 <= k < values.len() && values[k]@ == resource);
    }
    if exists|i: int| 0 <= i < values.len() && #[trigger] values[i]@ == resource {
        let k = choose|i: int| 0 <= i < values.len() && #[trigger] values[i]@ == resource;
        assert(texts[k] == resource);
        assert(texts.contains(resource));
    }
}

} // verus!
