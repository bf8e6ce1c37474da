//! User packages enrolled from local folders: records, pages and the
//! checks that gate enrolment, refresh and removal.

use vstd::prelude::*;

use crate::access::{AccessContext, StoreErrorKind};
use crate::domain::{Permission, PrincipalId, Revision};
use crate::ids::UserPackageId;

verus! {

/// Page size used when a listing names none.
pub const DEFAULT_USER_PACKAGE_PAGE_LIMIT: u32 = 100;

/// Largest page a listing may ask for.
pub const MAX_USER_PACKAGE_PAGE_LIMIT: u32 = 1_000;

#[derive(Clone, Copy, Debug, PartialEq, Eq)]
pub struct UserPackageCursor {
    pub updated_at_ms: u64,
    pub user_package_id: UserPackageId,
}

#[derive(Clone, Debug, PartialEq, Eq)]
pub struct UserPackageRecord {
    pub user_package_id: UserPackageId,
    pub owner: PrincipalId,
    pub source_root_path: String,
    pub source_identity_key: Vec<u8>,
    pub package_id: String,
    pub version: String,
    pub display_name: Option<String>,
    pub manifest_json: String,
    pub dependencies_json: String,
    pub manifest_fingerprint: [u8; 32],
    pub content_fingerprint: [u8; 32],
    pub archive_sha256: [u8; 32],
    pub revision: Revision,
    pub created_at_ms: u64,
    pub updated_at_ms: u64,
}

#[derive(Clone, Debug, PartialEq, Eq)]
pub struct UserPackageSnapshot {
    pub source_root_path: String,
    pub source_identity_key: Vec<u8>,
    pub package_id: String,
    pub version: String,
    pub display_name: Option<String>,
    pub manifest_json: String,
    pub dependencies_json: String,
    pub manifest_fingerprint: [u8; 32],
    pub content_fingerprint: [u8; 32],
    pub archive_sha256: [u8; 32],
}

#[derive(Clone, Debug, PartialEq, Eq)]
pub struct UserPackagePage {
    pub user_packages: Vec<UserPackageRecord>,
    pub next_cursor: Option<UserPackageCursor>,
}

#[derive(Clone, Debug, PartialEq, Eq)]
pub struct UserPackageWriteResult {
    pub user_package: UserPackageRecord,
    pub replayed: bool,
}

#[derive(Clone, Debug, PartialEq, Eq)]
pub struct UserPackageRemoveResult {
    pub user_package_id: UserPackageId,
    pub revision: Revision,
    pub removed: bool,
    pub replayed: bool,
}

/// Safe user package failure codes.
#[derive(Clone, Copy, Debug, PartialEq, Eq, Structural)]
pub enum UserPackageErrorCode {
    InvalidInput,
    PermissionDenied,
    NotFound,
    AlreadyEnrolled,
    SourceUnavailable,
    SourceUnsafe,
    SourceChanged,
    ManifestInvalid,
    LimitExceeded,
    RevisionConflict,
    IdempotencyConflict,
    StoreUnavailable,
    Internal,
}

/// Maps a user package error code to the stable name it is reported under.
pub open spec fn user_package_error_name(value: UserPackageErrorCode) -> Seq<char> {
    match value {
        UserPackageErrorCode::InvalidInput => "invalid_request"@,
        UserPackageErrorCode::PermissionDenied => "permission_denied"@,
        UserPackageErrorCode::NotFound => "user_package_not_found"@,
        UserPackageErrorCode::AlreadyEnrolled => "user_package_already_enrolled"@,
        UserPackageErrorCode::SourceUnavailable => "user_package_source_unavailable"@,
        UserPackageErrorCode::SourceUnsafe => "user_package_source_unsafe"@,
        UserPackageErrorCode::SourceChanged => "user_package_source_changed"@,
        UserPackageErrorCode::ManifestInvalid => "user_package_manifest_invalid"@,
        UserPackageErrorCode::LimitExceeded => "user_package_limit_exceeded"@,
        UserPackageErrorCode::RevisionConflict => "revision_conflict"@,
        UserPackageErrorCode::IdempotencyConflict => "idempotency_conflict"@,
        UserPackageErrorCode::StoreUnavailable => "store_unavailable"@,
        UserPackageErrorCode::Internal => "internal_error"@,
    }
}

impl UserPackageErrorCode {
    /// Stable public error name.
    pub fn as_str(self) -> (r: &'static str)
        ensures
            r@ == user_package_error_name(self),
    {
        match self {
            UserPackageErrorCode::InvalidInput => "invalid_request",
            UserPackageErrorCode::PermissionDenied => "permission_denied",
            UserPackageErrorCode::NotFound => "user_package_not_found",
            UserPackageErrorCode::AlreadyEnrolled => "user_package_already_enrolled",
            UserPackageErrorCode::SourceUnavailable => "user_package_source_unavailable",
            UserPackageErrorCode::SourceUnsafe => "user_package_source_unsafe",
            UserPackageErrorCode::SourceChanged => "user_package_source_changed",
            UserPackageErrorCode::ManifestInvalid => "user_package_manifest_invalid",
            UserPackageErrorCode::LimitExceeded => "user_package_limit_exceeded",
            UserPackageErrorCode::RevisionConflict => "revision_conflict",
            UserPackageErrorCode::IdempotencyConflict => "idempotency_conflict",
            UserPackageErrorCode::StoreUnavailable => "store_unavailable",
            UserPackageErrorCode::Internal => "internal_error",
        }
    }
}

/// Safe user package error.
#[derive(Clone, Copy, Debug, PartialEq, Eq, Structural)]
pub struct UserPackageError {
    code: UserPackageErrorCode,
}

impl UserPackageError {
    pub closed spec fn spec_code(self) -> UserPackageErrorCode {
        self.code
    }

    pub fn new(code: UserPackageErrorCode) -> (r: Self)
        ensures
            r.spec_code() == code,
    {
        UserPackageError { code }
    }

    pub fn code(&self) -> (r: UserPackageErrorCode)
        ensures
            r == self.spec_code(),
    {
        self.code
    }
}

/// The user package code of a store failure.
pub open spec fn user_package_code_for_store(kind: StoreErrorKind) -> UserPackageErrorCode {
    match kind {
        StoreErrorKind::RevisionConflict => UserPackageErrorCode::RevisionConflict,
        StoreErrorKind::IdempotencyConflict => UserPackageErrorCode::IdempotencyConflict,
        StoreErrorKind::Unavailable => UserPackageErrorCode::StoreUnavailable,
        _ => UserPackageErrorCode::Internal,
    }
}

impl From<StoreErrorKind> for UserPackageError {
    fn from(value: StoreErrorKind) -> (r: Self) {
        match value {
            StoreErrorKind::RevisionConflict => UserPackageError::new(UserPackageErrorCode::RevisionConflict),
            StoreErrorKind::IdempotencyConflict => UserPackageError::new(UserPackageErrorCode::IdempotencyConflict),
            StoreErrorKind::Unavailable => UserPackageError::new(UserPackageErrorCode::StoreUnavailable),
            _ => UserPackageError::new(UserPackageErrorCode::Internal),
        }
    }
}

impl vstd::std_specs::convert::FromSpecImpl<StoreErrorKind> for UserPackageError {
    open spec fn obeys_from_spec() -> bool {
        true
    }

    open spec fn from_spec(v: StoreErrorKind) -> UserPackageError {
        user_package_error_of(user_package_code_for_store(v))
    }
}

/// The error value carrying a code.
pub closed spec fn user_package_error_of(code: UserPackageErrorCode) -> UserPackageError {
    UserPackageError { code }
}

/// The error carrying a code has that code.
pub proof fn user_package_error_of_code(code: UserPackageErrorCode)
    ensures
        user_package_error_of(code).spec_code() == code,
{
}

/// The user package code that stands for a refused permission.
pub fn require_user_package_permission(access: &AccessContext, permission: Permission) -> (r: Result<(), UserPackageError>)
    ensures
        r is Ok <==> access@.permissions.contains(permission),
        r matches Err(e) ==> e.spec_code() == UserPackageErrorCode::PermissionDenied,
{
    if access.require(permission).is_err() {
        return Err(UserPackageError::new(UserPackageErrorCode::PermissionDenied));
    }
    Ok(())
}

/// Enrolling, refreshing and removing user packages needs the
/// package-manage permission and the local owner.
pub fn require_user_package_owner(access: &AccessContext) -> (r: Result<(), UserPackageError>)
    ensures
        r is Ok <==> access@.permissions.contains(Permission::PackagesManage) && access@.principal
            == "builtin:local-owner"@,
        r matches Err(e) ==> e.spec_code() == UserPackageErrorCode::PermissionDenied,
{
    require_user_package_permission(access, Permission::PackagesManage)?;
    let owner = PrincipalId::local_owner();
    if !crate::text::str_eq(access.principal().as_str(), owner.as_str()) {
        return Err(UserPackageError::new(UserPackageErrorCode::PermissionDenied));
    }
    Ok(())
}

/// A user package listing asks for 1 to 1000 records.
pub fn validate_user_package_limit(limit: u32) -> (r: Result<(), UserPackageError>)
    ensures
        r is Ok <==> 1 <= limit <= MAX_USER_PACKAGE_PAGE_LIMIT,
        r matches Err(e) ==> e.spec_code() == UserPackageErrorCode::InvalidInput,
{
    if limit < 1 || limit > MAX_USER_PACKAGE_PAGE_LIMIT {
        return Err(UserPackageError::new(UserPackageErrorCode::InvalidInput));
    }
    Ok(())
}

/// A refresh reads the same source folder and package as the enrolled one.
pub fn check_refresh_source(snapshot: &UserPackageSnapshot, current: &UserPackageRecord) -> (r: Result<(), UserPackageError>)
    ensures
        r is Ok <==> snapshot.source_identity_key@ == current.source_identity_key@ && snapshot.package_id@
            == current.package_id@,
        r matches Err(e) ==> e.spec_code() == UserPackageErrorCode::SourceChanged,
{
    if !crate::text::bytes_eq(snapshot.source_identity_key.as_slice(), current.source_identity_key.as_slice())
        || !crate::text::str_eq(snapshot.package_id.as_str(), current.package_id.as_str()) {
        return Err(UserPackageError::new(UserPackageErrorCode::SourceChanged));
    }
    Ok(())
}

} // verus!
