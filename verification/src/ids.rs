//! Stable UUID-based identifiers.

use vstd::prelude::*;

use crate::domain::DomainValueError;
use crate::text::{bytes_eq, str_eq};
use vstd::std_specs::cmp::PartialEqSpecImpl;
use crate::uuids::{spec_uuid_hyphenated, uuid_new_v4, uuid_parse, uuid_parse_str, uuid_to_string};

verus! {

/// Stable identifier for a registered Unity project.
#[derive(Clone, Copy, Debug, Hash)]
pub struct ProjectId([u8; 16]);

impl PartialEq for ProjectId {
    fn eq(&self, other: &Self) -> (r: bool) {
        bytes_eq(self.0.as_slice(), other.0.as_slice())
    }
}

impl Eq for ProjectId {}

impl PartialEqSpecImpl for ProjectId {
    open spec fn obeys_eq_spec() -> bool {
        true
    }

    open spec fn eq_spec(&self, other: &Self) -> bool {
        self@ == other@
    }
}

impl View for ProjectId {
    type V = Seq<u8>;

    closed spec fn view(&self) -> Seq<u8> {
        self.0@
    }
}

impl ProjectId {
    /// Creates a new random identifier.
    pub fn new() -> (r: Self)
        ensures
            r@.len() == 16,
            r@[6] & 0xf0u8 == 0x40u8,
            r@[8] & 0xc0u8 == 0x80u8,
    {
        ProjectId(uuid_new_v4())
    }

    /// Parses any UUID text accepted by the `uuid` crate.
    pub fn parse(value: &str) -> (r: Result<Self, DomainValueError>)
        ensures
            r is Ok <==> uuid_parse(value@) is Some,
            r matches Ok(id) ==> id@ == uuid_parse(value@)->0,
            r matches Err(e) ==> e == DomainValueError::InvalidProjectId,
    {
        match uuid_parse_str(value) {
            Some(bytes) => Ok(ProjectId(bytes)),
            None => Err(DomainValueError::InvalidProjectId),
        }
    }

    /// Returns the sixteen UUID bytes.
    pub fn as_uuid(self) -> (r: [u8; 16])
        ensures
            r@ == self@,
    {
        self.0
    }

    /// The lowercase hyphenated text form.
    pub fn to_string(&self) -> (r: String)
        ensures
            r@ == spec_uuid_hyphenated(self@),
    {
        uuid_to_string(self.0)
    }
}

/// Stable identifier for a registered VPM repository source.
#[derive(Clone, Copy, Debug, Hash)]
pub struct RepositoryId([u8; 16]);

impl PartialEq for RepositoryId {
    fn eq(&self, other: &Self) -> (r: bool) {
        bytes_eq(self.0.as_slice(), other.0.as_slice())
    }
}

impl Eq for RepositoryId {}

impl PartialEqSpecImpl for RepositoryId {
    open spec fn obeys_eq_spec() -> bool {
        true
    }

    open spec fn eq_spec(&self, other: &Self) -> bool {
        self@ == other@
    }
}

impl View for RepositoryId {
    type V = Seq<u8>;

    closed spec fn view(&self) -> Seq<u8> {
        self.0@
    }
}

impl RepositoryId {
    /// Creates a new random identifier.
    pub fn new() -> (r: Self)
        ensures
            r@.len() == 16,
            r@[6] & 0xf0u8 == 0x40u8,
            r@[8] & 0xc0u8 == 0x80u8,
    {
        RepositoryId(uuid_new_v4())
    }

    /// Parses any UUID text accepted by the `uuid` crate.
    pub fn parse(value: &str) -> (r: Result<Self, DomainValueError>)
        ensures
            r is Ok <==> uuid_parse(value@) is Some,
            r matches Ok(id) ==> id@ == uuid_parse(value@)->0,
            r matches Err(e) ==> e == DomainValueError::InvalidRepositoryId,
    {
        match uuid_parse_str(value) {
            Some(bytes) => Ok(RepositoryId(bytes)),
            None => Err(DomainValueError::InvalidRepositoryId),
        }
    }

    /// Returns the sixteen UUID bytes.
    pub fn as_uuid(self) -> (r: [u8; 16])
        ensures
            r@ == self@,
    {
        self.0
    }

    /// The lowercase hyphenated text form.
    pub fn to_string(&self) -> (r: String)
        ensures
            r@ == spec_uuid_hyphenated(self@),
    {
        uuid_to_string(self.0)
    }
}

/// Stable identifier for a validated Unity Editor installation.
#[derive(Clone, Copy, Debug, Hash)]
pub struct UnityInstallationId([u8; 16]);

impl PartialEq for UnityInstallationId {
    fn eq(&self, other: &Self) -> (r: bool) {
        bytes_eq(self.0.as_slice(), other.0.as_slice())
    }
}

impl Eq for UnityInstallationId {}

impl PartialEqSpecImpl for UnityInstallationId {
    open spec fn obeys_eq_spec() -> bool {
        true
    }

    open spec fn eq_spec(&self, other: &Self) -> bool {
        self@ == other@
    }
}

impl View for UnityInstallationId {
    type V = Seq<u8>;

    closed spec fn view(&self) -> Seq<u8> {
        self.0@
    }
}

impl UnityInstallationId {
    /// Creates a new random identifier.
    pub fn new() -> (r: Self)
        ensures
            r@.len() == 16,
            r@[6] & 0xf0u8 == 0x40u8,
            r@[8] & 0xc0u8 == 0x80u8,
    {
        UnityInstallationId(uuid_new_v4())
    }

    /// Parses any UUID text accepted by the `uuid` crate.
    pub fn parse(value: &str) -> (r: Result<Self, DomainValueError>)
        ensures
            r is Ok <==> uuid_parse(value@) is Some,
            r matches Ok(id) ==> id@ == uuid_parse(value@)->0,
            r matches Err(e) ==> e == DomainValueError::InvalidUnityInstallationId,
    {
        match uuid_parse_str(value) {
            Some(bytes) => Ok(UnityInstallationId(bytes)),
            None => Err(DomainValueError::InvalidUnityInstallationId),
        }
    }

    /// Returns the sixteen UUID bytes.
    pub fn as_uuid(self) -> (r: [u8; 16])
        ensures
            r@ == self@,
    {
        self.0
    }

    /// The lowercase hyphenated text form.
    pub fn to_string(&self) -> (r: String)
        ensures
            r@ == spec_uuid_hyphenated(self@),
    {
        uuid_to_string(self.0)
    }
}

/// Opaque identifier for one accepted Unity launch attempt.
#[derive(Clone, Copy, Debug, Hash)]
pub struct UnityLaunchId([u8; 16]);

impl PartialEq for UnityLaunchId {
    fn eq(&self, other: &Self) -> (r: bool) {
        bytes_eq(self.0.as_slice(), other.0.as_slice())
    }
}

impl Eq for UnityLaunchId {}

impl PartialEqSpecImpl for UnityLaunchId {
    open spec fn obeys_eq_spec() -> bool {
        true
    }

    open spec fn eq_spec(&self, other: &Self) -> bool {
        self@ == other@
    }
}

impl View for UnityLaunchId {
    type V = Seq<u8>;

    closed spec fn view(&self) -> Seq<u8> {
        self.0@
    }
}

impl UnityLaunchId {
    /// Creates a new random identifier.
    pub fn new() -> (r: Self)
        ensures
            r@.len() == 16,
            r@[6] & 0xf0u8 == 0x40u8,
            r@[8] & 0xc0u8 == 0x80u8,
    {
        UnityLaunchId(uuid_new_v4())
    }

    /// Parses any UUID text accepted by the `uuid` crate.
    pub fn parse(value: &str) -> (r: Result<Self, DomainValueError>)
        ensures
            r is Ok <==> uuid_parse(value@) is Some,
            r matches Ok(id) ==> id@ == uuid_parse(value@)->0,
            r matches Err(e) ==> e == DomainValueError::InvalidUnityLaunchId,
    {
        match uuid_parse_str(value) {
            Some(bytes) => Ok(UnityLaunchId(bytes)),
            None => Err(DomainValueError::InvalidUnityLaunchId),
        }
    }

    /// Returns the sixteen UUID bytes.
    pub fn as_uuid(self) -> (r: [u8; 16])
        ensures
            r@ == self@,
    {
        self.0
    }

    /// The lowercase hyphenated text form.
    pub fn to_string(&self) -> (r: String)
        ensures
            r@ == spec_uuid_hyphenated(self@),
    {
        uuid_to_string(self.0)
    }
}

/// Stable identifier for a builtin or user Template.
#[derive(Clone, Copy, Debug, Hash)]
pub struct TemplateId([u8; 16]);

impl PartialEq for TemplateId {
    fn eq(&self, other: &Self) -> (r: bool) {
        bytes_eq(self.0.as_slice(), other.0.as_slice())
    }
}

impl Eq for TemplateId {}

impl PartialEqSpecImpl for TemplateId {
    open spec fn obeys_eq_spec() -> bool {
        true
    }

    open spec fn eq_spec(&self, other: &Self) -> bool {
        self@ == other@
    }
}

impl View for TemplateId {
    type V = Seq<u8>;

    closed spec fn view(&self) -> Seq<u8> {
        self.0@
    }
}

impl TemplateId {
    /// Creates a new random identifier.
    pub fn new() -> (r: Self)
        ensures
            r@.len() == 16,
            r@[6] & 0xf0u8 == 0x40u8,
            r@[8] & 0xc0u8 == 0x80u8,
    {
        TemplateId(uuid_new_v4())
    }

    /// Parses the canonical lowercase hyphenated UUID text only.
    pub fn parse(value: &str) -> (r: Result<Self, DomainValueError>)
        ensures
            r is Ok <==> (uuid_parse(value@) is Some && spec_uuid_hyphenated(uuid_parse(value@)->0)
                == value@),
            r matches Ok(id) ==> id@ == uuid_parse(value@)->0,
            r matches Err(e) ==> e == DomainValueError::InvalidTemplateId,
    {
        match uuid_parse_str(value) {
            Some(bytes) => {
                let text = uuid_to_string(bytes);
                if str_eq(text.as_str(), value) {
                    Ok(TemplateId(bytes))
                } else {
                    Err(DomainValueError::InvalidTemplateId)
                }
            },
            None => Err(DomainValueError::InvalidTemplateId),
        }
    }

    /// Returns the sixteen UUID bytes.
    pub fn as_uuid(self) -> (r: [u8; 16])
        ensures
            r@ == self@,
    {
        self.0
    }

    /// The lowercase hyphenated text form.
    pub fn to_string(&self) -> (r: String)
        ensures
            r@ == spec_uuid_hyphenated(self@),
    {
        uuid_to_string(self.0)
    }
}

/// Stable identifier for one managed native backup archive.
#[derive(Clone, Copy, Debug, Hash)]
pub struct BackupId([u8; 16]);

impl PartialEq for BackupId {
    fn eq(&self, other: &Self) -> (r: bool) {
        bytes_eq(self.0.as_slice(), other.0.as_slice())
    }
}

impl Eq for BackupId {}

impl PartialEqSpecImpl for BackupId {
    open spec fn obeys_eq_spec() -> bool {
        true
    }

    open spec fn eq_spec(&self, other: &Self) -> bool {
        self@ == other@
    }
}

impl View for BackupId {
    type V = Seq<u8>;

    closed spec fn view(&self) -> Seq<u8> {
        self.0@
    }
}

impl BackupId {
    /// Creates a new random identifier.
    pub fn new() -> (r: Self)
        ensures
            r@.len() == 16,
            r@[6] & 0xf0u8 == 0x40u8,
            r@[8] & 0xc0u8 == 0x80u8,
    {
        BackupId(uuid_new_v4())
    }

    /// Parses the canonical lowercase hyphenated UUID text only.
    pub fn parse(value: &str) -> (r: Result<Self, DomainValueError>)
        ensures
            r is Ok <==> (uuid_parse(value@) is Some && spec_uuid_hyphenated(uuid_parse(value@)->0)
                == value@),
            r matches Ok(id) ==> id@ == uuid_parse(value@)->0,
            r matches Err(e) ==> e == DomainValueError::InvalidBackupId,
    {
        match uuid_parse_str(value) {
            Some(bytes) => {
                let text = uuid_to_string(bytes);
                if str_eq(text.as_str(), value) {
                    Ok(BackupId(bytes))
                } else {
                    Err(DomainValueError::InvalidBackupId)
                }
            },
            None => Err(DomainValueError::InvalidBackupId),
        }
    }

    /// Returns the sixteen UUID bytes.
    pub fn as_uuid(self) -> (r: [u8; 16])
        ensures
            r@ == self@,
    {
        self.0
    }

    /// The lowercase hyphenated text form.
    pub fn to_string(&self) -> (r: String)
        ensures
            r@ == spec_uuid_hyphenated(self@),
    {
        uuid_to_string(self.0)
    }
}

/// Stable identifier for an immutable transaction plan.
#[derive(Clone, Copy, Debug, Hash)]
pub struct PlanId([u8; 16]);

impl PartialEq for PlanId {
    fn eq(&self, other: &Self) -> (r: bool) {
        bytes_eq(self.0.as_slice(), other.0.as_slice())
    }
}

impl Eq for PlanId {}

impl PartialEqSpecImpl for PlanId {
    open spec fn obeys_eq_spec() -> bool {
        true
    }

    open spec fn eq_spec(&self, other: &Self) -> bool {
        self@ == other@
    }
}

impl View for PlanId {
    type V = Seq<u8>;

    closed spec fn view(&self) -> Seq<u8> {
        self.0@
    }
}

impl PlanId {
    /// Creates a new random identifier.
    pub fn new() -> (r: Self)
        ensures
            r@.len() == 16,
            r@[6] & 0xf0u8 == 0x40u8,
            r@[8] & 0xc0u8 == 0x80u8,
    {
        PlanId(uuid_new_v4())
    }

    /// Parses any UUID text accepted by the `uuid` crate.
    pub fn parse(value: &str) -> (r: Result<Self, DomainValueError>)
        ensures
            r is Ok <==> uuid_parse(value@) is Some,
            r matches Ok(id) ==> id@ == uuid_parse(value@)->0,
            r matches Err(e) ==> e == DomainValueError::InvalidPlanId,
    {
        match uuid_parse_str(value) {
            Some(bytes) => Ok(PlanId(bytes)),
            None => Err(DomainValueError::InvalidPlanId),
        }
    }

    /// Returns the sixteen UUID bytes.
    pub fn as_uuid(self) -> (r: [u8; 16])
        ensures
            r@ == self@,
    {
        self.0
    }

    /// The lowercase hyphenated text form.
    pub fn to_string(&self) -> (r: String)
        ensures
            r@ == spec_uuid_hyphenated(self@),
    {
        uuid_to_string(self.0)
    }
}

/// Stable identifier for a long-running operation.
#[derive(Clone, Copy, Debug, Hash)]
pub struct OperationId([u8; 16]);

impl PartialEq for OperationId {
    fn eq(&self, other: &Self) -> (r: bool) {
        bytes_eq(self.0.as_slice(), other.0.as_slice())
    }
}

impl Eq for OperationId {}

impl PartialEqSpecImpl for OperationId {
    open spec fn obeys_eq_spec() -> bool {
        true
    }

    open spec fn eq_spec(&self, other: &Self) -> bool {
        self@ == other@
    }
}

impl View for OperationId {
    type V = Seq<u8>;

    closed spec fn view(&self) -> Seq<u8> {
        self.0@
    }
}

impl OperationId {
    /// Creates a new random identifier.
    pub fn new() -> (r: Self)
        ensures
            r@.len() == 16,
            r@[6] & 0xf0u8 == 0x40u8,
            r@[8] & 0xc0u8 == 0x80u8,
    {
        OperationId(uuid_new_v4())
    }

    /// Parses any UUID text accepted by the `uuid` crate.
    pub fn parse(value: &str) -> (r: Result<Self, DomainValueError>)
        ensures
            r is Ok <==> uuid_parse(value@) is Some,
            r matches Ok(id) ==> id@ == uuid_parse(value@)->0,
            r matches Err(e) ==> e == DomainValueError::InvalidOperationId,
    {
        match uuid_parse_str(value) {
            Some(bytes) => Ok(OperationId(bytes)),
            None => Err(DomainValueError::InvalidOperationId),
        }
    }

    /// Constructs an identifier from already validated UUID bytes.
    pub fn from_uuid(value: [u8; 16]) -> (r: Self)
        ensures
            r@ == value@,
    {
        OperationId(value)
    }

    /// Returns the sixteen UUID bytes.
    pub fn as_uuid(self) -> (r: [u8; 16])
        ensures
            r@ == self@,
    {
        self.0
    }

    /// The lowercase hyphenated text form.
    pub fn to_string(&self) -> (r: String)
        ensures
            r@ == spec_uuid_hyphenated(self@),
    {
        uuid_to_string(self.0)
    }
}

/// Stable identifier for one enrolled local user package.
#[derive(Clone, Copy, Debug, Hash)]
pub struct UserPackageId([u8; 16]);

impl PartialEq for UserPackageId {
    fn eq(&self, other: &Self) -> (r: bool) {
        bytes_eq(self.0.as_slice(), other.0.as_slice())
    }
}

impl Eq for UserPackageId {}

impl PartialEqSpecImpl for UserPackageId {
    open spec fn obeys_eq_spec() -> bool {
        true
    }

    open spec fn eq_spec(&self, other: &Self) -> bool {
        self@ == other@
    }
}

impl View for UserPackageId {
    type V = Seq<u8>;

    closed spec fn view(&self) -> Seq<u8> {
        self.0@
    }
}

impl UserPackageId {
    /// Creates a new random identifier.
    pub fn new() -> (r: Self)
        ensures
            r@.len() == 16,
            r@[6] & 0xf0u8 == 0x40u8,
            r@[8] & 0xc0u8 == 0x80u8,
    {
        UserPackageId(uuid_new_v4())
    }

    /// Parses the canonical lowercase hyphenated UUID text only.
    pub fn parse(value: &str) -> (r: Result<Self, DomainValueError>)
        ensures
            r is Ok <==> (uuid_parse(value@) is Some && spec_uuid_hyphenated(uuid_parse(value@)->0)
                == value@),
            r matches Ok(id) ==> id@ == uuid_parse(value@)->0,
            r matches Err(e) ==> e == DomainValueError::InvalidUserPackageId,
    {
        match uuid_parse_str(value) {
            Some(bytes) => {
                let text = uuid_to_string(bytes);
                if str_eq(text.as_str(), value) {
                    Ok(UserPackageId(bytes))
                } else {
                    Err(DomainValueError::InvalidUserPackageId)
                }
            },
            None => Err(DomainValueError::InvalidUserPackageId),
        }
    }

    /// Returns the sixteen UUID bytes.
    pub fn as_uuid(self) -> (r: [u8; 16])
        ensures
            r@ == self@,
    {
        self.0
    }

    /// The lowercase hyphenated text form.
    pub fn to_string(&self) -> (r: String)
        ensures
            r@ == spec_uuid_hyphenated(self@),
    {
        uuid_to_string(self.0)
    }
}

} // verus!
