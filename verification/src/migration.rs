//! Project Unity migration: version authority, plan records, the durable
//! phase sequence and the decisions of the migration worker.

use vstd::prelude::*;
use vstd::string::StringSliceAdditionalSpecFns;

use crate::access::AccessContext;
use crate::domain::{IdempotencyKey, Permission, PrincipalId};
use crate::ids::{OperationId, PlanId};
use crate::registry::{ProjectObservation, ProjectRecord, ProjectType};
use crate::text::is_ascii_digit;
use crate::unity::{UnityInstallationRecord, UnityWriterState, UnityWriterStateKind};

verus! {

/// How long a migration plan stays valid.
pub const UNITY_MIGRATION_PLAN_EXPIRY_MS: u64 = 900_000;

/// How a migration moves between Unity versions.
#[derive(Clone, Copy, Debug, PartialEq, Eq, Structural)]
pub enum UnityMigrationClassificationKind {
    PatchOrMinorUpgrade,
    MajorUpgrade,
    PatchOrMinorDowngrade,
    MajorDowngrade,
    ChinaVariantChange,
}

/// The stable name of each `UnityMigrationClassificationKind`.
pub open spec fn classification_name(value: UnityMigrationClassificationKind) -> Seq<char> {
    match value {
        UnityMigrationClassificationKind::PatchOrMinorUpgrade => "patch_or_minor_upgrade"@,
        UnityMigrationClassificationKind::MajorUpgrade => "major_upgrade"@,
        UnityMigrationClassificationKind::PatchOrMinorDowngrade => "patch_or_minor_downgrade"@,
        UnityMigrationClassificationKind::MajorDowngrade => "major_downgrade"@,
        UnityMigrationClassificationKind::ChinaVariantChange => "china_variant_change"@,
    }
}

impl UnityMigrationClassificationKind {
    /// Stable transport-neutral name.
    pub fn as_str(self) -> (r: &'static str)
        ensures
            r@ == classification_name(self),
    {
        match self {
            UnityMigrationClassificationKind::PatchOrMinorUpgrade => "patch_or_minor_upgrade",
            UnityMigrationClassificationKind::MajorUpgrade => "major_upgrade",
            UnityMigrationClassificationKind::PatchOrMinorDowngrade => "patch_or_minor_downgrade",
            UnityMigrationClassificationKind::MajorDowngrade => "major_downgrade",
            UnityMigrationClassificationKind::ChinaVariantChange => "china_variant_change",
        }
    }
}

#[derive(Clone, Debug, PartialEq, Eq)]
pub struct UnityMigrationPlanDraft {
    pub plan_id: PlanId,
    pub project: ProjectRecord,
    pub source_unity_version: String,
    pub source_revision_metadata: Option<String>,
    pub project_root_identity: Vec<u8>,
    pub project_version_marker_sha256: [u8; 32],
    pub target_unity_version: String,
    pub target_revision_metadata: Option<String>,
    pub target_installation: UnityInstallationRecord,
    pub writer_evidence: UnityWriterState,
    pub classification: UnityMigrationClassificationKind,
    pub preparation_profile: Option<String>,
    pub plan_fingerprint: String,
    pub request_fingerprint: String,
    pub plan_idempotency_key: IdempotencyKey,
    pub created_at_ms: u64,
    pub expires_at_ms: u64,
}

#[derive(Clone, Debug, PartialEq, Eq)]
pub struct UnityMigrationPlanRecord {
    pub draft: UnityMigrationPlanDraft,
    pub owner: PrincipalId,
}

#[derive(Clone, Debug, PartialEq, Eq)]
pub struct UnityMigrationPlanAuthority {
    pub source_unity_version: String,
    pub target_unity_version: String,
    pub classification: UnityMigrationClassificationKind,
    pub preparation_profile: Option<String>,
}

#[derive(Clone, Debug, PartialEq, Eq)]
pub enum UnityMigrationPlanOutcome {
    NoChange {
        current_version: String,
    },
    Planned {
        plan: Box<UnityMigrationPlanRecord>,
        replayed: bool,
    },
}

#[derive(Clone, Debug, PartialEq, Eq)]
pub struct UnityMigrationApplyOutcome {
    pub operation_id: OperationId,
    pub replayed: bool,
    pub schedule: bool,
}

/// Durable checkpoint of a migration Operation.
#[derive(Clone, Copy, Debug, PartialEq, Eq, Structural)]
pub enum UnityMigrationPhase {
    Accepted,
    PreflightComplete,
    PreparationIntent,
    PreparationComplete,
    LaunchIntent,
    UnityStarted,
    UnityExited,
    ProjectReobserved,
    StateCommitted,
    CleanupComplete,
    RecoveryRequired,
}

/// The stable name of each `UnityMigrationPhase`.
pub open spec fn migration_phase_name(value: UnityMigrationPhase) -> Seq<char> {
    match value {
        UnityMigrationPhase::Accepted => "accepted"@,
        UnityMigrationPhase::PreflightComplete => "preflight_complete"@,
        UnityMigrationPhase::PreparationIntent => "preparation_intent"@,
        UnityMigrationPhase::PreparationComplete => "preparation_complete"@,
        UnityMigrationPhase::LaunchIntent => "launch_intent"@,
        UnityMigrationPhase::UnityStarted => "unity_started"@,
        UnityMigrationPhase::UnityExited => "unity_exited"@,
        UnityMigrationPhase::ProjectReobserved => "project_reobserved"@,
        UnityMigrationPhase::StateCommitted => "state_committed"@,
        UnityMigrationPhase::CleanupComplete => "cleanup_complete"@,
        UnityMigrationPhase::RecoveryRequired => "recovery_required"@,
    }
}

impl UnityMigrationPhase {
    /// Stable transport-neutral name.
    pub fn as_str(self) -> (r: &'static str)
        ensures
            r@ == migration_phase_name(self),
    {
        match self {
            UnityMigrationPhase::Accepted => "accepted",
            UnityMigrationPhase::PreflightComplete => "preflight_complete",
            UnityMigrationPhase::PreparationIntent => "preparation_intent",
            UnityMigrationPhase::PreparationComplete => "preparation_complete",
            UnityMigrationPhase::LaunchIntent => "launch_intent",
            UnityMigrationPhase::UnityStarted => "unity_started",
            UnityMigrationPhase::UnityExited => "unity_exited",
            UnityMigrationPhase::ProjectReobserved => "project_reobserved",
            UnityMigrationPhase::StateCommitted => "state_committed",
            UnityMigrationPhase::CleanupComplete => "cleanup_complete",
            UnityMigrationPhase::RecoveryRequired => "recovery_required",
        }
    }
}

#[derive(Clone, Debug, Default, PartialEq, Eq)]
pub struct UnityMigrationEvidence {
    pub preparation_kind: String,
    pub preparation_complete: bool,
    pub preparation_operation_id: Option<OperationId>,
    pub preparation_artifact_sha256: Option<[u8; 32]>,
    pub spawn_accepted: bool,
    pub exit_observation: Option<String>,
    pub reobserved_version: Option<String>,
    pub reobserved_root_identity: Option<Vec<u8>>,
    pub reobserved_marker_sha256: Option<[u8; 32]>,
    pub writer_inactive_checked_at_ms: Option<u64>,
    pub reobserved_at_ms: Option<u64>,
    pub safe_terminal_failure: bool,
    pub safe_evidence: Vec<String>,
}

#[derive(Clone, Debug, PartialEq, Eq)]
pub struct UnityMigrationReobservation {
    pub observation: ProjectObservation,
    pub evidence: UnityMigrationEvidence,
}

#[derive(Clone, Debug, PartialEq, Eq)]
pub enum UnityMigrationRecoveryDisposition {
    Pending(UnityMigrationEvidence),
    ProjectReady(UnityMigrationReobservation),
    SafelyUnchanged(UnityMigrationEvidence),
    RecoveryRequired(UnityMigrationEvidence),
}

#[derive(Clone, Debug, PartialEq, Eq)]
pub struct UnityMigrationOperationRecord {
    pub plan: UnityMigrationPlanRecord,
    pub phase: UnityMigrationPhase,
    pub evidence: UnityMigrationEvidence,
}

#[derive(Clone, Copy, Debug, PartialEq, Eq, Structural)]
pub enum M7UnityMigrationErrorCode {
    InvalidInput,
    PermissionDenied,
    ProjectNotRegistered,
    InstallationNotFound,
    RevisionConflict,
    IdempotencyConflict,
    ProjectRunning,
    PlanNotFound,
    PlanStale,
    Unsupported,
    SourceChanged,
    RecoveryRequired,
    StoreUnavailable,
    Internal,
}

/// Safe migration error.
#[derive(Clone, Copy, Debug, PartialEq, Eq, Structural)]
pub struct M7UnityMigrationError(M7UnityMigrationErrorCode);

impl M7UnityMigrationError {
    pub closed spec fn spec_code(self) -> M7UnityMigrationErrorCode {
        self.0
    }

    pub fn new(code: M7UnityMigrationErrorCode) -> (r: Self)
        ensures
            r.spec_code() == code,
            r == migration_error(code),
    {
        M7UnityMigrationError(code)
    }

    pub fn code(self) -> (r: M7UnityMigrationErrorCode)
        ensures
            r == self.spec_code(),
    {
        self.0
    }
}

/// The migration error with a code.
pub closed spec fn migration_error(code: M7UnityMigrationErrorCode) -> M7UnityMigrationError {
    M7UnityMigrationError(code)
}

/// The error of a run that stops because the project needs recovery.
pub open spec fn recovery_required_error() -> M7UnityMigrationError {
    migration_error(M7UnityMigrationErrorCode::RecoveryRequired)
}

/// Makes the error of a run that stops because the project needs recovery.
pub fn recovery_required() -> (r: M7UnityMigrationError)
    ensures
        r == recovery_required_error(),
        r.spec_code() == M7UnityMigrationErrorCode::RecoveryRequired,
{
    M7UnityMigrationError(M7UnityMigrationErrorCode::RecoveryRequired)
}

/// The public error name of each `M7UnityMigrationErrorCode`.
pub open spec fn migration_error_name(code: M7UnityMigrationErrorCode) -> Seq<char> {
    match code {
        M7UnityMigrationErrorCode::InvalidInput => "invalid_request"@,
        M7UnityMigrationErrorCode::PermissionDenied => "permission_denied"@,
        M7UnityMigrationErrorCode::ProjectNotRegistered => "project_not_registered"@,
        M7UnityMigrationErrorCode::InstallationNotFound => "unity_installation_not_found"@,
        M7UnityMigrationErrorCode::RevisionConflict => "revision_conflict"@,
        M7UnityMigrationErrorCode::IdempotencyConflict => "idempotency_conflict"@,
        M7UnityMigrationErrorCode::ProjectRunning => "unity_project_running"@,
        M7UnityMigrationErrorCode::PlanNotFound => "project_unity_migration_plan_not_found"@,
        M7UnityMigrationErrorCode::PlanStale => "project_unity_migration_plan_stale"@,
        M7UnityMigrationErrorCode::Unsupported => "project_unity_migration_unsupported"@,
        M7UnityMigrationErrorCode::SourceChanged => "project_unity_migration_source_changed"@,
        M7UnityMigrationErrorCode::RecoveryRequired => "project_unity_migration_recovery_required"@,
        M7UnityMigrationErrorCode::StoreUnavailable => "store_unavailable"@,
        M7UnityMigrationErrorCode::Internal => "internal_error"@,
    }
}

/// The public error name of a migration failure code.
pub fn error_code(code: M7UnityMigrationErrorCode) -> (r: &'static str)
    ensures
        r@ == migration_error_name(code),
{
    match code {
        M7UnityMigrationErrorCode::InvalidInput => "invalid_request",
        M7UnityMigrationErrorCode::PermissionDenied => "permission_denied",
        M7UnityMigrationErrorCode::ProjectNotRegistered => "project_not_registered",
        M7UnityMigrationErrorCode::InstallationNotFound => "unity_installation_not_found",
        M7UnityMigrationErrorCode::RevisionConflict => "revision_conflict",
        M7UnityMigrationErrorCode::IdempotencyConflict => "idempotency_conflict",
        M7UnityMigrationErrorCode::ProjectRunning => "unity_project_running",
        M7UnityMigrationErrorCode::PlanNotFound => "project_unity_migration_plan_not_found",
        M7UnityMigrationErrorCode::PlanStale => "project_unity_migration_plan_stale",
        M7UnityMigrationErrorCode::Unsupported => "project_unity_migration_unsupported",
        M7UnityMigrationErrorCode::SourceChanged => "project_unity_migration_source_changed",
        M7UnityMigrationErrorCode::RecoveryRequired => "project_unity_migration_recovery_required",
        M7UnityMigrationErrorCode::StoreUnavailable => "store_unavailable",
        M7UnityMigrationErrorCode::Internal => "internal_error",
    }
}


impl UnityMigrationClassificationKind {
    /// Only upgrades and China-variant changes may be applied.
    pub fn supported_for_apply(self) -> (r: bool)
        ensures
            r == (self == UnityMigrationClassificationKind::PatchOrMinorUpgrade || self
                == UnityMigrationClassificationKind::MajorUpgrade || self
                == UnityMigrationClassificationKind::ChinaVariantChange),
    {
        match self {
            UnityMigrationClassificationKind::PatchOrMinorUpgrade
            | UnityMigrationClassificationKind::MajorUpgrade
            | UnityMigrationClassificationKind::ChinaVariantChange => true,
            _ => false,
        }
    }
}

/// A migration needs the project's Editor to be closed: any observed or
/// uncertain writer is `unity_project_running`.
pub fn require_safe_writer(state: UnityWriterStateKind) -> (r: Result<(), M7UnityMigrationError>)
    ensures
        r is Ok <==> state == UnityWriterStateKind::NotObserved,
        r matches Err(e) ==> e.spec_code() == M7UnityMigrationErrorCode::ProjectRunning && e == migration_error(
            M7UnityMigrationErrorCode::ProjectRunning,
        ),
{
    if state == UnityWriterStateKind::NotObserved {
        Ok(())
    } else {
        Err(M7UnityMigrationError::new(M7UnityMigrationErrorCode::ProjectRunning))
    }
}

/// Value of a run of decimal digits.
pub open spec fn digits_value(b: Seq<u8>) -> int
    decreases b.len(),
{
    if b.len() == 0 {
        0
    } else {
        digits_value(b.drop_last()) * 10 + (b.last() - 48)
    }
}

/// Every byte is a decimal digit.
pub open spec fn all_digits(b: Seq<u8>) -> bool {
    forall|i: int| 0 <= i < b.len() ==> is_ascii_digit(#[trigger] b[i])
}

/// What parsing text as an unsigned 64-bit integer gives: an optional `+`,
/// then one or more decimal digits whose value fits.
pub open spec fn u64_text_value(b: Seq<u8>) -> Option<u64> {
    let d = if b.len() > 0 && b[0] == 0x2b { b.skip(1) } else { b };
    if d.len() > 0 && all_digits(d) && digits_value(d) <= u64::MAX {
        Some(digits_value(d) as u64)
    } else {
        None
    }
}

proof fn lemma_digits_value_grows(b: Seq<u8>, k: int)
    requires
        0 <= k <= b.len(),
        all_digits(b),
    ensures
        digits_value(b.take(k)) <= digits_value(b),
        digits_value(b) >= 0,
    decreases b.len(),
{
    if b.len() > 0 {
        if k == b.len() {
            lemma_digits_value_grows(b.drop_last(), 0);
            assert(b.take(k) =~= b);
        } else {
            lemma_digits_value_grows(b.drop_last(), k);
            assert(b.drop_last().take(k) =~= b.take(k));
        }
    }
}

/// Parses bytes `start..end` as an unsigned 64-bit integer, as `u64::from_str` does.
pub fn parse_u64(b: &[u8], start: usize, end: usize) -> (r: Option<u64>)
    requires
        start <= end <= b@.len(),
    ensures
        r == u64_text_value(b@.subrange(start as int, end as int)),
{
    let ghost t = b@.subrange(start as int, end as int);
    let mut i = start;
    if i < end && b[i] == 0x2b {
        i = i + 1;
    }
    let ghost d = b@.subrange(i as int, end as int);
    proof {
        assert(d =~= (if t.len() > 0 && t[0] == 0x2b { t.skip(1) } else { t }));
    }
    if i == end {
        return None;
    }
    let first = i;
    let mut value: u64 = 0;
    while i < end
        invariant
            start <= first <= i <= end <= b@.len(),
            t == b@.subrange(start as int, end as int),
            d == (if t.len() > 0 && t[0] == 0x2b { t.skip(1) } else { t }),
            d == b@.subrange(first as int, end as int),
            all_digits(b@.subrange(first as int, i as int)),
            value == digits_value(b@.subrange(first as int, i as int)),
        decreases end - i,
    {
        let c = b[i];
        proof {
            assert(b@.subrange(first as int, i + 1).drop_last() =~= b@.subrange(first as int, i as int));
            assert(d.take(i - first) =~= b@.subrange(first as int, i as int));
            assert(d.take(i + 1 - first) =~= b@.subrange(first as int, i + 1));
        }
        if !(0x30 <= c && c <= 0x39) {
            assert(!is_ascii_digit(d[i - first]));
            return None;
        }
        proof {
            assert(digits_value(b@.subrange(first as int, i + 1)) == value * 10 + (c - 48));
        }
        let next = match value.checked_mul(10) {
            Some(v) => match v.checked_add((c - 0x30) as u64) {
                Some(w) => w,
                None => {
                    proof {
                        if all_digits(d) {
                            lemma_digits_value_grows(d, i + 1 - first);
                        }
                    }
                    return None;
                },
            },
            None => {
                proof {
                    if all_digits(d) {
                        lemma_digits_value_grows(d, i + 1 - first);
                        lemma_digits_value_grows(d, i - first);
                    }
                }
                return None;
            },
        };
        value = next;
        i = i + 1;
    }
    assert(b@.subrange(first as int, i as int) =~= d);
    Some(value)
}

/// The parts of a canonical Unity version that a migration compares.
#[derive(Clone, Copy, Debug, PartialEq, Eq, Structural)]
pub struct ParsedUnityVersion {
    pub major: u64,
    pub minor: u64,
    pub patch: u64,
    pub channel: u8,
    pub increment: u64,
    pub china_increment: Option<u64>,
}

/// A release channel byte as the migration parser finds it.
pub open spec fn is_channel_byte(b: u8) -> bool {
    b == 0x61 || b == 0x62 || b == 0x66 || b == 0x70 || b == 0x78
}

/// First position at or after `from` holding `byte`, or the length.
pub open spec fn index_of_byte(b: Seq<u8>, byte: u8, from: int) -> int
    decreases b.len() - from,
{
    if from < 0 || from >= b.len() {
        b.len() as int
    } else if b[from] == byte {
        from
    } else {
        index_of_byte(b, byte, from + 1)
    }
}

/// First position holding a channel byte, or the length.
pub open spec fn first_channel(b: Seq<u8>, from: int) -> int
    decreases b.len() - from,
{
    if from < 0 || from >= b.len() {
        b.len() as int
    } else if is_channel_byte(b[from]) {
        from
    } else {
        first_channel(b, from + 1)
    }
}

/// What the migration parser gives for a version text: the release parts
/// before the first channel byte split at exactly two dots, the increment
/// after it, and an optional China increment after a `c` (which is dropped
/// when it does not parse).
pub open spec fn parsed_version_spec(b: Seq<u8>) -> Option<ParsedUnityVersion> {
    let ci = first_channel(b, 0);
    let d1 = index_of_byte(b, 0x2e, 0);
    let d2 = index_of_byte(b, 0x2e, d1 + 1);
    let d3 = index_of_byte(b, 0x2e, d2 + 1);
    let s = ci + 1;
    let c = index_of_byte(b, 0x63, s);
    let major = u64_text_value(b.subrange(0, d1));
    let minor = u64_text_value(b.subrange(d1 + 1, d2));
    let patch = u64_text_value(b.subrange(d2 + 1, ci));
    let increment = if c < b.len() { u64_text_value(b.subrange(s, c)) } else { u64_text_value(b.subrange(s, b.len() as int)) };
    let china = if c < b.len() { u64_text_value(b.subrange(c + 1, b.len() as int)) } else { None };
    if ci < b.len() && d1 < ci && d2 < ci && d3 >= ci && major is Some && minor is Some && patch is Some
        && increment is Some {
        Some(ParsedUnityVersion {
            major: major->0,
            minor: minor->0,
            patch: patch->0,
            channel: b[ci],
            increment: increment->0,
            china_increment: china,
        })
    } else {
        None
    }
}

fn find_byte(b: &[u8], byte: u8, from: usize) -> (r: usize)
    requires
        from <= b@.len(),
    ensures
        r as int == index_of_byte(b@, byte, from as int),
        from <= r <= b@.len(),
{
    let mut i = from;
    while i < b.len() && b[i] != byte
        invariant
            from <= i <= b@.len(),
            index_of_byte(b@, byte, i as int) == index_of_byte(b@, byte, from as int),
        decreases b@.len() - i,
    {
        i = i + 1;
    }
    i
}

proof fn lemma_first_channel(b: Seq<u8>, from: int)
    requires
        0 <= from,
    ensures
        first_channel(b, from) < b.len() ==> is_channel_byte(b[first_channel(b, from)]),
        first_channel(b, from) <= b.len(),
    decreases b.len() - from,
{
    if from < b.len() && !is_channel_byte(b[from]) {
        lemma_first_channel(b, from + 1);
    }
}

fn find_channel(b: &[u8]) -> (r: usize)
    ensures
        r as int == first_channel(b@, 0),
{
    let mut i: usize = 0;
    while i < b.len() && !(b[i] == 0x61 || b[i] == 0x62 || b[i] == 0x66 || b[i] == 0x70 || b[i] == 0x78)
        invariant
            i <= b@.len(),
            first_channel(b@, i as int) == first_channel(b@, 0),
        decreases b@.len() - i,
    {
        i = i + 1;
    }
    i
}

/// Parses a Unity version for migration; any text the parser rejects is `invalid_request`.
pub fn parse_canonical_unity_version(value: &str) -> (r: Result<ParsedUnityVersion, M7UnityMigrationError>)
    ensures
        match r {
            Ok(p) => parsed_version_spec(value.spec_bytes()) == Some(p),
            Err(e) => parsed_version_spec(value.spec_bytes()) is None && e.spec_code()
                == M7UnityMigrationErrorCode::InvalidInput,
        },
{
    let b = value.as_bytes();
    let n = b.len();
    let ci = find_channel(b);
    proof {
        lemma_first_channel(b@, 0);
    }
    if ci >= n {
        return Err(M7UnityMigrationError::new(M7UnityMigrationErrorCode::InvalidInput));
    }
    let d1 = find_byte(b, 0x2e, 0);
    if d1 >= ci {
        return Err(M7UnityMigrationError::new(M7UnityMigrationErrorCode::InvalidInput));
    }
    let d2 = find_byte(b, 0x2e, d1 + 1);
    if d2 >= ci {
        return Err(M7UnityMigrationError::new(M7UnityMigrationErrorCode::InvalidInput));
    }
    let d3 = find_byte(b, 0x2e, d2 + 1);
    if d3 < ci {
        return Err(M7UnityMigrationError::new(M7UnityMigrationErrorCode::InvalidInput));
    }
    let s = ci + 1;
    let c = find_byte(b, 0x63, s);
    let (increment, china) = if c < n {
        (parse_u64(b, s, c), parse_u64(b, c + 1, n))
    } else {
        (parse_u64(b, s, n), None)
    };
    let major = parse_u64(b, 0, d1);
    let minor = parse_u64(b, d1 + 1, d2);
    let patch = parse_u64(b, d2 + 1, ci);
    match (major, minor, patch, increment) {
        (Some(major), Some(minor), Some(patch), Some(increment)) => Ok(ParsedUnityVersion {
            major,
            minor,
            patch,
            channel: b[ci],
            increment,
            china_increment: china,
        }),
        _ => Err(M7UnityMigrationError::new(M7UnityMigrationErrorCode::InvalidInput)),
    }
}

/// Rank of a release channel: alpha, beta, final, patch.
pub open spec fn channel_rank(channel: u8) -> Option<u8> {
    if channel == 0x61 {
        Some(0)
    } else if channel == 0x62 {
        Some(1)
    } else if channel == 0x66 {
        Some(2)
    } else if channel == 0x70 {
        Some(3)
    } else {
        None
    }
}

/// Ranks a release channel; any other channel is `project_unity_migration_unsupported`.
pub fn unity_channel_order(channel: u8) -> (r: Result<u8, M7UnityMigrationError>)
    ensures
        match r {
            Ok(k) => channel_rank(channel) == Some(k),
            Err(e) => channel_rank(channel) is None && e.spec_code() == M7UnityMigrationErrorCode::Unsupported,
        },
{
    if channel == 0x61 {
        Ok(0)
    } else if channel == 0x62 {
        Ok(1)
    } else if channel == 0x66 {
        Ok(2)
    } else if channel == 0x70 {
        Ok(3)
    } else {
        Err(M7UnityMigrationError::new(M7UnityMigrationErrorCode::Unsupported))
    }
}

/// Lexicographic order of (minor, patch, channel rank, increment).
pub open spec fn release_before(a: ParsedUnityVersion, b: ParsedUnityVersion) -> bool {
    let ra = channel_rank(a.channel)->0;
    let rb = channel_rank(b.channel)->0;
    ||| a.minor < b.minor
    ||| (a.minor == b.minor && a.patch < b.patch)
    ||| (a.minor == b.minor && a.patch == b.patch && ra < rb)
    ||| (a.minor == b.minor && a.patch == b.patch && ra == rb && a.increment < b.increment)
}

/// How a migration between two parsed versions is classified, or why it is refused.
pub open spec fn classify_migration(s: ParsedUnityVersion, t: ParsedUnityVersion) -> Result<UnityMigrationClassificationKind, M7UnityMigrationErrorCode> {
    let same_base = s.major == t.major && s.minor == t.minor && s.patch == t.patch && s.channel == t.channel
        && s.increment == t.increment;
    if s.channel == 0x78 || t.channel == 0x78 {
        Err(M7UnityMigrationErrorCode::Unsupported)
    } else if same_base && s.china_increment != t.china_increment {
        Ok(UnityMigrationClassificationKind::ChinaVariantChange)
    } else if s.china_increment != t.china_increment {
        Err(M7UnityMigrationErrorCode::Unsupported)
    } else if s.major != t.major {
        if s.major < t.major {
            Ok(UnityMigrationClassificationKind::MajorUpgrade)
        } else {
            Ok(UnityMigrationClassificationKind::MajorDowngrade)
        }
    } else if release_before(s, t) {
        Ok(UnityMigrationClassificationKind::PatchOrMinorUpgrade)
    } else {
        Ok(UnityMigrationClassificationKind::PatchOrMinorDowngrade)
    }
}

/// The classification of the same migration taken the other way.
pub open spec fn reversed_classification(kind: UnityMigrationClassificationKind) -> UnityMigrationClassificationKind {
    match kind {
        UnityMigrationClassificationKind::MajorUpgrade => UnityMigrationClassificationKind::MajorDowngrade,
        UnityMigrationClassificationKind::MajorDowngrade => UnityMigrationClassificationKind::MajorUpgrade,
        UnityMigrationClassificationKind::PatchOrMinorUpgrade => UnityMigrationClassificationKind::PatchOrMinorDowngrade,
        UnityMigrationClassificationKind::PatchOrMinorDowngrade => UnityMigrationClassificationKind::PatchOrMinorUpgrade,
        other => other,
    }
}

/// Between two different versions of one China variant (or both without
/// one) on the alpha, beta, final or patch channel, a migration is a major
/// upgrade or downgrade by the major numbers alone, and otherwise a patch or
/// minor upgrade exactly when the source comes first in (minor, patch,
/// channel rank, increment) order; the same migration taken the other way
/// gets the reversed classification.
pub proof fn migration_classification_follows_release_order(s: ParsedUnityVersion, t: ParsedUnityVersion)
    requires
        channel_rank(s.channel) is Some,
        channel_rank(t.channel) is Some,
        s.china_increment == t.china_increment,
        s != t,
    ensures
        classify_migration(s, t) == Ok::<UnityMigrationClassificationKind, M7UnityMigrationErrorCode>(
            if s.major < t.major {
                UnityMigrationClassificationKind::MajorUpgrade
            } else if s.major > t.major {
                UnityMigrationClassificationKind::MajorDowngrade
            } else if release_before(s, t) {
                UnityMigrationClassificationKind::PatchOrMinorUpgrade
            } else {
                UnityMigrationClassificationKind::PatchOrMinorDowngrade
            },
        ),
        classify_migration(t, s) == Ok::<UnityMigrationClassificationKind, M7UnityMigrationErrorCode>(
            reversed_classification(classify_migration(s, t)->Ok_0),
        ),
{
    if s.major == t.major && !release_before(s, t) && !release_before(t, s) {
        assert(s.channel == t.channel);
        assert(s == t);
    }
}

/// The same law over version texts, as `migration_authority` reads them:
/// for two texts the version parser accepts, on the alpha, beta, final or
/// patch channel, with the same China suffix (or none), that name different
/// versions, the classification `migration_authority` gives follows release
/// order and is reversed for the migration taken the other way.
pub proof fn migration_texts_classify_by_release_order(source: Seq<u8>, target: Seq<u8>)
    requires
        parsed_version_spec(source) is Some,
        parsed_version_spec(target) is Some,
        channel_rank(parsed_version_spec(source)->0.channel) is Some,
        channel_rank(parsed_version_spec(target)->0.channel) is Some,
        parsed_version_spec(source)->0.china_increment == parsed_version_spec(target)->0.china_increment,
        parsed_version_spec(source)->0 != parsed_version_spec(target)->0,
    ensures
        ({
            let s = parsed_version_spec(source)->0;
            let t = parsed_version_spec(target)->0;
            &&& classify_migration(s, t) == Ok::<UnityMigrationClassificationKind, M7UnityMigrationErrorCode>(
                if s.major < t.major {
                    UnityMigrationClassificationKind::MajorUpgrade
                } else if s.major > t.major {
                    UnityMigrationClassificationKind::MajorDowngrade
                } else if release_before(s, t) {
                    UnityMigrationClassificationKind::PatchOrMinorUpgrade
                } else {
                    UnityMigrationClassificationKind::PatchOrMinorDowngrade
                },
            )
            &&& classify_migration(t, s) == Ok::<UnityMigrationClassificationKind, M7UnityMigrationErrorCode>(
                reversed_classification(classify_migration(s, t)->Ok_0),
            )
        }),
{
    migration_classification_follows_release_order(parsed_version_spec(source)->0, parsed_version_spec(target)->0);
}

/// Project types that get the VRChat 2019-to-2022 preparation.
pub open spec fn vrchat_project(project_type: ProjectType) -> bool {
    project_type == ProjectType::Avatars || project_type == ProjectType::Worlds || project_type
        == ProjectType::LegacySdk2 || project_type == ProjectType::LegacyWorlds || project_type
        == ProjectType::LegacyAvatars
}

fn option_eq(a: Option<u64>, b: Option<u64>) -> (r: bool)
    ensures
        r == (a == b),
{
    match (a, b) {
        (Some(x), Some(y)) => x == y,
        (None, None) => true,
        _ => false,
    }
}

/// Decides what a migration between two Unity versions is and whether it
/// needs the VRChat preparation profile.
pub fn migration_authority(source: &str, target: &str, project_type: ProjectType) -> (r: Result<UnityMigrationPlanAuthority, M7UnityMigrationError>)
    ensures
        ({
            let ps = parsed_version_spec(source.spec_bytes());
            let pt = parsed_version_spec(target.spec_bytes());
            if ps is None || pt is None {
                r matches Err(e) && e.spec_code() == M7UnityMigrationErrorCode::InvalidInput
            } else {
                let s = ps->0;
                let t = pt->0;
                match classify_migration(s, t) {
                    Err(code) => r matches Err(e) && e.spec_code() == code,
                    Ok(kind) => r matches Ok(a) && a.classification == kind && a.source_unity_version@
                        == source@ && a.target_unity_version@ == target@ && (a.preparation_profile is Some
                        <==> (s.major == 2019 && t.major == 2022 && vrchat_project(project_type)))
                        && (a.preparation_profile matches Some(p) ==> p@ == "vrchat-2019-to-2022-v1"@),
                }
            }
        }),
{
    let s = parse_canonical_unity_version(source)?;
    let t = parse_canonical_unity_version(target)?;
    proof {
        lemma_first_channel(source.spec_bytes(), 0);
        lemma_first_channel(target.spec_bytes(), 0);
    }
    if s.channel == 0x78 || t.channel == 0x78 {
        return Err(M7UnityMigrationError::new(M7UnityMigrationErrorCode::Unsupported));
    }
    let same_base = s.major == t.major && s.minor == t.minor && s.patch == t.patch && s.channel == t.channel
        && s.increment == t.increment;
    let same_china = option_eq(s.china_increment, t.china_increment);
    let classification = if same_base && !same_china {
        UnityMigrationClassificationKind::ChinaVariantChange
    } else if !same_china {
        return Err(M7UnityMigrationError::new(M7UnityMigrationErrorCode::Unsupported));
    } else if s.major != t.major {
        if s.major < t.major {
            UnityMigrationClassificationKind::MajorUpgrade
        } else {
            UnityMigrationClassificationKind::MajorDowngrade
        }
    } else {
        let rs = unity_channel_order(s.channel)?;
        let rt = unity_channel_order(t.channel)?;
        let before = s.minor < t.minor || (s.minor == t.minor && s.patch < t.patch) || (s.minor == t.minor
            && s.patch == t.patch && rs < rt) || (s.minor == t.minor && s.patch == t.patch && rs == rt
            && s.increment < t.increment);
        if before {
            UnityMigrationClassificationKind::PatchOrMinorUpgrade
        } else {
            UnityMigrationClassificationKind::PatchOrMinorDowngrade
        }
    };
    let vrchat = match project_type {
        ProjectType::Avatars
        | ProjectType::Worlds
        | ProjectType::LegacySdk2
        | ProjectType::LegacyWorlds
        | ProjectType::LegacyAvatars => true,
        _ => false,
    };
    let preparation_profile = if s.major == 2019 && t.major == 2022 && vrchat {
        Some("vrchat-2019-to-2022-v1".to_owned())
    } else {
        None
    };
    Ok(UnityMigrationPlanAuthority {
        source_unity_version: source.to_owned(),
        target_unity_version: target.to_owned(),
        classification,
        preparation_profile,
    })
}


/// The work a migration worker does at a recorded phase.
#[derive(Clone, Copy, Debug, PartialEq, Eq, Structural)]
pub enum MigrationWork {
    /// The Operation needs recovery; the worker stops.
    Halt,
    /// Revalidate project, installation, writer and plan.
    Preflight,
    /// Materialize the preparation artifacts.
    MaterializePreparation,
    /// Apply the preparation to the project.
    ApplyPreparation,
    /// Record the launch intent and spawn the target Editor.
    Spawn,
    /// Wait for the spawned Editor to exit.
    Wait,
    /// Observe the project after the launch intent until it settles.
    ObserveAfterLaunch,
    /// Re-read the reobserved project and commit it.
    ResumeReobserved,
    /// Remove the preparation leftovers.
    Cleanup,
    /// Record success.
    FinishSuccess,
}

/// Position of a phase in the durable sequence.
pub open spec fn phase_rank(phase: UnityMigrationPhase) -> int {
    match phase {
        UnityMigrationPhase::Accepted => 0,
        UnityMigrationPhase::PreflightComplete => 1,
        UnityMigrationPhase::PreparationIntent => 2,
        UnityMigrationPhase::PreparationComplete => 3,
        UnityMigrationPhase::LaunchIntent => 4,
        UnityMigrationPhase::UnityStarted => 5,
        UnityMigrationPhase::UnityExited => 6,
        UnityMigrationPhase::ProjectReobserved => 7,
        UnityMigrationPhase::StateCommitted => 8,
        UnityMigrationPhase::CleanupComplete => 9,
        UnityMigrationPhase::RecoveryRequired => 10,
    }
}

/// The work that resumes a migration at each recorded phase.
pub open spec fn work_for_phase(phase: UnityMigrationPhase) -> MigrationWork {
    match phase {
        UnityMigrationPhase::Accepted => MigrationWork::Preflight,
        UnityMigrationPhase::PreflightComplete => MigrationWork::MaterializePreparation,
        UnityMigrationPhase::PreparationIntent => MigrationWork::ApplyPreparation,
        UnityMigrationPhase::PreparationComplete => MigrationWork::Spawn,
        UnityMigrationPhase::LaunchIntent => MigrationWork::ObserveAfterLaunch,
        UnityMigrationPhase::UnityStarted => MigrationWork::ObserveAfterLaunch,
        UnityMigrationPhase::UnityExited => MigrationWork::ObserveAfterLaunch,
        UnityMigrationPhase::ProjectReobserved => MigrationWork::ResumeReobserved,
        UnityMigrationPhase::StateCommitted => MigrationWork::Cleanup,
        UnityMigrationPhase::CleanupComplete => MigrationWork::FinishSuccess,
        UnityMigrationPhase::RecoveryRequired => MigrationWork::Halt,
    }
}

/// Chooses the work that resumes a migration at its recorded phase.
pub fn migration_next_work(phase: UnityMigrationPhase) -> (r: MigrationWork)
    ensures
        r == work_for_phase(phase),
{
    match phase {
        UnityMigrationPhase::Accepted => MigrationWork::Preflight,
        UnityMigrationPhase::PreflightComplete => MigrationWork::MaterializePreparation,
        UnityMigrationPhase::PreparationIntent => MigrationWork::ApplyPreparation,
        UnityMigrationPhase::PreparationComplete => MigrationWork::Spawn,
        UnityMigrationPhase::LaunchIntent
        | UnityMigrationPhase::UnityStarted
        | UnityMigrationPhase::UnityExited => MigrationWork::ObserveAfterLaunch,
        UnityMigrationPhase::ProjectReobserved => MigrationWork::ResumeReobserved,
        UnityMigrationPhase::StateCommitted => MigrationWork::Cleanup,
        UnityMigrationPhase::CleanupComplete => MigrationWork::FinishSuccess,
        UnityMigrationPhase::RecoveryRequired => MigrationWork::Halt,
    }
}

/// Whether a pending cancellation request ends the migration before the
/// work at this phase: before preflight, before preparation, and before the
/// launch when there is no preparation to undo.
pub open spec fn cancel_honoured(phase: UnityMigrationPhase, preparation_kind: Seq<char>) -> bool {
    ||| phase == UnityMigrationPhase::Accepted
    ||| phase == UnityMigrationPhase::PreflightComplete
    ||| (phase == UnityMigrationPhase::PreparationComplete && preparation_kind == "none"@)
}

/// Decides whether the worker checks for cancellation before its next work.
pub fn migration_honours_cancel(phase: UnityMigrationPhase, preparation_kind: &str) -> (r: bool)
    ensures
        r == cancel_honoured(phase, preparation_kind@),
{
    match phase {
        UnityMigrationPhase::Accepted | UnityMigrationPhase::PreflightComplete => true,
        UnityMigrationPhase::PreparationComplete => crate::text::str_eq(preparation_kind, "none"),
        _ => false,
    }
}

/// The checkpoint a successful piece of work records.
pub open spec fn phase_after_work(work: MigrationWork) -> Option<UnityMigrationPhase> {
    match work {
        MigrationWork::Preflight => Some(UnityMigrationPhase::PreflightComplete),
        MigrationWork::MaterializePreparation => Some(UnityMigrationPhase::PreparationIntent),
        MigrationWork::ApplyPreparation => Some(UnityMigrationPhase::PreparationComplete),
        MigrationWork::Spawn => Some(UnityMigrationPhase::UnityStarted),
        MigrationWork::Wait => Some(UnityMigrationPhase::UnityExited),
        MigrationWork::Cleanup => Some(UnityMigrationPhase::CleanupComplete),
        _ => None,
    }
}

/// Names the checkpoint recorded after a piece of work succeeds.
pub fn migration_checkpoint_after(work: MigrationWork) -> (r: Option<UnityMigrationPhase>)
    ensures
        r == phase_after_work(work),
{
    match work {
        MigrationWork::Preflight => Some(UnityMigrationPhase::PreflightComplete),
        MigrationWork::MaterializePreparation => Some(UnityMigrationPhase::PreparationIntent),
        MigrationWork::ApplyPreparation => Some(UnityMigrationPhase::PreparationComplete),
        MigrationWork::Spawn => Some(UnityMigrationPhase::UnityStarted),
        MigrationWork::Wait => Some(UnityMigrationPhase::UnityExited),
        MigrationWork::Cleanup => Some(UnityMigrationPhase::CleanupComplete),
        _ => None,
    }
}

/// How a failed piece of migration work ends.
#[derive(Clone, Copy, Debug, PartialEq, Eq, Structural)]
pub enum MigrationFailure {
    /// Nothing touched the project yet: record an ordinary failure.
    FailBeforeIntent,
    /// The spawn was refused after the launch intent: observe the project.
    ObserveAfterLaunch,
    /// The project may be half migrated: record that recovery is required.
    MarkRecoveryRequired,
}

/// The disposition of each failed piece of work.
pub open spec fn failure_for_work(work: MigrationWork) -> MigrationFailure {
    match work {
        MigrationWork::Preflight | MigrationWork::MaterializePreparation => MigrationFailure::FailBeforeIntent,
        MigrationWork::Spawn => MigrationFailure::ObserveAfterLaunch,
        _ => MigrationFailure::MarkRecoveryRequired,
    }
}

/// Decides how a failed piece of migration work ends.
pub fn migration_failure(work: MigrationWork) -> (r: MigrationFailure)
    ensures
        r == failure_for_work(work),
{
    match work {
        MigrationWork::Preflight | MigrationWork::MaterializePreparation => MigrationFailure::FailBeforeIntent,
        MigrationWork::Spawn => MigrationFailure::ObserveAfterLaunch,
        _ => MigrationFailure::MarkRecoveryRequired,
    }
}

/// What the observation loop after the launch intent does next.
#[derive(Clone, Copy, Debug, PartialEq, Eq, Structural)]
pub enum RecoveryStep {
    /// Keep waiting, checkpointing the evidence first when it changed.
    Wait { checkpoint: bool },
    /// Record the reobserved project, commit it, then clean up.
    CommitProject,
    /// The project is untouched: record the evidence and fail the Operation.
    FailUnchanged,
    /// Record that recovery is required.
    MarkRecoveryRequired,
}

/// Decides the next step of the observation loop from the adapter's disposition.
pub fn recovery_step(disposition: &UnityMigrationRecoveryDisposition, current: &UnityMigrationEvidence) -> (r: RecoveryStep)
    ensures
        match *disposition {
            UnityMigrationRecoveryDisposition::Pending(e) => r matches RecoveryStep::Wait { checkpoint }
                && (checkpoint <==> !evidence_same(e, *current)),
            UnityMigrationRecoveryDisposition::ProjectReady(_) => r == RecoveryStep::CommitProject,
            UnityMigrationRecoveryDisposition::SafelyUnchanged(_) => r == RecoveryStep::FailUnchanged,
            UnityMigrationRecoveryDisposition::RecoveryRequired(_) => r == RecoveryStep::MarkRecoveryRequired,
        },
{
    match disposition {
        UnityMigrationRecoveryDisposition::Pending(e) => RecoveryStep::Wait {
            checkpoint: !evidence_equal(e, current),
        },
        UnityMigrationRecoveryDisposition::ProjectReady(_) => RecoveryStep::CommitProject,
        UnityMigrationRecoveryDisposition::SafelyUnchanged(_) => RecoveryStep::FailUnchanged,
        UnityMigrationRecoveryDisposition::RecoveryRequired(_) => RecoveryStep::MarkRecoveryRequired,
    }
}

/// Two optional values are equal by their views.
pub open spec fn opt_same<T: View>(a: Option<T>, b: Option<T>) -> bool {
    match (a, b) {
        (Some(x), Some(y)) => x@ == y@,
        (None, None) => true,
        _ => false,
    }
}

/// Field-by-field equality of migration evidence by value.
pub open spec fn evidence_same(a: UnityMigrationEvidence, b: UnityMigrationEvidence) -> bool {
    &&& a.preparation_kind@ == b.preparation_kind@
    &&& a.preparation_complete == b.preparation_complete
    &&& opt_same(a.preparation_operation_id, b.preparation_operation_id)
    &&& opt_same(a.preparation_artifact_sha256, b.preparation_artifact_sha256)
    &&& a.spawn_accepted == b.spawn_accepted
    &&& opt_same(a.exit_observation, b.exit_observation)
    &&& opt_same(a.reobserved_version, b.reobserved_version)
    &&& opt_same(a.reobserved_root_identity, b.reobserved_root_identity)
    &&& opt_same(a.reobserved_marker_sha256, b.reobserved_marker_sha256)
    &&& a.writer_inactive_checked_at_ms == b.writer_inactive_checked_at_ms
    &&& a.reobserved_at_ms == b.reobserved_at_ms
    &&& a.safe_terminal_failure == b.safe_terminal_failure
    &&& a.safe_evidence@.map_values(|x: String| x@) == b.safe_evidence@.map_values(|x: String| x@)
}

fn opt_text_eq(a: &Option<String>, b: &Option<String>) -> (r: bool)
    ensures
        r == opt_same(*a, *b),
{
    match (a, b) {
        (Some(x), Some(y)) => crate::text::str_eq(x.as_str(), y.as_str()),
        (None, None) => true,
        _ => false,
    }
}

fn opt_bytes_eq(a: &Option<Vec<u8>>, b: &Option<Vec<u8>>) -> (r: bool)
    ensures
        r == opt_same(*a, *b),
{
    match (a, b) {
        (Some(x), Some(y)) => crate::text::bytes_eq(x.as_slice(), y.as_slice()),
        (None, None) => true,
        _ => false,
    }
}

fn opt_digest_eq(a: &Option<[u8; 32]>, b: &Option<[u8; 32]>) -> (r: bool)
    ensures
        r == opt_same(*a, *b),
{
    match (a, b) {
        (Some(x), Some(y)) => {
            let r = crate::text::bytes_eq(x.as_slice(), y.as_slice());
            r
        },
        (None, None) => true,
        _ => false,
    }
}

fn opt_operation_eq(a: &Option<OperationId>, b: &Option<OperationId>) -> (r: bool)
    ensures
        r == opt_same(*a, *b),
{
    match (a, b) {
        (Some(x), Some(y)) => {
            let xs = x.as_uuid();
            let ys = y.as_uuid();
            crate::text::bytes_eq(xs.as_slice(), ys.as_slice())
        },
        (None, None) => true,
        _ => false,
    }
}

fn texts_eq(a: &Vec<String>, b: &Vec<String>) -> (r: bool)
    ensures
        r == (a@.map_values(|x: String| x@) == b@.map_values(|x: String| x@)),
{
    if a.len() != b.len() {
        assert(a@.map_values(|x: String| x@).len() != b@.map_values(|x: String| x@).len());
        return false;
    }
    let mut i: usize = 0;
    while i < a.len()
        invariant
            a@.len() == b@.len(),
            i <= a@.len(),
            forall|k: int| 0 <= k < i ==> (#[trigger] a@[k])@ == b@[k]@,
        decreases a@.len() - i,
    {
        if !crate::text::str_eq(a[i].as_str(), b[i].as_str()) {
            assert(a@.map_values(|x: String| x@)[i as int] != b@.map_values(|x: String| x@)[i as int]);
            return false;
        }
        i = i + 1;
    }
    assert(a@.map_values(|x: String| x@) =~= b@.map_values(|x: String| x@));
    true
}

/// Compares two pieces of migration evidence by value.
pub fn evidence_equal(a: &UnityMigrationEvidence, b: &UnityMigrationEvidence) -> (r: bool)
    ensures
        r == evidence_same(*a, *b),
{
    crate::text::str_eq(a.preparation_kind.as_str(), b.preparation_kind.as_str())
        && a.preparation_complete == b.preparation_complete
        && opt_operation_eq(&a.preparation_operation_id, &b.preparation_operation_id)
        && opt_digest_eq(&a.preparation_artifact_sha256, &b.preparation_artifact_sha256)
        && a.spawn_accepted == b.spawn_accepted
        && opt_text_eq(&a.exit_observation, &b.exit_observation)
        && opt_text_eq(&a.reobserved_version, &b.reobserved_version)
        && opt_bytes_eq(&a.reobserved_root_identity, &b.reobserved_root_identity)
        && opt_digest_eq(&a.reobserved_marker_sha256, &b.reobserved_marker_sha256)
        && a.writer_inactive_checked_at_ms == b.writer_inactive_checked_at_ms
        && a.reobserved_at_ms == b.reobserved_at_ms
        && a.safe_terminal_failure == b.safe_terminal_failure
        && texts_eq(&a.safe_evidence, &b.safe_evidence)
}

/// The durable phase only moves forward: the checkpoint after any work that
/// resumes a phase lies strictly later in the sequence, and a migration that
/// needs recovery does no further work.
pub proof fn migration_phases_only_advance(phase: UnityMigrationPhase)
    ensures
        phase_after_work(work_for_phase(phase)) matches Some(next) ==> phase_rank(next) > phase_rank(phase),
        phase == UnityMigrationPhase::RecoveryRequired ==> work_for_phase(phase) == MigrationWork::Halt,
{
}

/// Only work that leaves the project untouched may end in an ordinary
/// failure; a cancellation is honoured only before the launch intent.
pub proof fn migration_fails_plainly_only_before_intent(work: MigrationWork, phase: UnityMigrationPhase, preparation_kind: Seq<char>)
    ensures
        failure_for_work(work) == MigrationFailure::FailBeforeIntent ==> (work == MigrationWork::Preflight
            || work == MigrationWork::MaterializePreparation),
        cancel_honoured(phase, preparation_kind) ==> phase_rank(phase) < phase_rank(UnityMigrationPhase::LaunchIntent),
{
}

/// The migration code that stands for a refused permission.
pub fn require_migration_permission(access: &AccessContext, permission: Permission) -> (r: Result<(), M7UnityMigrationError>)
    ensures
        r is Ok <==> access@.permissions.contains(permission),
        r matches Err(e) ==> e.spec_code() == M7UnityMigrationErrorCode::PermissionDenied,
{
    if access.require(permission).is_err() {
        return Err(M7UnityMigrationError::new(M7UnityMigrationErrorCode::PermissionDenied));
    }
    Ok(())
}

/// Only the built-in local owner may migrate projects.
pub fn require_local_owner(access: &AccessContext) -> (r: Result<(), M7UnityMigrationError>)
    ensures
        r is Ok <==> access@.principal == "builtin:local-owner"@,
        r matches Err(e) ==> e.spec_code() == M7UnityMigrationErrorCode::PermissionDenied,
{
    let owner = PrincipalId::local_owner();
    if crate::text::str_eq(access.principal().as_str(), owner.as_str()) {
        Ok(())
    } else {
        Err(M7UnityMigrationError::new(M7UnityMigrationErrorCode::PermissionDenied))
    }
}

/// An applied plan must be of a supported classification.
pub fn require_supported_plan(classification: UnityMigrationClassificationKind) -> (r: Result<(), M7UnityMigrationError>)
    ensures
        r is Ok <==> (classification == UnityMigrationClassificationKind::PatchOrMinorUpgrade || classification
            == UnityMigrationClassificationKind::MajorUpgrade || classification
            == UnityMigrationClassificationKind::ChinaVariantChange),
        r matches Err(e) ==> e.spec_code() == M7UnityMigrationErrorCode::Unsupported,
{
    if classification.supported_for_apply() {
        Ok(())
    } else {
        Err(M7UnityMigrationError::new(M7UnityMigrationErrorCode::Unsupported))
    }
}


/// Between two versions of one major release and one China suffix (or
/// none), on the alpha, beta, final or patch channel, a migration is a
/// patch or minor upgrade when the source's minor number is lower, whatever
/// the patch numbers; at equal minor numbers the lower patch number decides,
/// then the earlier channel (alpha before beta before final before patch),
/// then the lower increment; in every other case it is a downgrade.
pub proof fn patch_or_minor_order_is_minor_first(s: ParsedUnityVersion, t: ParsedUnityVersion)
    requires
        channel_rank(s.channel) is Some,
        channel_rank(t.channel) is Some,
        s.china_increment == t.china_increment,
        s.major == t.major,
    ensures
        s.minor < t.minor ==> classify_migration(s, t) == Ok::<UnityMigrationClassificationKind, M7UnityMigrationErrorCode>(
            UnityMigrationClassificationKind::PatchOrMinorUpgrade,
        ),
        s.minor > t.minor ==> classify_migration(s, t) == Ok::<UnityMigrationClassificationKind, M7UnityMigrationErrorCode>(
            UnityMigrationClassificationKind::PatchOrMinorDowngrade,
        ),
        s.minor == t.minor && s.patch < t.patch ==> classify_migration(s, t) == Ok::<
            UnityMigrationClassificationKind,
            M7UnityMigrationErrorCode,
        >(UnityMigrationClassificationKind::PatchOrMinorUpgrade),
        s.minor == t.minor && s.patch > t.patch ==> classify_migration(s, t) == Ok::<
            UnityMigrationClassificationKind,
            M7UnityMigrationErrorCode,
        >(UnityMigrationClassificationKind::PatchOrMinorDowngrade),
        s.minor == t.minor && s.patch == t.patch && (s.channel == 0x61 && t.channel != 0x61 || s.channel == 0x62 && (
        t.channel == 0x66 || t.channel == 0x70) || s.channel == 0x66 && t.channel == 0x70) ==> classify_migration(s, t)
            == Ok::<UnityMigrationClassificationKind, M7UnityMigrationErrorCode>(
            UnityMigrationClassificationKind::PatchOrMinorUpgrade,
        ),
        s.minor == t.minor && s.patch == t.patch && s.channel == t.channel && s.increment < t.increment
            ==> classify_migration(s, t) == Ok::<UnityMigrationClassificationKind, M7UnityMigrationErrorCode>(
            UnityMigrationClassificationKind::PatchOrMinorUpgrade,
        ),
        s.minor == t.minor && s.patch == t.patch && s.channel == t.channel && s.increment >= t.increment
            ==> classify_migration(s, t) == Ok::<UnityMigrationClassificationKind, M7UnityMigrationErrorCode>(
            UnityMigrationClassificationKind::PatchOrMinorDowngrade,
        ),
{
}

} // verus!
