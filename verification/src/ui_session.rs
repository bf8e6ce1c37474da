//! Daemon-memory-only Portable UI session bookkeeping: session caps,
//! ownership, liveness, rate limiting, single in-flight calls, exact replay
//! of committed actions and stale-session evidence.

use vstd::prelude::*;
use vstd::string::StringExecFns;

use std::sync::atomic::AtomicBool;
use std::sync::Arc;

use crate::access::{scope_admits, AccessContext};
use crate::domain::Permission;
use crate::extensions::{
    lease_same, ExtensionDesiredState, ExtensionInstanceLease, ExtensionQuarantineState,
    ExtensionRecord, ExtensionUiProtocol, M6Error, M6ErrorCode,
};
use crate::text::{is_ascii_digit, is_ascii_lower, is_ascii_upper};
use vstd::string::StringSliceAdditionalSpecFns;

verus! {

/// Idle timeout of a Portable UI session.
pub const UI_IDLE_TIMEOUT_MS: u64 = 300_000;

/// Absolute lifetime of a Portable UI session.
pub const UI_ABSOLUTE_TIMEOUT_MS: u64 = 3_600_000;

/// Delay before an idle interactive Host is stopped.
pub const UI_HOST_IDLE_STOP_MS: u64 = 5_000;

/// Most sessions one extension may have at once.
pub const MAX_SESSIONS_PER_EXTENSION: usize = 8;

/// Most sessions one client connection may have at once.
pub const MAX_SESSIONS_PER_CONNECTION: usize = 16;

/// Most sessions the daemon holds at once.
pub const MAX_SESSIONS_TOTAL: usize = 128;

/// Most committed actions kept for exact replay per session.
pub const MAX_REPLAY_ENTRIES: usize = 64;

/// Rate bucket capacity, in thousandths of a call.
pub const RATE_CAPACITY_MILLI_TOKENS: u64 = 10_000;

/// Cost of one call, in thousandths of a call.
pub const RATE_TOKEN_COST: u64 = 1_000;

/// Window over which client violations are counted.
pub const CLIENT_VIOLATION_WINDOW_MS: u64 = 60_000;

/// Number of violations inside the window that closes a session.
pub const CLIENT_VIOLATION_CLOSE_THRESHOLD: usize = 3;

/// Most closed-session records kept to answer `session_stale`.
pub const MAX_STALE_SESSION_EVIDENCE: usize = 256;

/// Extra time a guest call may take beyond the current instant.
pub const UI_CALL_BUDGET_MS: u64 = 2_000;

/// Stable Portable UI error code.
#[derive(Clone, Copy, Debug, PartialEq, Eq, Structural)]
pub enum M7ErrorCode {
    InvalidInput,
    PermissionDenied,
    NotInstalled,
    NotEnabled,
    Quarantined,
    UiNotAvailable,
    UiProtocolUnsupported,
    SessionNotFound,
    SessionStale,
    SnapshotStale,
    DocumentInvalid,
    ActionInvalid,
    LimitExceeded,
    ExtensionPermissionDenied,
    ExtensionScopeDenied,
    InstanceStale,
    Crashed,
    ResourceLimit,
    StoreUnavailable,
    Internal,
}

/// Safe Portable UI error.
#[derive(Clone, Copy, Debug, PartialEq, Eq, Structural)]
pub struct M7Error {
    code: M7ErrorCode,
}

impl M7Error {
    pub closed spec fn spec_code(self) -> M7ErrorCode {
        self.code
    }

    pub fn new(code: M7ErrorCode) -> (r: Self)
        ensures
            r.spec_code() == code,
    {
        M7Error { code }
    }

    pub fn code(&self) -> (r: M7ErrorCode)
        ensures
            r == self.spec_code(),
    {
        self.code
    }
}

/// The variant name of each Portable UI failure code.
pub open spec fn m7_code_label(code: M7ErrorCode) -> Seq<char> {
    match code {
        M7ErrorCode::InvalidInput => "InvalidInput"@,
        M7ErrorCode::PermissionDenied => "PermissionDenied"@,
        M7ErrorCode::NotInstalled => "NotInstalled"@,
        M7ErrorCode::NotEnabled => "NotEnabled"@,
        M7ErrorCode::Quarantined => "Quarantined"@,
        M7ErrorCode::UiNotAvailable => "UiNotAvailable"@,
        M7ErrorCode::UiProtocolUnsupported => "UiProtocolUnsupported"@,
        M7ErrorCode::SessionNotFound => "SessionNotFound"@,
        M7ErrorCode::SessionStale => "SessionStale"@,
        M7ErrorCode::SnapshotStale => "SnapshotStale"@,
        M7ErrorCode::DocumentInvalid => "DocumentInvalid"@,
        M7ErrorCode::ActionInvalid => "ActionInvalid"@,
        M7ErrorCode::LimitExceeded => "LimitExceeded"@,
        M7ErrorCode::ExtensionPermissionDenied => "ExtensionPermissionDenied"@,
        M7ErrorCode::ExtensionScopeDenied => "ExtensionScopeDenied"@,
        M7ErrorCode::InstanceStale => "InstanceStale"@,
        M7ErrorCode::Crashed => "Crashed"@,
        M7ErrorCode::ResourceLimit => "ResourceLimit"@,
        M7ErrorCode::StoreUnavailable => "StoreUnavailable"@,
        M7ErrorCode::Internal => "Internal"@,
    }
}

impl M7Error {
    /// The human-readable message of the failure.
    pub fn message(&self) -> (r: String)
        ensures
            r@ == "Portable UI request failed: "@ + m7_code_label(self.spec_code()),
    {
        let label = match self.code {
            M7ErrorCode::InvalidInput => "InvalidInput",
            M7ErrorCode::PermissionDenied => "PermissionDenied",
            M7ErrorCode::NotInstalled => "NotInstalled",
            M7ErrorCode::NotEnabled => "NotEnabled",
            M7ErrorCode::Quarantined => "Quarantined",
            M7ErrorCode::UiNotAvailable => "UiNotAvailable",
            M7ErrorCode::UiProtocolUnsupported => "UiProtocolUnsupported",
            M7ErrorCode::SessionNotFound => "SessionNotFound",
            M7ErrorCode::SessionStale => "SessionStale",
            M7ErrorCode::SnapshotStale => "SnapshotStale",
            M7ErrorCode::DocumentInvalid => "DocumentInvalid",
            M7ErrorCode::ActionInvalid => "ActionInvalid",
            M7ErrorCode::LimitExceeded => "LimitExceeded",
            M7ErrorCode::ExtensionPermissionDenied => "ExtensionPermissionDenied",
            M7ErrorCode::ExtensionScopeDenied => "ExtensionScopeDenied",
            M7ErrorCode::InstanceStale => "InstanceStale",
            M7ErrorCode::Crashed => "Crashed",
            M7ErrorCode::ResourceLimit => "ResourceLimit",
            M7ErrorCode::StoreUnavailable => "StoreUnavailable",
            M7ErrorCode::Internal => "Internal",
        };
        let mut out = String::new();
        out.append("Portable UI request failed: ");
        out.append(label);
        out
    }
}

/// Why the extension runtime is invoked.
#[derive(Clone, Copy, Debug, PartialEq, Eq, Structural)]
pub enum ExtensionInvocationKind {
    Background,
    InteractiveUiRender,
    InteractiveUiAction,
    InteractiveUiClose,
}

/// The stable name of each invocation kind.
pub open spec fn invocation_kind_name(kind: ExtensionInvocationKind) -> Seq<char> {
    match kind {
        ExtensionInvocationKind::Background => "background"@,
        ExtensionInvocationKind::InteractiveUiRender => "interactive-ui-render"@,
        ExtensionInvocationKind::InteractiveUiAction => "interactive-ui-action"@,
        ExtensionInvocationKind::InteractiveUiClose => "interactive-ui-close"@,
    }
}

impl ExtensionInvocationKind {
    /// Stable transport-neutral name.
    pub fn as_str(self) -> (r: &'static str)
        ensures
            r@ == invocation_kind_name(self),
    {
        match self {
            ExtensionInvocationKind::Background => "background",
            ExtensionInvocationKind::InteractiveUiRender => "interactive-ui-render",
            ExtensionInvocationKind::InteractiveUiAction => "interactive-ui-action",
            ExtensionInvocationKind::InteractiveUiClose => "interactive-ui-close",
        }
    }
}

/// Calls `Arc::clone`: the new handle shares the same flag.
#[verifier::external_body]
fn share_flag(flag: &Arc<AtomicBool>) -> (r: Arc<AtomicBool>)
    ensures
        r == *flag,
{
    Arc::clone(flag)
}

/// Calls `AtomicBool::store` with `false` and release ordering. The flag is
/// shared with every authority handed out for the session; nothing about its
/// value is modelled.
#[verifier::external_body]
fn retire_flag(flag: &Arc<AtomicBool>) {
    flag.store(false, std::sync::atomic::Ordering::Release);
}

/// Authority under which one guest call runs.
#[derive(Debug)]
pub struct ExtensionUiInvocationAuthority {
    pub kind: ExtensionInvocationKind,
    pub client_access: AccessContext,
    pub client_connection_id: String,
    pub client_instance_id: String,
    pub session_id: String,
    pub snapshot_revision: u64,
    pub deadline_ms: u64,
    pub current: Arc<AtomicBool>,
}

/// Calls `AtomicBool::load` with acquire ordering. The flag is shared mutable
/// state that a closing session clears; its value is not modelled.
#[verifier::external_body]
fn flag_is_set(flag: &Arc<AtomicBool>) -> (r: bool) {
    flag.load(std::sync::atomic::Ordering::Acquire)
}

impl ExtensionUiInvocationAuthority {
    /// Whether the session that issued this authority is still current.
    pub fn is_current(&self) -> (r: bool) {
        flag_is_set(&self.current)
    }
}

/// Guest export invoked for a session.
#[derive(Clone, Debug)]
pub enum ExtensionUiExport {
    Open { session_id: String, locale: String },
    Refresh { session_id: String },
    Dispatch { session_id: String, action: Vec<u8> },
    Close { session_id: String },
}

/// Outcome of a document or action check.
#[derive(Clone, Copy, Debug, PartialEq, Eq, Structural)]
pub enum M7ValidationFailure {
    Invalid,
    LimitExceeded,
}

/// Public description of an open session.
#[derive(Clone, Debug, PartialEq, Eq)]
pub struct M7UiSessionInfo {
    pub session_id: String,
    pub extension_id: String,
    pub locale: String,
    pub idle_timeout_ms: u64,
    pub absolute_timeout_ms: u64,
}

/// One published document revision.
#[derive(Clone, Debug, PartialEq, Eq)]
pub struct M7UiSnapshot {
    pub session_id: String,
    pub snapshot_revision: u64,
    pub document: Vec<u8>,
}

/// Result of opening a session.
#[derive(Clone, Debug, PartialEq, Eq)]
pub struct M7UiOpenResult {
    pub session: M7UiSessionInfo,
    pub snapshot: M7UiSnapshot,
}

/// Result of a dispatched action.
#[derive(Clone, Debug, PartialEq, Eq)]
pub struct M7UiDispatchResult {
    pub snapshot: M7UiSnapshot,
    pub replayed: bool,
}

/// Lifecycle of a session.
#[derive(Clone, Copy, Debug, PartialEq, Eq, Structural)]
pub enum UiSessionState {
    Opening,
    Active,
    Closing,
}

/// One committed action kept for exact replay.
#[derive(Debug)]
pub struct ReplayEntry {
    pub sequence: u64,
    pub request_id: String,
    pub expected_snapshot_revision: u64,
    pub fingerprint: [u8; 32],
    pub resulting_snapshot_revision: u64,
    pub resulting_document: Vec<u8>,
}

/// What remains of a closed session: enough to answer `session_stale` to its owner.
#[derive(Debug)]
pub struct StaleSession {
    pub session_id: String,
    pub client_principal_id: String,
    pub client_connection_id: String,
}

/// One live Portable UI session.
#[derive(Debug)]
pub struct UiSession {
    pub session_id: String,
    pub client_access: AccessContext,
    pub client_principal_id: String,
    pub client_connection_id: String,
    pub client_instance_id: String,
    pub extension_id: String,
    pub extension_principal_id: String,
    pub extension_instance_id: String,
    pub package_digest: [u8; 32],
    pub grant_revision: u64,
    pub lifecycle_generation: u64,
    pub snapshot_revision: u64,
    pub locale: String,
    pub created_at_ms: u64,
    pub absolute_deadline_ms: u64,
    pub idle_deadline_ms: u64,
    pub next_sequence: u64,
    pub replay: Vec<ReplayEntry>,
    pub current_document: Vec<u8>,
    pub lease: ExtensionInstanceLease,
    pub state: UiSessionState,
    pub in_flight: bool,
    pub rate_tokens: u64,
    pub rate_updated_at_ms: u64,
    pub invocation_current: Arc<AtomicBool>,
    pub client_violations: Vec<u64>,
}

/// Field-by-field equality of two replay entries by their values.
pub open spec fn replay_same(a: ReplayEntry, b: ReplayEntry) -> bool {
    &&& a.sequence == b.sequence
    &&& a.request_id@ == b.request_id@
    &&& a.expected_snapshot_revision == b.expected_snapshot_revision
    &&& a.fingerprint@ == b.fingerprint@
    &&& a.resulting_snapshot_revision == b.resulting_snapshot_revision
    &&& a.resulting_document@ == b.resulting_document@
}

/// Field-by-field equality of two sessions by their values.
pub open spec fn session_same(a: UiSession, b: UiSession) -> bool {
    &&& a.session_id@ == b.session_id@
    &&& a.client_access@ == b.client_access@
    &&& a.client_principal_id@ == b.client_principal_id@
    &&& a.client_connection_id@ == b.client_connection_id@
    &&& a.client_instance_id@ == b.client_instance_id@
    &&& a.extension_id@ == b.extension_id@
    &&& a.extension_principal_id@ == b.extension_principal_id@
    &&& a.extension_instance_id@ == b.extension_instance_id@
    &&& a.package_digest@ == b.package_digest@
    &&& a.grant_revision == b.grant_revision
    &&& a.lifecycle_generation == b.lifecycle_generation
    &&& a.snapshot_revision == b.snapshot_revision
    &&& a.locale@ == b.locale@
    &&& a.created_at_ms == b.created_at_ms
    &&& a.absolute_deadline_ms == b.absolute_deadline_ms
    &&& a.idle_deadline_ms == b.idle_deadline_ms
    &&& a.next_sequence == b.next_sequence
    &&& a.replay@.len() == b.replay@.len()
    &&& (forall|i: int| 0 <= i < a.replay@.len() ==> replay_same(#[trigger] a.replay@[i], b.replay@[i]))
    &&& a.current_document@ == b.current_document@
    &&& lease_same(a.lease, b.lease)
    &&& a.state == b.state
    &&& a.in_flight == b.in_flight
    &&& a.rate_tokens == b.rate_tokens
    &&& a.rate_updated_at_ms == b.rate_updated_at_ms
    &&& a.invocation_current == b.invocation_current
    &&& a.client_violations@ == b.client_violations@
}

/// The bucket level after refilling one token per elapsed second, capped at capacity.
pub open spec fn refilled_tokens(tokens: u64, updated_at_ms: u64, now_ms: u64) -> int {
    let elapsed: int = if now_ms >= updated_at_ms { now_ms - updated_at_ms } else { 0 };
    if tokens + elapsed > RATE_CAPACITY_MILLI_TOKENS {
        RATE_CAPACITY_MILLI_TOKENS as int
    } else {
        tokens + elapsed
    }
}

/// Whether a session is live at `now_ms`.
pub open spec fn session_live(s: UiSession, now_ms: u64) -> bool {
    &&& s.locale@.len() > 0
    &&& s.created_at_ms < s.absolute_deadline_ms
    &&& now_ms < s.idle_deadline_ms
    &&& now_ms < s.absolute_deadline_ms
}

/// The smaller of two numbers.
pub open spec fn min_u64(a: u64, b: u64) -> u64 {
    if a <= b { a } else { b }
}

/// Deadline of a guest call started at `now_ms`, capped by the session deadlines.
pub open spec fn call_deadline(s: UiSession, now_ms: u64) -> int {
    min_u64(min_u64((now_ms + UI_CALL_BUDGET_MS) as u64, s.absolute_deadline_ms), s.idle_deadline_ms) as int
}

/// Copies a byte vector.
fn copy_bytes(v: &Vec<u8>) -> (r: Vec<u8>)
    ensures
        r@ == v@,
{
    let mut out: Vec<u8> = Vec::new();
    let mut i: usize = 0;
    while i < v.len()
        invariant
            i <= v@.len(),
            out@ == v@.subrange(0, i as int),
        decreases v@.len() - i,
    {
        out.push(v[i]);
        i = i + 1;
        assert(out@ =~= v@.subrange(0, i as int));
    }
    assert(v@.subrange(0, v@.len() as int) =~= v@);
    out
}

/// Copies a list of instants.
fn copy_instants(v: &Vec<u64>) -> (r: Vec<u64>)
    ensures
        r@ == v@,
{
    let mut out: Vec<u64> = Vec::new();
    let mut i: usize = 0;
    while i < v.len()
        invariant
            i <= v@.len(),
            out@ == v@.subrange(0, i as int),
        decreases v@.len() - i,
    {
        out.push(v[i]);
        i = i + 1;
        assert(out@ =~= v@.subrange(0, i as int));
    }
    assert(v@.subrange(0, v@.len() as int) =~= v@);
    out
}

impl ReplayEntry {
    /// Copies the entry.
    pub fn duplicate(&self) -> (r: Self)
        ensures
            replay_same(r, *self),
    {
        ReplayEntry {
            sequence: self.sequence,
            request_id: self.request_id.clone(),
            expected_snapshot_revision: self.expected_snapshot_revision,
            fingerprint: self.fingerprint,
            resulting_snapshot_revision: self.resulting_snapshot_revision,
            resulting_document: copy_bytes(&self.resulting_document),
        }
    }
}

/// Copies a replay log.
fn copy_replay(v: &Vec<ReplayEntry>) -> (r: Vec<ReplayEntry>)
    ensures
        r@.len() == v@.len(),
        forall|i: int| 0 <= i < v@.len() ==> replay_same(#[trigger] r@[i], v@[i]),
{
    let mut out: Vec<ReplayEntry> = Vec::new();
    let mut i: usize = 0;
    while i < v.len()
        invariant
            i <= v@.len(),
            out@.len() == i,
            forall|j: int| 0 <= j < i ==> replay_same(#[trigger] out@[j], v@[j]),
        decreases v@.len() - i,
    {
        out.push(v[i].duplicate());
        i = i + 1;
    }
    out
}

impl UiSession {
    /// Copies the session; the copy shares the session's currency flag.
    pub fn duplicate(&self) -> (r: Self)
        ensures
            session_same(r, *self),
    {
        UiSession {
            session_id: self.session_id.clone(),
            client_access: self.client_access.duplicate(),
            client_principal_id: self.client_principal_id.clone(),
            client_connection_id: self.client_connection_id.clone(),
            client_instance_id: self.client_instance_id.clone(),
            extension_id: self.extension_id.clone(),
            extension_principal_id: self.extension_principal_id.clone(),
            extension_instance_id: self.extension_instance_id.clone(),
            package_digest: self.package_digest,
            grant_revision: self.grant_revision,
            lifecycle_generation: self.lifecycle_generation,
            snapshot_revision: self.snapshot_revision,
            locale: self.locale.clone(),
            created_at_ms: self.created_at_ms,
            absolute_deadline_ms: self.absolute_deadline_ms,
            idle_deadline_ms: self.idle_deadline_ms,
            next_sequence: self.next_sequence,
            replay: copy_replay(&self.replay),
            current_document: copy_bytes(&self.current_document),
            lease: self.lease.duplicate(),
            state: self.state,
            in_flight: self.in_flight,
            rate_tokens: self.rate_tokens,
            rate_updated_at_ms: self.rate_updated_at_ms,
            invocation_current: share_flag(&self.invocation_current),
            client_violations: copy_instants(&self.client_violations),
        }
    }

    /// The currently published snapshot.
    pub fn snapshot(&self) -> (r: M7UiSnapshot)
        ensures
            r.session_id@ == self.session_id@,
            r.snapshot_revision == self.snapshot_revision,
            r.document@ == self.current_document@,
    {
        M7UiSnapshot {
            session_id: self.session_id.clone(),
            snapshot_revision: self.snapshot_revision,
            document: copy_bytes(&self.current_document),
        }
    }

    /// Authority for one guest call; its deadline is two seconds away but
    /// never past either session deadline.
    pub fn invocation(
        &self,
        client_access: AccessContext,
        kind: ExtensionInvocationKind,
        now_ms: u64,
    ) -> (r: Result<ExtensionUiInvocationAuthority, M7Error>)
        ensures
            r is Ok <==> now_ms + UI_CALL_BUDGET_MS <= u64::MAX,
            r matches Err(e) ==> e.spec_code() == M7ErrorCode::Internal,
            r matches Ok(a) ==> {
                &&& a.kind == kind
                &&& a.client_access@ == client_access@
                &&& a.client_connection_id@ == self.client_connection_id@
                &&& a.client_instance_id@ == self.client_instance_id@
                &&& a.session_id@ == self.session_id@
                &&& a.snapshot_revision == self.snapshot_revision
                &&& a.deadline_ms == call_deadline(*self, now_ms)
                &&& a.current == self.invocation_current
            },
    {
        let budget = match now_ms.checked_add(UI_CALL_BUDGET_MS) {
            Some(value) => value,
            None => return Err(internal()),
        };
        let mut deadline_ms = budget;
        if self.absolute_deadline_ms < deadline_ms {
            deadline_ms = self.absolute_deadline_ms;
        }
        if self.idle_deadline_ms < deadline_ms {
            deadline_ms = self.idle_deadline_ms;
        }
        Ok(ExtensionUiInvocationAuthority {
            kind,
            client_access,
            client_connection_id: self.client_connection_id.clone(),
            client_instance_id: self.client_instance_id.clone(),
            session_id: self.session_id.clone(),
            snapshot_revision: self.snapshot_revision,
            deadline_ms,
            current: share_flag(&self.invocation_current),
        })
    }

    /// Fails with `session_stale` unless the session is live at `now_ms`.
    pub fn check_live(&self, now_ms: u64) -> (r: Result<(), M7Error>)
        ensures
            r is Ok <==> session_live(*self, now_ms),
            r matches Err(e) ==> e.spec_code() == M7ErrorCode::SessionStale,
    {
        if self.locale.as_str().is_empty() || self.created_at_ms >= self.absolute_deadline_ms
            || now_ms >= self.idle_deadline_ms || now_ms >= self.absolute_deadline_ms
        {
            Err(M7Error::new(M7ErrorCode::SessionStale))
        } else {
            Ok(())
        }
    }

    /// Refills the bucket, then takes one call's worth of tokens or fails with
    /// `limit_exceeded`. The refill is kept either way.
    pub fn consume_rate(&mut self, now_ms: u64) -> (r: Result<(), M7Error>)
        ensures
            r is Ok <==> refilled_tokens(old(self).rate_tokens, old(self).rate_updated_at_ms, now_ms)
                >= RATE_TOKEN_COST,
            r matches Err(e) ==> e.spec_code() == M7ErrorCode::LimitExceeded,
            final(self).rate_updated_at_ms == now_ms,
            final(self).rate_tokens == if r is Ok {
                refilled_tokens(old(self).rate_tokens, old(self).rate_updated_at_ms, now_ms)
                    - RATE_TOKEN_COST
            } else {
                refilled_tokens(old(self).rate_tokens, old(self).rate_updated_at_ms, now_ms)
            },
            *final(self) == (UiSession {
                rate_tokens: final(self).rate_tokens,
                rate_updated_at_ms: now_ms,
                ..*old(self)
            }),
    {
        let elapsed = now_ms.saturating_sub(self.rate_updated_at_ms);
        let filled = self.rate_tokens.saturating_add(elapsed);
        self.rate_tokens = if filled > RATE_CAPACITY_MILLI_TOKENS {
            RATE_CAPACITY_MILLI_TOKENS
        } else {
            filled
        };
        self.rate_updated_at_ms = now_ms;
        if self.rate_tokens < RATE_TOKEN_COST {
            return Err(M7Error::new(M7ErrorCode::LimitExceeded));
        }
        self.rate_tokens = self.rate_tokens - RATE_TOKEN_COST;
        Ok(())
    }
}

/// The error that stands for an internal failure.
pub fn internal() -> (r: M7Error)
    ensures
        r.spec_code() == M7ErrorCode::Internal,
{
    M7Error::new(M7ErrorCode::Internal)
}

/// Requires `extensions.read` and the exact extension UI scope.
pub fn require_ui_access(access: &AccessContext, extension_id: &str) -> (r: Result<(), M7Error>)
    ensures
        r is Ok <==> (access@.permissions.contains(Permission::ExtensionsRead)
            && access@.permissions.contains(Permission::ExtensionsUiUse) && scope_admits(
            access@.extension_scopes,
            extension_id@,
        )),
        r matches Err(e) ==> e.spec_code() == M7ErrorCode::PermissionDenied,
{
    if access.require(Permission::ExtensionsRead).is_err() {
        return Err(M7Error::new(M7ErrorCode::PermissionDenied));
    }
    if access.require_extension_ui_scope(extension_id).is_err() {
        return Err(M7Error::new(M7ErrorCode::PermissionDenied));
    }
    Ok(())
}

/// Whether a registry row allows a new session, as an error code.
pub open spec fn open_record_error(record: ExtensionRecord) -> Option<M7ErrorCode> {
    if record.desired_state != ExtensionDesiredState::Enabled {
        Some(M7ErrorCode::NotEnabled)
    } else if record.quarantine_state != ExtensionQuarantineState::Clear {
        Some(M7ErrorCode::Quarantined)
    } else if record.ui_protocol is None {
        Some(M7ErrorCode::UiNotAvailable)
    } else {
        None
    }
}

/// Checks that an extension may open a Portable UI session.
pub fn validate_open_record(record: &ExtensionRecord) -> (r: Result<(), M7Error>)
    ensures
        r is Ok <==> open_record_error(*record) is None,
        r matches Err(e) ==> Some(e.spec_code()) == open_record_error(*record),
{
    if record.desired_state != ExtensionDesiredState::Enabled {
        return Err(M7Error::new(M7ErrorCode::NotEnabled));
    }
    if record.quarantine_state != ExtensionQuarantineState::Clear {
        return Err(M7Error::new(M7ErrorCode::Quarantined));
    }
    match record.ui_protocol {
        Some(ExtensionUiProtocol::PortableV1) => Ok(()),
        None => Err(M7Error::new(M7ErrorCode::UiNotAvailable)),
    }
}

/// Whether a lease still belongs to the registry row's grant and lifecycle.
pub open spec fn lease_matches(record: ExtensionRecord, lease: ExtensionInstanceLease) -> bool {
    &&& lease.extension_id@ == record.extension_id@
    &&& lease.grant_revision == record.grant_revision
    &&& lease.lifecycle_generation == record.lifecycle_generation
}

/// Fails with `session_stale` unless the lease matches the registry row.
pub fn validate_lease(record: &ExtensionRecord, lease: &ExtensionInstanceLease) -> (r: Result<(), M7Error>)
    ensures
        r is Ok <==> lease_matches(*record, *lease),
        r matches Err(e) ==> e.spec_code() == M7ErrorCode::SessionStale,
{
    if !crate::text::str_eq(lease.extension_id.as_str(), record.extension_id.as_str())
        || lease.grant_revision != record.grant_revision
        || lease.lifecycle_generation != record.lifecycle_generation
    {
        Err(M7Error::new(M7ErrorCode::SessionStale))
    } else {
        Ok(())
    }
}

/// Whether an established session still matches the registry row.
pub open spec fn session_matches(s: UiSession, record: ExtensionRecord) -> bool {
    &&& record.desired_state == ExtensionDesiredState::Enabled
    &&& record.quarantine_state == ExtensionQuarantineState::Clear
    &&& record.ui_protocol == Some(ExtensionUiProtocol::PortableV1)
    &&& s.package_digest@ == record.package_digest@
    &&& s.grant_revision == record.grant_revision@
    &&& s.lifecycle_generation == record.lifecycle_generation@
    &&& s.extension_id@ == record.extension_id@
    &&& lease_matches(record, s.lease)
}

/// Compares two digests.
fn digest_eq(a: &[u8; 32], b: &[u8; 32]) -> (r: bool)
    ensures
        r == (a@ == b@),
{
    let mut i: usize = 0;
    while i < 32
        invariant
            a@.len() == 32,
            b@.len() == 32,
            i <= 32,
            forall|j: int| 0 <= j < i ==> a@[j] == b@[j],
        decreases 32 - i,
    {
        if a[i] != b[i] {
            return false;
        }
        i = i + 1;
    }
    assert(a@ =~= b@);
    true
}

/// Maps any lifecycle, grant or digest change of an established session to `session_stale`.
pub fn validate_current_session(session: &UiSession, record: &ExtensionRecord) -> (r: Result<(), M7Error>)
    ensures
        r is Ok <==> session_matches(*session, *record),
        r matches Err(e) ==> e.spec_code() == M7ErrorCode::SessionStale,
{
    let portable = match record.ui_protocol {
        Some(ExtensionUiProtocol::PortableV1) => true,
        None => false,
    };
    if record.desired_state != ExtensionDesiredState::Enabled
        || record.quarantine_state != ExtensionQuarantineState::Clear || !portable
        || !digest_eq(&session.package_digest, &record.package_digest)
        || session.grant_revision != record.grant_revision.get()
        || session.lifecycle_generation != record.lifecycle_generation.get()
        || !crate::text::str_eq(session.extension_id.as_str(), record.extension_id.as_str())
    {
        return Err(M7Error::new(M7ErrorCode::SessionStale));
    }
    assert(record.ui_protocol == Some(ExtensionUiProtocol::PortableV1));
    validate_lease(record, &session.lease)
}

/// Bytes `i..j` are lowercase ASCII letters.
pub open spec fn lower_run(b: Seq<u8>, i: int, j: int) -> bool {
    forall|k: int| i <= k < j ==> is_ascii_lower(#[trigger] b[k])
}

/// Bytes `i..j` are uppercase ASCII letters.
pub open spec fn upper_run(b: Seq<u8>, i: int, j: int) -> bool {
    forall|k: int| i <= k < j ==> is_ascii_upper(#[trigger] b[k])
}

/// Bytes `i..j` are ASCII digits.
pub open spec fn digit_run(b: Seq<u8>, i: int, j: int) -> bool {
    forall|k: int| i <= k < j ==> is_ascii_digit(#[trigger] b[k])
}

/// A four-letter title-case script subtag starts at `i`.
pub open spec fn script_at(b: Seq<u8>, i: int) -> bool {
    i + 4 <= b.len() && is_ascii_upper(b[i]) && lower_run(b, i + 1, i + 4)
}

/// A region subtag (two uppercase letters or three digits) runs from `i` to the end.
pub open spec fn region_at(b: Seq<u8>, i: int) -> bool {
    ||| (b.len() == i + 2 && upper_run(b, i, i + 2))
    ||| (b.len() == i + 3 && digit_run(b, i, i + 3))
}

/// What may follow a language subtag that ends at `i`: nothing, or
/// `-script`, `-region` or `-script-region`.
pub open spec fn locale_tail(b: Seq<u8>, i: int) -> bool {
    ||| b.len() == i
    ||| (b.len() > i && b[i] == 0x2d && region_at(b, i + 1))
    ||| (b.len() == i + 5 && b[i] == 0x2d && script_at(b, i + 1))
    ||| (b.len() > i + 5 && b[i] == 0x2d && script_at(b, i + 1) && b[i + 5] == 0x2d
        && region_at(b, i + 6))
}

/// The accepted locale subset: a two- or three-letter lowercase language,
/// an optional title-case script and an optional region.
pub open spec fn canonical_locale_bytes(b: Seq<u8>) -> bool {
    ||| (b.len() >= 2 && lower_run(b, 0, 2) && locale_tail(b, 2))
    ||| (b.len() >= 3 && lower_run(b, 0, 3) && locale_tail(b, 3))
}

fn lower_run_exec(b: &[u8], i: usize, j: usize) -> (r: bool)
    requires
        i <= j <= b@.len(),
    ensures
        r == lower_run(b@, i as int, j as int),
{
    let mut k = i;
    while k < j
        invariant
            i <= k <= j <= b@.len(),
            lower_run(b@, i as int, k as int),
        decreases j - k,
    {
        if !(0x61 <= b[k] && b[k] <= 0x7a) {
            return false;
        }
        k = k + 1;
    }
    true
}

fn upper_run_exec(b: &[u8], i: usize, j: usize) -> (r: bool)
    requires
        i <= j <= b@.len(),
    ensures
        r == upper_run(b@, i as int, j as int),
{
    let mut k = i;
    while k < j
        invariant
            i <= k <= j <= b@.len(),
            upper_run(b@, i as int, k as int),
        decreases j - k,
    {
        if !(0x41 <= b[k] && b[k] <= 0x5a) {
            return false;
        }
        k = k + 1;
    }
    true
}

fn digit_run_exec(b: &[u8], i: usize, j: usize) -> (r: bool)
    requires
        i <= j <= b@.len(),
    ensures
        r == digit_run(b@, i as int, j as int),
{
    let mut k = i;
    while k < j
        invariant
            i <= k <= j <= b@.len(),
            digit_run(b@, i as int, k as int),
        decreases j - k,
    {
        if !(0x30 <= b[k] && b[k] <= 0x39) {
            return false;
        }
        k = k + 1;
    }
    true
}

fn script_at_exec(b: &[u8], i: usize) -> (r: bool)
    requires
        i <= b@.len(),
    ensures
        r == script_at(b@, i as int),
{
    if b.len() - i < 4 {
        return false;
    }
    (0x41 <= b[i] && b[i] <= 0x5a) && lower_run_exec(b, i + 1, i + 4)
}

fn region_at_exec(b: &[u8], i: usize) -> (r: bool)
    requires
        i <= b@.len(),
    ensures
        r == region_at(b@, i as int),
{
    let rest = b.len() - i;
    if rest == 2 {
        upper_run_exec(b, i, i + 2)
    } else if rest == 3 {
        digit_run_exec(b, i, i + 3)
    } else {
        false
    }
}

fn locale_tail_exec(b: &[u8], i: usize) -> (r: bool)
    requires
        i <= b@.len(),
    ensures
        r == locale_tail(b@, i as int),
{
    let n = b.len();
    if n == i {
        return true;
    }
    if b[i] != 0x2d {
        return false;
    }
    if region_at_exec(b, i + 1) {
        return true;
    }
    if !script_at_exec(b, i + 1) {
        return false;
    }
    if n == i + 5 {
        return true;
    }
    b[i + 5] == 0x2d && region_at_exec(b, i + 6)
}

/// Returns the locale unchanged when it is in the accepted subset.
pub fn canonical_locale(value: &str) -> (r: Option<String>)
    ensures
        r is Some <==> canonical_locale_bytes(value.spec_bytes()),
        r matches Some(s) ==> s@ == value@,
{
    let b = value.as_bytes();
    let accepted = (b.len() >= 2 && lower_run_exec(b, 0, 2) && locale_tail_exec(b, 2))
        || (b.len() >= 3 && lower_run_exec(b, 0, 3) && locale_tail_exec(b, 3));
    if accepted {
        Some(value.to_owned())
    } else {
        None
    }
}

/// Maps a rejected guest document to a session error.
pub fn validation_error(failure: M7ValidationFailure) -> (r: M7Error)
    ensures
        r.spec_code() == match failure {
            M7ValidationFailure::Invalid => M7ErrorCode::DocumentInvalid,
            M7ValidationFailure::LimitExceeded => M7ErrorCode::LimitExceeded,
        },
{
    match failure {
        M7ValidationFailure::Invalid => M7Error::new(M7ErrorCode::DocumentInvalid),
        M7ValidationFailure::LimitExceeded => M7Error::new(M7ErrorCode::LimitExceeded),
    }
}

/// Maps a rejected client action to a session error.
pub fn action_validation_error(failure: M7ValidationFailure) -> (r: M7Error)
    ensures
        r.spec_code() == match failure {
            M7ValidationFailure::Invalid => M7ErrorCode::ActionInvalid,
            M7ValidationFailure::LimitExceeded => M7ErrorCode::LimitExceeded,
        },
{
    match failure {
        M7ValidationFailure::Invalid => M7Error::new(M7ErrorCode::ActionInvalid),
        M7ValidationFailure::LimitExceeded => M7Error::new(M7ErrorCode::LimitExceeded),
    }
}

/// The Portable UI code that stands for each extension error code.
pub open spec fn m7_code_for_m6(code: M6ErrorCode) -> M7ErrorCode {
    match code {
        M6ErrorCode::InvalidInput => M7ErrorCode::InvalidInput,
        M6ErrorCode::PermissionDenied => M7ErrorCode::ExtensionPermissionDenied,
        M6ErrorCode::NotInstalled => M7ErrorCode::NotInstalled,
        M6ErrorCode::ScopeDenied => M7ErrorCode::ExtensionScopeDenied,
        M6ErrorCode::InstanceStale => M7ErrorCode::InstanceStale,
        M6ErrorCode::ResourceLimit => M7ErrorCode::ResourceLimit,
        M6ErrorCode::DataQuotaExceeded => M7ErrorCode::ResourceLimit,
        M6ErrorCode::Crashed => M7ErrorCode::Crashed,
        M6ErrorCode::Quarantined => M7ErrorCode::Quarantined,
        M6ErrorCode::StoreUnavailable => M7ErrorCode::StoreUnavailable,
        _ => M7ErrorCode::Internal,
    }
}

/// Maps an extension error to the Portable UI error space.
pub fn map_m6(error: M6Error) -> (r: M7Error)
    ensures
        r.spec_code() == m7_code_for_m6(error.spec_code()),
{
    let code = match error.code() {
        M6ErrorCode::InvalidInput => M7ErrorCode::InvalidInput,
        M6ErrorCode::PermissionDenied => M7ErrorCode::ExtensionPermissionDenied,
        M6ErrorCode::NotInstalled => M7ErrorCode::NotInstalled,
        M6ErrorCode::ScopeDenied => M7ErrorCode::ExtensionScopeDenied,
        M6ErrorCode::InstanceStale => M7ErrorCode::InstanceStale,
        M6ErrorCode::ResourceLimit | M6ErrorCode::DataQuotaExceeded => M7ErrorCode::ResourceLimit,
        M6ErrorCode::Crashed => M7ErrorCode::Crashed,
        M6ErrorCode::Quarantined => M7ErrorCode::Quarantined,
        M6ErrorCode::StoreUnavailable => M7ErrorCode::StoreUnavailable,
        M6ErrorCode::ManifestInvalid
        | M6ErrorCode::PackageInvalid
        | M6ErrorCode::PackageUntrusted
        | M6ErrorCode::PublisherConfirmationRequired
        | M6ErrorCode::SignatureInvalid
        | M6ErrorCode::AlreadyInstalled
        | M6ErrorCode::ProjectNotFound
        | M6ErrorCode::ApiUnsupported
        | M6ErrorCode::PlanStale
        | M6ErrorCode::DataOwnerMismatch
        | M6ErrorCode::RecoveryRequired
        | M6ErrorCode::RevisionConflict
        | M6ErrorCode::IdempotencyConflict
        | M6ErrorCode::Internal => M7ErrorCode::Internal,
    };
    M7Error::new(code)
}


/// Whether a session's bounded parts are within their limits: the replay log,
/// the rate bucket and the violation window, which stays below the closing
/// threshold while the session is usable and is empty before it opens.
pub open spec fn session_bounded(s: UiSession) -> bool {
    &&& s.replay@.len() <= MAX_REPLAY_ENTRIES
    &&& s.rate_tokens <= RATE_CAPACITY_MILLI_TOKENS
    &&& s.client_violations@.len() <= CLIENT_VIOLATION_CLOSE_THRESHOLD
    &&& s.state == UiSessionState::Active ==> s.client_violations@.len()
        < CLIENT_VIOLATION_CLOSE_THRESHOLD
    &&& s.state == UiSessionState::Opening ==> s.client_violations@.len() == 0
}

/// How many of the texts equal `k`.
pub open spec fn count_text(keys: Seq<Seq<char>>, k: Seq<char>) -> nat
    decreases keys.len(),
{
    if keys.len() == 0 {
        0
    } else {
        count_text(keys.drop_last(), k) + if keys.last() == k {
            1nat
        } else {
            0nat
        }
    }
}

/// The extension of each session, in order.
pub open spec fn extension_keys(s: Seq<UiSession>) -> Seq<Seq<char>> {
    s.map_values(|x: UiSession| x.extension_id@)
}

/// The client connection of each session, in order.
pub open spec fn connection_keys(s: Seq<UiSession>) -> Seq<Seq<char>> {
    s.map_values(|x: UiSession| x.client_connection_id@)
}

/// No two sessions share an identifier.
pub open spec fn ids_unique(s: Seq<UiSession>) -> bool {
    forall|i: int, j: int|
        0 <= i < s.len() && 0 <= j < s.len() && i != j ==> #[trigger] s[i].session_id@
            != #[trigger] s[j].session_id@
}

/// Two sessions agree on identity, owner, connection and extension.
pub open spec fn same_keys(a: UiSession, b: UiSession) -> bool {
    &&& a.session_id@ == b.session_id@
    &&& a.extension_id@ == b.extension_id@
    &&& a.client_connection_id@ == b.client_connection_id@
    &&& a.client_principal_id@ == b.client_principal_id@
}

/// Whether an access context may use the UI of an extension.
pub open spec fn ui_access(access: crate::access::AccessView, extension_id: Seq<char>) -> bool {
    &&& access.permissions.contains(Permission::ExtensionsRead)
    &&& access.permissions.contains(Permission::ExtensionsUiUse)
    &&& scope_admits(access.extension_scopes, extension_id)
}

/// A session the coordinator closes: marked closing and its replay log dropped.
pub open spec fn closing_of(c: UiSession, s: UiSession) -> bool {
    &&& c == (UiSession { state: UiSessionState::Closing, replay: c.replay, ..s })
    &&& c.replay@.len() == 0
}

/// A copy handed out for a session the coordinator closed.
pub open spec fn closed_copy(r: UiSession, s: UiSession) -> bool {
    &&& session_same(r, UiSession { state: UiSessionState::Closing, replay: r.replay, ..s })
    &&& r.replay@.len() == 0
}

/// The record kept for a closed session.
pub open spec fn stale_record_of(e: StaleSession, s: UiSession) -> bool {
    &&& e.session_id@ == s.session_id@
    &&& e.client_principal_id@ == s.client_principal_id@
    &&& e.client_connection_id@ == s.client_connection_id@
}

/// In-memory session table and the evidence of recently closed sessions.
pub struct UiSessionCoordinator {
    pub sessions: Vec<UiSession>,
    pub stale: Vec<StaleSession>,
}

impl UiSessionCoordinator {
    /// The table invariant: identifiers are unique, every cap holds, the
    /// stale evidence is bounded and every session is within its bounds.
    pub open spec fn wf(self) -> bool {
        &&& ids_unique(self.sessions@)
        &&& self.sessions@.len() <= MAX_SESSIONS_TOTAL
        &&& forall|e: Seq<char>|
            #[trigger] count_text(extension_keys(self.sessions@), e) <= MAX_SESSIONS_PER_EXTENSION
        &&& forall|c: Seq<char>|
            #[trigger] count_text(connection_keys(self.sessions@), c) <= MAX_SESSIONS_PER_CONNECTION
        &&& self.stale@.len() <= MAX_STALE_SESSION_EVIDENCE
        &&& forall|i: int| 0 <= i < self.sessions@.len() ==> session_bounded(#[trigger] self.sessions@[i])
    }

    /// Whether a session with this identifier is held.
    pub open spec fn has_session(self, id: Seq<char>) -> bool {
        exists|i: int| 0 <= i < self.sessions@.len() && #[trigger] self.sessions@[i].session_id@ == id
    }

    /// Position of the session with this identifier.
    pub open spec fn index_of(self, id: Seq<char>) -> int {
        choose|i: int| 0 <= i < self.sessions@.len() && #[trigger] self.sessions@[i].session_id@ == id
    }

    /// Whether the stale evidence shows this owner's closed session.
    pub open spec fn stale_owned(self, principal: Seq<char>, connection: Seq<char>, id: Seq<char>) -> bool {
        exists|i: int|
            0 <= i < self.stale@.len() && #[trigger] self.stale@[i].session_id@ == id
                && self.stale@[i].client_principal_id@ == principal
                && self.stale@[i].client_connection_id@ == connection
    }

    /// Ownership lookup: the position of the caller's active session, or the
    /// error answered for it. Another owner's session reads as absent.
    pub open spec fn owned_lookup(self, principal: Seq<char>, connection: Seq<char>, id: Seq<char>) -> Result<int, M7ErrorCode> {
        if self.has_session(id) {
            let s = self.sessions@[self.index_of(id)];
            if s.client_principal_id@ == principal && s.client_connection_id@ == connection {
                if s.state == UiSessionState::Active {
                    Ok(self.index_of(id))
                } else {
                    Err(M7ErrorCode::SessionStale)
                }
            } else {
                Err(M7ErrorCode::SessionNotFound)
            }
        } else if self.stale_owned(principal, connection, id) {
            Err(M7ErrorCode::SessionStale)
        } else {
            Err(M7ErrorCode::SessionNotFound)
        }
    }

    /// The checks every call on an owned session passes first: ownership,
    /// liveness and UI access.
    pub open spec fn access_gate(self, access: crate::access::AccessView, connection: Seq<char>, id: Seq<char>, now_ms: u64) -> Option<M7ErrorCode> {
        match self.owned_lookup(access.principal, connection, id) {
            Err(code) => Some(code),
            Ok(i) => {
                let s = self.sessions@[i];
                if !session_live(s, now_ms) {
                    Some(M7ErrorCode::SessionStale)
                } else if !ui_access(access, s.extension_id@) {
                    Some(M7ErrorCode::PermissionDenied)
                } else {
                    None
                }
            },
        }
    }

    /// The checks before a guest call: the access gate, no other call in
    /// flight and the expected snapshot revision.
    pub open spec fn call_gate(self, access: crate::access::AccessView, connection: Seq<char>, id: Seq<char>, expected: u64, now_ms: u64) -> Option<M7ErrorCode> {
        match self.access_gate(access, connection, id, now_ms) {
            Some(code) => Some(code),
            None => {
                let s = self.sessions@[self.index_of(id)];
                if s.in_flight {
                    Some(M7ErrorCode::ActionInvalid)
                } else if expected != s.snapshot_revision {
                    Some(M7ErrorCode::SnapshotStale)
                } else {
                    None
                }
            },
        }
    }
}

/// Counting a pushed text adds one exactly when it is the counted text.
pub proof fn lemma_count_push(keys: Seq<Seq<char>>, v: Seq<char>, k: Seq<char>)
    ensures
        count_text(keys.push(v), k) == count_text(keys, k) + if v == k {
            1nat
        } else {
            0nat
        },
{
    assert(keys.push(v).drop_last() =~= keys);
}

/// Replacing one text changes each count by at most the replaced and new text.
pub proof fn lemma_count_update(keys: Seq<Seq<char>>, i: int, v: Seq<char>, k: Seq<char>)
    requires
        0 <= i < keys.len(),
    ensures
        count_text(keys.update(i, v), k) + (if keys[i] == k {
            1nat
        } else {
            0nat
        }) == count_text(keys, k) + if v == k {
            1nat
        } else {
            0nat
        },
    decreases keys.len(),
{
    if i == keys.len() - 1 {
        assert(keys.update(i, v).drop_last() =~= keys.drop_last());
    } else {
        lemma_count_update(keys.drop_last(), i, v, k);
        assert(keys.update(i, v).drop_last() =~= keys.drop_last().update(i, v));
    }
}

/// Removing one text never raises a count.
pub proof fn lemma_count_remove(keys: Seq<Seq<char>>, i: int, k: Seq<char>)
    requires
        0 <= i < keys.len(),
    ensures
        count_text(keys.remove(i), k) <= count_text(keys, k),
    decreases keys.len(),
{
    if i == keys.len() - 1 {
        assert(keys.remove(i) =~= keys.drop_last());
    } else {
        lemma_count_remove(keys.drop_last(), i, k);
        assert(keys.remove(i).drop_last() =~= keys.drop_last().remove(i));
    }
}

/// Replacing a session by one with the same keys and bounds keeps the invariant.
proof fn lemma_replace_keeps_wf(c: UiSessionCoordinator, d: UiSessionCoordinator, i: int)
    requires
        c.wf(),
        0 <= i < c.sessions@.len(),
        d.sessions@ =~= c.sessions@.update(i, d.sessions@[i]),
        same_keys(c.sessions@[i], d.sessions@[i]),
        session_bounded(d.sessions@[i]),
        d.stale@.len() <= MAX_STALE_SESSION_EVIDENCE,
    ensures
        d.wf(),
{
    assert(extension_keys(d.sessions@) =~= extension_keys(c.sessions@));
    assert(connection_keys(d.sessions@) =~= connection_keys(c.sessions@));
    assert forall|a: int, b: int|
        0 <= a < d.sessions@.len() && 0 <= b < d.sessions@.len() && a != b implies #[trigger] d.sessions@[a].session_id@
            != #[trigger] d.sessions@[b].session_id@ by {
        assert(c.sessions@[a].session_id@ == d.sessions@[a].session_id@);
        assert(c.sessions@[b].session_id@ == d.sessions@[b].session_id@);
    }
    assert forall|j: int| 0 <= j < d.sessions@.len() implies session_bounded(#[trigger] d.sessions@[j]) by {
        if j != i {
            assert(d.sessions@[j] == c.sessions@[j]);
        }
    }
}

/// Removing a session keeps the invariant.
proof fn lemma_remove_keeps_wf(c: UiSessionCoordinator, d: UiSessionCoordinator, i: int)
    requires
        c.wf(),
        0 <= i < c.sessions@.len(),
        d.sessions@ == c.sessions@.remove(i),
        d.stale@.len() <= MAX_STALE_SESSION_EVIDENCE,
    ensures
        d.wf(),
{
    assert(extension_keys(d.sessions@) =~= extension_keys(c.sessions@).remove(i));
    assert(connection_keys(d.sessions@) =~= connection_keys(c.sessions@).remove(i));
    assert forall|e: Seq<char>| #[trigger] count_text(extension_keys(d.sessions@), e) <= MAX_SESSIONS_PER_EXTENSION by {
        lemma_count_remove(extension_keys(c.sessions@), i, e);
        assert(count_text(extension_keys(c.sessions@), e) <= MAX_SESSIONS_PER_EXTENSION);
    }
    assert forall|e: Seq<char>| #[trigger] count_text(connection_keys(d.sessions@), e) <= MAX_SESSIONS_PER_CONNECTION by {
        lemma_count_remove(connection_keys(c.sessions@), i, e);
        assert(count_text(connection_keys(c.sessions@), e) <= MAX_SESSIONS_PER_CONNECTION);
    }
    assert forall|a: int, b: int|
        0 <= a < d.sessions@.len() && 0 <= b < d.sessions@.len() && a != b implies #[trigger] d.sessions@[a].session_id@
            != #[trigger] d.sessions@[b].session_id@ by {
        let a0 = if a < i { a } else { a + 1 };
        let b0 = if b < i { b } else { b + 1 };
        assert(d.sessions@[a] == c.sessions@[a0]);
        assert(d.sessions@[b] == c.sessions@[b0]);
    }
    assert forall|j: int| 0 <= j < d.sessions@.len() implies session_bounded(#[trigger] d.sessions@[j]) by {
        let j0 = if j < i { j } else { j + 1 };
        assert(d.sessions@[j] == c.sessions@[j0]);
    }
}

/// A session found at `i` is the one `index_of` names.
proof fn lemma_index(c: UiSessionCoordinator, i: int)
    requires
        ids_unique(c.sessions@),
        0 <= i < c.sessions@.len(),
    ensures
        c.has_session(c.sessions@[i].session_id@),
        c.index_of(c.sessions@[i].session_id@) == i,
{
    let id = c.sessions@[i].session_id@;
    assert(c.sessions@[i].session_id@ == id);
    let k = c.index_of(id);
    assert(0 <= k < c.sessions@.len() && c.sessions@[k].session_id@ == id);
}

impl UiSessionCoordinator {
    /// Finds a session by identifier.
    pub fn find(&self, session_id: &str) -> (r: Option<usize>)
        requires
            self.wf(),
        ensures
            match r {
                Some(i) => self.has_session(session_id@) && i as int == self.index_of(session_id@),
                None => !self.has_session(session_id@),
            },
    {
        let mut i: usize = 0;
        while i < self.sessions.len()
            invariant
                self.wf(),
                i <= self.sessions@.len(),
                forall|j: int| 0 <= j < i ==> #[trigger] self.sessions@[j].session_id@ != session_id@,
            decreases self.sessions@.len() - i,
        {
            if crate::text::str_eq(self.sessions[i].session_id.as_str(), session_id) {
                proof {
                    lemma_index(*self, i as int);
                }
                return Some(i);
            }
            i = i + 1;
        }
        None
    }

    fn stale_owned_exec(&self, principal: &str, connection_id: &str, session_id: &str) -> (r: bool)
        ensures
            r == self.stale_owned(principal@, connection_id@, session_id@),
    {
        let mut i: usize = 0;
        while i < self.stale.len()
            invariant
                i <= self.stale@.len(),
                forall|j: int|
                    0 <= j < i ==> !(#[trigger] self.stale@[j].session_id@ == session_id@
                        && self.stale@[j].client_principal_id@ == principal@
                        && self.stale@[j].client_connection_id@ == connection_id@),
            decreases self.stale@.len() - i,
        {
            let e = &self.stale[i];
            if crate::text::str_eq(e.session_id.as_str(), session_id)
                && crate::text::str_eq(e.client_principal_id.as_str(), principal)
                && crate::text::str_eq(e.client_connection_id.as_str(), connection_id)
            {
                return true;
            }
            i = i + 1;
        }
        false
    }

    /// Finds the caller's active session, answering `session_stale` for the
    /// caller's closing or closed session and `session_not_found` otherwise.
    pub fn owned_index(&self, access: &AccessContext, connection_id: &str, session_id: &str) -> (r: Result<usize, M7Error>)
        requires
            self.wf(),
        ensures
            match r {
                Ok(i) => self.owned_lookup(access@.principal, connection_id@, session_id@) == Ok::<int, M7ErrorCode>(i as int),
                Err(e) => self.owned_lookup(access@.principal, connection_id@, session_id@) == Err::<int, M7ErrorCode>(e.spec_code()),
            },
    {
        let principal = access.principal().as_str();
        match self.find(session_id) {
            Some(i) => {
                let s = &self.sessions[i];
                if crate::text::str_eq(s.client_principal_id.as_str(), principal)
                    && crate::text::str_eq(s.client_connection_id.as_str(), connection_id)
                {
                    if s.state == UiSessionState::Active {
                        Ok(i)
                    } else {
                        Err(M7Error::new(M7ErrorCode::SessionStale))
                    }
                } else {
                    Err(M7Error::new(M7ErrorCode::SessionNotFound))
                }
            },
            None => {
                if self.stale_owned_exec(principal, connection_id, session_id) {
                    Err(M7Error::new(M7ErrorCode::SessionStale))
                } else {
                    Err(M7Error::new(M7ErrorCode::SessionNotFound))
                }
            },
        }
    }

    /// The caller's active session.
    pub fn owned_session(&self, access: &AccessContext, connection_id: &str, session_id: &str) -> (r: Result<&UiSession, M7Error>)
        requires
            self.wf(),
        ensures
            match r {
                Ok(s) => self.owned_lookup(access@.principal, connection_id@, session_id@) is Ok
                    && *s == self.sessions@[self.index_of(session_id@)],
                Err(e) => self.owned_lookup(access@.principal, connection_id@, session_id@) == Err::<int, M7ErrorCode>(e.spec_code()),
            },
    {
        match self.owned_index(access, connection_id, session_id) {
            Ok(i) => Ok(&self.sessions[i]),
            Err(e) => Err(e),
        }
    }
}


/// The session `reserve` stores: opening, one call in flight, a full rate
/// bucket, no document yet and a placeholder lease carrying the registry
/// row's grant and lifecycle.
pub open spec fn reserved_session(
    s: UiSession,
    access: crate::access::AccessView,
    connection_id: Seq<char>,
    client_instance_id: Seq<char>,
    record: ExtensionRecord,
    session_id: Seq<char>,
    locale: Seq<char>,
    now_ms: u64,
    idle_deadline_ms: u64,
    absolute_deadline_ms: u64,
) -> bool {
    &&& s.session_id@ == session_id
    &&& s.client_access@ == access
    &&& s.client_principal_id@ == access.principal
    &&& s.client_connection_id@ == connection_id
    &&& s.client_instance_id@ == client_instance_id
    &&& s.extension_id@ == record.extension_id@
    &&& s.extension_principal_id@.len() == 0
    &&& s.extension_instance_id@.len() == 0
    &&& s.package_digest@ == record.package_digest@
    &&& s.grant_revision == record.grant_revision@
    &&& s.lifecycle_generation == record.lifecycle_generation@
    &&& s.snapshot_revision == 0
    &&& s.locale@ == locale
    &&& s.created_at_ms == now_ms
    &&& s.absolute_deadline_ms == absolute_deadline_ms
    &&& s.idle_deadline_ms == idle_deadline_ms
    &&& s.next_sequence == 1
    &&& s.replay@.len() == 0
    &&& s.current_document@.len() == 0
    &&& s.lease.lease_id@.len() == 0
    &&& s.lease.extension_id@ == record.extension_id@
    &&& s.lease.instance_id@.len() == 0
    &&& s.lease.principal_id@ == access.principal
    &&& s.lease.publisher_fingerprint@ == record.publisher_fingerprint@
    &&& s.lease.grant_revision == record.grant_revision
    &&& s.lease.lifecycle_generation == record.lifecycle_generation
    &&& s.lease.daemon_epoch@.len() == 0
    &&& s.lease.expires_at_ms == 0
    &&& s.state == UiSessionState::Opening
    &&& s.in_flight
    &&& s.rate_tokens == RATE_CAPACITY_MILLI_TOKENS
    &&& s.rate_updated_at_ms == now_ms
    &&& s.client_violations@.len() == 0
}

impl UiSessionCoordinator {
    /// Whether a new session for this extension and connection would break a cap.
    pub open spec fn reserve_refused(self, extension_id: Seq<char>, connection_id: Seq<char>) -> bool {
        ||| self.sessions@.len() >= MAX_SESSIONS_TOTAL
        ||| count_text(extension_keys(self.sessions@), extension_id) >= MAX_SESSIONS_PER_EXTENSION
        ||| count_text(connection_keys(self.sessions@), connection_id) >= MAX_SESSIONS_PER_CONNECTION
    }

    /// Creates an empty coordinator.
    pub fn new() -> (r: Self)
        ensures
            r.wf(),
            r.sessions@.len() == 0,
            r.stale@.len() == 0,
    {
        let r = UiSessionCoordinator { sessions: Vec::new(), stale: Vec::new() };
        assert forall|e: Seq<char>| #[trigger] count_text(extension_keys(r.sessions@), e) <= MAX_SESSIONS_PER_EXTENSION by {
            assert(extension_keys(r.sessions@).len() == 0);
        }
        assert forall|e: Seq<char>| #[trigger] count_text(connection_keys(r.sessions@), e) <= MAX_SESSIONS_PER_CONNECTION by {
            assert(connection_keys(r.sessions@).len() == 0);
        }
        r
    }

    fn count_extension(&self, extension_id: &str) -> (r: usize)
        requires
            self.wf(),
        ensures
            r as nat == count_text(extension_keys(self.sessions@), extension_id@),
    {
        let mut n: usize = 0;
        let mut i: usize = 0;
        while i < self.sessions.len()
            invariant
                self.sessions@.len() <= MAX_SESSIONS_TOTAL,
                i <= self.sessions@.len(),
                n <= i,
                n as nat == count_text(extension_keys(self.sessions@.take(i as int)), extension_id@),
            decreases self.sessions@.len() - i,
        {
            proof {
                assert(extension_keys(self.sessions@.take(i + 1)) =~= extension_keys(
                    self.sessions@.take(i as int),
                ).push(self.sessions@[i as int].extension_id@));
                lemma_count_push(
                    extension_keys(self.sessions@.take(i as int)),
                    self.sessions@[i as int].extension_id@,
                    extension_id@,
                );
            }
            if crate::text::str_eq(self.sessions[i].extension_id.as_str(), extension_id) {
                n = n + 1;
            }
            i = i + 1;
        }
        assert(self.sessions@.take(i as int) =~= self.sessions@);
        n
    }

    fn count_connection(&self, connection_id: &str) -> (r: usize)
        requires
            self.wf(),
        ensures
            r as nat == count_text(connection_keys(self.sessions@), connection_id@),
    {
        let mut n: usize = 0;
        let mut i: usize = 0;
        while i < self.sessions.len()
            invariant
                self.sessions@.len() <= MAX_SESSIONS_TOTAL,
                i <= self.sessions@.len(),
                n <= i,
                n as nat == count_text(connection_keys(self.sessions@.take(i as int)), connection_id@),
            decreases self.sessions@.len() - i,
        {
            proof {
                assert(connection_keys(self.sessions@.take(i + 1)) =~= connection_keys(
                    self.sessions@.take(i as int),
                ).push(self.sessions@[i as int].client_connection_id@));
                lemma_count_push(
                    connection_keys(self.sessions@.take(i as int)),
                    self.sessions@[i as int].client_connection_id@,
                    connection_id@,
                );
            }
            if crate::text::str_eq(self.sessions[i].client_connection_id.as_str(), connection_id) {
                n = n + 1;
            }
            i = i + 1;
        }
        assert(self.sessions@.take(i as int) =~= self.sessions@);
        n
    }

    /// Reserves an opening session, refusing with `limit_exceeded` when the
    /// daemon, extension or connection cap is reached. A session with the
    /// same identifier is replaced.
    #[verifier::rlimit(30)]
    pub fn reserve(
        &mut self,
        access: &AccessContext,
        connection_id: &str,
        client_instance_id: &str,
        record: &ExtensionRecord,
        session_id: &str,
        locale: &str,
        now_ms: u64,
        idle_deadline_ms: u64,
        absolute_deadline_ms: u64,
    ) -> (r: Result<(), M7Error>)
        requires
            old(self).wf(),
        ensures
            final(self).wf(),
            r is Err <==> old(self).reserve_refused(record.extension_id@, connection_id@),
            r matches Err(e) ==> e.spec_code() == M7ErrorCode::LimitExceeded && *final(self) == *old(self),
            r is Ok ==> {
                &&& final(self).stale == old(self).stale
                &&& final(self).has_session(session_id@)
                &&& reserved_session(
                    final(self).sessions@[final(self).index_of(session_id@)],
                    access@,
                    connection_id@,
                    client_instance_id@,
                    *record,
                    session_id@,
                    locale@,
                    now_ms,
                    idle_deadline_ms,
                    absolute_deadline_ms,
                )
                &&& old(self).has_session(session_id@) ==> final(self).sessions@ == old(self).sessions@.update(
                    old(self).index_of(session_id@),
                    final(self).sessions@[old(self).index_of(session_id@)],
                )
                &&& !old(self).has_session(session_id@) ==> final(self).sessions@ == old(self).sessions@.push(
                    final(self).sessions@.last(),
                )
            },
    {
        if self.sessions.len() >= MAX_SESSIONS_TOTAL
            || self.count_extension(record.extension_id.as_str()) >= MAX_SESSIONS_PER_EXTENSION
            || self.count_connection(connection_id) >= MAX_SESSIONS_PER_CONNECTION
        {
            return Err(M7Error::new(M7ErrorCode::LimitExceeded));
        }
        let placeholder = ExtensionInstanceLease {
            lease_id: String::new(),
            extension_id: record.extension_id.clone(),
            instance_id: String::new(),
            principal_id: access.principal().duplicate(),
            publisher_fingerprint: record.publisher_fingerprint.clone(),
            grant_revision: record.grant_revision,
            lifecycle_generation: record.lifecycle_generation,
            daemon_epoch: String::new(),
            expires_at_ms: 0,
        };
        let session = UiSession {
            session_id: session_id.to_owned(),
            client_access: access.duplicate(),
            client_principal_id: access.principal().as_str().to_owned(),
            client_connection_id: connection_id.to_owned(),
            client_instance_id: client_instance_id.to_owned(),
            extension_id: record.extension_id.clone(),
            extension_principal_id: String::new(),
            extension_instance_id: String::new(),
            package_digest: record.package_digest,
            grant_revision: record.grant_revision.get(),
            lifecycle_generation: record.lifecycle_generation.get(),
            snapshot_revision: 0,
            locale: locale.to_owned(),
            created_at_ms: now_ms,
            absolute_deadline_ms,
            idle_deadline_ms,
            next_sequence: 1,
            replay: Vec::new(),
            current_document: Vec::new(),
            lease: placeholder,
            state: UiSessionState::Opening,
            in_flight: true,
            rate_tokens: RATE_CAPACITY_MILLI_TOKENS,
            rate_updated_at_ms: now_ms,
            invocation_current: Arc::new(AtomicBool::new(true)),
            client_violations: Vec::new(),
        };
        let ghost old_self = *self;
        let ghost new_keys = session;
        match self.find(session_id) {
            Some(i) => {
                self.sessions.set(i, session);
                proof {
                    let c = old_self;
                    let d = *self;
                    assert(d.sessions@ == c.sessions@.update(i as int, new_keys));
                    assert forall|e: Seq<char>| #[trigger] count_text(extension_keys(d.sessions@), e) <= MAX_SESSIONS_PER_EXTENSION by {
                        assert(extension_keys(d.sessions@) =~= extension_keys(c.sessions@).update(i as int, new_keys.extension_id@));
                        lemma_count_update(extension_keys(c.sessions@), i as int, new_keys.extension_id@, e);
                    }
                    assert forall|e: Seq<char>| #[trigger] count_text(connection_keys(d.sessions@), e) <= MAX_SESSIONS_PER_CONNECTION by {
                        assert(connection_keys(d.sessions@) =~= connection_keys(c.sessions@).update(i as int, new_keys.client_connection_id@));
                        lemma_count_update(connection_keys(c.sessions@), i as int, new_keys.client_connection_id@, e);
                    }
                    assert forall|a: int, b: int|
                        0 <= a < d.sessions@.len() && 0 <= b < d.sessions@.len() && a != b implies #[trigger] d.sessions@[a].session_id@
                            != #[trigger] d.sessions@[b].session_id@ by {
                        if a != i && b != i {
                            assert(c.sessions@[a] == d.sessions@[a]);
                            assert(c.sessions@[b] == d.sessions@[b]);
                        } else if a == i {
                            assert(c.sessions@[b] == d.sessions@[b]);
                            assert(c.sessions@[i as int].session_id@ == session_id@);
                        } else {
                            assert(c.sessions@[a] == d.sessions@[a]);
                            assert(c.sessions@[i as int].session_id@ == session_id@);
                        }
                    }
                    assert forall|j: int| 0 <= j < d.sessions@.len() implies session_bounded(#[trigger] d.sessions@[j]) by {
                        if j != i {
                            assert(d.sessions@[j] == c.sessions@[j]);
                        }
                    }
                    lemma_index(d, i as int);
                }
            },
            None => {
                self.sessions.push(session);
                proof {
                    let c = old_self;
                    let d = *self;
                    let n = c.sessions@.len();
                    assert(d.sessions@ == c.sessions@.push(new_keys));
                    assert forall|e: Seq<char>| #[trigger] count_text(extension_keys(d.sessions@), e) <= MAX_SESSIONS_PER_EXTENSION by {
                        assert(extension_keys(d.sessions@) =~= extension_keys(c.sessions@).push(new_keys.extension_id@));
                        lemma_count_push(extension_keys(c.sessions@), new_keys.extension_id@, e);
                    }
                    assert forall|e: Seq<char>| #[trigger] count_text(connection_keys(d.sessions@), e) <= MAX_SESSIONS_PER_CONNECTION by {
                        assert(connection_keys(d.sessions@) =~= connection_keys(c.sessions@).push(new_keys.client_connection_id@));
                        lemma_count_push(connection_keys(c.sessions@), new_keys.client_connection_id@, e);
                    }
                    assert forall|a: int, b: int|
                        0 <= a < d.sessions@.len() && 0 <= b < d.sessions@.len() && a != b implies #[trigger] d.sessions@[a].session_id@
                            != #[trigger] d.sessions@[b].session_id@ by {
                        if a < n && b < n {
                            assert(c.sessions@[a] == d.sessions@[a]);
                            assert(c.sessions@[b] == d.sessions@[b]);
                        } else if a == n {
                            assert(c.sessions@[b] == d.sessions@[b]);
                            assert(c.sessions@[b].session_id@ != session_id@);
                        } else {
                            assert(c.sessions@[a] == d.sessions@[a]);
                            assert(c.sessions@[a].session_id@ != session_id@);
                        }
                    }
                    assert forall|j: int| 0 <= j < d.sessions@.len() implies session_bounded(#[trigger] d.sessions@[j]) by {
                        if j < n {
                            assert(d.sessions@[j] == c.sessions@[j]);
                        }
                    }
                    lemma_index(d, n as int);
                }
            },
        }
        Ok(())
    }
}


impl UiSessionCoordinator {
    /// Binds the started Host lease to a reserved session.
    pub fn bind_lease(&mut self, session_id: &str, lease: &ExtensionInstanceLease) -> (r: Result<(), M7Error>)
        requires
            old(self).wf(),
        ensures
            final(self).wf(),
            r is Ok <==> old(self).has_session(session_id@),
            r matches Err(e) ==> e.spec_code() == M7ErrorCode::SessionStale && *final(self) == *old(self),
            r is Ok ==> {
                let i = old(self).index_of(session_id@);
                let s = final(self).sessions@[i];
                &&& final(self).stale == old(self).stale
                &&& final(self).sessions@ == old(self).sessions@.update(i, s)
                &&& s == (UiSession {
                    extension_principal_id: s.extension_principal_id,
                    extension_instance_id: s.extension_instance_id,
                    lease: s.lease,
                    ..old(self).sessions@[i]
                })
                &&& s.extension_principal_id@ == lease.principal_id@
                &&& s.extension_instance_id@ == lease.instance_id@
                &&& lease_same(s.lease, *lease)
            },
    {
        let i = match self.find(session_id) {
            Some(i) => i,
            None => return Err(M7Error::new(M7ErrorCode::SessionStale)),
        };
        let ghost old_self = *self;
        self.sessions[i].extension_principal_id = lease.principal_id.as_str().to_owned();
        self.sessions[i].extension_instance_id = lease.instance_id.clone();
        self.sessions[i].lease = lease.duplicate();
        proof {
            lemma_replace_keeps_wf(old_self, *self, i as int);
        }
        Ok(())
    }

    /// Authority for a guest call on a session owned by the caller that is
    /// not closing, carrying the given snapshot revision.
    pub fn invocation(
        &self,
        session_id: &str,
        access: &AccessContext,
        connection_id: &str,
        kind: ExtensionInvocationKind,
        snapshot_revision: u64,
        now_ms: u64,
    ) -> (r: Result<ExtensionUiInvocationAuthority, M7Error>)
        requires
            self.wf(),
        ensures
            ({
                let usable = self.has_session(session_id@) && {
                    let s = self.sessions@[self.index_of(session_id@)];
                    s.client_principal_id@ == access@.principal && s.client_connection_id@
                        == connection_id@ && s.state != UiSessionState::Closing
                };
                &&& !usable ==> (r matches Err(e) && e.spec_code() == M7ErrorCode::SessionStale)
                &&& usable ==> {
                    let s = self.sessions@[self.index_of(session_id@)];
                    &&& r is Ok <==> now_ms + UI_CALL_BUDGET_MS <= u64::MAX
                    &&& r matches Err(e) ==> e.spec_code() == M7ErrorCode::Internal
                    &&& r matches Ok(a) ==> {
                        &&& a.kind == kind
                        &&& a.client_access@ == access@
                        &&& a.client_connection_id@ == s.client_connection_id@
                        &&& a.client_instance_id@ == s.client_instance_id@
                        &&& a.session_id@ == s.session_id@
                        &&& a.snapshot_revision == snapshot_revision
                        &&& a.deadline_ms == call_deadline(s, now_ms)
                        &&& a.current == s.invocation_current
                    }
                }
            }),
    {
        let i = match self.find(session_id) {
            Some(i) => i,
            None => return Err(M7Error::new(M7ErrorCode::SessionStale)),
        };
        let s = &self.sessions[i];
        if !crate::text::str_eq(s.client_principal_id.as_str(), access.principal().as_str())
            || !crate::text::str_eq(s.client_connection_id.as_str(), connection_id)
            || s.state == UiSessionState::Closing
        {
            return Err(M7Error::new(M7ErrorCode::SessionStale));
        }
        let mut authority = s.invocation(access.duplicate(), kind, now_ms)?;
        authority.snapshot_revision = snapshot_revision;
        Ok(authority)
    }

    /// Publishes the first document of an opening session: revision one, no
    /// call in flight, active, idle deadline restarted. When the idle deadline
    /// overflows the call fails with `internal` after the session has been
    /// updated.
    pub fn commit_open(&mut self, session_id: &str, document: Vec<u8>, now_ms: u64) -> (r: Result<M7UiSnapshot, M7Error>)
        requires
            old(self).wf(),
        ensures
            final(self).wf(),
            ({
                let opening = old(self).has_session(session_id@)
                    && old(self).sessions@[old(self).index_of(session_id@)].state == UiSessionState::Opening;
                &&& !opening ==> (r matches Err(e) && e.spec_code() == M7ErrorCode::SessionStale
                    && *final(self) == *old(self))
                &&& opening ==> {
                    let i = old(self).index_of(session_id@);
                    let fits = now_ms + UI_IDLE_TIMEOUT_MS <= u64::MAX;
                    &&& final(self).stale == old(self).stale
                    &&& final(self).sessions@ == old(self).sessions@.update(i, UiSession {
                        snapshot_revision: 1,
                        current_document: document,
                        in_flight: false,
                        state: UiSessionState::Active,
                        idle_deadline_ms: if fits {
                            (now_ms + UI_IDLE_TIMEOUT_MS) as u64
                        } else {
                            old(self).sessions@[i].idle_deadline_ms
                        },
                        ..old(self).sessions@[i]
                    })
                    &&& r is Ok <==> fits
                    &&& r matches Err(e) ==> e.spec_code() == M7ErrorCode::Internal
                    &&& r matches Ok(snap) ==> snap.session_id@ == session_id@ && snap.snapshot_revision == 1
                        && snap.document@ == document@
                }
            }),
    {
        let i = match self.find(session_id) {
            Some(i) => i,
            None => return Err(M7Error::new(M7ErrorCode::SessionStale)),
        };
        if self.sessions[i].state != UiSessionState::Opening {
            return Err(M7Error::new(M7ErrorCode::SessionStale));
        }
        let ghost old_self = *self;
        self.sessions[i].snapshot_revision = 1;
        self.sessions[i].current_document = document;
        self.sessions[i].in_flight = false;
        self.sessions[i].state = UiSessionState::Active;
        let idle = now_ms.checked_add(UI_IDLE_TIMEOUT_MS);
        match idle {
            Some(deadline) => {
                self.sessions[i].idle_deadline_ms = deadline;
            },
            None => {
                proof {
                    lemma_replace_keeps_wf(old_self, *self, i as int);
                }
                return Err(internal());
            },
        }
        proof {
            lemma_replace_keeps_wf(old_self, *self, i as int);
        }
        Ok(self.sessions[i].snapshot())
    }

    /// Starts a guest call on the caller's session: after the access gate it
    /// refuses a second call in flight (`action_invalid`), a stale expected
    /// revision (`snapshot_stale`) and an empty rate bucket
    /// (`limit_exceeded`, keeping the refill), then marks the call in flight
    /// and returns a copy of the session.
    #[verifier::rlimit(30)]
    pub fn prepare_call(
        &mut self,
        access: &AccessContext,
        connection_id: &str,
        session_id: &str,
        expected_snapshot_revision: u64,
        now_ms: u64,
    ) -> (r: Result<UiSession, M7Error>)
        requires
            old(self).wf(),
        ensures
            final(self).wf(),
            final(self).stale == old(self).stale,
            ({
                let gate = old(self).call_gate(access@, connection_id@, session_id@, expected_snapshot_revision, now_ms);
                &&& gate is Some ==> (r matches Err(e) && gate == Some(e.spec_code()) && *final(self) == *old(self))
                &&& gate is None ==> {
                    let i = old(self).index_of(session_id@);
                    let s = old(self).sessions@[i];
                    let t = refilled_tokens(s.rate_tokens, s.rate_updated_at_ms, now_ms);
                    &&& r is Ok <==> t >= RATE_TOKEN_COST
                    &&& r matches Err(e) ==> e.spec_code() == M7ErrorCode::LimitExceeded
                        && final(self).sessions@ == old(self).sessions@.update(i, UiSession {
                            rate_tokens: t as u64,
                            rate_updated_at_ms: now_ms,
                            ..s
                        })
                    &&& r matches Ok(copy) ==> final(self).sessions@ == old(self).sessions@.update(i, UiSession {
                            rate_tokens: (t - RATE_TOKEN_COST) as u64,
                            rate_updated_at_ms: now_ms,
                            in_flight: true,
                            ..s
                        }) && session_same(copy, final(self).sessions@[i])
                }
            }),
    {
        let i = self.owned_index(access, connection_id, session_id)?;
        self.sessions[i].check_live(now_ms)?;
        require_ui_access(access, self.sessions[i].extension_id.as_str())?;
        if self.sessions[i].in_flight {
            return Err(M7Error::new(M7ErrorCode::ActionInvalid));
        }
        if expected_snapshot_revision != self.sessions[i].snapshot_revision {
            return Err(M7Error::new(M7ErrorCode::SnapshotStale));
        }
        let ghost old_self = *self;
        let rate = self.sessions[i].consume_rate(now_ms);
        proof {
            lemma_replace_keeps_wf(old_self, *self, i as int);
        }
        if rate.is_err() {
            return Err(M7Error::new(M7ErrorCode::LimitExceeded));
        }
        let ghost mid = *self;
        self.sessions[i].in_flight = true;
        proof {
            lemma_replace_keeps_wf(mid, *self, i as int);
        }
        Ok(self.sessions[i].duplicate())
    }

    /// The current document of a held session.
    pub fn current_document(&self, session_id: &str) -> (r: Result<&[u8], M7Error>)
        requires
            self.wf(),
        ensures
            r is Ok <==> self.has_session(session_id@),
            r matches Ok(d) ==> d@ == self.sessions@[self.index_of(session_id@)].current_document@,
            r matches Err(e) ==> e.spec_code() == M7ErrorCode::SessionNotFound,
    {
        match self.find(session_id) {
            Some(i) => Ok(self.sessions[i].current_document.as_slice()),
            None => Err(M7Error::new(M7ErrorCode::SessionNotFound)),
        }
    }

    /// Ends a failed guest call on an active session.
    pub fn finish_failed_call(&mut self, session_id: &str)
        requires
            old(self).wf(),
        ensures
            final(self).wf(),
            final(self).stale == old(self).stale,
            ({
                let active = old(self).has_session(session_id@)
                    && old(self).sessions@[old(self).index_of(session_id@)].state == UiSessionState::Active;
                &&& !active ==> *final(self) == *old(self)
                &&& active ==> final(self).sessions@ == old(self).sessions@.update(
                    old(self).index_of(session_id@),
                    UiSession { in_flight: false, ..old(self).sessions@[old(self).index_of(session_id@)] },
                )
            }),
    {
        if let Some(i) = self.find(session_id) {
            if self.sessions[i].state == UiSessionState::Active {
                let ghost old_self = *self;
                self.sessions[i].in_flight = false;
                proof {
                    lemma_replace_keeps_wf(old_self, *self, i as int);
                }
            }
        }
    }

    /// Publishes a refreshed document of an active session: next revision,
    /// no call in flight, idle deadline restarted. At the revision limit the
    /// call fails with `internal` and changes nothing; when only the idle
    /// deadline overflows it fails after the session has been updated.
    pub fn commit_refresh(&mut self, session_id: &str, document: Vec<u8>, now_ms: u64) -> (r: Result<M7UiSnapshot, M7Error>)
        requires
            old(self).wf(),
        ensures
            final(self).wf(),
            final(self).stale == old(self).stale,
            ({
                let active = old(self).has_session(session_id@)
                    && old(self).sessions@[old(self).index_of(session_id@)].state == UiSessionState::Active;
                &&& !active ==> (r matches Err(e) && e.spec_code() == M7ErrorCode::SessionStale
                    && *final(self) == *old(self))
                &&& active ==> {
                    let i = old(self).index_of(session_id@);
                    let s = old(self).sessions@[i];
                    let fits = now_ms + UI_IDLE_TIMEOUT_MS <= u64::MAX;
                    &&& s.snapshot_revision == u64::MAX ==> (r matches Err(e) && e.spec_code() == M7ErrorCode::Internal
                        && *final(self) == *old(self))
                    &&& s.snapshot_revision < u64::MAX ==> {
                        &&& final(self).sessions@ == old(self).sessions@.update(i, UiSession {
                            snapshot_revision: (s.snapshot_revision + 1) as u64,
                            current_document: document,
                            in_flight: false,
                            idle_deadline_ms: if fits {
                                (now_ms + UI_IDLE_TIMEOUT_MS) as u64
                            } else {
                                s.idle_deadline_ms
                            },
                            ..s
                        })
                        &&& r is Ok <==> fits
                        &&& r matches Err(e) ==> e.spec_code() == M7ErrorCode::Internal
                        &&& r matches Ok(snap) ==> snap.session_id@ == session_id@
                            && snap.snapshot_revision == s.snapshot_revision + 1 && snap.document@ == document@
                    }
                }
            }),
    {
        let i = match self.find(session_id) {
            Some(i) => i,
            None => return Err(M7Error::new(M7ErrorCode::SessionStale)),
        };
        if self.sessions[i].state != UiSessionState::Active {
            return Err(M7Error::new(M7ErrorCode::SessionStale));
        }
        let revision = match self.sessions[i].snapshot_revision.checked_add(1) {
            Some(value) => value,
            None => return Err(internal()),
        };
        let ghost old_self = *self;
        self.sessions[i].snapshot_revision = revision;
        self.sessions[i].current_document = document;
        self.sessions[i].in_flight = false;
        match now_ms.checked_add(UI_IDLE_TIMEOUT_MS) {
            Some(deadline) => {
                self.sessions[i].idle_deadline_ms = deadline;
            },
            None => {
                proof {
                    lemma_replace_keeps_wf(old_self, *self, i as int);
                }
                return Err(internal());
            },
        }
        proof {
            lemma_replace_keeps_wf(old_self, *self, i as int);
        }
        Ok(self.sessions[i].snapshot())
    }
}


/// A replay entry answers a request with the same identifier or sequence.
pub open spec fn replay_hits(e: ReplayEntry, request_id: Seq<char>, sequence: u64) -> bool {
    e.request_id@ == request_id || e.sequence == sequence
}

/// Some replay entry answers the request.
pub open spec fn has_replay_hit(log: Seq<ReplayEntry>, request_id: Seq<char>, sequence: u64) -> bool {
    exists|k: int| 0 <= k < log.len() && replay_hits(#[trigger] log[k], request_id, sequence)
}

/// The oldest replay entry that answers the request.
pub open spec fn first_replay_hit(log: Seq<ReplayEntry>, request_id: Seq<char>, sequence: u64) -> int {
    choose|k: int|
        0 <= k < log.len() && replay_hits(#[trigger] log[k], request_id, sequence) && forall|j: int|
            0 <= j < k ==> !replay_hits(#[trigger] log[j], request_id, sequence)
}

/// The request repeats the committed one exactly.
pub open spec fn replay_exact(e: ReplayEntry, request_id: Seq<char>, sequence: u64, expected: u64, fingerprint: Seq<u8>) -> bool {
    &&& e.request_id@ == request_id
    &&& e.sequence == sequence
    &&& e.expected_snapshot_revision == expected
    &&& e.fingerprint@ == fingerprint
}

/// Finds the oldest replay entry with the request's identifier or sequence.
fn find_replay(log: &Vec<ReplayEntry>, request_id: &str, sequence: u64) -> (r: Option<usize>)
    ensures
        match r {
            Some(k) => has_replay_hit(log@, request_id@, sequence) && k as int == first_replay_hit(
                log@,
                request_id@,
                sequence,
            ),
            None => !has_replay_hit(log@, request_id@, sequence),
        },
{
    let mut k: usize = 0;
    while k < log.len()
        invariant
            k <= log@.len(),
            forall|j: int| 0 <= j < k ==> !replay_hits(#[trigger] log@[j], request_id@, sequence),
        decreases log@.len() - k,
    {
        if crate::text::str_eq(log[k].request_id.as_str(), request_id) || log[k].sequence == sequence {
            proof {
                assert(replay_hits(log@[k as int], request_id@, sequence));
                let c = first_replay_hit(log@, request_id@, sequence);
                assert(0 <= c < log@.len() && replay_hits(log@[c], request_id@, sequence) && forall|j: int|
                    0 <= j < c ==> !replay_hits(#[trigger] log@[j], request_id@, sequence));
                if c < k {
                    assert(!replay_hits(log@[c], request_id@, sequence));
                }
                if k < c {
                    assert(!replay_hits(log@[k as int], request_id@, sequence));
                }
            }
            return Some(k);
        }
        k = k + 1;
    }
    None
}

impl UiSessionCoordinator {
    /// Answers a dispatched action from the replay log. After the access
    /// gate, a request whose identifier or sequence was committed before is
    /// replayed only when it repeats that request exactly (`action_invalid`
    /// otherwise) and its result is still the current snapshot
    /// (`snapshot_stale` otherwise), and costs a rate token. A new request
    /// must carry the next sequence and the current revision; it returns
    /// `None` and changes nothing.
    #[verifier::rlimit(40)]
    pub fn replay(
        &mut self,
        access: &AccessContext,
        connection_id: &str,
        session_id: &str,
        expected_snapshot_revision: u64,
        sequence: u64,
        request_id: &str,
        fingerprint: [u8; 32],
        now_ms: u64,
    ) -> (r: Result<Option<M7UiDispatchResult>, M7Error>)
        requires
            old(self).wf(),
        ensures
            final(self).wf(),
            final(self).stale == old(self).stale,
            ({
                let gate = old(self).access_gate(access@, connection_id@, session_id@, now_ms);
                &&& gate is Some ==> (r matches Err(e) && gate == Some(e.spec_code()) && *final(self) == *old(self))
                &&& gate is None ==> {
                    let i = old(self).index_of(session_id@);
                    let s = old(self).sessions@[i];
                    if has_replay_hit(s.replay@, request_id@, sequence) {
                        let e = s.replay@[first_replay_hit(s.replay@, request_id@, sequence)];
                        if !replay_exact(e, request_id@, sequence, expected_snapshot_revision, fingerprint@) {
                            r matches Err(x) && x.spec_code() == M7ErrorCode::ActionInvalid && *final(self) == *old(self)
                        } else if e.resulting_snapshot_revision != s.snapshot_revision {
                            r matches Err(x) && x.spec_code() == M7ErrorCode::SnapshotStale && *final(self) == *old(self)
                        } else {
                            let t = refilled_tokens(s.rate_tokens, s.rate_updated_at_ms, now_ms);
                            if t < RATE_TOKEN_COST {
                                r matches Err(x) && x.spec_code() == M7ErrorCode::LimitExceeded
                                    && final(self).sessions@ == old(self).sessions@.update(i, UiSession {
                                        rate_tokens: t as u64,
                                        rate_updated_at_ms: now_ms,
                                        ..s
                                    })
                            } else {
                                r matches Ok(Some(res)) && res.replayed && res.snapshot.session_id@ == s.session_id@
                                    && res.snapshot.snapshot_revision == e.resulting_snapshot_revision
                                    && res.snapshot.document@ == e.resulting_document@
                                    && final(self).sessions@ == old(self).sessions@.update(i, UiSession {
                                        rate_tokens: (t - RATE_TOKEN_COST) as u64,
                                        rate_updated_at_ms: now_ms,
                                        ..s
                                    })
                            }
                        }
                    } else if sequence != s.next_sequence {
                        r matches Err(x) && x.spec_code() == M7ErrorCode::ActionInvalid && *final(self) == *old(self)
                    } else if expected_snapshot_revision != s.snapshot_revision {
                        r matches Err(x) && x.spec_code() == M7ErrorCode::SnapshotStale && *final(self) == *old(self)
                    } else {
                        r matches Ok(None) && *final(self) == *old(self)
                    }
                }
            }),
    {
        let i = self.owned_index(access, connection_id, session_id)?;
        self.sessions[i].check_live(now_ms)?;
        require_ui_access(access, self.sessions[i].extension_id.as_str())?;
        match find_replay(&self.sessions[i].replay, request_id, sequence) {
            Some(k) => {
                let exact = crate::text::str_eq(self.sessions[i].replay[k].request_id.as_str(), request_id)
                    && self.sessions[i].replay[k].sequence == sequence
                    && self.sessions[i].replay[k].expected_snapshot_revision == expected_snapshot_revision
                    && digest_eq(&self.sessions[i].replay[k].fingerprint, &fingerprint);
                if !exact {
                    return Err(M7Error::new(M7ErrorCode::ActionInvalid));
                }
                if self.sessions[i].replay[k].resulting_snapshot_revision != self.sessions[i].snapshot_revision {
                    return Err(M7Error::new(M7ErrorCode::SnapshotStale));
                }
                let ghost old_self = *self;
                let rate = self.sessions[i].consume_rate(now_ms);
                proof {
                    lemma_replace_keeps_wf(old_self, *self, i as int);
                }
                if rate.is_err() {
                    return Err(M7Error::new(M7ErrorCode::LimitExceeded));
                }
                let snapshot = M7UiSnapshot {
                    session_id: self.sessions[i].session_id.clone(),
                    snapshot_revision: self.sessions[i].replay[k].resulting_snapshot_revision,
                    document: copy_bytes(&self.sessions[i].replay[k].resulting_document),
                };
                Ok(Some(M7UiDispatchResult { snapshot, replayed: true }))
            },
            None => {
                if sequence != self.sessions[i].next_sequence {
                    return Err(M7Error::new(M7ErrorCode::ActionInvalid));
                }
                if expected_snapshot_revision != self.sessions[i].snapshot_revision {
                    return Err(M7Error::new(M7ErrorCode::SnapshotStale));
                }
                Ok(None)
            },
        }
    }

    /// Publishes the document a dispatched action produced and records the
    /// action for exact replay, keeping the newest entries only. A session
    /// that is not active, or whose revision or sequence moved on, answers
    /// `session_stale`; at the revision or sequence limit the call fails with
    /// `internal` and changes nothing; when only the idle deadline overflows
    /// it fails after the document was published and before the action is
    /// recorded.
    #[verifier::rlimit(40)]
    pub fn commit_dispatch(
        &mut self,
        session_id: &str,
        expected_snapshot_revision: u64,
        sequence: u64,
        request_id: String,
        fingerprint: [u8; 32],
        document: Vec<u8>,
        now_ms: u64,
    ) -> (r: Result<M7UiDispatchResult, M7Error>)
        requires
            old(self).wf(),
        ensures
            final(self).wf(),
            final(self).stale == old(self).stale,
            ({
                let active = old(self).has_session(session_id@)
                    && old(self).sessions@[old(self).index_of(session_id@)].state == UiSessionState::Active;
                &&& !active ==> (r matches Err(e) && e.spec_code() == M7ErrorCode::SessionStale
                    && *final(self) == *old(self))
                &&& active ==> {
                    let i = old(self).index_of(session_id@);
                    let s = old(self).sessions@[i];
                    if s.snapshot_revision != expected_snapshot_revision || s.next_sequence != sequence {
                        r matches Err(e) && e.spec_code() == M7ErrorCode::SessionStale && *final(self) == *old(self)
                    } else if s.snapshot_revision == u64::MAX || s.next_sequence == u64::MAX {
                        r matches Err(e) && e.spec_code() == M7ErrorCode::Internal && *final(self) == *old(self)
                    } else {
                        let f = final(self).sessions@[i];
                        let fits = now_ms + UI_IDLE_TIMEOUT_MS <= u64::MAX;
                        let log = s.replay@;
                        let trimmed = log.len() + 1 > MAX_REPLAY_ENTRIES;
                        &&& final(self).sessions@ == old(self).sessions@.update(i, f)
                        &&& f == (UiSession {
                            snapshot_revision: (s.snapshot_revision + 1) as u64,
                            next_sequence: (s.next_sequence + 1) as u64,
                            current_document: f.current_document,
                            in_flight: false,
                            idle_deadline_ms: f.idle_deadline_ms,
                            replay: f.replay,
                            ..s
                        })
                        &&& f.current_document@ == document@
                        &&& r is Ok <==> fits
                        &&& !fits ==> (r matches Err(e) && e.spec_code() == M7ErrorCode::Internal
                            && f.idle_deadline_ms == s.idle_deadline_ms && f.replay == s.replay)
                        &&& fits ==> {
                            &&& f.idle_deadline_ms == now_ms + UI_IDLE_TIMEOUT_MS
                            &&& f.replay@.len() == if trimmed { log.len() } else { log.len() + 1 }
                            &&& f.replay@.drop_last() == if trimmed { log.skip(1) } else { log }
                            &&& f.replay@.last().sequence == sequence
                            &&& f.replay@.last().request_id == request_id
                            &&& f.replay@.last().expected_snapshot_revision == expected_snapshot_revision
                            &&& f.replay@.last().fingerprint == fingerprint
                            &&& f.replay@.last().resulting_snapshot_revision == s.snapshot_revision + 1
                            &&& f.replay@.last().resulting_document@ == document@
                            &&& r matches Ok(res) && !res.replayed && res.snapshot.session_id@ == s.session_id@
                                && res.snapshot.snapshot_revision == s.snapshot_revision + 1
                                && res.snapshot.document@ == document@
                        }
                    }
                }
            }),
    {
        let i = match self.find(session_id) {
            Some(i) => i,
            None => return Err(M7Error::new(M7ErrorCode::SessionStale)),
        };
        if self.sessions[i].state != UiSessionState::Active {
            return Err(M7Error::new(M7ErrorCode::SessionStale));
        }
        if self.sessions[i].snapshot_revision != expected_snapshot_revision
            || self.sessions[i].next_sequence != sequence
        {
            return Err(M7Error::new(M7ErrorCode::SessionStale));
        }
        let revision = match self.sessions[i].snapshot_revision.checked_add(1) {
            Some(value) => value,
            None => return Err(internal()),
        };
        let next_sequence = match self.sessions[i].next_sequence.checked_add(1) {
            Some(value) => value,
            None => return Err(internal()),
        };
        let ghost old_self = *self;
        self.sessions[i].next_sequence = next_sequence;
        self.sessions[i].snapshot_revision = revision;
        self.sessions[i].current_document = copy_bytes(&document);
        self.sessions[i].in_flight = false;
        match now_ms.checked_add(UI_IDLE_TIMEOUT_MS) {
            Some(deadline) => {
                self.sessions[i].idle_deadline_ms = deadline;
            },
            None => {
                proof {
                    lemma_replace_keeps_wf(old_self, *self, i as int);
                }
                return Err(internal());
            },
        }
        let ghost log = old_self.sessions@[i as int].replay@;
        self.sessions[i].replay.push(ReplayEntry {
            sequence,
            request_id,
            expected_snapshot_revision,
            fingerprint,
            resulting_snapshot_revision: revision,
            resulting_document: document,
        });
        if self.sessions[i].replay.len() > MAX_REPLAY_ENTRIES {
            self.sessions[i].replay.remove(0);
            proof {
                assert(self.sessions@[i as int].replay@.drop_last() =~= log.skip(1));
            }
        } else {
            proof {
                assert(self.sessions@[i as int].replay@.drop_last() =~= log);
            }
        }
        proof {
            lemma_replace_keeps_wf(old_self, *self, i as int);
        }
        Ok(M7UiDispatchResult { snapshot: self.sessions[i].snapshot(), replayed: false })
    }
}


/// An active session on this connection.
pub open spec fn closable_on(s: UiSession, connection_id: Seq<char>) -> bool {
    s.client_connection_id@ == connection_id && s.state == UiSessionState::Active
}

/// An active session past its idle or absolute deadline.
pub open spec fn expired_at(s: UiSession, now_ms: u64) -> bool {
    s.state == UiSessionState::Active && (now_ms >= s.idle_deadline_ms || now_ms >= s.absolute_deadline_ms)
}

/// The active sessions of a connection, in order.
pub open spec fn select_on_connection(s: Seq<UiSession>, connection_id: Seq<char>) -> Seq<UiSession>
    decreases s.len(),
{
    if s.len() == 0 {
        s
    } else {
        let rest = select_on_connection(s.drop_last(), connection_id);
        if closable_on(s.last(), connection_id) {
            rest.push(s.last())
        } else {
            rest
        }
    }
}

/// The expired active sessions, in order.
pub open spec fn select_expired(s: Seq<UiSession>, now_ms: u64) -> Seq<UiSession>
    decreases s.len(),
{
    if s.len() == 0 {
        s
    } else {
        let rest = select_expired(s.drop_last(), now_ms);
        if expired_at(s.last(), now_ms) {
            rest.push(s.last())
        } else {
            rest
        }
    }
}

/// The active sessions, in order.
pub open spec fn select_active(s: Seq<UiSession>) -> Seq<UiSession>
    decreases s.len(),
{
    if s.len() == 0 {
        s
    } else {
        let rest = select_active(s.drop_last());
        if s.last().state == UiSessionState::Active {
            rest.push(s.last())
        } else {
            rest
        }
    }
}

/// The sessions of other extensions, in order.
pub open spec fn without_extension(s: Seq<UiSession>, extension_id: Seq<char>) -> Seq<UiSession>
    decreases s.len(),
{
    if s.len() == 0 {
        s
    } else {
        let rest = without_extension(s.drop_last(), extension_id);
        if s.last().extension_id@ == extension_id {
            rest
        } else {
            rest.push(s.last())
        }
    }
}

/// The violation window after dropping instants at least a window old.
pub open spec fn pruned_violations(v: Seq<u64>, now_ms: u64) -> Seq<u64>
    decreases v.len(),
{
    if v.len() > 0 && (if now_ms >= v[0] { now_ms - v[0] } else { 0 }) >= CLIENT_VIOLATION_WINDOW_MS {
        pruned_violations(v.skip(1), now_ms)
    } else {
        v
    }
}

/// Pruning never lengthens the window.
pub proof fn lemma_pruned_len(v: Seq<u64>, now_ms: u64)
    ensures
        pruned_violations(v, now_ms).len() <= v.len(),
    decreases v.len(),
{
    if v.len() > 0 && (if now_ms >= v[0] { now_ms - v[0] } else { 0 }) >= CLIENT_VIOLATION_WINDOW_MS {
        lemma_pruned_len(v.skip(1), now_ms);
    }
}

impl UiSessionCoordinator {
    fn close_at(&mut self, i: usize) -> (r: UiSession)
        requires
            old(self).wf(),
            i < old(self).sessions@.len(),
            old(self).sessions@[i as int].state == UiSessionState::Active,
        ensures
            final(self).wf(),
            final(self).stale == old(self).stale,
            final(self).sessions@ == old(self).sessions@.update(i as int, final(self).sessions@[i as int]),
            closing_of(final(self).sessions@[i as int], old(self).sessions@[i as int]),
            closed_copy(r, old(self).sessions@[i as int]),
    {
        let ghost old_self = *self;
        self.sessions[i].state = UiSessionState::Closing;
        retire_flag(&self.sessions[i].invocation_current);
        self.sessions[i].replay.clear();
        proof {
            lemma_replace_keeps_wf(old_self, *self, i as int);
        }
        self.sessions[i].duplicate()
    }

    /// Starts closing the caller's active session: it is marked closing, its
    /// authorities stop being current and its replay log is dropped. Any
    /// other session, or one that is not active, is left alone.
    pub fn begin_close(&mut self, access: &AccessContext, connection_id: &str, session_id: &str, now_ms: u64) -> (r: Option<UiSession>)
        requires
            old(self).wf(),
        ensures
            final(self).wf(),
            final(self).stale == old(self).stale,
            ({
                let ok = old(self).has_session(session_id@) && {
                    let s = old(self).sessions@[old(self).index_of(session_id@)];
                    s.client_principal_id@ == access@.principal && s.client_connection_id@ == connection_id@
                        && s.state == UiSessionState::Active
                };
                &&& r is Some <==> ok
                &&& !ok ==> *final(self) == *old(self)
                &&& ok ==> {
                    let i = old(self).index_of(session_id@);
                    &&& final(self).sessions@ == old(self).sessions@.update(i, final(self).sessions@[i])
                    &&& closing_of(final(self).sessions@[i], old(self).sessions@[i])
                    &&& r matches Some(c) && closed_copy(c, old(self).sessions@[i])
                }
            }),
    {
        let i = match self.find(session_id) {
            Some(i) => i,
            None => return None,
        };
        if !crate::text::str_eq(self.sessions[i].client_principal_id.as_str(), access.principal().as_str())
            || !crate::text::str_eq(self.sessions[i].client_connection_id.as_str(), connection_id)
            || self.sessions[i].state != UiSessionState::Active
        {
            return None;
        }
        Some(self.close_at(i))
    }

    /// Starts closing every active session of a connection, returning them in table order.
    pub fn begin_close_connection(&mut self, connection_id: &str) -> (r: Vec<UiSession>)
        requires
            old(self).wf(),
        ensures
            final(self).wf(),
            final(self).stale == old(self).stale,
            final(self).sessions@.len() == old(self).sessions@.len(),
            forall|j: int|
                0 <= j < old(self).sessions@.len() ==> if closable_on(old(self).sessions@[j], connection_id@) {
                    closing_of(#[trigger] final(self).sessions@[j], old(self).sessions@[j])
                } else {
                    final(self).sessions@[j] == old(self).sessions@[j]
                },
            r@.len() == select_on_connection(old(self).sessions@, connection_id@).len(),
            forall|k: int|
                0 <= k < r@.len() ==> closed_copy(
                    #[trigger] r@[k],
                    select_on_connection(old(self).sessions@, connection_id@)[k],
                ),
    {
        let ghost orig = *self;
        let mut out: Vec<UiSession> = Vec::new();
        let mut i: usize = 0;
        while i < self.sessions.len()
            invariant
                self.wf(),
                self.stale == orig.stale,
                self.sessions@.len() == orig.sessions@.len(),
                i <= self.sessions@.len(),
                forall|j: int|
                    0 <= j < i ==> if closable_on(orig.sessions@[j], connection_id@) {
                        closing_of(#[trigger] self.sessions@[j], orig.sessions@[j])
                    } else {
                        self.sessions@[j] == orig.sessions@[j]
                    },
                forall|j: int| i <= j < self.sessions@.len() ==> #[trigger] self.sessions@[j] == orig.sessions@[j],
                out@.len() == select_on_connection(orig.sessions@.take(i as int), connection_id@).len(),
                forall|k: int|
                    0 <= k < out@.len() ==> closed_copy(
                        #[trigger] out@[k],
                        select_on_connection(orig.sessions@.take(i as int), connection_id@)[k],
                    ),
            decreases self.sessions@.len() - i,
        {
            proof {
                assert(orig.sessions@.take(i + 1).drop_last() =~= orig.sessions@.take(i as int));
                assert(orig.sessions@.take(i + 1).last() == orig.sessions@[i as int]);
            }
            if crate::text::str_eq(self.sessions[i].client_connection_id.as_str(), connection_id)
                && self.sessions[i].state == UiSessionState::Active
            {
                let c = self.close_at(i);
                out.push(c);
            }
            i = i + 1;
        }
        assert(orig.sessions@.take(i as int) =~= orig.sessions@);
        out
    }

    /// Starts closing every active session past a deadline, returning them in table order.
    pub fn begin_close_expired(&mut self, now_ms: u64) -> (r: Vec<UiSession>)
        requires
            old(self).wf(),
        ensures
            final(self).wf(),
            final(self).stale == old(self).stale,
            final(self).sessions@.len() == old(self).sessions@.len(),
            forall|j: int|
                0 <= j < old(self).sessions@.len() ==> if expired_at(old(self).sessions@[j], now_ms) {
                    closing_of(#[trigger] final(self).sessions@[j], old(self).sessions@[j])
                } else {
                    final(self).sessions@[j] == old(self).sessions@[j]
                },
            r@.len() == select_expired(old(self).sessions@, now_ms).len(),
            forall|k: int|
                0 <= k < r@.len() ==> closed_copy(#[trigger] r@[k], select_expired(old(self).sessions@, now_ms)[k]),
    {
        let ghost orig = *self;
        let mut out: Vec<UiSession> = Vec::new();
        let mut i: usize = 0;
        while i < self.sessions.len()
            invariant
                self.wf(),
                self.stale == orig.stale,
                self.sessions@.len() == orig.sessions@.len(),
                i <= self.sessions@.len(),
                forall|j: int|
                    0 <= j < i ==> if expired_at(orig.sessions@[j], now_ms) {
                        closing_of(#[trigger] self.sessions@[j], orig.sessions@[j])
                    } else {
                        self.sessions@[j] == orig.sessions@[j]
                    },
                forall|j: int| i <= j < self.sessions@.len() ==> #[trigger] self.sessions@[j] == orig.sessions@[j],
                out@.len() == select_expired(orig.sessions@.take(i as int), now_ms).len(),
                forall|k: int|
                    0 <= k < out@.len() ==> closed_copy(
                        #[trigger] out@[k],
                        select_expired(orig.sessions@.take(i as int), now_ms)[k],
                    ),
            decreases self.sessions@.len() - i,
        {
            proof {
                assert(orig.sessions@.take(i + 1).drop_last() =~= orig.sessions@.take(i as int));
                assert(orig.sessions@.take(i + 1).last() == orig.sessions@[i as int]);
            }
            if self.sessions[i].state == UiSessionState::Active && (now_ms
                >= self.sessions[i].idle_deadline_ms || now_ms >= self.sessions[i].absolute_deadline_ms)
            {
                let c = self.close_at(i);
                out.push(c);
            }
            i = i + 1;
        }
        assert(orig.sessions@.take(i as int) =~= orig.sessions@);
        out
    }

    /// Records a client protocol violation on the caller's active session.
    /// Violations at least a window old are forgotten first; the third
    /// violation inside the window closes the session and returns it.
    #[verifier::rlimit(30)]
    pub fn record_client_violation(&mut self, access: &AccessContext, connection_id: &str, session_id: &str, now_ms: u64) -> (r: Option<UiSession>)
        requires
            old(self).wf(),
        ensures
            final(self).wf(),
            final(self).stale == old(self).stale,
            ({
                let found = old(self).owned_lookup(access@.principal, connection_id@, session_id@);
                &&& found is Err ==> (r is None && *final(self) == *old(self))
                &&& found is Ok ==> {
                    let i = old(self).index_of(session_id@);
                    let s = old(self).sessions@[i];
                    let v = pruned_violations(s.client_violations@, now_ms).push(now_ms);
                    let f = final(self).sessions@[i];
                    &&& final(self).sessions@ == old(self).sessions@.update(i, f)
                    &&& f.client_violations@ == v
                    &&& (r is Some <==> v.len() >= CLIENT_VIOLATION_CLOSE_THRESHOLD)
                    &&& v.len() < CLIENT_VIOLATION_CLOSE_THRESHOLD ==> f == (UiSession {
                        client_violations: f.client_violations,
                        ..s
                    })
                    &&& v.len() >= CLIENT_VIOLATION_CLOSE_THRESHOLD ==> {
                        let t = UiSession { client_violations: f.client_violations, ..s };
                        &&& closing_of(f, t)
                        &&& r matches Some(c) && closed_copy(c, t)
                    }
                }
            }),
    {
        let i = match self.owned_index(access, connection_id, session_id) {
            Ok(i) => i,
            Err(_) => return None,
        };
        let mut window = copy_instants(&self.sessions[i].client_violations);
        let ghost start = window@;
        while window.len() > 0 && now_ms.saturating_sub(window[0]) >= CLIENT_VIOLATION_WINDOW_MS
            invariant
                pruned_violations(window@, now_ms) == pruned_violations(start, now_ms),
            decreases window@.len(),
        {
            proof {
                assert(window@.remove(0) =~= window@.skip(1));
            }
            window.remove(0);
        }
        proof {
            lemma_pruned_len(start, now_ms);
        }
        window.push(now_ms);
        let ghost old_self = *self;
        let closing = window.len() >= CLIENT_VIOLATION_CLOSE_THRESHOLD;
        self.sessions[i].client_violations = window;
        if !closing {
            proof {
                lemma_replace_keeps_wf(old_self, *self, i as int);
            }
            return None;
        }
        self.sessions[i].state = UiSessionState::Closing;
        retire_flag(&self.sessions[i].invocation_current);
        self.sessions[i].replay.clear();
        proof {
            lemma_replace_keeps_wf(old_self, *self, i as int);
        }
        Some(self.sessions[i].duplicate())
    }

    fn retire_at(&mut self, i: usize)
        requires
            old(self).wf(),
            i < old(self).sessions@.len(),
        ensures
            final(self).wf(),
            final(self).sessions@ == old(self).sessions@.remove(i as int),
            final(self).stale@.len() == if old(self).stale@.len() + 1 > MAX_STALE_SESSION_EVIDENCE {
                old(self).stale@.len()
            } else {
                old(self).stale@.len() + 1
            },
            final(self).stale@.drop_last() == if old(self).stale@.len() + 1 > MAX_STALE_SESSION_EVIDENCE {
                old(self).stale@.skip(1)
            } else {
                old(self).stale@
            },
            stale_record_of(final(self).stale@.last(), old(self).sessions@[i as int]),
    {
        let ghost old_self = *self;
        let session = self.sessions.remove(i);
        retire_flag(&session.invocation_current);
        self.stale.push(StaleSession {
            session_id: session.session_id,
            client_principal_id: session.client_principal_id,
            client_connection_id: session.client_connection_id,
        });
        if self.stale.len() > MAX_STALE_SESSION_EVIDENCE {
            self.stale.remove(0);
            proof {
                assert(self.stale@.drop_last() =~= old_self.stale@.skip(1));
            }
        } else {
            proof {
                assert(self.stale@.drop_last() =~= old_self.stale@);
            }
        }
        proof {
            lemma_remove_keeps_wf(old_self, *self, i as int);
        }
    }

    /// Forgets a session, keeping only the evidence needed to answer its
    /// owner with `session_stale`; its document, replay log and violations
    /// go with it.
    pub fn mark_stale(&mut self, session_id: &str)
        requires
            old(self).wf(),
        ensures
            final(self).wf(),
            !old(self).has_session(session_id@) ==> *final(self) == *old(self),
            old(self).has_session(session_id@) ==> {
                let i = old(self).index_of(session_id@);
                &&& final(self).sessions@ == old(self).sessions@.remove(i)
                &&& final(self).stale@.len() == if old(self).stale@.len() + 1 > MAX_STALE_SESSION_EVIDENCE {
                    old(self).stale@.len()
                } else {
                    old(self).stale@.len() + 1
                }
                &&& final(self).stale@.drop_last() == if old(self).stale@.len() + 1 > MAX_STALE_SESSION_EVIDENCE {
                    old(self).stale@.skip(1)
                } else {
                    old(self).stale@
                }
                &&& stale_record_of(final(self).stale@.last(), old(self).sessions@[i])
            },
    {
        if let Some(i) = self.find(session_id) {
            self.retire_at(i);
        }
    }

    /// Finishes closing a session.
    pub fn finish_close(&mut self, session_id: &str)
        requires
            old(self).wf(),
        ensures
            final(self).wf(),
            !old(self).has_session(session_id@) ==> *final(self) == *old(self),
            old(self).has_session(session_id@) ==> {
                let i = old(self).index_of(session_id@);
                &&& final(self).sessions@ == old(self).sessions@.remove(i)
                &&& stale_record_of(final(self).stale@.last(), old(self).sessions@[i])
                &&& final(self).stale@.drop_last() == if old(self).stale@.len() + 1 > MAX_STALE_SESSION_EVIDENCE {
                    old(self).stale@.skip(1)
                } else {
                    old(self).stale@
                }
            },
    {
        self.mark_stale(session_id);
    }

    /// Forgets every session of an extension, keeping their stale evidence;
    /// the sessions of other extensions stay in order.
    pub fn mark_extension_stale(&mut self, extension_id: &str)
        requires
            old(self).wf(),
        ensures
            final(self).wf(),
            final(self).sessions@ == without_extension(old(self).sessions@, extension_id@),
    {
        let ghost orig = *self;
        let mut i: usize = 0;
        let ghost mut j: int = 0;
        while i < self.sessions.len()
            invariant
                self.wf(),
                0 <= j <= orig.sessions@.len(),
                i as int == without_extension(orig.sessions@.take(j), extension_id@).len(),
                self.sessions@ == without_extension(orig.sessions@.take(j), extension_id@) + orig.sessions@.skip(j),
            decreases self.sessions@.len() - i,
        {
            proof {
                assert(orig.sessions@.take(j + 1).drop_last() =~= orig.sessions@.take(j));
                assert(orig.sessions@.take(j + 1).last() == orig.sessions@[j]);
                assert(self.sessions@[i as int] == orig.sessions@[j]);
            }
            if crate::text::str_eq(self.sessions[i].extension_id.as_str(), extension_id) {
                let ghost before = self.sessions@;
                self.retire_at(i);
                proof {
                    assert(self.sessions@ =~= without_extension(orig.sessions@.take(j + 1), extension_id@)
                        + orig.sessions@.skip(j + 1));
                    j = j + 1;
                }
            } else {
                proof {
                    assert(self.sessions@ =~= without_extension(orig.sessions@.take(j + 1), extension_id@)
                        + orig.sessions@.skip(j + 1));
                    j = j + 1;
                }
                i = i + 1;
            }
        }
        proof {
            assert(orig.sessions@.skip(j).len() == 0);
            assert(orig.sessions@.take(j) =~= orig.sessions@);
            assert(self.sessions@ =~= without_extension(orig.sessions@, extension_id@));
        }
    }

    /// The active sessions to check against the runtime: identifier,
    /// extension and bound lease, in table order.
    pub fn maintenance_candidates(&self) -> (r: Vec<(String, String, ExtensionInstanceLease)>)
        requires
            self.wf(),
        ensures
            r@.len() == select_active(self.sessions@).len(),
            forall|k: int|
                0 <= k < r@.len() ==> {
                    let s = select_active(self.sessions@)[k];
                    &&& (#[trigger] r@[k]).0@ == s.session_id@
                    &&& r@[k].1@ == s.extension_id@
                    &&& lease_same(r@[k].2, s.lease)
                },
    {
        let mut out: Vec<(String, String, ExtensionInstanceLease)> = Vec::new();
        let mut i: usize = 0;
        while i < self.sessions.len()
            invariant
                i <= self.sessions@.len(),
                out@.len() == select_active(self.sessions@.take(i as int)).len(),
                forall|k: int|
                    0 <= k < out@.len() ==> {
                        let s = select_active(self.sessions@.take(i as int))[k];
                        &&& (#[trigger] out@[k]).0@ == s.session_id@
                        &&& out@[k].1@ == s.extension_id@
                        &&& lease_same(out@[k].2, s.lease)
                    },
            decreases self.sessions@.len() - i,
        {
            proof {
                assert(self.sessions@.take(i + 1).drop_last() =~= self.sessions@.take(i as int));
                assert(self.sessions@.take(i + 1).last() == self.sessions@[i as int]);
            }
            let s = &self.sessions[i];
            if s.state == UiSessionState::Active {
                out.push((s.session_id.clone(), s.extension_id.clone(), s.lease.duplicate()));
            }
            i = i + 1;
        }
        assert(self.sessions@.take(i as int) =~= self.sessions@);
        out
    }

    /// Whether an extension still has a session that is not closing.
    pub fn has_extension_sessions(&self, extension_id: &str) -> (r: bool)
        ensures
            r == exists|j: int|
                0 <= j < self.sessions@.len() && #[trigger] self.sessions@[j].extension_id@ == extension_id@
                    && self.sessions@[j].state != UiSessionState::Closing,
    {
        let mut i: usize = 0;
        while i < self.sessions.len()
            invariant
                i <= self.sessions@.len(),
                forall|j: int|
                    0 <= j < i ==> !(#[trigger] self.sessions@[j].extension_id@ == extension_id@
                        && self.sessions@[j].state != UiSessionState::Closing),
            decreases self.sessions@.len() - i,
        {
            if crate::text::str_eq(self.sessions[i].extension_id.as_str(), extension_id)
                && self.sessions[i].state != UiSessionState::Closing
            {
                return true;
            }
            i = i + 1;
        }
        false
    }
}


impl Default for UiSessionCoordinator {
    fn default() -> (r: Self)
        ensures
            r.wf(),
            r.sessions@.len() == 0,
            r.stale@.len() == 0,
    {
        UiSessionCoordinator::new()
    }
}

/// A session that is opening or closing cannot start a guest call: its
/// owner is answered `session_stale`, anyone else `session_not_found`.
pub proof fn only_active_sessions_take_calls(
    c: UiSessionCoordinator,
    access: crate::access::AccessView,
    connection_id: Seq<char>,
    session_id: Seq<char>,
    expected: u64,
    now_ms: u64,
)
    requires
        c.wf(),
        c.has_session(session_id),
        c.sessions@[c.index_of(session_id)].state != UiSessionState::Active,
    ensures
        ({
            let s = c.sessions@[c.index_of(session_id)];
            let gate = c.call_gate(access, connection_id, session_id, expected, now_ms);
            &&& (s.client_principal_id@ == access.principal && s.client_connection_id@ == connection_id)
                ==> gate == Some(M7ErrorCode::SessionStale)
            &&& !(s.client_principal_id@ == access.principal && s.client_connection_id@ == connection_id)
                ==> gate == Some(M7ErrorCode::SessionNotFound)
        }),
{
}

/// A forgotten session is answered `session_stale` to its owner.
pub proof fn forgotten_session_is_stale_to_its_owner(
    c: UiSessionCoordinator,
    d: UiSessionCoordinator,
    session_id: Seq<char>,
)
    requires
        c.wf(),
        c.has_session(session_id),
        d.sessions@ == c.sessions@.remove(c.index_of(session_id)),
        d.stale@.len() > 0,
        stale_record_of(d.stale@.last(), c.sessions@[c.index_of(session_id)]),
    ensures
        ({
            let s = c.sessions@[c.index_of(session_id)];
            &&& !d.has_session(session_id)
            &&& d.owned_lookup(s.client_principal_id@, s.client_connection_id@, session_id)
                == Err::<int, M7ErrorCode>(M7ErrorCode::SessionStale)
        }),
{
    let i = c.index_of(session_id);
    let s = c.sessions@[i];
    assert(c.sessions@[i].session_id@ == session_id);
    if d.has_session(session_id) {
        let k = choose|k: int| 0 <= k < d.sessions@.len() && #[trigger] d.sessions@[k].session_id@ == session_id;
        let k0 = if k < i { k } else { k + 1 };
        assert(d.sessions@[k] == c.sessions@[k0]);
        assert(c.sessions@[k0].session_id@ != c.sessions@[i].session_id@);
    }
    let last = d.stale@.len() - 1;
    assert(d.stale@[last].session_id@ == session_id);
    assert(d.stale_owned(s.client_principal_id@, s.client_connection_id@, session_id));
}

/// The rate bucket never holds more than its capacity, and every elapsed
/// millisecond refills one thousandth of a call until it is full.
pub proof fn rate_bucket_refills_up_to_capacity(tokens: u64, updated_at_ms: u64, now_ms: u64)
    requires
        tokens <= RATE_CAPACITY_MILLI_TOKENS,
    ensures
        tokens <= refilled_tokens(tokens, updated_at_ms, now_ms) <= RATE_CAPACITY_MILLI_TOKENS,
        now_ms >= updated_at_ms ==> refilled_tokens(tokens, updated_at_ms, now_ms) == if tokens + (now_ms
            - updated_at_ms) > RATE_CAPACITY_MILLI_TOKENS {
            RATE_CAPACITY_MILLI_TOKENS as int
        } else {
            tokens + (now_ms - updated_at_ms)
        },
        now_ms <= updated_at_ms ==> refilled_tokens(tokens, updated_at_ms, now_ms) == tokens,
{
}

} // verus!
