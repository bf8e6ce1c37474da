//! The headless UI bridge of an extension: origins, bindings and the
//! integer decisions of its admission (liveness, envelope, method, pending
//! and concurrency limits, request window).

use vstd::prelude::*;
use vstd::string::StringSliceAdditionalSpecFns;

verus! {

/// Largest encoded bridge request.
pub const MAX_MESSAGE_BYTES: usize = 262_144;

/// Most requests one session may admit per rate window.
pub const MAX_REQUESTS_PER_WINDOW: usize = 30;

/// Length of the request rate window.
pub const RATE_WINDOW_MS: u64 = 60_000;

/// Most requests a session runs at once.
pub const MAX_CONCURRENT: usize = 8;

/// Most requests a session holds running or queued.
pub const MAX_PENDING: usize = 64;

/// Idle time after which a session closes.
pub const IDLE_MS: u64 = 300_000;

/// Lifetime after which a session closes.
pub const LIFETIME_MS: u64 = 3_600_000;

/// The logical origin of an extension UI: its identifier and package digest.
#[derive(Clone, Debug, PartialEq, Eq)]
pub struct ExtensionUiOrigin {
    pub extension_id: String,
    pub package_digest: [u8; 32],
}

/// Whether two origins are the same.
pub fn same_origin(a: &ExtensionUiOrigin, b: &ExtensionUiOrigin) -> (r: bool)
    ensures
        r == (a.extension_id@ == b.extension_id@ && a.package_digest@ == b.package_digest@),
{
    crate::text::str_eq(a.extension_id.as_str(), b.extension_id.as_str()) && crate::text::bytes_eq(
        a.package_digest.as_slice(),
        b.package_digest.as_slice(),
    )
}

/// What a bridge session is bound to.
#[derive(Clone, Debug, PartialEq, Eq)]
pub struct UiBridgeBinding {
    pub origin: ExtensionUiOrigin,
    pub instance_id: String,
    pub principal_id: String,
    pub grant_revision: u64,
    pub lifecycle_generation: u64,
}

/// How an accepted request proceeds.
#[derive(Clone, Copy, Debug, PartialEq, Eq, Structural)]
pub enum BridgeAdmission {
    Ready,
    Queued,
}

/// Why a bridge request was refused.
#[derive(Clone, Copy, Debug, PartialEq, Eq, Structural)]
pub enum BridgeError {
    Closed,
    OriginMismatch,
    InvalidEnvelope,
    Replay,
    RequestCollision,
    MessageTooLarge,
    RateLimited,
    PendingLimit,
    MethodDenied,
}

/// A bridge request identifier: 1 to 64 visible ASCII bytes.
pub open spec fn request_id_ok(b: Seq<u8>) -> bool {
    &&& 1 <= b.len() <= 64
    &&& forall|i: int| 0 <= i < b.len() ==> 0x21 <= #[trigger] b[i] <= 0x7e
}

/// Checks a bridge request identifier.
pub fn valid_request_id(value: &str) -> (r: bool)
    ensures
        r == request_id_ok(value.spec_bytes()),
{
    let b = value.as_bytes();
    if b.len() < 1 || b.len() > 64 {
        return false;
    }
    let mut i: usize = 0;
    while i < b.len()
        invariant
            b@ == value.spec_bytes(),
            i <= b@.len(),
            forall|k: int| 0 <= k < i ==> 0x21 <= #[trigger] b@[k] <= 0x7e,
        decreases b@.len() - i,
    {
        if b[i] < 0x21 || b[i] > 0x7e {
            return false;
        }
        i = i + 1;
    }
    true
}

/// A bridge method: 3 to 128 lowercase letters and digits, with `.` and
/// `-` allowed after the first byte.
pub open spec fn method_ok(b: Seq<u8>) -> bool {
    &&& 3 <= b.len() <= 128
    &&& forall|i: int|
        0 <= i < b.len() ==> (0x61 <= #[trigger] b[i] <= 0x7a) || (0x30 <= b[i] <= 0x39) || (i > 0 && (b[i]
            == 0x2e || b[i] == 0x2d))
}

/// Checks a bridge method name.
pub fn valid_method(value: &str) -> (r: bool)
    ensures
        r == method_ok(value.spec_bytes()),
{
    let b = value.as_bytes();
    if b.len() < 3 || b.len() > 128 {
        return false;
    }
    let mut i: usize = 0;
    while i < b.len()
        invariant
            b@ == value.spec_bytes(),
            i <= b@.len(),
            forall|k: int|
                0 <= k < i ==> (0x61 <= #[trigger] b@[k] <= 0x7a) || (0x30 <= b@[k] <= 0x39) || (k > 0 && (b@[k]
                    == 0x2e || b@[k] == 0x2d)),
        decreases b@.len() - i,
    {
        let c = b[i];
        if !((0x61 <= c && c <= 0x7a) || (0x30 <= c && c <= 0x39) || (i > 0 && (c == 0x2e || c == 0x2d))) {
            return false;
        }
        i = i + 1;
    }
    true
}

/// `a - b`, or 0 when `b` is larger.
pub open spec fn sat_sub(a: u64, b: u64) -> int {
    if a >= b {
        a - b
    } else {
        0
    }
}

/// Whether a session is closed, idle too long or past its lifetime.
pub fn bridge_expired(closed: bool, now_ms: u64, last_activity_ms: u64, created_at_ms: u64) -> (r: bool)
    ensures
        r == (closed || sat_sub(now_ms, last_activity_ms) >= IDLE_MS || sat_sub(now_ms, created_at_ms)
            >= LIFETIME_MS),
{
    closed || now_ms.saturating_sub(last_activity_ms) >= IDLE_MS || now_ms.saturating_sub(created_at_ms)
        >= LIFETIME_MS
}

/// The verdict on a decoded bridge request: a sequence other than the
/// expected one is a replay; any other malformed field is an invalid
/// envelope; a method other than the headless ping is denied.
pub open spec fn bridge_request_error(
    version: u32,
    session_matches: bool,
    sequence: u64,
    next_sequence: u64,
    request_id: Seq<u8>,
    method: Seq<u8>,
    method_is_ping: bool,
    params_is_object: bool,
) -> Option<BridgeError> {
    if version != 1 || !session_matches || sequence != next_sequence || sequence == 0 || !request_id_ok(request_id)
        || !method_ok(method) || !params_is_object {
        if sequence != next_sequence {
            Some(BridgeError::Replay)
        } else {
            Some(BridgeError::InvalidEnvelope)
        }
    } else if !method_is_ping {
        Some(BridgeError::MethodDenied)
    } else {
        None
    }
}

/// Checks a decoded bridge request against its session.
pub fn check_bridge_request(
    version: u32,
    session_id: &str,
    expected_session_id: &str,
    sequence: u64,
    next_sequence: u64,
    request_id: &str,
    method: &str,
    params_is_object: bool,
) -> (r: Result<(), BridgeError>)
    ensures
        match bridge_request_error(
            version,
            session_id@ == expected_session_id@,
            sequence,
            next_sequence,
            request_id.spec_bytes(),
            method.spec_bytes(),
            method@ == "headless.test.ping"@,
            params_is_object,
        ) {
            Some(e) => r == Err::<(), BridgeError>(e),
            None => r is Ok,
        },
{
    if version != 1 || !crate::text::str_eq(session_id, expected_session_id) || sequence != next_sequence || sequence
        == 0 || !valid_request_id(request_id) || !valid_method(method) || !params_is_object {
        if sequence != next_sequence {
            return Err(BridgeError::Replay);
        }
        return Err(BridgeError::InvalidEnvelope);
    }
    if !crate::text::str_eq(method, "headless.test.ping") {
        return Err(BridgeError::MethodDenied);
    }
    Ok(())
}

/// How many of the oldest request times fall out of the rate window.
pub fn expired_request_times(times: &Vec<u64>, now_ms: u64) -> (r: usize)
    ensures
        r <= times@.len(),
        forall|i: int| 0 <= i < r ==> sat_sub(now_ms, #[trigger] times@[i]) >= RATE_WINDOW_MS,
        r < times@.len() ==> sat_sub(now_ms, times@[r as int]) < RATE_WINDOW_MS,
{
    let mut i: usize = 0;
    while i < times.len() && now_ms.saturating_sub(times[i]) >= RATE_WINDOW_MS
        invariant
            i <= times@.len(),
            forall|k: int| 0 <= k < i ==> sat_sub(now_ms, #[trigger] times@[k]) >= RATE_WINDOW_MS,
        decreases times@.len() - i,
    {
        i = i + 1;
    }
    i
}

/// The admission of a request that passed the rate limits: refused past
/// the pending bound, run when fewer than the concurrency bound run, else
/// queued.
pub fn pending_admission(active: usize, queued: usize) -> (r: Result<BridgeAdmission, BridgeError>)
    requires
        active + queued <= usize::MAX,
    ensures
        active + queued >= MAX_PENDING ==> r == Err::<BridgeAdmission, BridgeError>(BridgeError::PendingLimit),
        active + queued < MAX_PENDING && active < MAX_CONCURRENT ==> r == Ok::<BridgeAdmission, BridgeError>(
            BridgeAdmission::Ready,
        ),
        active + queued < MAX_PENDING && active >= MAX_CONCURRENT ==> r == Ok::<BridgeAdmission, BridgeError>(
            BridgeAdmission::Queued,
        ),
{
    if active + queued >= MAX_PENDING {
        return Err(BridgeError::PendingLimit);
    }
    if active < MAX_CONCURRENT {
        Ok(BridgeAdmission::Ready)
    } else {
        Ok(BridgeAdmission::Queued)
    }
}

} // verus!
