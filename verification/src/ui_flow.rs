//! Opening a Portable UI session and dispatching an action to it, as state
//! machines: each step takes what the last effect on the session table, the
//! extension host or the guest answered and names the next effect. The
//! caller holds the table, the authority, the lease and the document.

use vstd::prelude::*;
use vstd::string::StringSliceAdditionalSpecFns;

use crate::access::AccessContext;
use crate::extensions::{ExtensionRecord, M6Error};
use crate::ui_session::{
    action_validation_error, canonical_locale, canonical_locale_bytes, m7_code_for_m6, map_m6, open_record_error,
    require_ui_access, validate_open_record, validation_error, M7ErrorCode, M7ValidationFailure,
    UI_ABSOLUTE_TIMEOUT_MS, UI_IDLE_TIMEOUT_MS,
};

verus! {

/// How a guest call answered.
#[derive(Clone, Copy, Debug, PartialEq, Eq, Structural)]
pub enum GuestAnswer {
    /// The guest returned a document.
    Document,
    /// The guest returned no document.
    NoDocument,
    /// The runtime failed the call.
    RuntimeFailed,
}

/// The public error of a document the validator refused.
pub open spec fn document_error_code(failure: M7ValidationFailure) -> M7ErrorCode {
    match failure {
        M7ValidationFailure::Invalid => M7ErrorCode::DocumentInvalid,
        M7ValidationFailure::LimitExceeded => M7ErrorCode::LimitExceeded,
    }
}

/// The public error of an action the validator refused.
pub open spec fn action_error_code(failure: M7ValidationFailure) -> M7ErrorCode {
    match failure {
        M7ValidationFailure::Invalid => M7ErrorCode::ActionInvalid,
        M7ValidationFailure::LimitExceeded => M7ErrorCode::LimitExceeded,
    }
}

/// What a session open waits for.
#[derive(Clone, Copy, Debug, PartialEq, Eq, Structural)]
pub enum OpenStage {
    ReadingExtension,
    Reserving,
    IssuingActivation,
    EnsuringHost,
    BindingLease,
    IssuingRender,
    Invoking,
    HandlingRuntimeError,
    ValidatingDocument,
    /// The session is being marked stale; the open then fails.
    MarkingStale,
    /// The guest document is being rejected; the open then fails.
    RejectingDocument,
    Committing,
    Ended,
}

/// A session open in progress: its stage, the extension record and the
/// session deadlines once read, and the error it fails with once the
/// clean-up effect is done.
pub struct OpenState {
    pub stage: OpenStage,
    pub now_ms: u64,
    pub record: Option<ExtensionRecord>,
    pub idle_deadline_ms: u64,
    pub absolute_deadline_ms: u64,
    pub failure: M7ErrorCode,
}

/// What the last effect of an open answered.
pub enum OpenEvent {
    /// The extension record, or the store's error.
    ExtensionRead { record: Result<ExtensionRecord, M6Error> },
    /// A session-table or host effect succeeded or failed with this code.
    Answered { result: Result<(), M7ErrorCode> },
    /// The guest answered the open call.
    Invoked { answer: GuestAnswer },
    /// The validator checked the guest's document.
    DocumentChecked { result: Result<(), M7ValidationFailure> },
    /// The runtime error was handled and comes out as this code.
    RuntimeErrorHandled { code: M7ErrorCode },
    /// A clean-up effect completed.
    Done,
}

/// The next effect of an open.
#[derive(Clone, Copy, Debug)]
pub enum OpenAction {
    /// Read the extension record for the caller.
    ReadExtension,
    /// Reserve the session with the state's deadlines.
    Reserve,
    /// Issue the authority for the host activation.
    IssueActivationAuthority,
    /// Start or reuse the interactive host.
    EnsureHost,
    /// Bind the host's lease to the session.
    BindLease,
    /// Issue the authority for the open call.
    IssueRenderAuthority,
    /// Call the guest's open export.
    InvokeOpen,
    /// Handle the runtime's error.
    HandleRuntimeError,
    /// Check the guest's document.
    ValidateDocument,
    /// Mark the session stale.
    MarkStale,
    /// Reject the guest's document.
    RejectDocument,
    /// Commit the document to the session.
    CommitOpen,
    /// The open ended: the session's snapshot is the result, or the code.
    Finish { result: Result<(), M7ErrorCode> },
    /// The open has ended, or the answer did not fit the stage.
    Idle,
}

/// Moves an open to a stage with an effect.
pub open spec fn open_go(s: OpenState, stage: OpenStage, action: OpenAction) -> (OpenState, OpenAction) {
    (OpenState { stage, ..s }, action)
}

/// Ends an open.
pub open spec fn open_finish(s: OpenState, result: Result<(), M7ErrorCode>) -> (OpenState, OpenAction) {
    open_go(s, OpenStage::Ended, OpenAction::Finish { result })
}

/// Runs a clean-up effect, then fails with `failure`.
pub open spec fn open_clean_up(s: OpenState, stage: OpenStage, action: OpenAction, failure: M7ErrorCode) -> (
    OpenState,
    OpenAction,
) {
    (OpenState { stage, failure, ..s }, action)
}

/// An open that begins: the caller needs UI access to the extension and the
/// locale must be canonical; then the extension record is read.
pub open spec fn open_started(
    permitted: bool,
    locale_ok: bool,
    now_ms: u64,
) -> (OpenState, OpenAction) {
    let s = OpenState {
        stage: OpenStage::ReadingExtension,
        now_ms,
        record: None,
        idle_deadline_ms: 0,
        absolute_deadline_ms: 0,
        failure: M7ErrorCode::Internal,
    };
    if !permitted {
        open_finish(s, Err(M7ErrorCode::PermissionDenied))
    } else if !locale_ok {
        open_finish(s, Err(M7ErrorCode::InvalidInput))
    } else {
        (s, OpenAction::ReadExtension)
    }
}

/// One step of a session open.
pub open spec fn open_next(s: OpenState, e: OpenEvent) -> (OpenState, OpenAction) {
    let idle = (s, OpenAction::Idle);
    match e {
        OpenEvent::ExtensionRead { record } => if s.stage != OpenStage::ReadingExtension {
            idle
        } else {
            match record {
                Err(error) => open_finish(s, Err(m7_code_for_m6(error.spec_code()))),
                Ok(r) => if open_record_error(r) is Some {
                    open_finish(s, Err(open_record_error(r)->0))
                } else if s.now_ms + UI_ABSOLUTE_TIMEOUT_MS > u64::MAX || s.now_ms + UI_IDLE_TIMEOUT_MS > u64::MAX {
                    open_finish(s, Err(M7ErrorCode::Internal))
                } else {
                    (
                        OpenState {
                            stage: OpenStage::Reserving,
                            record: Some(r),
                            idle_deadline_ms: (s.now_ms + UI_IDLE_TIMEOUT_MS) as u64,
                            absolute_deadline_ms: (s.now_ms + UI_ABSOLUTE_TIMEOUT_MS) as u64,
                            ..s
                        },
                        OpenAction::Reserve,
                    )
                },
            }
        },
        OpenEvent::Answered { result } => match result {
            Err(code) => match s.stage {
                OpenStage::Reserving | OpenStage::IssuingActivation | OpenStage::BindingLease
                | OpenStage::IssuingRender | OpenStage::Committing => open_finish(s, Err(code)),
                OpenStage::EnsuringHost => open_clean_up(s, OpenStage::MarkingStale, OpenAction::MarkStale, code),
                _ => idle,
            },
            Ok(()) => match s.stage {
                OpenStage::Reserving => open_go(s, OpenStage::IssuingActivation, OpenAction::IssueActivationAuthority),
                OpenStage::IssuingActivation => open_go(s, OpenStage::EnsuringHost, OpenAction::EnsureHost),
                OpenStage::EnsuringHost => open_go(s, OpenStage::BindingLease, OpenAction::BindLease),
                OpenStage::BindingLease => open_go(s, OpenStage::IssuingRender, OpenAction::IssueRenderAuthority),
                OpenStage::IssuingRender => open_go(s, OpenStage::Invoking, OpenAction::InvokeOpen),
                OpenStage::Committing => open_finish(s, Ok(())),
                _ => idle,
            },
        },
        OpenEvent::Invoked { answer } => if s.stage != OpenStage::Invoking {
            idle
        } else {
            match answer {
                GuestAnswer::Document => open_go(s, OpenStage::ValidatingDocument, OpenAction::ValidateDocument),
                GuestAnswer::NoDocument => open_clean_up(
                    s,
                    OpenStage::MarkingStale,
                    OpenAction::MarkStale,
                    M7ErrorCode::Internal,
                ),
                GuestAnswer::RuntimeFailed => open_go(
                    s,
                    OpenStage::HandlingRuntimeError,
                    OpenAction::HandleRuntimeError,
                ),
            }
        },
        OpenEvent::RuntimeErrorHandled { code } => if s.stage != OpenStage::HandlingRuntimeError {
            idle
        } else {
            open_finish(s, Err(code))
        },
        OpenEvent::DocumentChecked { result } => if s.stage != OpenStage::ValidatingDocument {
            idle
        } else {
            match result {
                Ok(()) => open_go(s, OpenStage::Committing, OpenAction::CommitOpen),
                Err(f) => open_clean_up(s, OpenStage::RejectingDocument, OpenAction::RejectDocument, document_error_code(f)),
            }
        },
        OpenEvent::Done => if s.stage == OpenStage::MarkingStale || s.stage == OpenStage::RejectingDocument {
            open_finish(s, Err(s.failure))
        } else {
            idle
        },
    }
}

fn open_go_exec(s: OpenState, stage: OpenStage, action: OpenAction) -> (r: (OpenState, OpenAction))
    ensures
        r == open_go(s, stage, action),
{
    (OpenState { stage, ..s }, action)
}

fn open_finish_exec(s: OpenState, result: Result<(), M7ErrorCode>) -> (r: (OpenState, OpenAction))
    ensures
        r == open_finish(s, result),
{
    open_go_exec(s, OpenStage::Ended, OpenAction::Finish { result })
}

/// Begins opening a session for a caller on an extension, in a locale, at a
/// time.
pub fn open_start(access: &AccessContext, extension_id: &str, locale: &str, now_ms: u64) -> (r: (OpenState, OpenAction))
    ensures
        r == open_started(
            access@.permissions.contains(crate::domain::Permission::ExtensionsRead)
                && access@.permissions.contains(crate::domain::Permission::ExtensionsUiUse)
                && crate::access::scope_admits(access@.extension_scopes, extension_id@),
            canonical_locale_bytes(locale.spec_bytes()),
            now_ms,
        ),
{
    let s = OpenState {
        stage: OpenStage::ReadingExtension,
        now_ms,
        record: None,
        idle_deadline_ms: 0,
        absolute_deadline_ms: 0,
        failure: M7ErrorCode::Internal,
    };
    if require_ui_access(access, extension_id).is_err() {
        return open_finish_exec(s, Err(M7ErrorCode::PermissionDenied));
    }
    if canonical_locale(locale).is_none() {
        return open_finish_exec(s, Err(M7ErrorCode::InvalidInput));
    }
    (s, OpenAction::ReadExtension)
}

/// One step of a session open: from what the last effect answered to the
/// open's next state and effect.
pub fn open_step(s: OpenState, e: OpenEvent) -> (r: (OpenState, OpenAction))
    ensures
        r == open_next(s, e),
{
    match e {
        OpenEvent::ExtensionRead { record } => {
            if s.stage != OpenStage::ReadingExtension {
                return (s, OpenAction::Idle);
            }
            match record {
                Err(error) => {
                    let code = map_m6(error).code();
                    open_finish_exec(s, Err(code))
                },
                Ok(r) => {
                    if let Err(error) = validate_open_record(&r) {
                        return open_finish_exec(s, Err(error.code()));
                    }
                    match (s.now_ms.checked_add(UI_IDLE_TIMEOUT_MS), s.now_ms.checked_add(UI_ABSOLUTE_TIMEOUT_MS)) {
                        (Some(idle), Some(absolute)) => (
                            OpenState {
                                stage: OpenStage::Reserving,
                                record: Some(r),
                                idle_deadline_ms: idle,
                                absolute_deadline_ms: absolute,
                                ..s
                            },
                            OpenAction::Reserve,
                        ),
                        _ => open_finish_exec(s, Err(M7ErrorCode::Internal)),
                    }
                },
            }
        },
        OpenEvent::Answered { result } => match result {
            Err(code) => match s.stage {
                OpenStage::Reserving | OpenStage::IssuingActivation | OpenStage::BindingLease
                | OpenStage::IssuingRender | OpenStage::Committing => open_finish_exec(s, Err(code)),
                OpenStage::EnsuringHost => (
                    OpenState { stage: OpenStage::MarkingStale, failure: code, ..s },
                    OpenAction::MarkStale,
                ),
                _ => (s, OpenAction::Idle),
            },
            Ok(()) => match s.stage {
                OpenStage::Reserving => open_go_exec(s, OpenStage::IssuingActivation, OpenAction::IssueActivationAuthority),
                OpenStage::IssuingActivation => open_go_exec(s, OpenStage::EnsuringHost, OpenAction::EnsureHost),
                OpenStage::EnsuringHost => open_go_exec(s, OpenStage::BindingLease, OpenAction::BindLease),
                OpenStage::BindingLease => open_go_exec(s, OpenStage::IssuingRender, OpenAction::IssueRenderAuthority),
                OpenStage::IssuingRender => open_go_exec(s, OpenStage::Invoking, OpenAction::InvokeOpen),
                OpenStage::Committing => open_finish_exec(s, Ok(())),
                _ => (s, OpenAction::Idle),
            },
        },
        OpenEvent::Invoked { answer } => {
            if s.stage != OpenStage::Invoking {
                return (s, OpenAction::Idle);
            }
            match answer {
                GuestAnswer::Document => open_go_exec(s, OpenStage::ValidatingDocument, OpenAction::ValidateDocument),
                GuestAnswer::NoDocument => (
                    OpenState { stage: OpenStage::MarkingStale, failure: M7ErrorCode::Internal, ..s },
                    OpenAction::MarkStale,
                ),
                GuestAnswer::RuntimeFailed => open_go_exec(
                    s,
                    OpenStage::HandlingRuntimeError,
                    OpenAction::HandleRuntimeError,
                ),
            }
        },
        OpenEvent::RuntimeErrorHandled { code } => {
            if s.stage != OpenStage::HandlingRuntimeError {
                return (s, OpenAction::Idle);
            }
            open_finish_exec(s, Err(code))
        },
        OpenEvent::DocumentChecked { result } => {
            if s.stage != OpenStage::ValidatingDocument {
                return (s, OpenAction::Idle);
            }
            match result {
                Ok(()) => open_go_exec(s, OpenStage::Committing, OpenAction::CommitOpen),
                Err(f) => {
                    let code = validation_error(f).code();
                    (OpenState { stage: OpenStage::RejectingDocument, failure: code, ..s }, OpenAction::RejectDocument)
                },
            }
        },
        OpenEvent::Done => {
            if s.stage == OpenStage::MarkingStale || s.stage == OpenStage::RejectingDocument {
                let failure = s.failure;
                open_finish_exec(s, Err(failure))
            } else {
                (s, OpenAction::Idle)
            }
        },
    }
}

/// What an action dispatch waits for.
#[derive(Clone, Copy, Debug, PartialEq, Eq, Structural)]
pub enum DispatchStage {
    /// The session table is asked for a replay of this request.
    Replaying,
    /// The validator is checking the action against the current document.
    ValidatingAction,
    /// The client's violation is being recorded; the dispatch then fails.
    RejectingClient,
    /// The guest call is being begun on the session.
    BeginningCall,
    Invoking,
    HandlingRuntimeError,
    ValidatingDocument,
    /// The failed call is being ended; the dispatch then fails.
    FinishingFailedCall,
    /// The guest document is being rejected; the dispatch then fails.
    RejectingDocument,
    Committing,
    Ended,
}

/// A dispatch in progress: its stage and the error it fails with once the
/// clean-up effect is done.
#[derive(Clone, Copy, Debug, PartialEq, Eq, Structural)]
pub struct DispatchState {
    pub stage: DispatchStage,
    pub failure: M7ErrorCode,
}

/// What the last effect of a dispatch answered.
#[derive(Clone, Copy, Debug)]
pub enum DispatchEvent {
    /// The replay check: whether an identical committed action was found,
    /// or the table's error.
    Replayed { result: Result<bool, M7ErrorCode> },
    /// The validator's verdict on the action.
    ActionChecked { result: Result<(), M7ValidationFailure> },
    /// A session-table effect succeeded or failed with this code.
    Answered { result: Result<(), M7ErrorCode> },
    /// The guest answered the dispatch call.
    Invoked { answer: GuestAnswer },
    /// The validator checked the guest's document.
    DocumentChecked { result: Result<(), M7ValidationFailure> },
    /// The runtime error was handled and comes out as this code.
    RuntimeErrorHandled { code: M7ErrorCode },
    /// The client's violation was recorded and is answered with this code.
    ClientRejected { code: M7ErrorCode },
    /// A clean-up effect completed.
    Done,
}

/// The next effect of a dispatch.
#[derive(Clone, Copy, Debug)]
pub enum DispatchAction {
    /// Look the request up among the session's committed actions.
    Replay,
    /// Check the action against the session's current document.
    ValidateAction,
    /// Record the client's violation with this code.
    RejectClient { code: M7ErrorCode },
    /// Begin the guest call on the session.
    BeginCall,
    /// Call the guest's dispatch export.
    InvokeDispatch,
    /// Handle the runtime's error.
    HandleRuntimeError,
    /// Check the guest's document.
    ValidateDocument,
    /// End the failed call on the session.
    FinishFailedCall,
    /// Reject the guest's document.
    RejectDocument,
    /// Commit the document and the action to the session.
    CommitDispatch,
    /// The dispatch answers the replayed result.
    AnswerReplay,
    /// The dispatch ended: the committed result, or the code.
    Finish { result: Result<(), M7ErrorCode> },
    /// The dispatch has ended, or the answer did not fit the stage.
    Idle,
}

/// A request identifier a client may send: 1 to 64 visible ASCII bytes.
pub open spec fn request_id_ok(b: Seq<u8>) -> bool {
    1 <= b.len() <= 64 && forall|i: int| 0 <= i < b.len() ==> 0x21 <= #[trigger] b[i] <= 0x7e
}

/// A dispatch that begins: a malformed request identifier or sequence
/// number is the client's violation; any other request is first looked up
/// for replay.
pub open spec fn dispatch_started(request_id_ok: bool, sequence: u64) -> (DispatchState, DispatchAction) {
    let s = DispatchState { stage: DispatchStage::Replaying, failure: M7ErrorCode::Internal };
    if !request_id_ok || sequence == 0 || sequence > i64::MAX {
        (
            DispatchState { stage: DispatchStage::RejectingClient, failure: M7ErrorCode::ActionInvalid },
            DispatchAction::RejectClient { code: M7ErrorCode::ActionInvalid },
        )
    } else {
        (s, DispatchAction::Replay)
    }
}

/// Rejects the client with a code.
pub open spec fn dispatch_reject(code: M7ErrorCode) -> (DispatchState, DispatchAction) {
    (DispatchState { stage: DispatchStage::RejectingClient, failure: code }, DispatchAction::RejectClient { code })
}

/// Ends a dispatch.
pub open spec fn dispatch_finish(result: Result<(), M7ErrorCode>, failure: M7ErrorCode) -> (DispatchState, DispatchAction) {
    (DispatchState { stage: DispatchStage::Ended, failure }, DispatchAction::Finish { result })
}

/// One step of an action dispatch.
pub open spec fn dispatch_next(s: DispatchState, e: DispatchEvent) -> (DispatchState, DispatchAction) {
    let idle = (s, DispatchAction::Idle);
    let go = |stage: DispatchStage, action: DispatchAction| (DispatchState { stage, ..s }, action);
    match e {
        DispatchEvent::Replayed { result } => if s.stage != DispatchStage::Replaying {
            idle
        } else {
            match result {
                Ok(true) => (DispatchState { stage: DispatchStage::Ended, ..s }, DispatchAction::AnswerReplay),
                Ok(false) => go(DispatchStage::ValidatingAction, DispatchAction::ValidateAction),
                Err(code) => if code == M7ErrorCode::ActionInvalid || code == M7ErrorCode::LimitExceeded {
                    dispatch_reject(code)
                } else {
                    dispatch_finish(Err(code), s.failure)
                },
            }
        },
        DispatchEvent::ActionChecked { result } => if s.stage != DispatchStage::ValidatingAction {
            idle
        } else {
            match result {
                Ok(()) => go(DispatchStage::BeginningCall, DispatchAction::BeginCall),
                Err(f) => dispatch_reject(action_error_code(f)),
            }
        },
        DispatchEvent::Answered { result } => match s.stage {
            DispatchStage::BeginningCall => match result {
                Ok(()) => go(DispatchStage::Invoking, DispatchAction::InvokeDispatch),
                Err(code) => if code == M7ErrorCode::ActionInvalid || code == M7ErrorCode::LimitExceeded {
                    dispatch_reject(code)
                } else {
                    dispatch_finish(Err(code), s.failure)
                },
            },
            DispatchStage::Committing => dispatch_finish(result, s.failure),
            _ => idle,
        },
        DispatchEvent::Invoked { answer } => if s.stage != DispatchStage::Invoking {
            idle
        } else {
            match answer {
                GuestAnswer::Document => go(DispatchStage::ValidatingDocument, DispatchAction::ValidateDocument),
                GuestAnswer::NoDocument => (
                    DispatchState { stage: DispatchStage::FinishingFailedCall, failure: M7ErrorCode::Internal },
                    DispatchAction::FinishFailedCall,
                ),
                GuestAnswer::RuntimeFailed => go(DispatchStage::HandlingRuntimeError, DispatchAction::HandleRuntimeError),
            }
        },
        DispatchEvent::RuntimeErrorHandled { code } => if s.stage != DispatchStage::HandlingRuntimeError {
            idle
        } else {
            dispatch_finish(Err(code), s.failure)
        },
        DispatchEvent::DocumentChecked { result } => if s.stage != DispatchStage::ValidatingDocument {
            idle
        } else {
            match result {
                Ok(()) => go(DispatchStage::Committing, DispatchAction::CommitDispatch),
                Err(f) => (
                    DispatchState { stage: DispatchStage::RejectingDocument, failure: document_error_code(f) },
                    DispatchAction::RejectDocument,
                ),
            }
        },
        DispatchEvent::ClientRejected { code } => if s.stage == DispatchStage::RejectingClient {
            dispatch_finish(Err(code), s.failure)
        } else {
            idle
        },
        DispatchEvent::Done => if s.stage == DispatchStage::FinishingFailedCall || s.stage
            == DispatchStage::RejectingDocument {
            dispatch_finish(Err(s.failure), s.failure)
        } else {
            idle
        },
    }
}

fn request_id_valid(request_id: &str) -> (r: bool)
    ensures
        r == request_id_ok(request_id.spec_bytes()),
{
    let b = request_id.as_bytes();
    if b.len() < 1 || b.len() > 64 {
        return false;
    }
    let mut i: usize = 0;
    while i < b.len()
        invariant
            i <= b@.len(),
            b@ == request_id.spec_bytes(),
            forall|k: int| 0 <= k < i ==> 0x21 <= #[trigger] b@[k] <= 0x7e,
        decreases b@.len() - i,
    {
        if b[i] < 0x21 || b[i] > 0x7e {
            return false;
        }
        i = i + 1;
    }
    true
}

/// Begins dispatching an action with a request identifier and sequence
/// number.
pub fn dispatch_start(request_id: &str, sequence: u64) -> (r: (DispatchState, DispatchAction))
    ensures
        r == dispatch_started(request_id_ok(request_id.spec_bytes()), sequence),
{
    if !request_id_valid(request_id) || sequence == 0 || sequence > 0x7fff_ffff_ffff_ffff {
        (
            DispatchState { stage: DispatchStage::RejectingClient, failure: M7ErrorCode::ActionInvalid },
            DispatchAction::RejectClient { code: M7ErrorCode::ActionInvalid },
        )
    } else {
        (DispatchState { stage: DispatchStage::Replaying, failure: M7ErrorCode::Internal }, DispatchAction::Replay)
    }
}

/// One step of an action dispatch: from what the last effect answered to
/// the dispatch's next state and effect.
pub fn dispatch_step(s: DispatchState, e: DispatchEvent) -> (r: (DispatchState, DispatchAction))
    ensures
        r == dispatch_next(s, e),
{
    let idle = (s, DispatchAction::Idle);
    match e {
        DispatchEvent::Replayed { result } => {
            if s.stage != DispatchStage::Replaying {
                return idle;
            }
            match result {
                Ok(true) => (DispatchState { stage: DispatchStage::Ended, ..s }, DispatchAction::AnswerReplay),
                Ok(false) => (DispatchState { stage: DispatchStage::ValidatingAction, ..s }, DispatchAction::ValidateAction),
                Err(code) => if code == M7ErrorCode::ActionInvalid || code == M7ErrorCode::LimitExceeded {
                    (DispatchState { stage: DispatchStage::RejectingClient, failure: code }, DispatchAction::RejectClient { code })
                } else {
                    (DispatchState { stage: DispatchStage::Ended, failure: s.failure }, DispatchAction::Finish { result: Err(code) })
                },
            }
        },
        DispatchEvent::ActionChecked { result } => {
            if s.stage != DispatchStage::ValidatingAction {
                return idle;
            }
            match result {
                Ok(()) => (DispatchState { stage: DispatchStage::BeginningCall, ..s }, DispatchAction::BeginCall),
                Err(f) => {
                    let code = action_validation_error(f).code();
                    (DispatchState { stage: DispatchStage::RejectingClient, failure: code }, DispatchAction::RejectClient { code })
                },
            }
        },
        DispatchEvent::Answered { result } => match s.stage {
            DispatchStage::BeginningCall => match result {
                Ok(()) => (DispatchState { stage: DispatchStage::Invoking, ..s }, DispatchAction::InvokeDispatch),
                Err(code) => if code == M7ErrorCode::ActionInvalid || code == M7ErrorCode::LimitExceeded {
                    (DispatchState { stage: DispatchStage::RejectingClient, failure: code }, DispatchAction::RejectClient { code })
                } else {
                    (DispatchState { stage: DispatchStage::Ended, failure: s.failure }, DispatchAction::Finish { result: Err(code) })
                },
            },
            DispatchStage::Committing => (DispatchState { stage: DispatchStage::Ended, failure: s.failure }, DispatchAction::Finish { result }),
            _ => idle,
        },
        DispatchEvent::Invoked { answer } => {
            if s.stage != DispatchStage::Invoking {
                return idle;
            }
            match answer {
                GuestAnswer::Document => (DispatchState { stage: DispatchStage::ValidatingDocument, ..s }, DispatchAction::ValidateDocument),
                GuestAnswer::NoDocument => (
                    DispatchState { stage: DispatchStage::FinishingFailedCall, failure: M7ErrorCode::Internal },
                    DispatchAction::FinishFailedCall,
                ),
                GuestAnswer::RuntimeFailed => (
                    DispatchState { stage: DispatchStage::HandlingRuntimeError, ..s },
                    DispatchAction::HandleRuntimeError,
                ),
            }
        },
        DispatchEvent::RuntimeErrorHandled { code } => {
            if s.stage != DispatchStage::HandlingRuntimeError {
                return idle;
            }
            (DispatchState { stage: DispatchStage::Ended, failure: s.failure }, DispatchAction::Finish { result: Err(code) })
        },
        DispatchEvent::DocumentChecked { result } => {
            if s.stage != DispatchStage::ValidatingDocument {
                return idle;
            }
            match result {
                Ok(()) => (DispatchState { stage: DispatchStage::Committing, ..s }, DispatchAction::CommitDispatch),
                Err(f) => {
                    let code = validation_error(f).code();
                    (DispatchState { stage: DispatchStage::RejectingDocument, failure: code }, DispatchAction::RejectDocument)
                },
            }
        },
        DispatchEvent::ClientRejected { code } => {
            if s.stage == DispatchStage::RejectingClient {
                (DispatchState { stage: DispatchStage::Ended, failure: s.failure }, DispatchAction::Finish { result: Err(code) })
            } else {
                idle
            }
        },
        DispatchEvent::Done => {
            if s.stage == DispatchStage::FinishingFailedCall || s.stage == DispatchStage::RejectingDocument {
                (DispatchState { stage: DispatchStage::Ended, failure: s.failure }, DispatchAction::Finish { result: Err(s.failure) })
            } else {
                idle
            }
        },
    }
}

/// A dispatch hands a request to the guest only after the request passed
/// the replay lookup and the action validator; a malformed request or a
/// refused action is answered by recording the client's violation.
pub proof fn dispatch_invokes_only_validated_requests(s: DispatchState, e: DispatchEvent)
    ensures
        dispatch_next(s, e).1 is BeginCall ==> s.stage == DispatchStage::ValidatingAction && e matches DispatchEvent::ActionChecked { result: Ok(()) },
        dispatch_next(s, e).1 is InvokeDispatch ==> s.stage == DispatchStage::BeginningCall,
        match e {
            DispatchEvent::ActionChecked { result: Err(f) } => s.stage == DispatchStage::ValidatingAction
                ==> dispatch_next(s, e).1 == (DispatchAction::RejectClient { code: action_error_code(f) }),
            _ => true,
        },
{
}

} // verus!
