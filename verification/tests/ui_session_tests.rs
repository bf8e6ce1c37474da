use std::sync::atomic::Ordering;

use alcomd::access::AccessContext;
use alcomd::domain::{Permission, PrincipalId, Revision};
use alcomd::extensions::{
    ExtensionDesiredState, ExtensionInstanceLease, ExtensionQuarantineState, ExtensionRecord,
    ExtensionRuntimeState, ExtensionTrustDecision, ExtensionUiProtocol,
};
use alcomd::ui_session::{
    canonical_locale, validate_current_session, ExtensionInvocationKind, M7Error, M7ErrorCode,
    UiSessionCoordinator, MAX_SESSIONS_PER_CONNECTION, MAX_SESSIONS_PER_EXTENSION,
    MAX_SESSIONS_TOTAL,
};

const SESSION: &str = "00000000-0000-4000-8000-000000000004";

#[test]
fn locale_subset_is_canonical_and_bounded() {
    assert_eq!(canonical_locale("en"), Some("en".to_owned()));
    assert_eq!(
        canonical_locale("zh-Hans-CN"),
        Some("zh-Hans-CN".to_owned())
    );
    assert_eq!(canonical_locale("en-US"), Some("en-US".to_owned()));
    assert_eq!(canonical_locale("EN-us"), None);
    assert_eq!(canonical_locale("en-US-private"), None);
}

#[test]
fn exact_scopes_do_not_expand_each_other() {
    let access = AccessContext::new(
        PrincipalId::parse("client:test").expect("principal"),
        &[Permission::ProjectsRead, Permission::ExtensionsUiUse],
    )
    .with_project_read_scopes(vec!["project-a".to_owned()])
    .with_extension_ui_scopes(vec!["dev.example.a".to_owned()]);
    assert!(access.require_project_read_scope("project-a").is_ok());
    assert!(access.require_project_read_scope("project-b").is_err());
    assert!(access.require_extension_ui_scope("dev.example.a").is_ok());
    assert!(access.require_extension_ui_scope("dev.example.b").is_err());
}

fn extension_record() -> ExtensionRecord {
    ExtensionRecord {
        extension_id: "dev.example.fixture".to_owned(),
        version: "1.0.0".to_owned(),
        api_major: 1,
        package_digest: [7; 32],
        publisher_fingerprint: format!("ed25519-sha256:{}", "a".repeat(64)),
        trust_decision: ExtensionTrustDecision::Official,
        desired_state: ExtensionDesiredState::Enabled,
        quarantine_state: ExtensionQuarantineState::Clear,
        runtime_state: ExtensionRuntimeState::Running,
        grant_revision: Revision::initial(),
        lifecycle_generation: Revision::initial(),
        revision: Revision::initial(),
        ui_protocol: Some(ExtensionUiProtocol::PortableV1),
    }
}

fn lease() -> ExtensionInstanceLease {
    ExtensionInstanceLease {
        lease_id: "00000000-0000-4000-8000-000000000001".to_owned(),
        extension_id: "dev.example.fixture".to_owned(),
        instance_id: "00000000-0000-4000-8000-000000000002".to_owned(),
        principal_id: PrincipalId::parse("extension-instance:test").expect("principal"),
        publisher_fingerprint: format!("ed25519-sha256:{}", "a".repeat(64)),
        grant_revision: Revision::initial(),
        lifecycle_generation: Revision::initial(),
        daemon_epoch: "00000000-0000-4000-8000-000000000003".to_owned(),
        expires_at_ms: 60_000,
    }
}

fn open_session() -> (UiSessionCoordinator, AccessContext) {
    let access = AccessContext::local_owner();
    let mut coordinator = UiSessionCoordinator::default();
    coordinator
        .reserve(
            &access,
            "connection-a",
            "client-a",
            &extension_record(),
            SESSION,
            "en-US",
            1_000,
            301_000,
            3_601_000,
        )
        .expect("reserve");
    coordinator.bind_lease(SESSION, &lease()).expect("bind");
    coordinator
        .commit_open(SESSION, b"document-1".to_vec(), 1_000)
        .expect("commit open");
    (coordinator, access)
}

fn session_index(coordinator: &UiSessionCoordinator) -> usize {
    coordinator.find(SESSION).expect("session")
}

#[test]
fn replay_is_current_only_and_guest_call_is_not_reserved_twice() {
    let (mut coordinator, access) = open_session();
    assert!(coordinator
        .replay(&access, "connection-a", SESSION, 1, 1, "request-1", [9; 32], 2_000)
        .expect("new request")
        .is_none());
    coordinator
        .prepare_call(&access, "connection-a", SESSION, 1, 2_000)
        .expect("prepare");
    coordinator
        .commit_dispatch(
            SESSION,
            1,
            1,
            "request-1".to_owned(),
            [9; 32],
            b"document-2".to_vec(),
            2_000,
        )
        .expect("dispatch");
    let replay = coordinator
        .replay(&access, "connection-a", SESSION, 1, 1, "request-1", [9; 32], 2_001)
        .expect("replay")
        .expect("cached");
    assert!(replay.replayed);
    assert_eq!(replay.snapshot.document, b"document-2");

    coordinator
        .commit_refresh(SESSION, b"document-3".to_vec(), 2_002)
        .expect("refresh");
    assert_eq!(
        coordinator
            .replay(&access, "connection-a", SESSION, 1, 1, "request-1", [9; 32], 2_003)
            .expect_err("historical replay")
            .code(),
        M7ErrorCode::SnapshotStale
    );
}

#[test]
fn close_marks_stale_before_cleanup_and_releases_payloads() {
    let (mut coordinator, access) = open_session();
    let authority = coordinator
        .invocation(
            SESSION,
            &access,
            "connection-a",
            ExtensionInvocationKind::InteractiveUiAction,
            1,
            2_000,
        )
        .expect("current authority");
    assert!(authority.is_current());
    let closing = coordinator
        .begin_close(&access, "connection-a", SESSION, 2_000)
        .expect("owned session");
    assert!(!authority.is_current());
    assert!(closing.replay.is_empty());
    assert_eq!(
        coordinator
            .prepare_call(&access, "connection-a", SESSION, 1, 2_001)
            .err()
            .expect("closing rejects calls")
            .code(),
        M7ErrorCode::SessionStale
    );
    coordinator.finish_close(SESSION);
    assert!(coordinator.find(SESSION).is_none());
    assert_eq!(
        coordinator
            .owned_session(&access, "connection-a", SESSION)
            .err()
            .expect("closed session")
            .code(),
        M7ErrorCode::SessionStale
    );
    assert_eq!(
        coordinator
            .owned_session(&access, "connection-b", SESSION)
            .err()
            .expect("other connection")
            .code(),
        M7ErrorCode::SessionNotFound
    );
}

#[test]
fn expired_sessions_are_reserved_for_close_before_maintenance_checks() {
    let (mut coordinator, access) = open_session();
    let expired = coordinator.begin_close_expired(301_000);
    assert_eq!(expired.len(), 1);
    assert!(expired[0].replay.is_empty());
    assert!(coordinator.maintenance_candidates().is_empty());
    assert_eq!(
        coordinator
            .prepare_call(&access, "connection-a", SESSION, 1, 301_000)
            .err()
            .expect("expired session rejects calls")
            .code(),
        M7ErrorCode::SessionStale
    );
}

#[test]
fn third_client_violation_closes_only_the_owned_session() {
    let (mut coordinator, access) = open_session();
    assert!(coordinator
        .record_client_violation(&access, "connection-a", SESSION, 2_000)
        .is_none());
    assert!(coordinator
        .record_client_violation(&access, "connection-a", SESSION, 2_001)
        .is_none());
    let closing = coordinator
        .record_client_violation(&access, "connection-a", SESSION, 2_002)
        .expect("third violation closes");
    assert!(closing.replay.is_empty());
    assert!(!closing.invocation_current.load(Ordering::Acquire));
    assert_eq!(
        coordinator
            .owned_session(&access, "connection-a", SESSION)
            .err()
            .expect("session is closing")
            .code(),
        M7ErrorCode::SessionStale
    );
}

#[test]
fn established_session_maps_lifecycle_and_digest_changes_to_stale() {
    let mut session_record = extension_record();
    let (coordinator, _) = open_session();
    let current = &coordinator.sessions[session_index(&coordinator)];
    assert_eq!(validate_current_session(current, &session_record), Ok(()));
    session_record.desired_state = ExtensionDesiredState::InstalledDisabled;
    assert_eq!(
        validate_current_session(current, &session_record)
            .expect_err("disabled session")
            .code(),
        M7ErrorCode::SessionStale
    );
    session_record.desired_state = ExtensionDesiredState::Enabled;
    session_record.package_digest = [8; 32];
    assert_eq!(
        validate_current_session(current, &session_record)
            .expect_err("digest change")
            .code(),
        M7ErrorCode::SessionStale
    );
}

fn reserve_opening(
    coordinator: &mut UiSessionCoordinator,
    access: &AccessContext,
    record: &ExtensionRecord,
    connection_id: &str,
    session_id: &str,
) -> Result<(), M7Error> {
    coordinator.reserve(
        access,
        connection_id,
        "client-instance",
        record,
        session_id,
        "en-US",
        1_000,
        301_000,
        3_601_000,
    )
}

#[test]
fn session_limits_enforce_extension_connection_and_daemon_caps() {
    let access = AccessContext::local_owner();
    let mut per_extension = UiSessionCoordinator::default();
    let record = extension_record();
    for index in 0..MAX_SESSIONS_PER_EXTENSION {
        reserve_opening(
            &mut per_extension,
            &access,
            &record,
            &format!("extension-connection-{index}"),
            &format!("extension-session-{index}"),
        )
        .expect("within extension cap");
    }
    assert_eq!(
        reserve_opening(
            &mut per_extension,
            &access,
            &record,
            "extension-connection-overflow",
            "extension-session-overflow",
        )
        .expect_err("extension session cap")
        .code(),
        M7ErrorCode::LimitExceeded
    );

    let mut per_connection = UiSessionCoordinator::default();
    for index in 0..MAX_SESSIONS_PER_CONNECTION {
        let mut record = extension_record();
        record.extension_id = format!("dev.example.connection-{index}");
        reserve_opening(
            &mut per_connection,
            &access,
            &record,
            "shared-connection",
            &format!("connection-session-{index}"),
        )
        .expect("within connection cap");
    }
    let mut record = extension_record();
    record.extension_id = "dev.example.connection-overflow".to_owned();
    assert_eq!(
        reserve_opening(
            &mut per_connection,
            &access,
            &record,
            "shared-connection",
            "connection-session-overflow",
        )
        .expect_err("connection session cap")
        .code(),
        M7ErrorCode::LimitExceeded
    );

    let mut total = UiSessionCoordinator::default();
    for index in 0..MAX_SESSIONS_TOTAL {
        let mut record = extension_record();
        record.extension_id = format!("dev.example.total-{index}");
        reserve_opening(
            &mut total,
            &access,
            &record,
            &format!("total-connection-{index}"),
            &format!("total-session-{index}"),
        )
        .expect("within daemon cap");
    }
    let mut record = extension_record();
    record.extension_id = "dev.example.total-overflow".to_owned();
    assert_eq!(
        reserve_opening(
            &mut total,
            &access,
            &record,
            "total-connection-overflow",
            "total-session-overflow",
        )
        .expect_err("daemon session cap")
        .code(),
        M7ErrorCode::LimitExceeded
    );
}

#[test]
fn rate_limit_refills_and_single_in_flight_prevents_reordering() {
    let (mut coordinator, access) = open_session();
    coordinator
        .prepare_call(&access, "connection-a", SESSION, 1, 2_000)
        .expect("first call");
    assert_eq!(
        coordinator
            .prepare_call(&access, "connection-a", SESSION, 1, 2_000)
            .err()
            .expect("second in-flight call")
            .code(),
        M7ErrorCode::ActionInvalid
    );
    coordinator
        .commit_refresh(SESSION, b"document-2".to_vec(), 2_000)
        .expect("complete first call");

    for revision in 2..=10 {
        coordinator
            .prepare_call(&access, "connection-a", SESSION, revision, 2_000)
            .expect("within burst");
        coordinator
            .commit_refresh(
                SESSION,
                format!("document-{}", revision + 1).into_bytes(),
                2_000,
            )
            .expect("commit bounded refresh");
    }
    assert_eq!(
        coordinator
            .prepare_call(&access, "connection-a", SESSION, 11, 2_000)
            .err()
            .expect("burst exhausted")
            .code(),
        M7ErrorCode::LimitExceeded
    );
    coordinator
        .prepare_call(&access, "connection-a", SESSION, 11, 3_000)
        .expect("one token refilled after one second");
}

#[test]
fn idle_absolute_and_revision_overflow_fail_closed() {
    let (mut idle, access) = open_session();
    assert_eq!(
        idle.prepare_call(&access, "connection-a", SESSION, 1, 301_000)
            .err()
            .expect("idle timeout")
            .code(),
        M7ErrorCode::SessionStale
    );

    let (mut absolute, access) = open_session();
    let index = session_index(&absolute);
    absolute.sessions[index].idle_deadline_ms = 4_000_000;
    assert_eq!(
        absolute
            .prepare_call(&access, "connection-a", SESSION, 1, 3_601_000)
            .err()
            .expect("absolute timeout")
            .code(),
        M7ErrorCode::SessionStale
    );

    let (mut overflow, _) = open_session();
    let index = session_index(&overflow);
    overflow.sessions[index].snapshot_revision = u64::MAX;
    assert_eq!(
        overflow
            .commit_refresh(SESSION, b"never-published".to_vec(), 2_000)
            .expect_err("revision overflow")
            .code(),
        M7ErrorCode::Internal
    );
    assert_eq!(
        overflow.sessions[session_index(&overflow)].snapshot_revision,
        u64::MAX
    );
}

#[test]
fn sensitive_documents_and_replay_payloads_are_inaccessible_after_close() {
    let (mut coordinator, access) = open_session();
    let sensitive = b"m7-sensitive-form-value".to_vec();
    coordinator
        .prepare_call(&access, "connection-a", SESSION, 1, 2_000)
        .expect("prepare sensitive result");
    coordinator
        .commit_dispatch(
            SESSION,
            1,
            1,
            "request-sensitive".to_owned(),
            [4; 32],
            sensitive.clone(),
            2_000,
        )
        .expect("commit in-memory result");
    let closing = coordinator
        .begin_close(&access, "connection-a", SESSION, 2_001)
        .expect("close session");
    assert!(closing.replay.is_empty());
    coordinator.finish_close(SESSION);
    assert!(coordinator.find(SESSION).is_none());
    assert!(coordinator.stale.iter().all(|entry| {
        !entry.session_id.contains("m7-sensitive-form-value")
            && !entry
                .client_principal_id
                .contains("m7-sensitive-form-value")
            && !entry
                .client_connection_id
                .contains("m7-sensitive-form-value")
    }));
    let error = coordinator
        .current_document(SESSION)
        .expect_err("closed payload unavailable");
    assert!(!format!("{error:?} {}", error.message()).contains("m7-sensitive-form-value"));
}
