use alcomd::access::{AccessContext, ApplicationError};
use alcomd::domain::{
    DomainValueError, IdempotencyKey, OperationState, Permission, PrincipalId, RecoveryAction,
    ResourceKey, Revision,
};
use alcomd::ids::{OperationId, ProjectId};
use alcomd::locks::lock_order;
use alcomd::registry::{
    system_status, CancelOperationFingerprintV1, StateCheckFingerprintV1, SystemState,
};

#[test]
fn status_reports_only_the_real_m1_state() {
    assert_eq!(system_status().state(), SystemState::Ready);
    assert_eq!(system_status().state().as_str(), "ready");
}

#[test]
fn every_status_answer_is_the_same() {
    assert_eq!(system_status(), system_status());
}

#[test]
fn m2_fingerprints_are_versioned_typed_and_deterministic() {
    assert_eq!(StateCheckFingerprintV1.canonical_json(), r#"{"version":1}"#);
    let operation_id =
        OperationId::parse("00000000-0000-4000-8000-000000000001").expect("fixed UUID");
    let fingerprint = CancelOperationFingerprintV1::new(operation_id, Revision::initial());
    assert_eq!(
        fingerprint.canonical_json(),
        r#"{"expectedRevision":1,"operationId":"00000000-0000-4000-8000-000000000001","version":1}"#
    );
}

#[test]
fn synthetic_principal_permissions_are_revalidated_per_use_case() {
    let access = AccessContext::new(
        PrincipalId::parse("synthetic:reader").expect("synthetic Principal"),
        &[Permission::OperationsRead],
    );
    assert!(access.require(Permission::OperationsRead).is_ok());
    assert_eq!(
        access.require(Permission::OperationsCancel),
        Err(ApplicationError::PermissionDenied)
    );
}

#[test]
fn project_ids_are_unique() {
    assert_ne!(ProjectId::new(), ProjectId::new());
}

#[test]
fn operation_transition_table_freezes_m2_edges_and_terminal_immutability() {
    let states = [
        OperationState::Queued,
        OperationState::Planning,
        OperationState::WaitingForInput,
        OperationState::Running,
        OperationState::Cancelling,
        OperationState::Succeeded,
        OperationState::Failed,
        OperationState::Cancelled,
        OperationState::Interrupted,
        OperationState::Recovering,
    ];
    let allowed = [
        (OperationState::Queued, OperationState::Running),
        (OperationState::Queued, OperationState::Cancelled),
        (OperationState::Running, OperationState::Cancelling),
        (OperationState::Running, OperationState::Succeeded),
        (OperationState::Running, OperationState::Failed),
        (OperationState::Running, OperationState::Interrupted),
        (OperationState::Cancelling, OperationState::Succeeded),
        (OperationState::Cancelling, OperationState::Failed),
        (OperationState::Cancelling, OperationState::Cancelled),
        (OperationState::Cancelling, OperationState::Interrupted),
        (OperationState::Interrupted, OperationState::Recovering),
        (OperationState::Recovering, OperationState::Running),
        (OperationState::Recovering, OperationState::Cancelling),
        (OperationState::Recovering, OperationState::Failed),
        (OperationState::Recovering, OperationState::Cancelled),
        (OperationState::Recovering, OperationState::Interrupted),
    ];
    for current in states {
        for next in states {
            assert_eq!(
                current.can_transition_to(next),
                allowed.contains(&(current, next)),
                "unexpected transition {current:?} -> {next:?}"
            );
        }
    }
    for state in states {
        assert_eq!(
            state.is_terminal(),
            matches!(
                state,
                OperationState::Succeeded | OperationState::Failed | OperationState::Cancelled
            )
        );
    }
}

#[test]
fn recovery_table_preserves_queued_and_terminal_states() {
    assert_eq!(
        OperationState::Queued.recovery_action(),
        RecoveryAction::RescheduleQueued
    );
    for state in [
        OperationState::Running,
        OperationState::Cancelling,
        OperationState::Recovering,
    ] {
        assert_eq!(
            state.recovery_action(),
            RecoveryAction::InterruptThenRecover
        );
    }
    assert_eq!(
        OperationState::Interrupted.recovery_action(),
        RecoveryAction::ResumeRecovery
    );
    for state in [
        OperationState::Succeeded,
        OperationState::Failed,
        OperationState::Cancelled,
    ] {
        assert_eq!(state.recovery_action(), RecoveryAction::LeaveTerminal);
    }
}

#[test]
fn revision_is_positive_and_sqlite_bounded() {
    assert_eq!(Revision::new(0), None);
    assert_eq!(Revision::initial().get(), 1);
    assert_eq!(
        Revision::new(i64::MAX as u64).map(Revision::get),
        Some(i64::MAX as u64)
    );
    assert_eq!(Revision::new(i64::MAX as u64 + 1), None);
    assert_eq!(
        Revision::new(i64::MAX as u64).and_then(Revision::checked_next),
        None
    );
}

#[test]
fn resource_lock_order_is_canonical_and_scope_is_minimal() {
    let first = ResourceKey::Operation(OperationId::new());
    let second = ResourceKey::Operation(OperationId::new());
    assert_ne!(first.canonical_bytes(), second.canonical_bytes());
    assert_eq!(ResourceKey::StateStore.canonical_bytes(), b"state-store");
    let create = ResourceKey::ProjectCreate {
        parent_identity_sha256: [7; 32],
        target_leaf: "Example".to_owned(),
    };
    assert_eq!(
        create.canonical_bytes(),
        [b"project-create:".as_slice(), &[7; 32], b":Example"].concat()
    );
}

#[test]
fn principal_and_permission_names_are_frozen() {
    assert_eq!(PrincipalId::local_owner().as_str(), "builtin:local-owner");
    assert_eq!(Permission::EventsRead.as_str(), "events.read");
    assert_eq!(Permission::UnityRead.as_str(), "unity.read");
    assert_eq!(Permission::UnityManage.as_str(), "unity.manage");
    assert_eq!(Permission::UnityLaunch.as_str(), "unity.launch");
    assert_eq!(Permission::ProjectsCreate.as_str(), "projects.create");
    assert!(IdempotencyKey::parse("check-once").is_ok());
    assert_eq!(
        IdempotencyKey::parse("界"),
        Err(DomainValueError::InvalidIdempotencyKey)
    );
}

#[test]
fn lock_order_sorts_by_canonical_bytes_and_keeps_each_key_once() {
    let low = OperationId::from_uuid([1; 16]);
    let high = OperationId::from_uuid([2; 16]);
    let keys = vec![
        ResourceKey::StateStore,
        ResourceKey::Operation(high),
        ResourceKey::Operation(low),
        ResourceKey::StateStore,
        ResourceKey::Extension("dev.example.a".to_owned()),
    ];
    let ordered = lock_order(keys);
    assert_eq!(
        ordered,
        vec![
            ResourceKey::Extension("dev.example.a".to_owned()),
            ResourceKey::Operation(low),
            ResourceKey::Operation(high),
            ResourceKey::StateStore,
        ]
    );
}
