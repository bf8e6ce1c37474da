use alcomd::access::{AccessContext, ApplicationError, StoreError, StoreErrorKind};
use alcomd::backup::{
    authorize_backup_create, authorize_restore_apply, authorize_restore_plan, backup_page,
    is_local_owner, validate_backup_list_limit, BackupCompression, BackupRecord, M5BackupErrorCode,
    StoredBackupRecord,
};
use alcomd::copy::{
    authorize_copy, copy_apply_gate, copy_error_from_m3, copy_plan_gate, project_copy_error_name,
    M7CopyErrorCode,
};
use alcomd::delete::{
    authorize_delete_apply, authorize_delete_plan, delete_apply_revision_gate, delete_error_from_m3,
    project_delete_error_name, M7DeleteErrorCode,
};
use alcomd::domain::{Permission, PrincipalId, Revision};
use alcomd::ids::{BackupId, ProjectId, TemplateId};
use alcomd::packages::{
    apply_failure_disposition, check_plan_request, m4_error_from_store, map_m3_error,
    require_apply_access, require_plan_access, ApplyFailureDisposition, M4ErrorCode, PlanAction,
};
use alcomd::registry::{
    check_unmodified_refresh, validate_event_listing, validate_limit, validate_m3_limit,
    validate_operation_listing, worker_failure_code, M3Error, M3ErrorCode,
};
use alcomd::template::{
    check_import_target, derive_gate, require_template_owner, template_page,
    validate_template_list_limit, M5TemplateErrorCode, TemplateRecord, TemplateSourceKind,
};
use alcomd::unity::UnityWriterStateKind;

fn rev(value: u64) -> Revision {
    Revision::new(value).expect("revision")
}

fn guest(permissions: &[Permission]) -> AccessContext {
    AccessContext::new(PrincipalId::parse("extension:dev.example").expect("principal"), permissions)
}

fn owner(permissions: &[Permission]) -> AccessContext {
    AccessContext::new(PrincipalId::local_owner(), permissions)
}

#[test]
fn backup_gates_need_their_permissions_and_the_owner() {
    let full = owner(&[Permission::BackupsManage, Permission::ProjectsRead, Permission::BackupsRead, Permission::ProjectsCreate]);
    assert!(is_local_owner(&full));
    assert!(!is_local_owner(&guest(&[Permission::BackupsManage])));
    assert!(authorize_backup_create(&full).is_ok());
    assert!(authorize_restore_plan(&full).is_ok());
    assert!(authorize_restore_apply(&full).is_ok());
    let reader = owner(&[Permission::BackupsRead]);
    assert_eq!(authorize_backup_create(&reader).expect_err("create").code(), M5BackupErrorCode::PermissionDenied);
    assert_eq!(authorize_restore_plan(&reader).expect_err("plan").code(), M5BackupErrorCode::PermissionDenied);
    assert_eq!(authorize_restore_apply(&reader).expect_err("apply").code(), M5BackupErrorCode::PermissionDenied);
}

#[test]
fn list_limits_accept_one_to_a_thousand() {
    for ok in [1u32, 64, 1000] {
        assert!(validate_backup_list_limit(ok).is_ok());
        assert!(validate_template_list_limit(ok).is_ok());
        assert_eq!(validate_limit(ok), Ok(()));
        assert!(validate_m3_limit(ok).is_ok());
    }
    for bad in [0u32, 1001, u32::MAX] {
        assert_eq!(validate_backup_list_limit(bad).expect_err("backup").code(), M5BackupErrorCode::InvalidInput);
        assert_eq!(validate_template_list_limit(bad).expect_err("template").code(), M5TemplateErrorCode::InvalidInput);
        assert_eq!(validate_limit(bad), Err(ApplicationError::InvalidInput));
        assert_eq!(validate_m3_limit(bad).expect_err("m3").code(), M3ErrorCode::Internal);
    }
}

#[test]
fn listings_reject_cursors_beyond_the_signed_range() {
    assert_eq!(validate_event_listing(0, 10), Ok(()));
    assert_eq!(validate_event_listing(i64::MAX as u64, 10), Ok(()));
    assert_eq!(validate_event_listing(i64::MAX as u64 + 1, 10), Err(ApplicationError::InvalidInput));
    assert_eq!(validate_event_listing(0, 0), Err(ApplicationError::InvalidInput));
    assert_eq!(validate_operation_listing(None, 1000), Ok(()));
    assert_eq!(validate_operation_listing(Some(i64::MAX as u64), 5), Ok(()));
    assert_eq!(validate_operation_listing(Some(u64::MAX), 5), Err(ApplicationError::InvalidInput));
    assert_eq!(validate_operation_listing(None, 1001), Err(ApplicationError::InvalidInput));
}

#[test]
fn store_failures_name_and_wrap_their_kind() {
    assert_eq!(worker_failure_code(StoreErrorKind::Unavailable), "store_unavailable");
    assert_eq!(worker_failure_code(StoreErrorKind::CorruptState), "internal_error");
    assert_eq!(
        ApplicationError::from_store(StoreError::new(StoreErrorKind::RevisionConflict)),
        ApplicationError::Store(StoreErrorKind::RevisionConflict)
    );
    assert_eq!(m4_error_from_store(StoreErrorKind::RevisionConflict).code(), M4ErrorCode::RevisionConflict);
    assert_eq!(m4_error_from_store(StoreErrorKind::IdempotencyConflict).code(), M4ErrorCode::IdempotencyConflict);
    assert_eq!(m4_error_from_store(StoreErrorKind::Unavailable).code(), M4ErrorCode::StoreUnavailable);
    assert_eq!(m4_error_from_store(StoreErrorKind::OperationNotFound).code(), M4ErrorCode::Internal);
}

#[test]
fn registry_failures_map_into_each_workflow() {
    let not_registered = M3Error::new(M3ErrorCode::ProjectNotRegistered);
    let unavailable = M3Error::new(M3ErrorCode::StoreUnavailable);
    let denied = M3Error::new(M3ErrorCode::PermissionDenied);
    let other = M3Error::new(M3ErrorCode::ProjectManifestInvalid);
    assert_eq!(copy_error_from_m3(not_registered).code(), M7CopyErrorCode::ProjectNotRegistered);
    assert_eq!(copy_error_from_m3(unavailable).code(), M7CopyErrorCode::StoreUnavailable);
    assert_eq!(copy_error_from_m3(denied).code(), M7CopyErrorCode::Internal);
    assert_eq!(delete_error_from_m3(not_registered).code(), M7DeleteErrorCode::ProjectNotRegistered);
    assert_eq!(delete_error_from_m3(unavailable).code(), M7DeleteErrorCode::StoreUnavailable);
    assert_eq!(delete_error_from_m3(other).code(), M7DeleteErrorCode::Internal);
    assert_eq!(map_m3_error(not_registered).code(), M4ErrorCode::ProjectNotRegistered);
    assert_eq!(map_m3_error(denied).code(), M4ErrorCode::PermissionDenied);
    assert_eq!(map_m3_error(unavailable).code(), M4ErrorCode::StoreUnavailable);
    assert_eq!(map_m3_error(other).code(), M4ErrorCode::Internal);
}

#[test]
fn copy_and_delete_errors_have_public_names() {
    assert_eq!(project_copy_error_name(M7CopyErrorCode::InvalidInput), "invalid_request");
    assert_eq!(project_copy_error_name(M7CopyErrorCode::ProjectCopyTargetExists), "project_copy_target_exists");
    assert_eq!(project_copy_error_name(M7CopyErrorCode::Internal), "internal_error");
    assert_eq!(project_delete_error_name(M7DeleteErrorCode::InvalidInput), "invalid_request");
    assert_eq!(project_delete_error_name(M7DeleteErrorCode::ProjectDeleteSourceMissing), "project_delete_source_missing");
    assert_eq!(project_delete_error_name(M7DeleteErrorCode::StoreUnavailable), "store_unavailable");
}

#[test]
fn copy_and_delete_need_the_local_owner() {
    let copier = owner(&[Permission::ProjectsRead, Permission::ProjectsCreate]);
    assert!(authorize_copy(&copier).is_ok());
    assert_eq!(
        authorize_copy(&guest(&[Permission::ProjectsRead, Permission::ProjectsCreate])).expect_err("guest").code(),
        M7CopyErrorCode::PermissionDenied
    );
    assert_eq!(authorize_copy(&owner(&[Permission::ProjectsRead])).expect_err("create").code(), M7CopyErrorCode::PermissionDenied);
    let deleter = owner(&[Permission::ProjectsRead, Permission::ProjectsDelete]);
    assert!(authorize_delete_plan(&deleter).is_ok());
    assert!(authorize_delete_apply(&owner(&[Permission::ProjectsDelete])).is_ok());
    assert_eq!(authorize_delete_plan(&owner(&[Permission::ProjectsDelete])).expect_err("read").code(), M7DeleteErrorCode::PermissionDenied);
    assert_eq!(authorize_delete_apply(&guest(&[Permission::ProjectsDelete])).expect_err("guest").code(), M7DeleteErrorCode::PermissionDenied);
}

#[test]
fn copy_gates_check_revision_before_the_editor() {
    assert!(copy_plan_gate(rev(3), rev(3), UnityWriterStateKind::NotObserved).is_ok());
    assert!(copy_plan_gate(rev(3), rev(3), UnityWriterStateKind::RunningSuspected).is_ok());
    assert_eq!(
        copy_plan_gate(rev(3), rev(2), UnityWriterStateKind::RunningConfirmed).expect_err("rev").code(),
        M7CopyErrorCode::RevisionConflict
    );
    assert_eq!(
        copy_plan_gate(rev(3), rev(3), UnityWriterStateKind::RunningConfirmed).expect_err("running").code(),
        M7CopyErrorCode::UnityProjectRunning
    );
    assert!(copy_apply_gate(rev(4), rev(4), rev(4), UnityWriterStateKind::Unknown).is_ok());
    assert_eq!(
        copy_apply_gate(rev(4), rev(4), rev(3), UnityWriterStateKind::NotObserved).expect_err("planned").code(),
        M7CopyErrorCode::RevisionConflict
    );
    assert_eq!(
        copy_apply_gate(rev(4), rev(4), rev(4), UnityWriterStateKind::RunningConfirmed).expect_err("running").code(),
        M7CopyErrorCode::UnityProjectRunning
    );
    assert!(delete_apply_revision_gate(rev(7), rev(7), rev(7)).is_ok());
    assert_eq!(delete_apply_revision_gate(rev(7), rev(6), rev(7)).expect_err("expected").code(), M7DeleteErrorCode::RevisionConflict);
    assert_eq!(delete_apply_revision_gate(rev(7), rev(7), rev(6)).expect_err("planned").code(), M7DeleteErrorCode::RevisionConflict);
    assert!(check_unmodified_refresh(rev(2), rev(2)).is_ok());
    assert_eq!(check_unmodified_refresh(rev(2), rev(1)).expect_err("stale").code(), M3ErrorCode::RevisionConflict);
}

#[test]
fn package_plans_need_reads_and_a_complete_catalog() {
    let planner = owner(&[Permission::ProjectsRead, Permission::RepositoriesRead, Permission::PackagesRead]);
    assert!(require_plan_access(&planner).is_ok());
    assert_eq!(require_apply_access(&planner).expect_err("manage").code(), M4ErrorCode::PermissionDenied);
    let applier = owner(&[Permission::ProjectsRead, Permission::RepositoriesRead, Permission::PackagesRead, Permission::PackagesManage]);
    assert!(require_apply_access(&applier).is_ok());
    let remote = guest(&[Permission::ProjectsRead, Permission::RepositoriesRead, Permission::PackagesRead, Permission::PackagesManage]);
    assert!(require_plan_access(&remote).is_ok());
    assert_eq!(require_apply_access(&remote).expect_err("owner").code(), M4ErrorCode::PermissionDenied);
    assert_eq!(require_plan_access(&owner(&[Permission::ProjectsRead])).expect_err("reads").code(), M4ErrorCode::PermissionDenied);

    assert!(check_plan_request(rev(5), rev(5), PlanAction::Install, true).is_ok());
    assert!(check_plan_request(rev(5), rev(5), PlanAction::Remove, false).is_ok());
    assert_eq!(
        check_plan_request(rev(5), rev(5), PlanAction::Upgrade, false).expect_err("catalog").code(),
        M4ErrorCode::RepositoryRefreshRequired
    );
    assert_eq!(
        check_plan_request(rev(5), rev(4), PlanAction::Remove, true).expect_err("revision").code(),
        M4ErrorCode::RevisionConflict
    );
}

#[test]
fn failed_applies_end_by_their_code() {
    assert_eq!(apply_failure_disposition(M4ErrorCode::OperationCancelled), ApplyFailureDisposition::FinishCancelled);
    assert_eq!(apply_failure_disposition(M4ErrorCode::RecoveryRequired), ApplyFailureDisposition::AwaitRecovery);
    assert_eq!(apply_failure_disposition(M4ErrorCode::PlanStale), ApplyFailureDisposition::Fail);
}

fn backup(created_at_ms: u64) -> StoredBackupRecord {
    StoredBackupRecord {
        record: BackupRecord {
            backup_id: BackupId::new(),
            source_project_id: ProjectId::new(),
            archive_sha256: [7; 32],
            archive_bytes: 100,
            format_version: 1,
            created_at_ms,
            compression_mode: BackupCompression::Fast,
            exclude_vpm_packages: false,
        },
        archive_locator: "backups/a.zip".to_string(),
        file_identity_key: vec![1, 2],
    }
}

#[test]
fn backup_pages_drop_the_probe_row_and_point_at_the_last_kept() {
    let rows = vec![backup(30), backup(20), backup(10)];
    let ids: Vec<BackupId> = rows.iter().map(|r| r.record.backup_id).collect();
    let page = backup_page(rows.clone(), 2);
    assert_eq!(page.backups.len(), 2);
    assert_eq!(page.backups[0], rows[0].record);
    assert_eq!(page.backups[1], rows[1].record);
    let cursor = page.next_cursor.expect("cursor");
    assert_eq!(cursor.created_at_ms, 20);
    assert_eq!(cursor.backup_id, ids[1]);
    let last = backup_page(rows.clone(), 3);
    assert_eq!(last.backups.len(), 3);
    assert!(last.next_cursor.is_none());
}

fn template(updated_at_ms: u64, source_kind: TemplateSourceKind) -> TemplateRecord {
    TemplateRecord {
        template_id: TemplateId::new(),
        source_kind,
        template_version: "1.0.0".to_string(),
        display_name: "Avatar".to_string(),
        description: None,
        provenance: "user".to_string(),
        manifest_json: "{}".to_string(),
        bundle_sha256: [1; 32],
        manifest_fingerprint: [2; 32],
        favorite: false,
        revision: rev(1),
        created_at_ms: 1,
        updated_at_ms,
    }
}

#[test]
fn template_pages_drop_the_probe_row_and_point_at_the_last_kept() {
    let rows = vec![template(9, TemplateSourceKind::User), template(5, TemplateSourceKind::Builtin)];
    let first_id = rows[0].template_id;
    let page = template_page(rows.clone(), 1);
    assert_eq!(page.templates.len(), 1);
    assert_eq!(page.templates[0].template_id, first_id);
    let cursor = page.next_cursor.expect("cursor");
    assert_eq!(cursor.updated_at_ms, 9);
    assert_eq!(cursor.template_id, first_id);
    let whole = template_page(rows, 2);
    assert_eq!(whole.templates.len(), 2);
    assert!(whole.next_cursor.is_none());
}

#[test]
fn templates_guard_builtins_owner_and_derivation() {
    assert!(check_import_target(&None).is_ok());
    assert!(require_template_owner(&owner(&[Permission::TemplatesManage]), Permission::TemplatesManage).is_ok());
    assert_eq!(
        require_template_owner(&guest(&[Permission::TemplatesManage]), Permission::TemplatesManage).expect_err("guest").code(),
        M5TemplateErrorCode::PermissionDenied
    );
    assert!(derive_gate(false, UnityWriterStateKind::NotObserved, true).is_ok());
    assert_eq!(derive_gate(true, UnityWriterStateKind::RunningConfirmed, false).expect_err("exists").code(), M5TemplateErrorCode::TemplateConflict);
    assert_eq!(derive_gate(false, UnityWriterStateKind::RunningConfirmed, false).expect_err("running").code(), M5TemplateErrorCode::ProjectRunning);
    assert_eq!(derive_gate(false, UnityWriterStateKind::RunningSuspected, false).expect_err("catalog").code(), M5TemplateErrorCode::TemplatePlanStale);
}
