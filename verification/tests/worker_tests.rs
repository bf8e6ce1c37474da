use alcomd::backup::{
    backup_run_new, backup_step, error_name, restore_run_new, restore_step, BackupPhase,
    BackupRestorePhase, BackupRunAction, BackupRunEvent, M5BackupErrorCode, RestoreRunAction,
    RestoreRunEvent,
};
use alcomd::copy::{copy_run_new, copy_step, CopyRunAction, CopyRunEvent, ProjectCopyPhase};
use alcomd::delete::{
    delete_run_new, delete_step, require_safe_delete_writer, DeleteRunAction, DeleteRunEvent,
    M7DeleteErrorCode, ProjectDeletePhase,
};
use alcomd::template::{
    template_run_new, template_step, TemplateCreateCheckpoint, TemplatePlanKind,
    TemplateRunAction, TemplateRunEvent,
};
use alcomd::unity::UnityWriterStateKind;

fn drive_backup(events: &[BackupRunEvent]) -> Vec<BackupRunAction> {
    let mut run = backup_run_new();
    let mut actions = Vec::new();
    for event in events {
        let (next, action) = backup_step(run, *event);
        run = next;
        actions.push(action);
    }
    actions
}

#[test]
fn backup_run_archives_publishes_and_records_checkpoints_in_order() {
    let actions = drive_backup(&[
        BackupRunEvent::Started,
        BackupRunEvent::CancelChecked { requested: false },
        BackupRunEvent::Begun { phase: BackupPhase::Accepted, has_evidence: false },
        BackupRunEvent::Done,
        BackupRunEvent::ProjectLoaded { revision_matches: true },
        BackupRunEvent::WriterObserved { running_confirmed: false },
        BackupRunEvent::Done,
        BackupRunEvent::Done,
        BackupRunEvent::CancelChecked { requested: false },
        BackupRunEvent::Done,
        BackupRunEvent::Done,
        BackupRunEvent::Done,
        BackupRunEvent::CancelChecked { requested: false },
        BackupRunEvent::Done,
        BackupRunEvent::Done,
        BackupRunEvent::Done,
        BackupRunEvent::Done,
    ]);
    assert_eq!(
        actions,
        vec![
            BackupRunAction::CheckCancelled,
            BackupRunAction::Begin,
            BackupRunAction::LockProject,
            BackupRunAction::LoadProject,
            BackupRunAction::ObserveWriter,
            BackupRunAction::TakeInventory,
            BackupRunAction::RecordCheckpoint { phase: BackupPhase::InventoryReady },
            BackupRunAction::CheckCancelled,
            BackupRunAction::RecordCheckpoint { phase: BackupPhase::Archiving },
            BackupRunAction::Archive,
            BackupRunAction::RecordCheckpoint { phase: BackupPhase::ArchiveReady },
            BackupRunAction::CheckCancelled,
            BackupRunAction::RecordCheckpoint { phase: BackupPhase::PublishIntent },
            BackupRunAction::Publish,
            BackupRunAction::RecordCheckpoint { phase: BackupPhase::ArchivePublished },
            BackupRunAction::Complete,
            BackupRunAction::Succeed,
        ]
    );
}

#[test]
fn backup_run_defers_recovery_without_evidence_and_rejects_running_editor() {
    let actions = drive_backup(&[
        BackupRunEvent::Started,
        BackupRunEvent::CancelChecked { requested: false },
        BackupRunEvent::Begun { phase: BackupPhase::PublishIntent, has_evidence: false },
        BackupRunEvent::Done,
        BackupRunEvent::ProjectLoaded { revision_matches: true },
        BackupRunEvent::WriterObserved { running_confirmed: false },
    ]);
    assert_eq!(actions.last(), Some(&BackupRunAction::DeferRecovery));
    let actions = drive_backup(&[
        BackupRunEvent::Started,
        BackupRunEvent::CancelChecked { requested: false },
        BackupRunEvent::Begun { phase: BackupPhase::Accepted, has_evidence: false },
        BackupRunEvent::Done,
        BackupRunEvent::ProjectLoaded { revision_matches: true },
        BackupRunEvent::WriterObserved { running_confirmed: true },
    ]);
    assert_eq!(
        actions.last(),
        Some(&BackupRunAction::RecordFailure { code: M5BackupErrorCode::UnityProjectRunning })
    );
    assert_eq!(error_name(M5BackupErrorCode::UnityProjectRunning), "unity_project_running");
    assert_eq!(error_name(M5BackupErrorCode::RecoveryRequired), "backup_unavailable");
}

#[test]
fn backup_run_discards_a_failed_archive_when_cancelled() {
    let actions = drive_backup(&[
        BackupRunEvent::Started,
        BackupRunEvent::CancelChecked { requested: false },
        BackupRunEvent::Begun { phase: BackupPhase::Archiving, has_evidence: false },
        BackupRunEvent::Done,
        BackupRunEvent::ProjectLoaded { revision_matches: true },
        BackupRunEvent::WriterObserved { running_confirmed: false },
        BackupRunEvent::Done,
        BackupRunEvent::Done,
        BackupRunEvent::CancelChecked { requested: false },
        BackupRunEvent::Done,
        BackupRunEvent::Failed { code: M5BackupErrorCode::BackupLimitExceeded },
        BackupRunEvent::CancelChecked { requested: true },
        BackupRunEvent::Done,
        BackupRunEvent::Done,
    ]);
    assert_eq!(
        &actions[actions.len() - 4..],
        &[
            BackupRunAction::CheckCancelled,
            BackupRunAction::DiscardPartial,
            BackupRunAction::FinishCancelled,
            BackupRunAction::Succeed,
        ]
    );
}

#[test]
fn restore_run_at_commit_only_validates_and_finalizes() {
    let mut run = restore_run_new();
    let mut actions = Vec::new();
    for event in [RestoreRunEvent::Started, RestoreRunEvent::Begun { phase: BackupRestorePhase::StateCommitted }, RestoreRunEvent::Done, RestoreRunEvent::Done, RestoreRunEvent::Done] {
        let (next, action) = restore_step(run, event);
        run = next;
        actions.push(action);
    }
    assert_eq!(
        actions,
        vec![
            RestoreRunAction::Begin,
            RestoreRunAction::ValidatePublished,
            RestoreRunAction::Finalize,
            RestoreRunAction::FinishSuccess,
            RestoreRunAction::Succeed,
        ]
    );
}

#[test]
fn restore_run_cancelled_after_staging_discards_the_stage() {
    let mut run = restore_run_new();
    let mut actions = Vec::new();
    for event in [
        RestoreRunEvent::Started,
        RestoreRunEvent::Begun { phase: BackupRestorePhase::Accepted },
        RestoreRunEvent::Done,
        RestoreRunEvent::Done,
        RestoreRunEvent::Done,
        RestoreRunEvent::Done,
        RestoreRunEvent::CancelChecked { requested: false },
        RestoreRunEvent::Done,
        RestoreRunEvent::Done,
        RestoreRunEvent::Done,
        RestoreRunEvent::CancelChecked { requested: true },
        RestoreRunEvent::Done,
        RestoreRunEvent::Done,
    ] {
        let (next, action) = restore_step(run, event);
        run = next;
        actions.push(action);
    }
    assert_eq!(
        actions,
        vec![
            RestoreRunAction::Begin,
            RestoreRunAction::ResolveResource,
            RestoreRunAction::Prepare,
            RestoreRunAction::RecordCheckpoint { phase: BackupRestorePhase::ArchiveVerified },
            RestoreRunAction::LockResource,
            RestoreRunAction::CheckCancelled,
            RestoreRunAction::RecordCheckpoint { phase: BackupRestorePhase::Extracting },
            RestoreRunAction::Stage,
            RestoreRunAction::RecordCheckpoint { phase: BackupRestorePhase::StagingComplete },
            RestoreRunAction::CheckCancelled,
            RestoreRunAction::DiscardStaged,
            RestoreRunAction::FinishCancelled,
            RestoreRunAction::Succeed,
        ]
    );
}

#[test]
fn copy_run_found_published_is_validated_not_republished() {
    let mut run = copy_run_new();
    let mut actions = Vec::new();
    for event in [
        CopyRunEvent::Started,
        CopyRunEvent::Begun { phase: ProjectCopyPhase::TargetPublished, has_inventory: true },
        CopyRunEvent::Done,
        CopyRunEvent::Done,
        CopyRunEvent::Done,
        CopyRunEvent::Done,
        CopyRunEvent::Done,
        CopyRunEvent::Done,
    ] {
        let (next, action) = copy_step(run, event);
        run = next;
        actions.push(action);
    }
    assert_eq!(
        actions,
        vec![
            CopyRunAction::Begin,
            CopyRunAction::LockResources,
            CopyRunAction::ValidatePublished,
            CopyRunAction::RecordCheckpoint { phase: ProjectCopyPhase::ProjectRegistryCommitIntent },
            CopyRunAction::Complete,
            CopyRunAction::Cleanup,
            CopyRunAction::FinishSuccess,
            CopyRunAction::Succeed,
        ]
    );
}

#[test]
fn copy_run_cancelled_before_staging_discards() {
    let mut run = copy_run_new();
    let mut last = CopyRunAction::Idle;
    for event in [
        CopyRunEvent::Started,
        CopyRunEvent::Begun { phase: ProjectCopyPhase::Accepted, has_inventory: false },
        CopyRunEvent::Done,
        CopyRunEvent::Done,
        CopyRunEvent::Done,
        CopyRunEvent::Done,
        CopyRunEvent::CancelChecked { requested: true },
    ] {
        let (next, action) = copy_step(run, event);
        run = next;
        last = action;
    }
    assert_eq!(last, CopyRunAction::Discard);
}

#[test]
fn delete_run_removes_the_root_only_after_commit() {
    let mut run = delete_run_new();
    let mut actions = Vec::new();
    for event in [
        DeleteRunEvent::Started,
        DeleteRunEvent::Begun { phase: ProjectDeletePhase::Accepted },
        DeleteRunEvent::Done,
        DeleteRunEvent::Done,
        DeleteRunEvent::Done,
        DeleteRunEvent::Done,
        DeleteRunEvent::CancelChecked { requested: false },
        DeleteRunEvent::Done,
        DeleteRunEvent::CancelChecked { requested: false },
        DeleteRunEvent::Done,
        DeleteRunEvent::Done,
        DeleteRunEvent::Done,
        DeleteRunEvent::Done,
        DeleteRunEvent::Done,
        DeleteRunEvent::Done,
        DeleteRunEvent::Done,
        DeleteRunEvent::Done,
        DeleteRunEvent::Done,
    ] {
        let (next, action) = delete_step(run, event);
        run = next;
        actions.push(action);
    }
    assert_eq!(
        actions,
        vec![
            DeleteRunAction::Begin,
            DeleteRunAction::LockResources,
            DeleteRunAction::RevalidatePlan,
            DeleteRunAction::Preflight,
            DeleteRunAction::RecordCheckpoint { phase: ProjectDeletePhase::PreflightComplete },
            DeleteRunAction::CheckCancelled,
            DeleteRunAction::RevalidatePlan,
            DeleteRunAction::CheckCancelled,
            DeleteRunAction::RecordCheckpoint { phase: ProjectDeletePhase::QuarantineIntent },
            DeleteRunAction::Quarantine,
            DeleteRunAction::RecordCheckpoint { phase: ProjectDeletePhase::RootQuarantined },
            DeleteRunAction::RecordCheckpoint { phase: ProjectDeletePhase::RegistryCommitIntent },
            DeleteRunAction::Commit,
            DeleteRunAction::RecordCheckpoint { phase: ProjectDeletePhase::Deleting },
            DeleteRunAction::Cleanup,
            DeleteRunAction::RecordCheckpoint { phase: ProjectDeletePhase::CleanupComplete },
            DeleteRunAction::FinishSuccess,
            DeleteRunAction::Succeed,
        ]
    );
}

#[test]
fn delete_writer_gate_distinguishes_running_and_unsafe() {
    assert!(require_safe_delete_writer(UnityWriterStateKind::NotObserved).is_ok());
    assert_eq!(
        require_safe_delete_writer(UnityWriterStateKind::RunningConfirmed)
            .expect_err("running")
            .code(),
        M7DeleteErrorCode::UnityProjectRunning
    );
    assert_eq!(
        require_safe_delete_writer(UnityWriterStateKind::Unknown)
            .expect_err("unknown")
            .code(),
        M7DeleteErrorCode::ProjectDeleteSourceUnsafe
    );
}

#[test]
fn template_create_publishes_after_intent_and_import_completes() {
    let mut run = template_run_new();
    let mut actions = Vec::new();
    for event in [
        TemplateRunEvent::Started,
        TemplateRunEvent::CancelChecked { requested: false },
        TemplateRunEvent::Begun { kind: TemplatePlanKind::CreateProject },
        TemplateRunEvent::Done,
        TemplateRunEvent::Done,
        TemplateRunEvent::CancelChecked { requested: false },
        TemplateRunEvent::Done,
        TemplateRunEvent::Done,
        TemplateRunEvent::Done,
        TemplateRunEvent::CancelChecked { requested: false },
        TemplateRunEvent::Done,
        TemplateRunEvent::Done,
        TemplateRunEvent::Done,
        TemplateRunEvent::Done,
        TemplateRunEvent::Done,
    ] {
        let (next, action) = template_step(run, event);
        run = next;
        actions.push(action);
    }
    assert_eq!(
        actions,
        vec![
            TemplateRunAction::CheckCancelled,
            TemplateRunAction::Begin,
            TemplateRunAction::ResolveCreateResource,
            TemplateRunAction::PrepareCreate,
            TemplateRunAction::CheckCancelled,
            TemplateRunAction::LockResource,
            TemplateRunAction::StageCreate,
            TemplateRunAction::RecordCheckpoint { checkpoint: TemplateCreateCheckpoint::StagingComplete },
            TemplateRunAction::CheckCancelled,
            TemplateRunAction::RecordCheckpoint { checkpoint: TemplateCreateCheckpoint::TargetPublishIntent },
            TemplateRunAction::PublishProject,
            TemplateRunAction::RecordCheckpoint { checkpoint: TemplateCreateCheckpoint::TargetPublished },
            TemplateRunAction::RecordCheckpoint {
                checkpoint: TemplateCreateCheckpoint::ProjectRegistryCommitIntent
            },
            TemplateRunAction::CompleteProjectCreate,
            TemplateRunAction::Succeed,
        ]
    );
    assert_eq!(TemplateCreateCheckpoint::TargetPublishIntent.step(), 3);
    assert_eq!(TemplateCreateCheckpoint::TargetPublishIntent.name(), "target_publish_intent");

    let mut run = template_run_new();
    let mut last = TemplateRunAction::Idle;
    for event in [
        TemplateRunEvent::Started,
        TemplateRunEvent::CancelChecked { requested: false },
        TemplateRunEvent::Begun { kind: TemplatePlanKind::Import },
        TemplateRunEvent::Done,
        TemplateRunEvent::CancelChecked { requested: false },
        TemplateRunEvent::Done,
    ] {
        let (next, action) = template_step(run, event);
        run = next;
        last = action;
    }
    assert_eq!(last, TemplateRunAction::Succeed);
}
