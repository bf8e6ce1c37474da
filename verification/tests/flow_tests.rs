use alcomd::access::AccessContext;
use alcomd::candidate_query::{candidate_query_start, candidate_query_step, CandidateQueryAction, CandidateQueryEvent};
use alcomd::candidates::{CandidateQueryError, CandidateView, ProjectCandidateRequest};
use alcomd::domain::{Permission, PrincipalId, Revision};
use alcomd::extensions::{
    ExtensionDesiredState, ExtensionQuarantineState, ExtensionRecord, ExtensionRuntimeState,
    ExtensionTrustDecision, ExtensionUiProtocol, M6Error, M6ErrorCode,
};
use alcomd::migration::{M7UnityMigrationError, M7UnityMigrationErrorCode, MigrationWork, UnityMigrationEvidence, UnityMigrationPhase};
use alcomd::migration_run::{migration_start, migration_step, MigrationRunAction, MigrationRunEvent};
use alcomd::ui_flow::{
    dispatch_start, dispatch_step, open_start, open_step, DispatchAction, DispatchEvent, GuestAnswer,
    OpenAction, OpenEvent,
};
use alcomd::ui_session::{M7ErrorCode, M7ValidationFailure, UI_ABSOLUTE_TIMEOUT_MS, UI_IDLE_TIMEOUT_MS};
use alcomd::unity::{writer_state_of, SelectorVerdict, UnityWriterEvidenceKind, UnityWriterStateKind, WriterObservation};

fn evidence(kind: &str) -> UnityMigrationEvidence {
    UnityMigrationEvidence { preparation_kind: kind.to_owned(), ..UnityMigrationEvidence::default() }
}

#[test]
fn migration_run_checks_cancel_then_runs_and_checkpoints_preflight() {
    let (run, action) = migration_start(UnityMigrationPhase::Accepted, evidence("none"));
    assert!(matches!(action, MigrationRunAction::LockProject));
    let (run, action) = migration_step(run, MigrationRunEvent::Done);
    assert!(matches!(action, MigrationRunAction::CheckCancelled));
    let (run, action) = migration_step(run, MigrationRunEvent::CancelChecked { requested: false });
    assert!(matches!(action, MigrationRunAction::LookupProject));
    let (run, action) = migration_step(run, MigrationRunEvent::ProjectFound { found: true });
    assert!(matches!(action, MigrationRunAction::LookupInstallation));
    let (run, action) = migration_step(run, MigrationRunEvent::InstallationFound { found: true });
    assert!(matches!(action, MigrationRunAction::ObserveWriter));
    let (run, action) = migration_step(run, MigrationRunEvent::WriterObserved { state: Some(UnityWriterStateKind::NotObserved) });
    assert!(matches!(action, MigrationRunAction::Revalidate));
    let (run, action) = migration_step(run, MigrationRunEvent::Revalidated { result: Ok(()) });
    assert!(matches!(action, MigrationRunAction::RecordCheckpoint { phase: UnityMigrationPhase::PreflightComplete }));
    let (run, action) = migration_step(run, MigrationRunEvent::Done);
    assert_eq!(run.phase, UnityMigrationPhase::PreflightComplete);
    assert!(matches!(action, MigrationRunAction::CheckCancelled));
    let (_, action) = migration_step(run, MigrationRunEvent::CancelChecked { requested: true });
    assert!(matches!(action, MigrationRunAction::FinishCancelled));
}

fn preflight_failure(event: MigrationRunEvent, steps: usize) -> M7UnityMigrationErrorCode {
    let (mut run, _) = migration_start(UnityMigrationPhase::Accepted, evidence("none"));
    let answers = [
        MigrationRunEvent::Done,
        MigrationRunEvent::CancelChecked { requested: false },
        MigrationRunEvent::ProjectFound { found: true },
        MigrationRunEvent::InstallationFound { found: true },
        MigrationRunEvent::WriterObserved { state: Some(UnityWriterStateKind::NotObserved) },
    ];
    for answer in answers.into_iter().take(steps) {
        run = migration_step(run, answer).0;
    }
    let (run, action) = migration_step(run, event);
    let code = match action {
        MigrationRunAction::FailBeforeIntent { failure } => failure.code(),
        _ => panic!("expected a plain failure"),
    };
    let (_, action) = migration_step(run, MigrationRunEvent::Done);
    assert!(matches!(action, MigrationRunAction::Finish { result: Ok(()) }));
    code
}

#[test]
fn migration_run_fails_plainly_before_intent_and_stops_when_recovery_is_recorded() {
    assert_eq!(preflight_failure(MigrationRunEvent::ProjectFound { found: false }, 2), M7UnityMigrationErrorCode::ProjectNotRegistered);
    assert_eq!(
        preflight_failure(MigrationRunEvent::InstallationFound { found: false }, 3),
        M7UnityMigrationErrorCode::InstallationNotFound
    );
    assert_eq!(preflight_failure(MigrationRunEvent::WriterObserved { state: None }, 4), M7UnityMigrationErrorCode::Internal);
    assert_eq!(
        preflight_failure(MigrationRunEvent::WriterObserved { state: Some(UnityWriterStateKind::RunningSuspected) }, 4),
        M7UnityMigrationErrorCode::ProjectRunning
    );
    let changed = M7UnityMigrationError::new(M7UnityMigrationErrorCode::SourceChanged);
    assert_eq!(preflight_failure(MigrationRunEvent::Revalidated { result: Err(changed) }, 5), M7UnityMigrationErrorCode::SourceChanged);

    let (_, action) = migration_start(UnityMigrationPhase::RecoveryRequired, evidence("none"));
    match action {
        MigrationRunAction::Finish { result: Err(e) } => assert_eq!(e.code(), M7UnityMigrationErrorCode::RecoveryRequired),
        _ => panic!("expected the run to stop"),
    }
}

#[test]
fn migration_run_resumed_after_reobservation_commits_without_a_checkpoint() {
    let (run, _) = migration_start(UnityMigrationPhase::ProjectReobserved, evidence("vrchat"));
    let (run, action) = migration_step(run, MigrationRunEvent::Done);
    assert!(matches!(action, MigrationRunAction::ResumeReobserved));
    let (_, action) = migration_step(run, MigrationRunEvent::Reobserved { reobserved: None });
    assert!(matches!(action, MigrationRunAction::MarkRecoveryRequired));
}

#[test]
fn migration_run_after_launch_observes_and_marks_recovery_without_a_disposition() {
    let (run, _) = migration_start(UnityMigrationPhase::LaunchIntent, evidence("vrchat"));
    let (run, action) = migration_step(run, MigrationRunEvent::Done);
    assert!(matches!(action, MigrationRunAction::Observe));
    let (run, action) = migration_step(run, MigrationRunEvent::Observed { disposition: None });
    assert!(matches!(action, MigrationRunAction::MarkRecoveryRequired));
    let (_, action) = migration_step(run, MigrationRunEvent::Done);
    match action {
        MigrationRunAction::Finish { result: Err(e) } => assert_eq!(e.code(), M7UnityMigrationErrorCode::RecoveryRequired),
        _ => panic!("expected recovery"),
    }
}

#[test]
fn migration_run_spawns_after_recording_the_launch_intent() {
    let (run, _) = migration_start(UnityMigrationPhase::PreparationComplete, evidence("vrchat"));
    let (run, action) = migration_step(run, MigrationRunEvent::Done);
    assert!(matches!(action, MigrationRunAction::RecordCheckpoint { phase: UnityMigrationPhase::LaunchIntent }));
    let (run, action) = migration_step(run, MigrationRunEvent::Done);
    assert!(matches!(action, MigrationRunAction::Perform { work: MigrationWork::Spawn }));
    let (run, action) = migration_step(run, MigrationRunEvent::Performed { outcome: Ok(evidence("vrchat")) });
    assert!(matches!(action, MigrationRunAction::RecordCheckpoint { phase: UnityMigrationPhase::UnityStarted }));
    let (run, action) = migration_step(run, MigrationRunEvent::Done);
    assert!(matches!(action, MigrationRunAction::Perform { work: MigrationWork::Wait }));
    let (_, action) = migration_step(
        run,
        MigrationRunEvent::Performed { outcome: Err(M7UnityMigrationError::new(M7UnityMigrationErrorCode::Internal)) },
    );
    assert!(matches!(action, MigrationRunAction::MarkRecoveryRequired));
}

fn candidate_request(project_id: &str) -> ProjectCandidateRequest {
    ProjectCandidateRequest {
        project_id: project_id.to_owned(),
        expected_revision: 1,
        view: CandidateView::Summary { package_ids: None, sources: None },
        limit: None,
        expected_snapshot: None,
        cursor: None,
    }
}

#[test]
fn candidate_queries_check_access_project_and_request_size_first() {
    let reader = AccessContext::new(PrincipalId::local_owner(), &[Permission::ProjectsRead]);
    let (_, action) = candidate_query_start(&reader, candidate_request("00000000-0000-4000-8000-000000000001"));
    assert_eq!(action, CandidateQueryAction::Fail { error: CandidateQueryError::PermissionDenied });
    let owner = AccessContext::local_owner();
    let (_, action) = candidate_query_start(&owner, candidate_request("not-a-project"));
    assert_eq!(action, CandidateQueryAction::Fail { error: CandidateQueryError::InvalidInput });
    let (run, action) = candidate_query_start(&owner, candidate_request("00000000-0000-4000-8000-000000000001"));
    assert_eq!(action, CandidateQueryAction::MeasureRequest);
    assert_eq!(run.principal, "builtin:local-owner");
    let (_, action) = candidate_query_step(run, CandidateQueryEvent::RequestMeasured { len: Some(70_000) });
    assert_eq!(action, CandidateQueryAction::Fail { error: CandidateQueryError::LimitExceeded });
    let (run, _) = candidate_query_start(&owner, candidate_request("00000000-0000-4000-8000-000000000001"));
    let (run, action) = candidate_query_step(run, CandidateQueryEvent::RequestMeasured { len: Some(100) });
    assert_eq!(action, CandidateQueryAction::FingerprintQuery);
    let (run, action) = candidate_query_step(run, CandidateQueryEvent::QueryFingerprinted { fingerprint: "f".repeat(64) });
    assert_eq!(action, CandidateQueryAction::ReadSettings);
    let (_, action) = candidate_query_step(run, CandidateQueryEvent::SettingsRead { config: None });
    assert_eq!(action, CandidateQueryAction::Fail { error: CandidateQueryError::Unavailable });
}

fn extension_record() -> ExtensionRecord {
    ExtensionRecord {
        extension_id: "dev.example.fixture".to_owned(),
        version: "1.0.0".to_owned(),
        api_major: 1,
        package_digest: [7; 32],
        publisher_fingerprint: format!("ed25519-sha256:{}", "a".repeat(64)),
        trust_decision: ExtensionTrustDecision::Official,
        desired_state: ExtensionDesiredState::Enabled,
        quarantine_state: ExtensionQuarantineState::Clear,
        runtime_state: ExtensionRuntimeState::Running,
        grant_revision: Revision::initial(),
        lifecycle_generation: Revision::initial(),
        revision: Revision::initial(),
        ui_protocol: Some(ExtensionUiProtocol::PortableV1),
    }
}

#[test]
fn session_opens_reserve_with_deadlines_and_mark_stale_when_the_host_fails() {
    let owner = AccessContext::local_owner();
    let (_, action) = open_start(&owner, "dev.example.fixture", "EN-us", 1_000);
    assert!(matches!(action, OpenAction::Finish { result: Err(M7ErrorCode::InvalidInput) }));
    let guest = AccessContext::new(PrincipalId::local_owner(), &[Permission::ExtensionsRead]);
    let (_, action) = open_start(&guest, "dev.example.fixture", "en", 1_000);
    assert!(matches!(action, OpenAction::Finish { result: Err(M7ErrorCode::PermissionDenied) }));
    let (run, action) = open_start(&owner, "dev.example.fixture", "en", 1_000);
    assert!(matches!(action, OpenAction::ReadExtension));
    let (run, action) = open_step(run, OpenEvent::ExtensionRead { record: Ok(extension_record()) });
    assert!(matches!(action, OpenAction::Reserve));
    assert_eq!(run.idle_deadline_ms, 1_000 + UI_IDLE_TIMEOUT_MS);
    assert_eq!(run.absolute_deadline_ms, 1_000 + UI_ABSOLUTE_TIMEOUT_MS);
    let (run, action) = open_step(run, OpenEvent::Answered { result: Ok(()) });
    assert!(matches!(action, OpenAction::IssueActivationAuthority));
    let (run, action) = open_step(run, OpenEvent::Answered { result: Ok(()) });
    assert!(matches!(action, OpenAction::EnsureHost));
    let (run, action) = open_step(run, OpenEvent::Answered { result: Err(M7ErrorCode::Crashed) });
    assert!(matches!(action, OpenAction::MarkStale));
    let (_, action) = open_step(run, OpenEvent::Done);
    assert!(matches!(action, OpenAction::Finish { result: Err(M7ErrorCode::Crashed) }));

    let (run, _) = open_start(&owner, "dev.example.fixture", "en", 1_000);
    let (_, action) = open_step(run, OpenEvent::ExtensionRead { record: Err(M6Error::new(M6ErrorCode::NotInstalled)) });
    assert!(matches!(action, OpenAction::Finish { result: Err(M7ErrorCode::NotInstalled) }));
    let (run, _) = open_start(&owner, "dev.example.fixture", "en", u64::MAX - 10);
    let (_, action) = open_step(run, OpenEvent::ExtensionRead { record: Ok(extension_record()) });
    assert!(matches!(action, OpenAction::Finish { result: Err(M7ErrorCode::Internal) }));
}

#[test]
fn dispatch_rejects_malformed_requests_and_refused_actions_as_client_violations() {
    let (_, action) = dispatch_start("", 1);
    assert!(matches!(action, DispatchAction::RejectClient { code: M7ErrorCode::ActionInvalid }));
    let (_, action) = dispatch_start("request 1", 1);
    assert!(matches!(action, DispatchAction::RejectClient { code: M7ErrorCode::ActionInvalid }));
    let (_, action) = dispatch_start("request-1", 0);
    assert!(matches!(action, DispatchAction::RejectClient { code: M7ErrorCode::ActionInvalid }));
    let (_, action) = dispatch_start("request-1", i64::MAX as u64 + 1);
    assert!(matches!(action, DispatchAction::RejectClient { code: M7ErrorCode::ActionInvalid }));
    let (run, action) = dispatch_start("request-1", 7);
    assert!(matches!(action, DispatchAction::Replay));
    let (_, replayed) = dispatch_step(run, DispatchEvent::Replayed { result: Ok(true) });
    assert!(matches!(replayed, DispatchAction::AnswerReplay));
    let (run, action) = dispatch_step(run, DispatchEvent::Replayed { result: Ok(false) });
    assert!(matches!(action, DispatchAction::ValidateAction));
    let (rejected, action) = dispatch_step(run, DispatchEvent::ActionChecked { result: Err(M7ValidationFailure::LimitExceeded) });
    assert!(matches!(action, DispatchAction::RejectClient { code: M7ErrorCode::LimitExceeded }));
    let (_, action) = dispatch_step(rejected, DispatchEvent::ClientRejected { code: M7ErrorCode::LimitExceeded });
    assert!(matches!(action, DispatchAction::Finish { result: Err(M7ErrorCode::LimitExceeded) }));
    let (run, action) = dispatch_step(run, DispatchEvent::ActionChecked { result: Ok(()) });
    assert!(matches!(action, DispatchAction::BeginCall));
    let (_, action) = dispatch_step(run, DispatchEvent::Answered { result: Err(M7ErrorCode::ActionInvalid) });
    assert!(matches!(action, DispatchAction::RejectClient { code: M7ErrorCode::ActionInvalid }));
    let (run, action) = dispatch_step(run, DispatchEvent::Answered { result: Ok(()) });
    assert!(matches!(action, DispatchAction::InvokeDispatch));
    let (failed, action) = dispatch_step(run, DispatchEvent::Invoked { answer: GuestAnswer::NoDocument });
    assert!(matches!(action, DispatchAction::FinishFailedCall));
    let (_, action) = dispatch_step(failed, DispatchEvent::Done);
    assert!(matches!(action, DispatchAction::Finish { result: Err(M7ErrorCode::Internal) }));
    let (run, action) = dispatch_step(run, DispatchEvent::Invoked { answer: GuestAnswer::Document });
    assert!(matches!(action, DispatchAction::ValidateDocument));
    let (bad, action) = dispatch_step(run, DispatchEvent::DocumentChecked { result: Err(M7ValidationFailure::Invalid) });
    assert!(matches!(action, DispatchAction::RejectDocument));
    let (_, action) = dispatch_step(bad, DispatchEvent::Done);
    assert!(matches!(action, DispatchAction::Finish { result: Err(M7ErrorCode::DocumentInvalid) }));
    let (run, action) = dispatch_step(run, DispatchEvent::DocumentChecked { result: Ok(()) });
    assert!(matches!(action, DispatchAction::CommitDispatch));
    let (_, action) = dispatch_step(run, DispatchEvent::Answered { result: Ok(()) });
    assert!(matches!(action, DispatchAction::Finish { result: Ok(()) }));
}

#[test]
fn writer_state_adds_up_process_judgements() {
    let none = writer_state_of(&vec![WriterObservation::Ignored, WriterObservation::Selected(SelectorVerdict::OtherProject)]);
    assert_eq!(none, (UnityWriterStateKind::NotObserved, vec![]));
    let suspected = writer_state_of(&vec![WriterObservation::Ignored, WriterObservation::Suspected]);
    assert_eq!(suspected, (UnityWriterStateKind::RunningSuspected, vec![UnityWriterEvidenceKind::ProcessUnreadable]));
    let confirmed = writer_state_of(&vec![
        WriterObservation::Selected(SelectorVerdict::Suspect),
        WriterObservation::Selected(SelectorVerdict::Confirmed),
    ]);
    assert_eq!(confirmed, (UnityWriterStateKind::RunningConfirmed, vec![UnityWriterEvidenceKind::ProcessProjectArgument]));
}
