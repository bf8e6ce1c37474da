use alcomd::settings::{
        apply_update, check_update_request, default_snapshot, next_snapshot, ConfigAppearanceDensity,
        ConfigAppearanceMode, ConfigAppearanceMotion, ConfigAppearanceUpdate, ConfigLocale,
        ConfigNullableUpdate, ConfigUpdate, OfficialGuiError,
    };
use alcomd::client_config::ClientConfig;
use std::path::PathBuf;
use alcomd::access::AccessContext;
use alcomd::domain::{Permission, PrincipalId};
use alcomd::user_packages::{require_user_package_owner, validate_user_package_limit, UserPackageErrorCode};
use alcomd::candidates::{page_window, take_window, CandidateQueryError};
use alcomd::domain::Revision;
use alcomd::ids::UnityInstallationId;
use alcomd::migration::{
    migration_authority, migration_checkpoint_after, migration_failure, migration_honours_cancel,
    migration_next_work, parse_canonical_unity_version, recovery_step, M7UnityMigrationErrorCode,
    MigrationFailure, MigrationWork, RecoveryStep, UnityMigrationClassificationKind,
    UnityMigrationEvidence, UnityMigrationPhase, UnityMigrationRecoveryDisposition,
};
use alcomd::registry::{state_check_next, ProjectType, StateCheckAction, StateCheckPhase};
use alcomd::text::{sha256_from_hex, sha256_to_hex};
use alcomd::ui_bridge::{
    bridge_expired, check_bridge_request, expired_request_times, pending_admission,
    BridgeAdmission, BridgeError,
};
use alcomd::unity::{
    classify_process, exact_unity_version, selector_verdict, unconfirmed_writer_state,
    ProcessVerdict, SelectorVerdict, UnityArchitecture, UnityInstallationObservation,
    UnityInstallationRecord, UnityProcessObservation, UnitySourceKind, UnityWriterEvidenceKind,
    UnityWriterStateKind,
};

#[test]
fn unity_versions_parse_into_their_parts() {
    let plain = parse_canonical_unity_version("2022.3.22f1").expect("plain");
    assert_eq!((plain.major, plain.minor, plain.patch, plain.channel, plain.increment), (2022, 3, 22, b'f', 1));
    assert_eq!(plain.china_increment, None);
    let china = parse_canonical_unity_version("2022.3.22f1c1").expect("china");
    assert_eq!(china.china_increment, Some(1));
    for bad in ["2022.3", "2022.3.22", "2022.3.22f", "x.3.22f1", "2022.3.22q1"] {
        assert_eq!(
            parse_canonical_unity_version(bad).expect_err(bad).code(),
            M7UnityMigrationErrorCode::InvalidInput,
            "{bad}"
        );
    }
}

#[test]
fn migration_authority_classifies_and_prepares_only_vrchat_2019_to_2022() {
    let major = migration_authority("2019.4.31f1", "2022.3.22f1", ProjectType::Avatars).expect("major");
    assert_eq!(major.classification, UnityMigrationClassificationKind::MajorUpgrade);
    assert_eq!(major.preparation_profile.as_deref(), Some("vrchat-2019-to-2022-v1"));
    assert_eq!(major.source_unity_version, "2019.4.31f1");
    let starter = migration_authority("2019.4.31f1", "2022.3.22f1", ProjectType::VpmStarter).expect("starter");
    assert_eq!(starter.preparation_profile, None);
    let down = migration_authority("2022.3.22f1", "2022.3.6f1", ProjectType::Worlds).expect("down");
    assert_eq!(down.classification, UnityMigrationClassificationKind::PatchOrMinorDowngrade);
    let up = migration_authority("2022.3.6b1", "2022.3.6f1", ProjectType::Worlds).expect("up");
    assert_eq!(up.classification, UnityMigrationClassificationKind::PatchOrMinorUpgrade);
    let major_down = migration_authority("2022.3.6f1", "2021.3.6f1", ProjectType::Worlds).expect("major down");
    assert_eq!(major_down.classification, UnityMigrationClassificationKind::MajorDowngrade);
    let variant = migration_authority("2022.3.22f1", "2022.3.22f1c1", ProjectType::Worlds).expect("variant");
    assert_eq!(variant.classification, UnityMigrationClassificationKind::ChinaVariantChange);
    assert_eq!(
        migration_authority("2022.3.22f1c1", "2022.3.23f1", ProjectType::Worlds).expect_err("mixed").code(),
        M7UnityMigrationErrorCode::Unsupported
    );
    assert_eq!(
        migration_authority("2022.3.22x1", "2022.3.23f1", ProjectType::Worlds).expect_err("experimental").code(),
        M7UnityMigrationErrorCode::Unsupported
    );
}

#[test]
fn migration_worker_decisions_follow_the_phase_sequence() {
    assert_eq!(migration_next_work(UnityMigrationPhase::Accepted), MigrationWork::Preflight);
    assert_eq!(migration_next_work(UnityMigrationPhase::UnityExited), MigrationWork::ObserveAfterLaunch);
    assert_eq!(migration_next_work(UnityMigrationPhase::RecoveryRequired), MigrationWork::Halt);
    assert!(migration_honours_cancel(UnityMigrationPhase::PreflightComplete, "vrchat-2019-to-2022-v1"));
    assert!(migration_honours_cancel(UnityMigrationPhase::PreparationComplete, "none"));
    assert!(!migration_honours_cancel(UnityMigrationPhase::PreparationComplete, "vrchat-2019-to-2022-v1"));
    assert!(!migration_honours_cancel(UnityMigrationPhase::LaunchIntent, "none"));
    assert_eq!(migration_checkpoint_after(MigrationWork::Spawn), Some(UnityMigrationPhase::UnityStarted));
    assert_eq!(migration_checkpoint_after(MigrationWork::ObserveAfterLaunch), None);
    assert_eq!(migration_failure(MigrationWork::Preflight), MigrationFailure::FailBeforeIntent);
    assert_eq!(migration_failure(MigrationWork::Spawn), MigrationFailure::ObserveAfterLaunch);
    assert_eq!(migration_failure(MigrationWork::Cleanup), MigrationFailure::MarkRecoveryRequired);
    let current = UnityMigrationEvidence::default();
    let same = UnityMigrationRecoveryDisposition::Pending(UnityMigrationEvidence::default());
    assert_eq!(recovery_step(&same, &current), RecoveryStep::Wait { checkpoint: false });
    let changed = UnityMigrationRecoveryDisposition::Pending(UnityMigrationEvidence {
        spawn_accepted: true,
        ..UnityMigrationEvidence::default()
    });
    assert_eq!(recovery_step(&changed, &current), RecoveryStep::Wait { checkpoint: true });
    let unchanged = UnityMigrationRecoveryDisposition::SafelyUnchanged(UnityMigrationEvidence::default());
    assert_eq!(recovery_step(&unchanged, &current), RecoveryStep::FailUnchanged);
}

#[test]
fn state_check_honours_cancel_except_between_begin_and_integrity() {
    assert_eq!(state_check_next(StateCheckPhase::Queued, true), StateCheckAction::FinishCancelled);
    assert_eq!(state_check_next(StateCheckPhase::Queued, false), StateCheckAction::Begin);
    assert_eq!(state_check_next(StateCheckPhase::Begun, true), StateCheckAction::CheckIntegrity);
    assert_eq!(state_check_next(StateCheckPhase::IntegrityChecked, true), StateCheckAction::FinishCancelled);
    assert_eq!(state_check_next(StateCheckPhase::IntegrityChecked, false), StateCheckAction::CheckForeignKeys);
    assert_eq!(state_check_next(StateCheckPhase::ForeignKeysChecked, false), StateCheckAction::Finish);
}

#[test]
fn sha256_hex_round_trips_and_rejects_uppercase() {
    let mut digest = [0_u8; 32];
    for (index, byte) in digest.iter_mut().enumerate() {
        *byte = (index * 7) as u8;
    }
    let text = sha256_to_hex(&digest);
    assert_eq!(&text[..6], "00070e");
    assert_eq!(sha256_from_hex(&text), Some(digest));
    assert_eq!(sha256_from_hex(&text.to_uppercase()), None);
    assert_eq!(sha256_from_hex("00"), None);
}

fn installation(identity: &[u8]) -> UnityInstallationRecord {
    UnityInstallationRecord {
        installation_id: UnityInstallationId::new(),
        observation: UnityInstallationObservation {
            executable_path: "/opt/unity/Editor/Unity".to_owned(),
            filesystem_identity: identity.to_vec(),
            unity_version: "2022.3.22f1".to_owned(),
            architecture: UnityArchitecture::X86_64,
            source_kind: UnitySourceKind::Manual,
            observed_at_ms: 1,
        },
        revision: Revision::new(1).expect("revision"),
        updated_at_ms: 1,
    }
}

fn process(name: &str, identity: Option<&[u8]>, arguments: Option<Vec<&str>>) -> UnityProcessObservation {
    UnityProcessObservation {
        pid: 42,
        start_time: 7,
        name: name.to_owned(),
        executable_identity: identity.map(<[u8]>::to_vec),
        arguments: arguments.map(|a| a.into_iter().map(str::to_owned).collect()),
    }
}

#[test]
fn writer_classification_confirms_only_known_editors_selecting_the_project() {
    let installs = vec![installation(b"editor")];
    let other = process("bash", Some(b"shell"), None);
    assert_eq!(classify_process(&other, &installs), ProcessVerdict::Ignore);
    let unknown_unity = process("Unity.exe", Some(b"elsewhere"), None);
    assert_eq!(classify_process(&unknown_unity, &installs), ProcessVerdict::Suspect);
    let no_arguments = process("Unity", Some(b"editor"), None);
    assert_eq!(classify_process(&no_arguments, &installs), ProcessVerdict::Suspect);
    let selecting = process("Unity", Some(b"editor"), Some(vec!["Unity", "-projectPath", "/p"]));
    assert_eq!(classify_process(&selecting, &installs), ProcessVerdict::CheckSelector("/p".to_owned()));
    let mut zero = selecting.clone();
    zero.pid = 0;
    assert_eq!(classify_process(&zero, &installs), ProcessVerdict::Ignore);
    let id = b"project".to_vec();
    assert_eq!(selector_verdict(Some(&id), &id), SelectorVerdict::Confirmed);
    assert_eq!(selector_verdict(Some(&b"other".to_vec()), &id), SelectorVerdict::OtherProject);
    assert_eq!(selector_verdict(None, &id), SelectorVerdict::Suspect);
    assert_eq!(
        unconfirmed_writer_state(true),
        (UnityWriterStateKind::RunningSuspected, vec![UnityWriterEvidenceKind::ProcessUnreadable])
    );
    assert_eq!(unconfirmed_writer_state(false), (UnityWriterStateKind::NotObserved, vec![]));
    assert!(exact_unity_version("2022.3.22f1", "2022.3.22f1"));
    assert!(!exact_unity_version("2022.3.22f1", "2022.3.22f2"));
}

#[test]
fn bridge_checks_name_each_refusal() {
    assert_eq!(check_bridge_request(1, "s", "s", 1, 1, "r-1", "headless.test.ping", true), Ok(()));
    assert_eq!(check_bridge_request(1, "s", "s", 2, 1, "r-1", "headless.test.ping", true), Err(BridgeError::Replay));
    assert_eq!(check_bridge_request(2, "s", "s", 1, 1, "r-1", "headless.test.ping", true), Err(BridgeError::InvalidEnvelope));
    assert_eq!(check_bridge_request(1, "s", "t", 1, 1, "r-1", "headless.test.ping", true), Err(BridgeError::InvalidEnvelope));
    assert_eq!(check_bridge_request(1, "s", "s", 1, 1, "r 1", "headless.test.ping", true), Err(BridgeError::InvalidEnvelope));
    assert_eq!(check_bridge_request(1, "s", "s", 1, 1, "r-1", "Headless", true), Err(BridgeError::InvalidEnvelope));
    assert_eq!(check_bridge_request(1, "s", "s", 1, 1, "r-1", "headless.test.ping", false), Err(BridgeError::InvalidEnvelope));
    assert_eq!(check_bridge_request(1, "s", "s", 1, 1, "r-1", "projects.read", true), Err(BridgeError::MethodDenied));
    assert!(bridge_expired(true, 0, 0, 0));
    assert!(bridge_expired(false, 300_000, 0, 0));
    assert!(bridge_expired(false, 3_600_000, 3_500_000, 0));
    assert!(!bridge_expired(false, 299_999, 0, 0));
    assert_eq!(expired_request_times(&vec![0, 10, 70_000], 70_005), 2);
    assert_eq!(pending_admission(7, 0), Ok(BridgeAdmission::Ready));
    assert_eq!(pending_admission(8, 0), Ok(BridgeAdmission::Queued));
    assert_eq!(pending_admission(8, 56), Err(BridgeError::PendingLimit));
}

#[test]
fn candidate_pages_are_windows_with_a_next_offset() {
    assert_eq!(page_window(0, 64, 0), Ok(None));
    assert_eq!(page_window(0, 2, 5), Ok(Some(2)));
    assert_eq!(page_window(4, 2, 5), Ok(None));
    assert_eq!(page_window(5, 2, 5), Err(CandidateQueryError::InvalidInput));
    assert_eq!(page_window(6, 2, 5), Err(CandidateQueryError::InvalidInput));
    assert_eq!(page_window(0, 2, 100_001), Err(CandidateQueryError::LimitExceeded));
    assert_eq!(take_window(vec![1, 2, 3, 4, 5], 1, 2), vec![2, 3]);
    assert_eq!(take_window(vec![1, 2, 3], 2, 5), vec![3]);
    assert_eq!(take_window(vec![1, 2, 3], 7, 5), Vec::<i32>::new());
}

#[test]
fn settings_updates_replace_named_fields_and_bump_the_revision() {
    let update = ConfigUpdate {
        appearance: Some(ConfigAppearanceUpdate {
            mode: Some(ConfigAppearanceMode::Dark),
            source_color: ConfigNullableUpdate::Assign("#AABBCC".to_owned()),
            density: None,
            motion: Some(ConfigAppearanceMotion::Reduced),
        }),
        locale: Some(ConfigLocale::ZhCn),
    };
    let next = next_snapshot(default_snapshot(), 1, update.clone()).expect("update");
    assert_eq!(next.revision, 2);
    assert_eq!(next.settings.appearance.mode, ConfigAppearanceMode::Dark);
    assert_eq!(next.settings.appearance.source_color.as_deref(), Some("#AABBCC"));
    assert_eq!(next.settings.appearance.density, ConfigAppearanceDensity::Default);
    assert_eq!(next.settings.locale, ConfigLocale::ZhCn);
    assert_eq!(next_snapshot(default_snapshot(), 2, update.clone()), Err(OfficialGuiError::RevisionConflict));
    let bad = ConfigUpdate {
        appearance: Some(ConfigAppearanceUpdate {
            mode: None,
            source_color: ConfigNullableUpdate::Assign("#aabbcc".to_owned()),
            density: None,
            motion: None,
        }),
        locale: None,
    };
    assert_eq!(apply_update(default_snapshot().settings, bad.clone()), Err(OfficialGuiError::InvalidInput));
    let empty = ConfigUpdate { appearance: None, locale: None };
    assert_eq!(check_update_request(1, &empty), Err(OfficialGuiError::InvalidInput));
    assert_eq!(check_update_request(0, &update), Err(OfficialGuiError::InvalidInput));
    assert_eq!(check_update_request(1, &update), Ok(()));
}

#[test]
fn client_config_builders_set_each_field() {
    let config = ClientConfig::default();
    assert!(config.starts_daemon());
    assert!(config.runtime_directory().is_none());
    let config = config
        .without_daemon_start()
        .with_runtime_directory(PathBuf::from("/run/alcomd"))
        .with_data_directory(PathBuf::from("/var/lib/alcomd"))
        .with_daemon_path(PathBuf::from("/usr/bin/alcomd"));
    assert!(!config.starts_daemon());
    assert_eq!(config.runtime_directory().as_deref(), Some(PathBuf::from("/run/alcomd").as_path()));
    assert_eq!(config.data_directory().as_deref(), Some(PathBuf::from("/var/lib/alcomd").as_path()));
    assert_eq!(config.daemon_path().as_deref(), Some(PathBuf::from("/usr/bin/alcomd").as_path()));
}

#[test]
fn user_package_gates_refuse_with_their_codes() {
    assert!(require_user_package_owner(&AccessContext::local_owner()).is_ok());
    let guest = AccessContext::new(PrincipalId::parse("extension:dev.example").expect("principal"), &[Permission::PackagesManage]);
    assert_eq!(require_user_package_owner(&guest).expect_err("guest").code(), UserPackageErrorCode::PermissionDenied);
    let reader = AccessContext::new(PrincipalId::local_owner(), &[Permission::PackagesRead]);
    assert_eq!(require_user_package_owner(&reader).expect_err("reader").code(), UserPackageErrorCode::PermissionDenied);
    assert!(validate_user_package_limit(1000).is_ok());
    assert_eq!(validate_user_package_limit(0).expect_err("zero").code(), UserPackageErrorCode::InvalidInput);
    assert_eq!(validate_user_package_limit(1001).expect_err("many").code(), UserPackageErrorCode::InvalidInput);
}

#[test]
fn client_configs_compare_by_their_settings() {
    let config = ClientConfig::default().with_data_directory(PathBuf::from("/tmp/alcomd-data"));
    assert_eq!(config.clone(), config);
    assert_ne!(config, ClientConfig::default());
}
