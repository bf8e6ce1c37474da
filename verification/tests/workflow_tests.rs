use alcomd::settings::{
    ConfigAppearance, ConfigAppearanceDensity, ConfigAppearanceMode, ConfigAppearanceMotion,
    ConfigLocale, ConfigSettings, ConfigSnapshot,
};
use alcomd::candidates::{
    validate_request, CandidateCursor, CandidateQueryError, CandidateSourceOverride,
    CandidateView, PackageSourceSelector, ProjectCandidateRequest,
};
use alcomd::packages::{
    M4ErrorCode, PackageChangeSet, PackageMutation, PackageMutationKind, MAX_PACKAGE_MUTATIONS,
};
use alcomd::settings::{default_snapshot, parse_settings, serialize_settings, settings_from_bytes, OfficialGuiError};
use alcomd::candidates::{snapshot_fingerprint_records, sort_texts};
use alcomd::unity::{
    canonical_unity_version, exact_unity_version, project_selector, validate_arguments,
    M5UnityErrorCode,
};

#[test]
fn change_set_limits_are_not_truncating() {
    let mut change_set = PackageChangeSet {
        format_version: 1,
        mutations: Vec::new(),
        dependency_edges: Vec::new(),
        vpm_manifest_sha256: [0; 32],
    };
    assert!(change_set.validate_bounds().is_ok());
    change_set
        .mutations
        .resize_with(MAX_PACKAGE_MUTATIONS + 1, || PackageMutation {
            kind: PackageMutationKind::Remove,
            package_id: "com.example.package".to_owned(),
            from_version: Some("1.0.0".to_owned()),
            to_version: None,
            source: None,
        });
    assert_eq!(
        change_set.validate_bounds().expect_err("too large").code(),
        M4ErrorCode::PlanTooLarge
    );
}

#[test]
fn project_selector_is_independent_and_user_override_is_rejected() {
    let arguments = vec![
        "-batchmode".to_owned(),
        "-projectPath".to_owned(),
        "X:/project".to_owned(),
    ];
    assert_eq!(project_selector(&arguments), Some("X:/project"));
    assert_eq!(
        validate_arguments(&arguments)
            .expect_err("selector override")
            .code(),
        M5UnityErrorCode::ProjectSelectorForbidden
    );
    assert_eq!(
        validate_arguments(&["-PROJECTPATH=X:/other".to_owned()])
            .expect_err("inline selector override")
            .code(),
        M5UnityErrorCode::ProjectSelectorForbidden
    );
    assert!(validate_arguments(&vec!["x".repeat(4_096); 17]).is_err());
}

#[test]
fn unity_launch_uses_canonical_exact_versions() {
    assert!(exact_unity_version("2022.3.22f1", "2022.3.22f1"));
    assert!(exact_unity_version("2022.3.22f1c1", "2022.3.22f1c1"));
    assert!(!exact_unity_version("2022.3.22f1", "2022.3.40f1"));
    assert!(!exact_unity_version("2022.3.22f1", "2022.3.22f1c1"));
    for invalid in [
        "2022.3",
        "2022.3.22",
        "2022.3.22f0",
        "2022.3.22f1c0",
        "02022.3.22f1",
    ] {
        assert_eq!(
            canonical_unity_version(invalid)
                .expect_err("invalid Unity version")
                .code(),
            M5UnityErrorCode::VersionUnverified
        );
    }
}

fn request() -> ProjectCandidateRequest {
    ProjectCandidateRequest {
        project_id: "11111111-1111-4111-8111-111111111111".into(),
        expected_revision: 1,
        view: CandidateView::Summary {
            package_ids: Some(vec!["com.example.b".into(), "com.example.a".into()]),
            sources: None,
        },
        limit: None,
        expected_snapshot: None,
        cursor: None,
    }
}

#[test]
fn canonical_query_ignores_order_and_page_size_but_binds_view_and_sources() {
    let a = request();
    let mut b = a.clone();
    b.limit = Some(128);
    if let CandidateView::Summary {
        package_ids: Some(ids),
        ..
    } = &mut b.view
    {
        ids.reverse();
    }
    assert_eq!(
        validate_request(&a).expect("candidate fixture or query must succeed"),
        validate_request(&b).expect("candidate fixture or query must succeed")
    );
    b.view = CandidateView::Versions {
        package_id: "com.example.a".into(),
        source: None,
    };
    assert_ne!(
        validate_request(&a).expect("candidate fixture or query must succeed"),
        validate_request(&b).expect("candidate fixture or query must succeed")
    );
}

#[test]
fn rejects_duplicate_out_of_subset_and_cursor_mismatches() {
    let mut r = request();
    r.view = CandidateView::Summary {
        package_ids: Some(vec!["com.example.a".into(); 2]),
        sources: None,
    };
    assert_eq!(validate_request(&r), Err(CandidateQueryError::InvalidInput));
    r = request();
    if let CandidateView::Summary { sources, .. } = &mut r.view {
        *sources = Some(vec![CandidateSourceOverride {
            package_id: "com.example.other".into(),
            source: PackageSourceSelector::Repository {
                repository_id: "22222222-2222-4222-8222-222222222222".into(),
            },
        }]);
    }
    assert_eq!(validate_request(&r), Err(CandidateQueryError::InvalidInput));
    r = request();
    r.expected_snapshot = Some("a".repeat(64));
    r.cursor = Some(CandidateCursor {
        snapshot_fingerprint: "b".repeat(64),
        query_fingerprint: "c".repeat(64),
        offset: 1,
    });
    assert_eq!(validate_request(&r), Err(CandidateQueryError::InvalidInput));
    r = request();
    r.limit = Some(129);
    assert_eq!(validate_request(&r), Err(CandidateQueryError::InvalidInput));
    r = request();
    r.view = CandidateView::Summary {
        package_ids: Some((0..257).map(|i| format!("com.example.{i}")).collect()),
        sources: None,
    };
    assert_eq!(validate_request(&r), Err(CandidateQueryError::InvalidInput));
}

#[test]
fn deterministic_roundtrip_and_strict_unknown_field() {
    let snapshot = default_snapshot();
    let encoded = serialize_settings(&snapshot);
    assert_eq!(parse_settings(&encoded), Ok(snapshot));
    assert_eq!(
        parse_settings("schema = 1\nunknown = 2\n"),
        Err(OfficialGuiError::Corrupt)
    );
}

#[test]
fn settings_with_a_source_color_round_trip() {
    let snapshot = ConfigSnapshot {
        revision: 42,
        settings: ConfigSettings {
            appearance: ConfigAppearance {
                mode: ConfigAppearanceMode::Dark,
                source_color: Some("#AABBCC".to_string()),
                density: ConfigAppearanceDensity::Compact,
                motion: ConfigAppearanceMotion::Reduced,
            },
            locale: ConfigLocale::JaJp,
        },
    };
    let text = serialize_settings(&snapshot);
    assert_eq!(
        text,
        "schema = 1\nrevision = 42\nlocale = \"ja-JP\"\n\n[appearance]\nmode = \"dark\"\nsource_color = \"#AABBCC\"\ndensity = \"compact\"\nmotion = \"reduced\"\n"
    );
    assert_eq!(parse_settings(&text), Ok(snapshot));
}

#[test]
fn settings_bytes_are_bounded_nul_free_utf8() {
    let text = serialize_settings(&default_snapshot());
    assert_eq!(settings_from_bytes(text.as_bytes()), Ok(default_snapshot()));
    assert_eq!(settings_from_bytes(b"schema = 1\0"), Err(OfficialGuiError::Corrupt));
    assert_eq!(settings_from_bytes(b"\xff"), Err(OfficialGuiError::Corrupt));
    let long = vec![b'#'; 16 * 1024 + 1];
    assert_eq!(settings_from_bytes(&long), Err(OfficialGuiError::Corrupt));
}

#[test]
fn snapshot_records_sort_hidden_repositories_by_bytes() {
    let base = vec!["store-a".to_string(), "store-b".to_string()];
    let hidden = vec!["repo-b".to_string(), "Repo-z".to_string(), "repo-a".to_string(), "repo-b".to_string()];
    let records = snapshot_fingerprint_records(&base, "local-owner", 7, true, false, &hidden);
    assert_eq!(
        records,
        vec!["store-a", "store-b", "local-owner", "7", "true", "false", "Repo-z", "repo-a", "repo-b", "repo-b"]
    );
    let reordered = vec!["repo-a".to_string(), "repo-b".to_string(), "repo-b".to_string(), "Repo-z".to_string()];
    assert_eq!(snapshot_fingerprint_records(&base, "local-owner", 7, true, false, &reordered), records);
    assert_eq!(sort_texts(&vec!["b".to_string(), "a".to_string()]), vec!["a".to_string(), "b".to_string()]);
}
