use alcomd::domain::PrincipalId;
use alcomd::extension_install::{install_start, install_step, manifest_ui_protocol, map_package_error, package_evidence, required_interfaces_supported, verify_plan, InstallAction, InstallEvent, InstallStage};
use alcomd::extensions::{ExtensionJournalPhase, ExtensionJournalState};
use alcomd::extensions::{ExtensionPlanRecord, ExtensionSourceKind, ExtensionTrustDecision, ExtensionUiProtocol, M6ErrorCode};
use alcomd::ids::PlanId;
use alcomd::archive::{
    canonical_order, entry_frame, normalize_path, plan_named, preflight, validate_collision,
    ArchiveEntry, EntryCompression, EntryPlan,
};
use alcomd::package::{
    decode_hex, file_digest, hex, manifest_text, validate_allowed_root, validate_manifest, valid_fingerprint,
    valid_permission, verify_signature, windows_device_segment, ExtensionManifest,
    ManifestEntrypoints, ManifestRequirements, PackageError, PackageErrorCode, SignatureEnvelope, VerifiedExtensionPackage,
    COMPONENT_PATH, MANIFEST_PATH, SIGNATURE_PATH,
};
use ed25519_dalek::{Signer, SigningKey};
use sha2::{Digest, Sha256};

fn file(name: &str, size: u64) -> ArchiveEntry {
    ArchiveEntry {
        encrypted: false,
        compression: EntryCompression::Stored,
        unix_mode: Some(0o100644),
        name_raw: name.as_bytes().to_vec(),
        name: name.to_string(),
        is_dir: false,
        size,
        compressed_size: size,
    }
}

fn directory(name: &str) -> ArchiveEntry {
    ArchiveEntry {
        encrypted: false,
        compression: EntryCompression::Stored,
        unix_mode: Some(0o040755),
        name_raw: name.as_bytes().to_vec(),
        name: name.to_string(),
        is_dir: true,
        size: 0,
        compressed_size: 0,
    }
}

fn required_with(extra: Vec<ArchiveEntry>) -> Vec<ArchiveEntry> {
    let mut entries = vec![
        file(MANIFEST_PATH, 100),
        file(COMPONENT_PATH, 8),
        file(SIGNATURE_PATH, 200),
    ];
    entries.extend(extra);
    entries
}

fn code_of<T: std::fmt::Debug>(r: Result<T, alcomd::package::PackageError>) -> PackageErrorCode {
    r.expect_err("rejected").code()
}

#[test]
fn normal_paths_are_nfc_and_case_folded_for_collisions() {
    let (path, key) = normalize_path("ui/Panel.html").expect("plain path");
    assert_eq!(path, "ui/Panel.html");
    assert_eq!(key, "ui/panel.html");
    let (path, key) = normalize_path("ui/").expect("directory path");
    assert_eq!(path, "ui");
    assert_eq!(key, "ui");
    let (path, _) = normalize_path("ui/e\u{301}.html").expect("decomposed accent");
    assert_eq!(path, "ui/\u{e9}.html");
    let (_, key) = normalize_path("ui/\u{c9}T\u{c9}.txt").expect("uppercase accents");
    assert_eq!(key, "ui/\u{e9}t\u{e9}.txt");
}

#[test]
fn hostile_paths_are_unsafe() {
    let long = format!("ui/{}", "a".repeat(600));
    let deep = vec!["d"; 17].join("/");
    for raw in [
        "",
        "/abs",
        "\\abs",
        "ui\\x",
        "ui/../escape",
        "ui/./x",
        "ui//x",
        "ui/a:b",
        "ui/name.",
        "ui/name ",
        "ui/con.txt",
        "ui/COM1",
        "ui/lpt9.log",
        "ui/bad\u{7}name",
        "ui/tab\tname",
        long.as_str(),
        deep.as_str(),
    ] {
        assert_eq!(code_of(normalize_path(raw)), PackageErrorCode::UnsafePath, "{raw:?}");
    }
    assert!(normalize_path("ui/com10.txt").is_ok());
    assert!(normalize_path("ui/console.txt").is_ok());
}

fn key(text: &str) -> Vec<char> {
    text.chars().collect()
}

#[test]
fn collisions_cover_equal_keys_file_ancestors_and_children() {
    let table = vec![(key("ui"), true), (key("ui/a"), false)];
    assert!(validate_collision(&key("ui/b"), false, &table).is_ok());
    assert_eq!(code_of(validate_collision(&key("ui/a"), false, &table)), PackageErrorCode::PathCollision);
    assert_eq!(code_of(validate_collision(&key("ui/a/b"), false, &table)), PackageErrorCode::PathCollision);
    assert_eq!(code_of(validate_collision(&key("ui"), false, &vec![(key("ui/a"), false)])), PackageErrorCode::PathCollision);
    assert!(validate_collision(&key("ui"), true, &vec![(key("ui/a"), false)]).is_ok());
}

#[test]
fn preflight_plans_files_and_skips_directories() {
    let entries = required_with(vec![directory("ui/"), file("ui/index.html", 7)]);
    let plans = preflight(&entries).expect("valid archive");
    let paths: Vec<&str> = plans.iter().map(|p| p.path.as_str()).collect();
    assert_eq!(paths, vec![MANIFEST_PATH, COMPONENT_PATH, SIGNATURE_PATH, "ui/index.html"]);
    let indexes: Vec<usize> = plans.iter().map(|p| p.index).collect();
    assert_eq!(indexes, vec![0, 1, 2, 4]);
    assert_eq!(plans[3].size, 7);
}

#[test]
fn preflight_rejects_case_collisions_links_and_hostile_paths() {
    let collision = required_with(vec![file("ui/Panel.html", 5), file("ui/panel.html", 6)]);
    assert_eq!(code_of(preflight(&collision)), PackageErrorCode::PathCollision);
    let mut link = file("ui/link", 6);
    link.unix_mode = Some(0o120777);
    assert_eq!(code_of(preflight(&required_with(vec![link]))), PackageErrorCode::UnsupportedEntry);
    assert_eq!(code_of(preflight(&required_with(vec![file("ui/../escape", 3)]))), PackageErrorCode::UnsafePath);
    assert_eq!(code_of(preflight(&required_with(vec![file("other/x", 3)]))), PackageErrorCode::UnsafePath);
}

#[test]
fn preflight_rejects_every_entry_kind_and_limit() {
    assert_eq!(code_of(preflight(&Vec::new())), PackageErrorCode::ArchiveLimitExceeded);
    let mut encrypted = file("ui/a", 1);
    encrypted.encrypted = true;
    assert_eq!(code_of(preflight(&required_with(vec![encrypted]))), PackageErrorCode::UnsupportedEntry);
    let mut other = file("ui/a", 1);
    other.compression = EntryCompression::Other;
    assert_eq!(code_of(preflight(&required_with(vec![other]))), PackageErrorCode::UnsupportedEntry);
    let mut renamed = file("ui/a", 1);
    renamed.name = "ui/b".to_string();
    assert_eq!(code_of(preflight(&required_with(vec![renamed]))), PackageErrorCode::UnsafePath);
    let mut invalid = file("ui/a", 1);
    invalid.name_raw = vec![b'u', b'i', b'/', 0xff];
    assert_eq!(code_of(preflight(&required_with(vec![invalid]))), PackageErrorCode::UnsafePath);
    let huge = file("ui/huge", 33_554_433);
    assert_eq!(code_of(preflight(&required_with(vec![huge]))), PackageErrorCode::ArchiveLimitExceeded);
    let mut bomb = file("ui/bomb", 1_000_001);
    bomb.compressed_size = 10_000;
    assert_eq!(code_of(preflight(&required_with(vec![bomb]))), PackageErrorCode::ArchiveLimitExceeded);
    let mut empty_compressed = file("ui/e", 5);
    empty_compressed.compressed_size = 0;
    assert_eq!(code_of(preflight(&required_with(vec![empty_compressed]))), PackageErrorCode::ArchiveLimitExceeded);
    let ui = vec![file("ui/a", 30_000_000), file("ui/b", 30_000_000), file("ui/c", 30_000_000)];
    assert_eq!(code_of(preflight(&required_with(ui))), PackageErrorCode::ArchiveLimitExceeded);
    let missing = vec![file(MANIFEST_PATH, 10), file(SIGNATURE_PATH, 10)];
    assert_eq!(code_of(preflight(&missing)), PackageErrorCode::InvalidArchive);
}

fn plan(index: usize, path: &str, size: u64) -> EntryPlan {
    EntryPlan { index, path: path.to_string(), size }
}

#[test]
fn canonical_order_sorts_by_bytes_without_the_signature() {
    let plans = vec![
        plan(0, "ui/x", 1),
        plan(1, COMPONENT_PATH, 2),
        plan(2, SIGNATURE_PATH, 3),
        plan(3, MANIFEST_PATH, 4),
        plan(4, "META-INF/notes", 5),
    ];
    assert_eq!(canonical_order(&plans), vec![4, 3, 1, 0]);
}

#[test]
fn entry_frame_is_length_path_and_size_little_endian() {
    let frame = entry_frame("ab", 0x0102).expect("frame");
    assert_eq!(frame, vec![2, 0, 0, 0, b'a', b'b', 2, 1, 0, 0, 0, 0, 0, 0]);
}

#[test]
fn plan_named_finds_bounds_and_misses() {
    let plans = vec![plan(0, MANIFEST_PATH, 70_000), plan(1, COMPONENT_PATH, 8)];
    assert_eq!(plan_named(&plans, COMPONENT_PATH, 10).expect("found"), 1);
    assert_eq!(code_of(plan_named(&plans, MANIFEST_PATH, 65_536)), PackageErrorCode::ArchiveLimitExceeded);
    assert_eq!(code_of(plan_named(&plans, SIGNATURE_PATH, 8_192)), PackageErrorCode::InvalidArchive);
}

fn fixture_manifest(fingerprint: &str) -> ExtensionManifest {
    ExtensionManifest {
        schema: 1,
        id: "dev.example.fixture".to_string(),
        name: "Fixture".to_string(),
        version: "1.0.0".to_string(),
        api: 1,
        publisher_name: "Fixture Publisher".to_string(),
        publisher_key_fingerprint: fingerprint.to_string(),
        license: "MIT".to_string(),
        entrypoints: ManifestEntrypoints {
            background_component: Some(COMPONENT_PATH.to_string()),
            ui_entry: None,
        },
        interfaces: ManifestRequirements {
            required: vec![
                "alcomd:extension/host-data@1.0.0".to_string(),
                "alcomd:extension/host-projects@1.0.0".to_string(),
            ],
            optional: vec![],
        },
        permissions: ManifestRequirements {
            required: vec!["background.run".to_string(), "projects.read".to_string()],
            optional: vec![],
        },
    }
}

fn content_digest(plans: &Vec<EntryPlan>, contents: &[&[u8]]) -> [u8; 32] {
    let mut digest = Sha256::new();
    digest.update(b"ALCOMD-EXT-CONTENT-SHA256-V1\0");
    for index in canonical_order(plans) {
        let plan = &plans[index];
        digest.update(entry_frame(&plan.path, plan.size).expect("frame"));
        digest.update(contents[index]);
    }
    digest.finalize().into()
}

#[test]
fn signed_content_digest_verifies_strictly() {
    let signing = SigningKey::from_bytes(&[7_u8; 32]);
    let public_key = signing.verifying_key().to_bytes();
    let fingerprint = format!("ed25519-sha256:{}", hex(&Sha256::digest(public_key)));
    assert!(valid_fingerprint(&fingerprint));
    let manifest = fixture_manifest(&fingerprint);
    assert!(validate_manifest(&manifest).is_ok());
    let contents: Vec<&[u8]> = vec![b"manifest", b"\0asm\x0d\0\x01\0", b"{}", b"fixture"];
    let plans = vec![
        plan(0, MANIFEST_PATH, 8),
        plan(1, COMPONENT_PATH, 8),
        plan(2, SIGNATURE_PATH, 2),
        plan(3, "ui/index.html", 7),
    ];
    let digest = content_digest(&plans, &contents);
    let mut message = b"ALCOMD-EXT-SIGNATURE-V1\0".to_vec();
    message.extend_from_slice(&digest);
    let signature = signing.sign(&message).to_bytes();
    let envelope = SignatureEnvelope {
        format_version: 1,
        algorithm: "ed25519".to_string(),
        package_digest: hex(&digest),
        public_key: hex(&public_key),
        publisher_fingerprint: fingerprint.clone(),
        signature: hex(&signature),
    };
    assert!(verify_signature(&manifest, digest, &envelope).is_ok());

    let mut tampered = digest;
    tampered[0] ^= 1;
    let mut moved = envelope.clone();
    moved.package_digest = hex(&tampered);
    assert_eq!(code_of(verify_signature(&manifest, tampered, &moved)), PackageErrorCode::SignatureInvalid);

    let other = fixture_manifest("ed25519-sha256:aaaaaaaaaaaaaaaaaaaaaaaaaaaaaaaaaaaaaaaaaaaaaaaaaaaaaaaaaaaaaaaa");
    assert_eq!(code_of(verify_signature(&other, digest, &envelope)), PackageErrorCode::SignatureInvalid);
}

#[test]
fn manifest_and_name_checks() {
    assert!(valid_permission("projects.read"));
    assert!(!valid_permission("ab"));
    assert!(!valid_permission("Projects.read"));
    assert!(!valid_fingerprint("ed25519-sha256:ABCDEF"));
    assert_eq!(hex(&[0x00, 0xab, 0xff]), "00abff");
    assert_eq!(decode_hex("00abff", 3).expect("hex"), vec![0x00, 0xab, 0xff]);
    assert_eq!(decode_hex("00ABFF", 3).expect("either case"), vec![0x00, 0xab, 0xff]);
    assert_eq!(decode_hex("+f", 1).expect("radix sign"), vec![0x0f]);
    assert_eq!(code_of(decode_hex("0g", 1)), PackageErrorCode::SignatureInvalid);
    assert_eq!(code_of(decode_hex("00ab", 3)), PackageErrorCode::SignatureInvalid);
    assert!(validate_allowed_root("ui", true).is_ok());
    assert!(validate_allowed_root("ui", false).is_err());
    assert!(validate_allowed_root("component/extension.wasm", false).is_ok());
    assert!(windows_device_segment("aux.tar.gz"));
    assert!(!windows_device_segment("auxiliary"));
    let mut bad = fixture_manifest("ed25519-sha256:aaaaaaaaaaaaaaaaaaaaaaaaaaaaaaaaaaaaaaaaaaaaaaaaaaaaaaaaaaaaaaaa");
    assert!(validate_manifest(&bad).is_ok());
    bad.api = 2;
    assert_eq!(code_of(validate_manifest(&bad)), PackageErrorCode::ManifestInvalid);
}

#[test]
fn manifest_text_and_file_digest() {
    use_manifest_text();
    let digest = file_digest(b"abc");
    assert_eq!(
        hex(&digest),
        "ba7816bf8f01cfea414140de5dae2223b00361a396177a9cb410ff61f20015ad"
    );
}

fn use_manifest_text() {
    assert_eq!(manifest_text(b"schema = 1\n").expect("text"), "schema = 1\n");
    assert_eq!(code_of(manifest_text(b"\xef\xbb\xbfschema = 1")), PackageErrorCode::ManifestInvalid);
    assert_eq!(code_of(manifest_text(b"a\0b")), PackageErrorCode::ManifestInvalid);
    assert_eq!(code_of(manifest_text(b"\xff")), PackageErrorCode::ManifestInvalid);
}

fn fixture_package(interfaces: Vec<&str>, ui_entry: Option<&str>) -> VerifiedExtensionPackage {
    let mut manifest = fixture_manifest("ed25519-sha256:aaaaaaaaaaaaaaaaaaaaaaaaaaaaaaaaaaaaaaaaaaaaaaaaaaaaaaaaaaaaaaaa");
    manifest.interfaces.required = interfaces.into_iter().map(str::to_owned).collect();
    manifest.entrypoints.ui_entry = ui_entry.map(str::to_owned);
    VerifiedExtensionPackage {
        manifest,
        package_digest: [1; 32],
        manifest_digest: [2; 32],
        component_digest: [3; 32],
        publisher_fingerprint: "ed25519-sha256:aaaaaaaaaaaaaaaaaaaaaaaaaaaaaaaaaaaaaaaaaaaaaaaaaaaaaaaaaaaaaaaa".to_owned(),
    }
}

#[test]
fn install_evidence_freezes_the_package_and_plans_go_stale_on_change() {
    assert!(required_interfaces_supported(&vec!["alcomd:extension/host-data@1.0.0".to_owned()]));
    assert!(!required_interfaces_supported(&vec!["alcomd:extension/host-net@1.0.0".to_owned()]));
    let package = fixture_package(vec!["alcomd:extension/host-projects@1.0.0"], Some("ui/index.html"));
    assert_eq!(manifest_ui_protocol(&package), Some(ExtensionUiProtocol::PortableV1));
    let evidence = package_evidence(
        ExtensionSourceKind::LocalOwnerSelected,
        Some("/tmp/pkg.alcomdext".to_owned()),
        vec![9, 9],
        package.clone(),
    )
    .expect("evidence");
    assert_eq!(evidence.extension_id, "dev.example.fixture");
    assert_eq!(evidence.profile_version, 1);
    assert_eq!(evidence.source_locator, "/tmp/pkg.alcomdext");
    assert_eq!(evidence.ui_protocol, Some(ExtensionUiProtocol::PortableV1));
    let missing = package_evidence(ExtensionSourceKind::LocalOwnerSelected, None, vec![], package.clone());
    assert_eq!(missing.expect_err("locator").code(), M6ErrorCode::PackageInvalid);
    let unsupported = fixture_package(vec!["alcomd:extension/host-net@1.0.0"], None);
    let refused = package_evidence(ExtensionSourceKind::LocalOwnerSelected, Some("/p".to_owned()), vec![], unsupported);
    assert_eq!(refused.expect_err("interface").code(), M6ErrorCode::ApiUnsupported);
    let plan = ExtensionPlanRecord {
        plan_id: PlanId::new(),
        owner: PrincipalId::local_owner(),
        action: "install".to_owned(),
        state: "planned".to_owned(),
        evidence,
        trust_decision: ExtensionTrustDecision::Official,
        expected_revision: None,
        data_disposition: None,
        plan_fingerprint: [0; 32],
        apply_operation_id: None,
        created_at_ms: 0,
    };
    assert!(verify_plan(&plan, &package).is_ok());
    let mut changed = package.clone();
    changed.manifest.version = "1.0.1".to_owned();
    assert_eq!(verify_plan(&plan, &changed).expect_err("stale").code(), M6ErrorCode::PlanStale);
    let no_ui = fixture_package(vec!["alcomd:extension/host-projects@1.0.0"], None);
    assert_eq!(verify_plan(&plan, &no_ui).expect_err("ui").code(), M6ErrorCode::PlanStale);
    assert_eq!(map_package_error(PackageError::new(PackageErrorCode::Io)).code(), M6ErrorCode::RecoveryRequired);
    assert_eq!(map_package_error(PackageError::new(PackageErrorCode::PathCollision)).code(), M6ErrorCode::PackageInvalid);
    assert_eq!(map_package_error(PackageError::new(PackageErrorCode::SignatureInvalid)).code(), M6ErrorCode::SignatureInvalid);
}

fn fixture_plan(package: &VerifiedExtensionPackage) -> ExtensionPlanRecord {
    let evidence = package_evidence(
        ExtensionSourceKind::LocalOwnerSelected,
        Some("/tmp/pkg.alcomdext".to_owned()),
        vec![9, 9],
        package.clone(),
    )
    .expect("evidence");
    ExtensionPlanRecord {
        plan_id: PlanId::new(),
        owner: PrincipalId::local_owner(),
        action: "install".to_owned(),
        state: "planned".to_owned(),
        evidence,
        trust_decision: ExtensionTrustDecision::Official,
        expected_revision: None,
        data_disposition: None,
        plan_fingerprint: [0; 32],
        apply_operation_id: None,
        created_at_ms: 0,
    }
}

fn journal_of(action: InstallAction) -> Option<(ExtensionJournalPhase, ExtensionJournalState)> {
    match action {
        InstallAction::Journal { phase, state } => Some((phase, state)),
        _ => None,
    }
}

#[test]
fn install_journals_each_phase_in_order_and_refuses_a_changed_source() {
    let package = fixture_package(vec!["alcomd:extension/host-projects@1.0.0"], Some("ui/index.html"));
    let (run, action) = install_start(fixture_plan(&package));
    assert!(matches!(action, InstallAction::CheckPublished));
    let (run, action) = install_step(run, InstallEvent::JournalChecked { published: false });
    assert!(matches!(action, InstallAction::ReadSourceIdentity));
    let (stale, action) = install_step(
        install_step(install_start(fixture_plan(&package)).0, InstallEvent::JournalChecked { published: false }).0,
        InstallEvent::IdentityRead { identity: Some(vec![1]) },
    );
    assert!(matches!(action, InstallAction::Finish { result: Err(M6ErrorCode::PlanStale) }));
    assert_eq!(stale.stage, InstallStage::Ended);
    let (run, action) = install_step(run, InstallEvent::IdentityRead { identity: Some(vec![9, 9]) });
    assert_eq!(journal_of(action), Some((ExtensionJournalPhase::SourceVerified, ExtensionJournalState::Completed)));
    let (run, action) = install_step(run, InstallEvent::Done);
    assert!(matches!(action, InstallAction::InspectSource));
    let (run, action) = install_step(run, InstallEvent::Inspected { package: Ok(package.clone()) });
    assert_eq!(journal_of(action), Some((ExtensionJournalPhase::ArchiveVerified, ExtensionJournalState::Completed)));
    let (run, action) = install_step(run, InstallEvent::Done);
    assert!(matches!(action, InstallAction::Extract));
    let (run, action) = install_step(run, InstallEvent::Inspected { package: Ok(package.clone()) });
    assert_eq!(journal_of(action), Some((ExtensionJournalPhase::StagingComplete, ExtensionJournalState::Completed)));
    let (run, action) = install_step(run, InstallEvent::Done);
    assert_eq!(journal_of(action), Some((ExtensionJournalPhase::PublishIntent, ExtensionJournalState::Intent)));
    let (run, action) = install_step(run, InstallEvent::Done);
    assert!(matches!(action, InstallAction::ProbeTarget));
    let (run, action) = install_step(run, InstallEvent::TargetProbed { existing: None });
    assert!(matches!(action, InstallAction::MoveIntoPlace));
    let (run, action) = install_step(run, InstallEvent::Done);
    assert_eq!(journal_of(action), Some((ExtensionJournalPhase::PackagePublished, ExtensionJournalState::Completed)));
    let (run, action) = install_step(run, InstallEvent::Done);
    assert_eq!(journal_of(action), Some((ExtensionJournalPhase::StateCommitIntent, ExtensionJournalState::Intent)));
    let (_, action) = install_step(run, InstallEvent::Done);
    assert!(matches!(action, InstallAction::Finish { result: Ok(()) }));
}

#[test]
fn install_of_a_published_package_only_rechecks_it() {
    let package = fixture_package(vec!["alcomd:extension/host-projects@1.0.0"], Some("ui/index.html"));
    let (run, _) = install_start(fixture_plan(&package));
    let (run, action) = install_step(run, InstallEvent::JournalChecked { published: true });
    assert!(matches!(action, InstallAction::InspectTarget));
    let mut changed = package.clone();
    changed.manifest.version = "1.0.1".to_owned();
    let (_, refused) = install_step(
        install_step(install_start(fixture_plan(&package)).0, InstallEvent::JournalChecked { published: true }).0,
        InstallEvent::Inspected { package: Ok(changed) },
    );
    assert!(matches!(refused, InstallAction::Finish { result: Err(M6ErrorCode::PlanStale) }));
    let (run, action) = install_step(run, InstallEvent::Inspected { package: Ok(package) });
    assert_eq!(journal_of(action), Some((ExtensionJournalPhase::StateCommitIntent, ExtensionJournalState::Intent)));
    let (_, action) = install_step(run, InstallEvent::Failed { code: M6ErrorCode::StoreUnavailable });
    assert!(matches!(action, InstallAction::Finish { result: Err(M6ErrorCode::StoreUnavailable) }));
}
