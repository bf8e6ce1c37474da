//! Installing a verified extension package: the host interfaces the daemon
//! serves, the evidence an install plan freezes, and the check that a plan
//! still describes the package about to be installed.

use vstd::prelude::*;

use crate::candidates::views_list;
use crate::extensions::{
    ExtensionJournalPhase, ExtensionJournalState, ExtensionPackageEvidence, ExtensionPlanRecord, ExtensionSourceKind,
    ExtensionUiProtocol, M6Error, M6ErrorCode,
};
use crate::package::{PackageError, PackageErrorCode, VerifiedExtensionPackage};

verus! {

/// A host interface the daemon serves.
pub open spec fn interface_supported(interface: Seq<char>) -> bool {
    interface == "alcomd:extension/host-data@1.0.0"@ || interface == "alcomd:extension/host-projects@1.0.0"@
}

/// Whether every required interface is served.
pub open spec fn interfaces_supported(interfaces: Seq<String>) -> bool {
    forall|k: int| 0 <= k < interfaces.len() ==> interface_supported(#[trigger] interfaces[k]@)
}

/// Checks that the daemon serves every interface a package requires.
pub fn required_interfaces_supported(interfaces: &Vec<String>) -> (r: bool)
    ensures
        r == interfaces_supported(interfaces@),
{
    let mut i: usize = 0;
    while i < interfaces.len()
        invariant
            i <= interfaces@.len(),
            forall|k: int| 0 <= k < i ==> interface_supported(#[trigger] interfaces@[k]@),
        decreases interfaces@.len() - i,
    {
        let value = interfaces[i].as_str();
        if !crate::text::str_eq(value, "alcomd:extension/host-data@1.0.0") && !crate::text::str_eq(
            value,
            "alcomd:extension/host-projects@1.0.0",
        ) {
            return false;
        }
        i = i + 1;
    }
    true
}

/// The UI protocol of a package: portable v1 when its manifest names a UI
/// entry.
pub open spec fn ui_protocol_of(package: VerifiedExtensionPackage) -> Option<ExtensionUiProtocol> {
    if package.manifest.entrypoints.ui_entry is Some {
        Some(ExtensionUiProtocol::PortableV1)
    } else {
        None
    }
}

/// The UI protocol a package declares.
pub fn manifest_ui_protocol(package: &VerifiedExtensionPackage) -> (r: Option<ExtensionUiProtocol>)
    ensures
        r == ui_protocol_of(*package),
{
    match package.manifest.entrypoints.ui_entry {
        Some(_) => Some(ExtensionUiProtocol::PortableV1),
        None => None,
    }
}

/// The evidence an install plan freezes of a verified package read from a
/// source: the source, the manifest's identity, version, interfaces and
/// permissions, the three digests and the publisher.
pub open spec fn evidence_of(
    e: ExtensionPackageEvidence,
    source_kind: ExtensionSourceKind,
    source_locator: String,
    source_identity: Vec<u8>,
    package: VerifiedExtensionPackage,
) -> bool {
    &&& e.source_kind == source_kind
    &&& e.source_locator == source_locator
    &&& e.source_identity == source_identity
    &&& e.extension_id == package.manifest.id
    &&& e.version == package.manifest.version
    &&& e.api_major == package.manifest.api
    &&& e.profile_version == 1
    &&& e.package_digest == package.package_digest
    &&& e.manifest_digest == package.manifest_digest
    &&& e.component_digest == package.component_digest
    &&& e.publisher_fingerprint == package.publisher_fingerprint
    &&& e.required_permissions == package.manifest.permissions.required
    &&& e.optional_permissions == package.manifest.permissions.optional
    &&& e.required_interfaces == package.manifest.interfaces.required
    &&& e.optional_interfaces == package.manifest.interfaces.optional
    &&& e.ui_protocol == ui_protocol_of(package)
}

/// Freezes the evidence of a verified package. A package that requires an
/// interface the daemon does not serve is `api_unsupported`; a source whose
/// path is not text is `package_invalid`.
pub fn package_evidence(
    source_kind: ExtensionSourceKind,
    source_locator: Option<String>,
    source_identity: Vec<u8>,
    package: VerifiedExtensionPackage,
) -> (r: Result<ExtensionPackageEvidence, M6Error>)
    ensures
        !interfaces_supported(package.manifest.interfaces.required@) ==> (r matches Err(e) && e.spec_code()
            == M6ErrorCode::ApiUnsupported),
        interfaces_supported(package.manifest.interfaces.required@) && source_locator is None ==> (r matches Err(
            e,
        ) && e.spec_code() == M6ErrorCode::PackageInvalid),
        interfaces_supported(package.manifest.interfaces.required@) && source_locator is Some ==> (r matches Ok(e)
            && evidence_of(e, source_kind, source_locator->0, source_identity, package)),
{
    if !required_interfaces_supported(&package.manifest.interfaces.required) {
        return Err(M6Error::new(M6ErrorCode::ApiUnsupported));
    }
    let locator = match source_locator {
        Some(text) => text,
        None => {
            return Err(M6Error::new(M6ErrorCode::PackageInvalid));
        },
    };
    let ui_protocol = manifest_ui_protocol(&package);
    let manifest = package.manifest;
    Ok(
        ExtensionPackageEvidence {
            source_kind,
            source_locator: locator,
            source_identity,
            extension_id: manifest.id,
            version: manifest.version,
            api_major: manifest.api,
            profile_version: 1,
            package_digest: package.package_digest,
            manifest_digest: package.manifest_digest,
            component_digest: package.component_digest,
            publisher_fingerprint: package.publisher_fingerprint,
            required_permissions: manifest.permissions.required,
            optional_permissions: manifest.permissions.optional,
            required_interfaces: manifest.interfaces.required,
            optional_interfaces: manifest.interfaces.optional,
            ui_protocol,
        },
    )
}

/// Compares two text lists by their characters.
fn texts_equal(a: &Vec<String>, b: &Vec<String>) -> (r: bool)
    ensures
        r == (views_list(a@) == views_list(b@)),
{
    if a.len() != b.len() {
        return false;
    }
    let mut i: usize = 0;
    while i < a.len()
        invariant
            a@.len() == b@.len(),
            i <= a@.len(),
            forall|k: int| 0 <= k < i ==> (#[trigger] a@[k])@ == b@[k]@,
        decreases a@.len() - i,
    {
        if !crate::text::str_eq(a[i].as_str(), b[i].as_str()) {
            assert(views_list(a@)[i as int] != views_list(b@)[i as int]);
            return false;
        }
        i = i + 1;
    }
    assert(views_list(a@) =~= views_list(b@));
    true
}

/// Whether a plan's evidence still describes a package: the same identity,
/// version, API, profile, digests, publisher, permissions, interfaces and
/// UI protocol, compared by value.
pub open spec fn plan_matches(e: ExtensionPackageEvidence, package: VerifiedExtensionPackage) -> bool {
    &&& e.extension_id@ == package.manifest.id@
    &&& e.version@ == package.manifest.version@
    &&& e.api_major == package.manifest.api
    &&& e.profile_version == 1
    &&& e.package_digest@ == package.package_digest@
    &&& e.manifest_digest@ == package.manifest_digest@
    &&& e.component_digest@ == package.component_digest@
    &&& e.publisher_fingerprint@ == package.publisher_fingerprint@
    &&& views_list(e.required_permissions@) == views_list(package.manifest.permissions.required@)
    &&& views_list(e.optional_permissions@) == views_list(package.manifest.permissions.optional@)
    &&& views_list(e.required_interfaces@) == views_list(package.manifest.interfaces.required@)
    &&& views_list(e.optional_interfaces@) == views_list(package.manifest.interfaces.optional@)
    &&& e.ui_protocol == ui_protocol_of(package)
}

/// Checks that an install plan still describes the package; otherwise the
/// plan is stale.
pub fn verify_plan(plan: &ExtensionPlanRecord, package: &VerifiedExtensionPackage) -> (r: Result<(), M6Error>)
    ensures
        r is Ok <==> plan_matches(plan.evidence, *package),
        r matches Err(e) ==> e.spec_code() == M6ErrorCode::PlanStale,
{
    let e = &plan.evidence;
    let m = &package.manifest;
    let declared = manifest_ui_protocol(package);
    let same_ui = e.ui_protocol.is_some() == declared.is_some();
    proof {
        if same_ui {
            if e.ui_protocol is Some {
                assert(e.ui_protocol->0 == ExtensionUiProtocol::PortableV1);
                assert(declared->0 == ExtensionUiProtocol::PortableV1);
            }
            assert(e.ui_protocol == declared);
        }
    }
    if !crate::text::str_eq(e.extension_id.as_str(), m.id.as_str()) || !crate::text::str_eq(
        e.version.as_str(),
        m.version.as_str(),
    ) || e.api_major != m.api || e.profile_version != 1 || !crate::text::bytes_eq(
        e.package_digest.as_slice(),
        package.package_digest.as_slice(),
    ) || !crate::text::bytes_eq(e.manifest_digest.as_slice(), package.manifest_digest.as_slice())
        || !crate::text::bytes_eq(e.component_digest.as_slice(), package.component_digest.as_slice())
        || !crate::text::str_eq(e.publisher_fingerprint.as_str(), package.publisher_fingerprint.as_str())
        || !texts_equal(&e.required_permissions, &m.permissions.required) || !texts_equal(
        &e.optional_permissions,
        &m.permissions.optional,
    ) || !texts_equal(&e.required_interfaces, &m.interfaces.required) || !texts_equal(
        &e.optional_interfaces,
        &m.interfaces.optional,
    ) || !same_ui {
        return Err(M6Error::new(M6ErrorCode::PlanStale));
    }
    Ok(())
}

/// The extension error a package rejection stands for.
pub open spec fn m6_code_for_package(code: PackageErrorCode) -> M6ErrorCode {
    match code {
        PackageErrorCode::ManifestInvalid => M6ErrorCode::ManifestInvalid,
        PackageErrorCode::SignatureInvalid => M6ErrorCode::SignatureInvalid,
        PackageErrorCode::Io => M6ErrorCode::RecoveryRequired,
        _ => M6ErrorCode::PackageInvalid,
    }
}

/// Maps a package rejection to an extension error.
pub fn map_package_error(error: PackageError) -> (r: M6Error)
    ensures
        r.spec_code() == m6_code_for_package(error.spec_code()),
{
    match error.code() {
        PackageErrorCode::ManifestInvalid => M6Error::new(M6ErrorCode::ManifestInvalid),
        PackageErrorCode::SignatureInvalid => M6Error::new(M6ErrorCode::SignatureInvalid),
        PackageErrorCode::Io => M6Error::new(M6ErrorCode::RecoveryRequired),
        _ => M6Error::new(M6ErrorCode::PackageInvalid),
    }
}


/// What an install waits for.
#[derive(Clone, Copy, Debug, PartialEq, Eq, Structural)]
pub enum InstallStage {
    /// The journal is asked whether the package was already published.
    CheckingPublished,
    /// The already published package is being inspected.
    InspectingPublished,
    /// The source's file identity is being read.
    ReadingIdentity,
    /// The source-verified journal entry is being written.
    JournalingSource,
    /// The source archive is being inspected.
    InspectingSource,
    /// The archive-verified journal entry is being written.
    JournalingArchive,
    /// The archive is being extracted into staging.
    Extracting,
    /// The staging-complete journal entry is being written.
    JournalingStaging,
    /// The publish intent is being written.
    JournalingPublishIntent,
    /// The install target is being probed.
    ProbingTarget,
    /// The staged package is being moved into place, or discarded.
    Publishing,
    /// The package-published journal entry is being written.
    JournalingPublished,
    /// The state-commit intent is being written.
    JournalingCommitIntent,
    /// The install has ended.
    Ended,
}

/// An install in progress: its stage and the plan it carries out.
pub struct InstallState {
    pub stage: InstallStage,
    pub plan: ExtensionPlanRecord,
}

/// What the last effect answered.
pub enum InstallEvent {
    /// Whether the journal holds the package-published phase.
    JournalChecked { published: bool },
    /// A package was inspected or extracted, or why it was refused.
    Inspected { package: Result<VerifiedExtensionPackage, PackageError> },
    /// The source's file identity, or `None` when it could not be read.
    IdentityRead { identity: Option<Vec<u8>> },
    /// The install target: absent, or its inspection.
    TargetProbed { existing: Option<Result<VerifiedExtensionPackage, PackageError>> },
    /// The effect completed.
    Done,
    /// The effect failed with this error.
    Failed { code: M6ErrorCode },
}

/// The next effect of an install.
#[derive(Clone, Copy, Debug)]
pub enum InstallAction {
    /// Ask the journal whether the package was published.
    CheckPublished,
    /// Inspect the package at the install target.
    InspectTarget,
    /// Read the source's file identity.
    ReadSourceIdentity,
    /// Write a journal entry for the plan.
    Journal { phase: ExtensionJournalPhase, state: ExtensionJournalState },
    /// Inspect the source archive.
    InspectSource,
    /// Extract the source archive into a fresh staging directory.
    Extract,
    /// Inspect the install target if it exists.
    ProbeTarget,
    /// Move the staged package to the install target.
    MoveIntoPlace,
    /// The target already holds the planned package: discard the staging.
    DiscardStaging,
    /// The install ended with this result.
    Finish { result: Result<(), M6ErrorCode> },
    /// The install has ended, or the answer did not fit the stage.
    Idle,
}

/// The state and effect an install begins with.
pub open spec fn install_started(plan: ExtensionPlanRecord) -> (InstallState, InstallAction) {
    (InstallState { stage: InstallStage::CheckingPublished, plan }, InstallAction::CheckPublished)
}

/// Moves an install to a stage with an effect.
pub open spec fn install_go(s: InstallState, stage: InstallStage, action: InstallAction) -> (InstallState, InstallAction) {
    (InstallState { stage, ..s }, action)
}

/// Ends an install with a result.
pub open spec fn install_finish(s: InstallState, result: Result<(), M6ErrorCode>) -> (InstallState, InstallAction) {
    install_go(s, InstallStage::Ended, InstallAction::Finish { result })
}

/// Checks an inspected package against the plan, then goes on.
pub open spec fn install_checked(
    s: InstallState,
    package: Result<VerifiedExtensionPackage, PackageError>,
    stage: InstallStage,
    action: InstallAction,
) -> (InstallState, InstallAction) {
    match package {
        Err(e) => install_finish(s, Err(m6_code_for_package(e.spec_code()))),
        Ok(p) => if plan_matches(s.plan.evidence, p) {
            install_go(s, stage, action)
        } else {
            install_finish(s, Err(M6ErrorCode::PlanStale))
        },
    }
}

/// Writes a journal entry.
pub open spec fn journal(phase: ExtensionJournalPhase, state: ExtensionJournalState) -> InstallAction {
    InstallAction::Journal { phase, state }
}

/// One step of an install: an install whose package was already published
/// only rechecks it and writes the commit intent; any other verifies the
/// source identity and archive, stages, publishes and journals each phase
/// in order.
pub open spec fn install_next(s: InstallState, e: InstallEvent) -> (InstallState, InstallAction) {
    let idle = (s, InstallAction::Idle);
    let commit_intent = journal(ExtensionJournalPhase::StateCommitIntent, ExtensionJournalState::Intent);
    if s.stage == InstallStage::Ended {
        idle
    } else {
        match e {
            InstallEvent::Failed { code } => install_finish(s, Err(code)),
            InstallEvent::JournalChecked { published } => if s.stage != InstallStage::CheckingPublished {
                idle
            } else if published {
                install_go(s, InstallStage::InspectingPublished, InstallAction::InspectTarget)
            } else {
                install_go(s, InstallStage::ReadingIdentity, InstallAction::ReadSourceIdentity)
            },
            InstallEvent::IdentityRead { identity } => if s.stage != InstallStage::ReadingIdentity {
                idle
            } else if identity matches Some(id) && id@ == s.plan.evidence.source_identity@ {
                install_go(
                    s,
                    InstallStage::JournalingSource,
                    journal(ExtensionJournalPhase::SourceVerified, ExtensionJournalState::Completed),
                )
            } else {
                install_finish(s, Err(M6ErrorCode::PlanStale))
            },
            InstallEvent::Inspected { package } => match s.stage {
                InstallStage::InspectingPublished => install_checked(
                    s,
                    package,
                    InstallStage::JournalingCommitIntent,
                    commit_intent,
                ),
                InstallStage::InspectingSource => install_checked(
                    s,
                    package,
                    InstallStage::JournalingArchive,
                    journal(ExtensionJournalPhase::ArchiveVerified, ExtensionJournalState::Completed),
                ),
                InstallStage::Extracting => install_checked(
                    s,
                    package,
                    InstallStage::JournalingStaging,
                    journal(ExtensionJournalPhase::StagingComplete, ExtensionJournalState::Completed),
                ),
                _ => idle,
            },
            InstallEvent::TargetProbed { existing } => if s.stage != InstallStage::ProbingTarget {
                idle
            } else {
                match existing {
                    None => install_go(s, InstallStage::Publishing, InstallAction::MoveIntoPlace),
                    Some(package) => install_checked(s, package, InstallStage::Publishing, InstallAction::DiscardStaging),
                }
            },
            InstallEvent::Done => match s.stage {
                InstallStage::JournalingSource => install_go(s, InstallStage::InspectingSource, InstallAction::InspectSource),
                InstallStage::JournalingArchive => install_go(s, InstallStage::Extracting, InstallAction::Extract),
                InstallStage::JournalingStaging => install_go(
                    s,
                    InstallStage::JournalingPublishIntent,
                    journal(ExtensionJournalPhase::PublishIntent, ExtensionJournalState::Intent),
                ),
                InstallStage::JournalingPublishIntent => install_go(s, InstallStage::ProbingTarget, InstallAction::ProbeTarget),
                InstallStage::Publishing => install_go(
                    s,
                    InstallStage::JournalingPublished,
                    journal(ExtensionJournalPhase::PackagePublished, ExtensionJournalState::Completed),
                ),
                InstallStage::JournalingPublished => install_go(s, InstallStage::JournalingCommitIntent, commit_intent),
                InstallStage::JournalingCommitIntent => install_finish(s, Ok(())),
                _ => idle,
            },
        }
    }
}

/// Begins the install of a plan.
pub fn install_start(plan: ExtensionPlanRecord) -> (r: (InstallState, InstallAction))
    ensures
        r == install_started(plan),
{
    (InstallState { stage: InstallStage::CheckingPublished, plan }, InstallAction::CheckPublished)
}

fn install_go_exec(s: InstallState, stage: InstallStage, action: InstallAction) -> (r: (InstallState, InstallAction))
    ensures
        r == install_go(s, stage, action),
{
    (InstallState { stage, ..s }, action)
}

fn install_checked_exec(
    s: InstallState,
    package: Result<VerifiedExtensionPackage, PackageError>,
    stage: InstallStage,
    action: InstallAction,
) -> (r: (InstallState, InstallAction))
    ensures
        r == install_checked(s, package, stage, action),
{
    match package {
        Err(e) => {
            let code = map_package_error(e).code();
            install_go_exec(s, InstallStage::Ended, InstallAction::Finish { result: Err(code) })
        },
        Ok(p) => if verify_plan(&s.plan, &p).is_ok() {
            install_go_exec(s, stage, action)
        } else {
            install_go_exec(s, InstallStage::Ended, InstallAction::Finish { result: Err(M6ErrorCode::PlanStale) })
        },
    }
}

/// One step of an install: from what the last effect answered to the
/// install's next state and effect.
pub fn install_step(s: InstallState, e: InstallEvent) -> (r: (InstallState, InstallAction))
    ensures
        r == install_next(s, e),
{
    let commit_intent = InstallAction::Journal {
        phase: ExtensionJournalPhase::StateCommitIntent,
        state: ExtensionJournalState::Intent,
    };
    if s.stage == InstallStage::Ended {
        return (s, InstallAction::Idle);
    }
    match e {
        InstallEvent::Failed { code } => install_go_exec(s, InstallStage::Ended, InstallAction::Finish { result: Err(code) }),
        InstallEvent::JournalChecked { published } => if s.stage != InstallStage::CheckingPublished {
            (s, InstallAction::Idle)
        } else if published {
            install_go_exec(s, InstallStage::InspectingPublished, InstallAction::InspectTarget)
        } else {
            install_go_exec(s, InstallStage::ReadingIdentity, InstallAction::ReadSourceIdentity)
        },
        InstallEvent::IdentityRead { identity } => {
            if s.stage != InstallStage::ReadingIdentity {
                return (s, InstallAction::Idle);
            }
            let same = match &identity {
                Some(id) => crate::unity::bytes_equal(id, &s.plan.evidence.source_identity),
                None => false,
            };
            if same {
                install_go_exec(
                    s,
                    InstallStage::JournalingSource,
                    InstallAction::Journal {
                        phase: ExtensionJournalPhase::SourceVerified,
                        state: ExtensionJournalState::Completed,
                    },
                )
            } else {
                install_go_exec(s, InstallStage::Ended, InstallAction::Finish { result: Err(M6ErrorCode::PlanStale) })
            }
        },
        InstallEvent::Inspected { package } => match s.stage {
            InstallStage::InspectingPublished => install_checked_exec(
                s,
                package,
                InstallStage::JournalingCommitIntent,
                commit_intent,
            ),
            InstallStage::InspectingSource => install_checked_exec(
                s,
                package,
                InstallStage::JournalingArchive,
                InstallAction::Journal {
                    phase: ExtensionJournalPhase::ArchiveVerified,
                    state: ExtensionJournalState::Completed,
                },
            ),
            InstallStage::Extracting => install_checked_exec(
                s,
                package,
                InstallStage::JournalingStaging,
                InstallAction::Journal {
                    phase: ExtensionJournalPhase::StagingComplete,
                    state: ExtensionJournalState::Completed,
                },
            ),
            _ => (s, InstallAction::Idle),
        },
        InstallEvent::TargetProbed { existing } => {
            if s.stage != InstallStage::ProbingTarget {
                return (s, InstallAction::Idle);
            }
            match existing {
                None => install_go_exec(s, InstallStage::Publishing, InstallAction::MoveIntoPlace),
                Some(package) => install_checked_exec(s, package, InstallStage::Publishing, InstallAction::DiscardStaging),
            }
        },
        InstallEvent::Done => match s.stage {
            InstallStage::JournalingSource => install_go_exec(s, InstallStage::InspectingSource, InstallAction::InspectSource),
            InstallStage::JournalingArchive => install_go_exec(s, InstallStage::Extracting, InstallAction::Extract),
            InstallStage::JournalingStaging => install_go_exec(
                s,
                InstallStage::JournalingPublishIntent,
                InstallAction::Journal { phase: ExtensionJournalPhase::PublishIntent, state: ExtensionJournalState::Intent },
            ),
            InstallStage::JournalingPublishIntent => install_go_exec(s, InstallStage::ProbingTarget, InstallAction::ProbeTarget),
            InstallStage::Publishing => install_go_exec(
                s,
                InstallStage::JournalingPublished,
                InstallAction::Journal {
                    phase: ExtensionJournalPhase::PackagePublished,
                    state: ExtensionJournalState::Completed,
                },
            ),
            InstallStage::JournalingPublished => install_go_exec(s, InstallStage::JournalingCommitIntent, commit_intent),
            InstallStage::JournalingCommitIntent => install_go_exec(
                s,
                InstallStage::Ended,
                InstallAction::Finish { result: Ok(()) },
            ),
            _ => (s, InstallAction::Idle),
        },
    }
}

/// An install publishes only after its publish intent, and writes the commit
/// intent only for a package it published or found already published.
pub proof fn install_publishes_only_after_intent(s: InstallState, e: InstallEvent)
    ensures
        (install_next(s, e).1 is MoveIntoPlace || install_next(s, e).1 is DiscardStaging) ==> s.stage
            == InstallStage::ProbingTarget,
        install_next(s, e).0.stage == InstallStage::JournalingCommitIntent && s.stage != InstallStage::JournalingCommitIntent
            ==> s.stage == InstallStage::InspectingPublished || s.stage == InstallStage::JournalingPublished,
{
}

} // verus!
