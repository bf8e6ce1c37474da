//! Bounded, side-effect-free candidate query orchestration as a state
//! machine: each step takes what the last read answered and names the next
//! read. Every effect it asks for reads; none writes.

use vstd::prelude::*;

use crate::access::{AccessContext, AccessView};
use crate::candidates::{
    authorize_candidate_query, check_cursor_query, check_request_size, check_page_size, check_snapshot, check_summaries,
    page_offset_and_limit, page_window, request_ok, revision_mismatch_error, snapshot_fingerprint_records,
    summaries_fit, take_window, validate_request, views_list, bool_text, sorted_copy_of, CandidateCursor,
    CandidateEvidence, CandidatePageItems, CandidateQueryError, CandidateSnapshot, CandidateStoreSnapshot,
    CandidateSummary, CandidateView, ConfigPackageSettings, ProjectCandidatePage, ProjectCandidateRequest,
    MAX_CANDIDATE_RECORDS,
};
use crate::ids::ProjectId;
use crate::uuids::uuid_parse;

verus! {

/// What the query waits for.
#[derive(Clone, Copy, Debug, PartialEq, Eq, Structural)]
pub enum CandidateQueryStage {
    /// The encoded request is being measured.
    Measuring,
    /// The query records are being fingerprinted.
    FingerprintingQuery,
    /// The package settings are being read.
    ReadingSettings,
    /// The project's candidate snapshot is being read.
    ReadingSnapshot,
    /// The snapshot records are being fingerprinted.
    FingerprintingSnapshot,
    /// The evidence engine is listing candidates.
    Gathering,
    /// The package settings are being read again.
    Rereading,
    /// Every read agreed: the page can be built.
    Ready,
    /// The query failed.
    Ended,
}

/// A candidate query in progress: the request, the caller's principal, and
/// what the reads so far answered.
pub struct CandidateQueryState {
    pub stage: CandidateQueryStage,
    pub request: ProjectCandidateRequest,
    pub principal: String,
    pub project_id: Option<ProjectId>,
    pub query_fingerprint: Option<String>,
    pub config: Option<(u64, ConfigPackageSettings)>,
    pub snapshot: Option<CandidateStoreSnapshot>,
    pub fingerprint: Option<String>,
    pub summaries: Option<Vec<CandidateSummary>>,
    pub versions: Option<Vec<CandidateEvidence>>,
    pub next_offset: Option<usize>,
}

/// What the last read answered.
pub enum CandidateQueryEvent {
    /// The encoded request length, or `None` when it does not encode.
    RequestMeasured { len: Option<usize> },
    /// The fingerprint of the query records.
    QueryFingerprinted { fingerprint: String },
    /// The settings revision and package settings, or `None` when they
    /// could not be read.
    SettingsRead { config: Option<(u64, ConfigPackageSettings)> },
    /// The store's snapshot of the project, or the store's error.
    SnapshotRead { snapshot: Result<CandidateStoreSnapshot, CandidateQueryError> },
    /// The fingerprint of the snapshot records.
    SnapshotFingerprinted { fingerprint: String },
    /// The summaries the evidence engine listed.
    Summarized { items: Vec<CandidateSummary> },
    /// The versions the evidence engine listed.
    VersionsListed { items: Vec<CandidateEvidence> },
}

/// The next read, or the end of the query.
#[derive(Clone, Copy, Debug, PartialEq, Eq, Structural)]
pub enum CandidateQueryAction {
    /// Measure the encoded request.
    MeasureRequest,
    /// Fingerprint the records `validate_request` gives for the request.
    FingerprintQuery,
    /// Read the package settings.
    ReadSettings,
    /// Read the project's snapshot for the packages `snapshot_package_ids` names.
    ReadSnapshot,
    /// Fingerprint the records `candidate_snapshot_records` gives.
    FingerprintSnapshot,
    /// List summaries for the request's packages and sources.
    Summarize,
    /// List the versions of the request's package.
    ListVersions,
    /// Read the package settings again.
    RereadSettings,
    /// Build the page with `candidate_page` and measure it.
    BuildPage,
    /// The query failed with this error.
    Fail { error: CandidateQueryError },
    /// The query is over, or the answer did not fit the stage.
    Idle,
}

/// Ends the query with an error.
pub open spec fn query_fail(s: CandidateQueryState, error: CandidateQueryError) -> (CandidateQueryState, CandidateQueryAction) {
    (CandidateQueryState { stage: CandidateQueryStage::Ended, ..s }, CandidateQueryAction::Fail { error })
}

/// Two settings reads agree: the same revision and the same package settings.
pub open spec fn config_same(a: (u64, ConfigPackageSettings), b: (u64, ConfigPackageSettings)) -> bool {
    &&& a.0 == b.0
    &&& a.1.show_prerelease == b.1.show_prerelease
    &&& a.1.hide_local_user_packages == b.1.hide_local_user_packages
    &&& views_list(a.1.hidden_repository_ids@) == views_list(b.1.hidden_repository_ids@)
}

/// Where the requested page starts.
pub open spec fn query_offset(r: ProjectCandidateRequest) -> usize {
    match r.cursor {
        Some(c) => c.offset,
        None => 0,
    }
}

/// How many records the requested page holds at most.
pub open spec fn query_limit(r: ProjectCandidateRequest) -> usize {
    match r.limit {
        Some(v) => v as usize,
        None => 64,
    }
}

/// A pinned or continued snapshot must be the current one.
pub open spec fn snapshot_current(r: ProjectCandidateRequest, fingerprint: Seq<char>) -> bool {
    &&& (r.expected_snapshot matches Some(v) ==> v@ == fingerprint)
    &&& (r.cursor matches Some(c) ==> c.snapshot_fingerprint@ == fingerprint)
}

/// The page window over `total` listed records, once the listing is stored.
pub open spec fn query_window(s: CandidateQueryState, total: nat) -> (CandidateQueryState, CandidateQueryAction) {
    let offset = query_offset(s.request);
    let limit = query_limit(s.request);
    if offset > MAX_CANDIDATE_RECORDS || limit > 128 {
        (s, CandidateQueryAction::Idle)
    } else if total > MAX_CANDIDATE_RECORDS {
        query_fail(s, CandidateQueryError::LimitExceeded)
    } else if offset > total || (offset == total && offset != 0) {
        query_fail(s, CandidateQueryError::InvalidInput)
    } else {
        (
            CandidateQueryState {
                stage: CandidateQueryStage::Rereading,
                next_offset: if offset + limit < total { Some((offset + limit) as usize) } else { None },
                ..s
            },
            CandidateQueryAction::RereadSettings,
        )
    }
}

/// A query that begins: the caller needs the read permissions and access to
/// the project, the project identifier must parse, and the request is
/// measured first.
pub open spec fn candidate_query_started(
    access: AccessView,
    request: ProjectCandidateRequest,
    principal: String,
    project_id: Option<ProjectId>,
) -> (
    CandidateQueryState,
    CandidateQueryAction,
) {
    let s = CandidateQueryState {
        stage: CandidateQueryStage::Measuring,
        request,
        principal,
        project_id: None,
        query_fingerprint: None,
        config: None,
        snapshot: None,
        fingerprint: None,
        summaries: None,
        versions: None,
        next_offset: None,
    };
    if !(access.permissions.contains(crate::domain::Permission::ProjectsRead) && access.permissions.contains(
        crate::domain::Permission::RepositoriesRead,
    ) && access.permissions.contains(crate::domain::Permission::PackagesRead) && access.permissions.contains(
        crate::domain::Permission::SettingsRead,
    ) && crate::access::scope_admits(access.project_scopes, request.project_id@)) {
        query_fail(s, CandidateQueryError::PermissionDenied)
    } else if uuid_parse(request.project_id@) is None {
        query_fail(s, CandidateQueryError::InvalidInput)
    } else {
        (
            CandidateQueryState { project_id, ..s },
            CandidateQueryAction::MeasureRequest,
        )
    }
}

/// One step of a candidate query.
pub open spec fn candidate_query_next(s: CandidateQueryState, e: CandidateQueryEvent) -> (
    CandidateQueryState,
    CandidateQueryAction,
) {
    let idle = (s, CandidateQueryAction::Idle);
    match e {
        CandidateQueryEvent::RequestMeasured { len } => if s.stage != CandidateQueryStage::Measuring {
            idle
        } else if !(len matches Some(n) && n <= 65536) {
            query_fail(s, CandidateQueryError::LimitExceeded)
        } else if !request_ok(s.request) {
            query_fail(s, CandidateQueryError::InvalidInput)
        } else {
            (
                CandidateQueryState { stage: CandidateQueryStage::FingerprintingQuery, ..s },
                CandidateQueryAction::FingerprintQuery,
            )
        },
        CandidateQueryEvent::QueryFingerprinted { fingerprint } => if s.stage != CandidateQueryStage::FingerprintingQuery {
            idle
        } else if s.request.cursor matches Some(c) && c.query_fingerprint@ != fingerprint@ {
            query_fail(s, CandidateQueryError::InvalidInput)
        } else {
            (
                CandidateQueryState {
                    stage: CandidateQueryStage::ReadingSettings,
                    query_fingerprint: Some(fingerprint),
                    ..s
                },
                CandidateQueryAction::ReadSettings,
            )
        },
        CandidateQueryEvent::SettingsRead { config } => if s.stage == CandidateQueryStage::ReadingSettings {
            match config {
                None => query_fail(s, CandidateQueryError::Unavailable),
                Some(c) => (
                    CandidateQueryState { stage: CandidateQueryStage::ReadingSnapshot, config: Some(c), ..s },
                    CandidateQueryAction::ReadSnapshot,
                ),
            }
        } else if s.stage == CandidateQueryStage::Rereading {
            match (config, s.config) {
                (None, _) => query_fail(s, CandidateQueryError::Unavailable),
                (Some(c), Some(first)) => if config_same(c, first) {
                    (CandidateQueryState { stage: CandidateQueryStage::Ready, ..s }, CandidateQueryAction::BuildPage)
                } else {
                    query_fail(s, CandidateQueryError::EvidenceStale)
                },
                (Some(_), None) => idle,
            }
        } else {
            idle
        },
        CandidateQueryEvent::SnapshotRead { snapshot } => if s.stage != CandidateQueryStage::ReadingSnapshot {
            idle
        } else {
            match snapshot {
                Err(error) => query_fail(s, error),
                Ok(snap) => if snap.project.revision@ != s.request.expected_revision {
                    query_fail(
                        s,
                        if s.request.cursor is Some || s.request.expected_snapshot is Some {
                            CandidateQueryError::EvidenceStale
                        } else {
                            CandidateQueryError::RevisionConflict
                        },
                    )
                } else {
                    (
                        CandidateQueryState {
                            stage: CandidateQueryStage::FingerprintingSnapshot,
                            snapshot: Some(snap),
                            ..s
                        },
                        CandidateQueryAction::FingerprintSnapshot,
                    )
                },
            }
        },
        CandidateQueryEvent::SnapshotFingerprinted { fingerprint } => if s.stage
            != CandidateQueryStage::FingerprintingSnapshot {
            idle
        } else if !snapshot_current(s.request, fingerprint@) {
            query_fail(s, CandidateQueryError::EvidenceStale)
        } else {
            (
                CandidateQueryState { stage: CandidateQueryStage::Gathering, fingerprint: Some(fingerprint), ..s },
                match s.request.view {
                    CandidateView::Summary { .. } => CandidateQueryAction::Summarize,
                    CandidateView::Versions { .. } => CandidateQueryAction::ListVersions,
                },
            )
        },
        CandidateQueryEvent::Summarized { items } => if s.stage != CandidateQueryStage::Gathering
            || !(s.request.view is Summary) {
            idle
        } else if !summaries_fit(items@) {
            query_fail(s, CandidateQueryError::LimitExceeded)
        } else {
            query_window(CandidateQueryState { summaries: Some(items), ..s }, items@.len())
        },
        CandidateQueryEvent::VersionsListed { items } => if s.stage != CandidateQueryStage::Gathering
            || !(s.request.view is Versions) {
            idle
        } else {
            query_window(CandidateQueryState { versions: Some(items), ..s }, items@.len())
        },
    }
}

fn fail_exec(s: CandidateQueryState, error: CandidateQueryError) -> (r: (CandidateQueryState, CandidateQueryAction))
    ensures
        r == query_fail(s, error),
{
    (CandidateQueryState { stage: CandidateQueryStage::Ended, ..s }, CandidateQueryAction::Fail { error })
}

fn window_exec(s: CandidateQueryState, total: usize) -> (r: (CandidateQueryState, CandidateQueryAction))
    ensures
        r == query_window(s, total as nat),
{
    let (offset, limit) = page_offset_and_limit(&s.request);
    if offset > MAX_CANDIDATE_RECORDS || limit > 128 {
        return (s, CandidateQueryAction::Idle);
    }
    match page_window(offset, limit, total) {
        Err(error) => fail_exec(s, error),
        Ok(next_offset) => (
            CandidateQueryState { stage: CandidateQueryStage::Rereading, next_offset, ..s },
            CandidateQueryAction::RereadSettings,
        ),
    }
}

fn texts_same(a: &Vec<String>, b: &Vec<String>) -> (r: bool)
    ensures
        r == (views_list(a@) == views_list(b@)),
{
    if a.len() != b.len() {
        proof {
            assert(views_list(a@).len() != views_list(b@).len());
        }
        return false;
    }
    let mut i: usize = 0;
    while i < a.len()
        invariant
            a@.len() == b@.len(),
            i <= a@.len(),
            forall|k: int| 0 <= k < i ==> a@[k]@ == b@[k]@,
        decreases a@.len() - i,
    {
        if !crate::text::str_eq(a[i].as_str(), b[i].as_str()) {
            proof {
                assert(views_list(a@)[i as int] != views_list(b@)[i as int]);
            }
            return false;
        }
        i = i + 1;
    }
    proof {
        assert(views_list(a@) =~= views_list(b@));
    }
    true
}

fn config_equal(a: &(u64, ConfigPackageSettings), b: &(u64, ConfigPackageSettings)) -> (r: bool)
    ensures
        r == config_same(*a, *b),
{
    a.0 == b.0 && a.1.show_prerelease == b.1.show_prerelease && a.1.hide_local_user_packages
        == b.1.hide_local_user_packages && texts_same(&a.1.hidden_repository_ids, &b.1.hidden_repository_ids)
}

/// Begins a candidate query for a caller.
pub fn candidate_query_start(access: &AccessContext, request: ProjectCandidateRequest) -> (r: (
    CandidateQueryState,
    CandidateQueryAction,
))
    ensures
        r == candidate_query_started(access@, request, r.0.principal, r.0.project_id),
        r.0.principal@ == access@.principal,
        r.1 is MeasureRequest ==> (r.0.project_id matches Some(id) && id@ == uuid_parse(request.project_id@)->0),
{
    let principal = access.principal().as_str().to_owned();
    let authorized = authorize_candidate_query(access, request.project_id.as_str());
    let parsed = ProjectId::parse(request.project_id.as_str());
    let s = CandidateQueryState {
        stage: CandidateQueryStage::Measuring,
        request,
        principal,
        project_id: None,
        query_fingerprint: None,
        config: None,
        snapshot: None,
        fingerprint: None,
        summaries: None,
        versions: None,
        next_offset: None,
    };
    if authorized.is_err() {
        return fail_exec(s, CandidateQueryError::PermissionDenied);
    }
    match parsed {
        Err(_) => fail_exec(s, CandidateQueryError::InvalidInput),
        Ok(id) => (CandidateQueryState { project_id: Some(id), ..s }, CandidateQueryAction::MeasureRequest),
    }
}

/// One step of a candidate query: from what the last read answered to the
/// query's next state and read.
pub fn candidate_query_step(s: CandidateQueryState, e: CandidateQueryEvent) -> (r: (
    CandidateQueryState,
    CandidateQueryAction,
))
    ensures
        r == candidate_query_next(s, e),
{
    match e {
        CandidateQueryEvent::RequestMeasured { len } => {
            if s.stage != CandidateQueryStage::Measuring {
                return (s, CandidateQueryAction::Idle);
            }
            if check_request_size(len).is_err() {
                return fail_exec(s, CandidateQueryError::LimitExceeded);
            }
            if validate_request(&s.request).is_err() {
                return fail_exec(s, CandidateQueryError::InvalidInput);
            }
            (
                CandidateQueryState { stage: CandidateQueryStage::FingerprintingQuery, ..s },
                CandidateQueryAction::FingerprintQuery,
            )
        },
        CandidateQueryEvent::QueryFingerprinted { fingerprint } => {
            if s.stage != CandidateQueryStage::FingerprintingQuery {
                return (s, CandidateQueryAction::Idle);
            }
            if check_cursor_query(&s.request, fingerprint.as_str()).is_err() {
                return fail_exec(s, CandidateQueryError::InvalidInput);
            }
            (
                CandidateQueryState {
                    stage: CandidateQueryStage::ReadingSettings,
                    query_fingerprint: Some(fingerprint),
                    ..s
                },
                CandidateQueryAction::ReadSettings,
            )
        },
        CandidateQueryEvent::SettingsRead { config } => {
            if s.stage == CandidateQueryStage::ReadingSettings {
                match config {
                    None => fail_exec(s, CandidateQueryError::Unavailable),
                    Some(c) => (
                        CandidateQueryState { stage: CandidateQueryStage::ReadingSnapshot, config: Some(c), ..s },
                        CandidateQueryAction::ReadSnapshot,
                    ),
                }
            } else if s.stage == CandidateQueryStage::Rereading {
                match config {
                    None => fail_exec(s, CandidateQueryError::Unavailable),
                    Some(c) => {
                        let same = match &s.config {
                            Some(first) => Some(config_equal(&c, first)),
                            None => None,
                        };
                        match same {
                            None => (s, CandidateQueryAction::Idle),
                            Some(true) => (
                                CandidateQueryState { stage: CandidateQueryStage::Ready, ..s },
                                CandidateQueryAction::BuildPage,
                            ),
                            Some(false) => fail_exec(s, CandidateQueryError::EvidenceStale),
                        }
                    },
                }
            } else {
                (s, CandidateQueryAction::Idle)
            }
        },
        CandidateQueryEvent::SnapshotRead { snapshot } => {
            if s.stage != CandidateQueryStage::ReadingSnapshot {
                return (s, CandidateQueryAction::Idle);
            }
            match snapshot {
                Err(error) => fail_exec(s, error),
                Ok(snap) => {
                    if snap.project.revision.get() != s.request.expected_revision {
                        let error = revision_mismatch_error(&s.request);
                        fail_exec(s, error)
                    } else {
                        (
                            CandidateQueryState {
                                stage: CandidateQueryStage::FingerprintingSnapshot,
                                snapshot: Some(snap),
                                ..s
                            },
                            CandidateQueryAction::FingerprintSnapshot,
                        )
                    }
                },
            }
        },
        CandidateQueryEvent::SnapshotFingerprinted { fingerprint } => {
            if s.stage != CandidateQueryStage::FingerprintingSnapshot {
                return (s, CandidateQueryAction::Idle);
            }
            if check_snapshot(&s.request, fingerprint.as_str()).is_err() {
                return fail_exec(s, CandidateQueryError::EvidenceStale);
            }
            let action = match &s.request.view {
                CandidateView::Summary { .. } => CandidateQueryAction::Summarize,
                CandidateView::Versions { .. } => CandidateQueryAction::ListVersions,
            };
            (CandidateQueryState { stage: CandidateQueryStage::Gathering, fingerprint: Some(fingerprint), ..s }, action)
        },
        CandidateQueryEvent::Summarized { items } => {
            let summary = match &s.request.view {
                CandidateView::Summary { .. } => true,
                CandidateView::Versions { .. } => false,
            };
            if s.stage != CandidateQueryStage::Gathering || !summary {
                return (s, CandidateQueryAction::Idle);
            }
            if check_summaries(&items).is_err() {
                return fail_exec(s, CandidateQueryError::LimitExceeded);
            }
            let total = items.len();
            window_exec(CandidateQueryState { summaries: Some(items), ..s }, total)
        },
        CandidateQueryEvent::VersionsListed { items } => {
            let versions = match &s.request.view {
                CandidateView::Summary { .. } => false,
                CandidateView::Versions { .. } => true,
            };
            if s.stage != CandidateQueryStage::Gathering || !versions {
                return (s, CandidateQueryAction::Idle);
            }
            let total = items.len();
            window_exec(CandidateQueryState { versions: Some(items), ..s }, total)
        },
    }
}


/// The records a snapshot fingerprint covers, once the settings and the
/// snapshot have been read: the store's records, the principal, the settings
/// revision, the two display switches and the hidden repositories in byte
/// order.
pub fn candidate_snapshot_records(s: &CandidateQueryState) -> (r: Option<Vec<String>>)
    ensures
        r is Some <==> s.config is Some && s.snapshot is Some,
        r matches Some(v) ==> {
            let records = s.snapshot->0.fingerprint_records;
            let config = s.config->0;
            &&& views_list(v@).len() == records@.len() + 4 + config.1.hidden_repository_ids@.len()
            &&& views_list(v@).take(records@.len() + 4int) == views_list(records@) + seq![
                s.principal@,
                crate::text::decimal_text(config.0 as nat),
                bool_text(config.1.show_prerelease),
                bool_text(config.1.hide_local_user_packages),
            ]
            &&& sorted_copy_of(
                views_list(v@).skip(records@.len() + 4int),
                views_list(config.1.hidden_repository_ids@),
            )
        },
{
    match (&s.config, &s.snapshot) {
        (Some(config), Some(snapshot)) => Some(
            snapshot_fingerprint_records(
                &snapshot.fingerprint_records,
                s.principal.as_str(),
                config.0,
                config.1.show_prerelease,
                config.1.hide_local_user_packages,
                &config.1.hidden_repository_ids,
            ),
        ),
        _ => None,
    }
}

/// The records of the requested window of a listing of `len` records.
pub open spec fn window_bounds(r: ProjectCandidateRequest, len: nat) -> (int, int) {
    let offset = query_offset(r);
    let end = offset + query_limit(r);
    (if offset < len { offset as int } else { len as int }, if end < len { end as int } else { len as int })
}

/// Whether a query is ready for its page: every read agreed and the
/// listing the view asks for is stored.
pub open spec fn page_ready(s: CandidateQueryState) -> bool {
    &&& s.stage == CandidateQueryStage::Ready
    &&& s.config is Some
    &&& s.snapshot is Some
    &&& s.fingerprint is Some
    &&& s.query_fingerprint is Some
    &&& query_offset(s.request) <= MAX_CANDIDATE_RECORDS
    &&& query_limit(s.request) <= 128
    &&& match s.request.view {
        CandidateView::Summary { .. } => s.summaries is Some,
        CandidateView::Versions { .. } => s.versions is Some,
    }
}

/// The page of a ready query: the project, the snapshot it was read from,
/// the display switch, the catalog state, the requested window of the
/// listing, and a cursor to the rest when records remain.
pub fn candidate_page(s: CandidateQueryState) -> (r: Option<ProjectCandidatePage>)
    ensures
        r is Some <==> page_ready(s),
        r matches Some(p) ==> {
            &&& p.project_id == s.request.project_id
            &&& p.snapshot == (CandidateSnapshot {
                fingerprint: s.fingerprint->0,
                project_revision: s.request.expected_revision,
                config_revision: (s.config->0).0,
            })
            &&& p.show_prerelease == (s.config->0).1.show_prerelease
            &&& p.catalog_complete == s.snapshot->0.catalog_complete
            &&& p.next_cursor == match s.next_offset {
                Some(o) => Some(
                    CandidateCursor {
                        snapshot_fingerprint: s.fingerprint->0,
                        query_fingerprint: s.query_fingerprint->0,
                        offset: o,
                    },
                ),
                None => None,
            }
            &&& match s.request.view {
                CandidateView::Summary { .. } => p.page matches CandidatePageItems::Summary { items } && items@
                    == s.summaries->0@.subrange(
                    window_bounds(s.request, s.summaries->0@.len()).0,
                    window_bounds(s.request, s.summaries->0@.len()).1,
                ),
                CandidateView::Versions { package_id, .. } => p.page matches CandidatePageItems::Versions {
                    package_id: id,
                    items,
                } && id == package_id && items@ == s.versions->0@.subrange(
                    window_bounds(s.request, s.versions->0@.len()).0,
                    window_bounds(s.request, s.versions->0@.len()).1,
                ),
            }
        },
{
    let (offset, limit) = page_offset_and_limit(&s.request);
    let summary_view = match &s.request.view {
        CandidateView::Summary { .. } => true,
        CandidateView::Versions { .. } => false,
    };
    if s.stage != CandidateQueryStage::Ready || s.config.is_none() || s.snapshot.is_none() || s.fingerprint.is_none()
        || s.query_fingerprint.is_none() || offset > MAX_CANDIDATE_RECORDS || limit > 128 || (summary_view
        && s.summaries.is_none()) || (!summary_view && s.versions.is_none()) {
        return None;
    }
    let CandidateQueryState { request, config, snapshot, fingerprint, query_fingerprint, summaries, versions, next_offset, .. } = s;
    let config = config.unwrap();
    let snapshot = snapshot.unwrap();
    let fingerprint = fingerprint.unwrap();
    let query_fingerprint = query_fingerprint.unwrap();
    let page = match request.view {
        CandidateView::Summary { .. } => CandidatePageItems::Summary {
            items: take_window(summaries.unwrap(), offset, limit),
        },
        CandidateView::Versions { package_id, .. } => CandidatePageItems::Versions {
            package_id,
            items: take_window(versions.unwrap(), offset, limit),
        },
    };
    let next_cursor = match next_offset {
        Some(o) => Some(CandidateCursor { snapshot_fingerprint: fingerprint.clone(), query_fingerprint, offset: o }),
        None => None,
    };
    Some(
        ProjectCandidatePage {
            project_id: request.project_id,
            snapshot: CandidateSnapshot {
                fingerprint,
                project_revision: request.expected_revision,
                config_revision: config.0,
            },
            show_prerelease: config.1.show_prerelease,
            catalog_complete: snapshot.catalog_complete,
            page,
            next_cursor,
        },
    )
}

/// Ends a query with its page when the page's encoding fits in 1 MiB.
pub fn candidate_query_finish(page: ProjectCandidatePage, encoded_len: Option<usize>) -> (r: Result<
    ProjectCandidatePage,
    CandidateQueryError,
>)
    ensures
        r is Ok <==> (encoded_len matches Some(n) && n <= 1048576),
        r matches Ok(p) ==> p == page,
        r matches Err(e) ==> e == CandidateQueryError::LimitExceeded,
{
    match check_page_size(encoded_len) {
        Ok(()) => Ok(page),
        Err(e) => Err(e),
    }
}


/// A query builds its page only when the second settings read agrees with
/// the first, after the snapshot matched what the request pinned or
/// continued and the listing fit the page window.
pub proof fn candidate_pages_rest_on_agreeing_reads(s: CandidateQueryState, e: CandidateQueryEvent)
    ensures
        candidate_query_next(s, e).1 is BuildPage ==> s.stage == CandidateQueryStage::Rereading && (
        e matches CandidateQueryEvent::SettingsRead { config: Some(c) } && s.config matches Some(first)
            && config_same(c, first)),
        candidate_query_next(s, e).1 is Summarize || candidate_query_next(s, e).1 is ListVersions
            ==> s.stage == CandidateQueryStage::FingerprintingSnapshot && (
        e matches CandidateQueryEvent::SnapshotFingerprinted { fingerprint } && snapshot_current(
            s.request,
            fingerprint@,
        )),
{
}


/// A listing's page window: once a listing of `total` records is accepted,
/// the query continues exactly when records remain after the page. A next
/// cursor then points at the end of this page, which lies inside the
/// listing; without one, the page reaches the listing's end.
pub proof fn candidate_next_cursor_lies_inside_the_listing(s: CandidateQueryState, e: CandidateQueryEvent)
    ensures
        ({
            let r = candidate_query_next(s, e);
            let offset = query_offset(s.request) as int;
            let limit = query_limit(s.request) as int;
            let total: int = match e {
                CandidateQueryEvent::Summarized { items } => items@.len() as int,
                CandidateQueryEvent::VersionsListed { items } => items@.len() as int,
                _ => 0,
            };
            (s.stage == CandidateQueryStage::Gathering && r.0.stage == CandidateQueryStage::Rereading) ==> {
                &&& (e is Summarized || e is VersionsListed)
                &&& offset <= total
                &&& (r.0.next_offset matches Some(o) ==> o == offset + limit && o < total)
                &&& (r.0.next_offset is None ==> total <= offset + limit)
            }
        }),
{
}


/// A versions listing that the window cannot page is refused: more records
/// than the bound is `limit_exceeded`, and a continuation that starts past
/// the end, or at the end of a non-empty listing, is `invalid_input`.
pub proof fn candidate_windows_outside_the_listing_fail(s: CandidateQueryState, items: Vec<CandidateEvidence>)
    requires
        s.stage == CandidateQueryStage::Gathering,
        s.request.view is Versions,
        query_offset(s.request) <= MAX_CANDIDATE_RECORDS,
        query_limit(s.request) <= 128,
    ensures
        items@.len() > MAX_CANDIDATE_RECORDS ==> candidate_query_next(s, CandidateQueryEvent::VersionsListed { items }).1
            == (CandidateQueryAction::Fail { error: CandidateQueryError::LimitExceeded }),
        items@.len() <= MAX_CANDIDATE_RECORDS && (query_offset(s.request) > items@.len() || (query_offset(s.request)
            == items@.len() && items@.len() != 0)) ==> candidate_query_next(
            s,
            CandidateQueryEvent::VersionsListed { items },
        ).1 == (CandidateQueryAction::Fail { error: CandidateQueryError::InvalidInput }),
{
}

} // verus!
