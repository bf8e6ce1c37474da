//! Project candidate queries: request validation, the canonical query
//! records a cursor is bound to, and page slicing.

use vstd::prelude::*;
use vstd::string::StringExecFns;
use vstd::string::StringSliceAdditionalSpecFns;

use crate::access::AccessContext;
use crate::domain::Permission;
use crate::ids::RepositoryId;
use crate::order::{lex_lt, strictly_sorted};
use crate::registry::{ProjectObservation, ProjectRecord};
use crate::text::is_ascii_alnum;

verus! {

/// Most candidate records one query may produce.
pub const MAX_CANDIDATE_RECORDS: usize = 100_000;

/// Most package sources a snapshot may hold.
pub const MAX_CANDIDATE_SOURCES: usize = 4_096;

/// Where a package version comes from.
#[derive(Clone, Debug, PartialEq, Eq)]
pub enum PackageSourceSelector {
    Repository { repository_id: String },
    UserPackage { user_package_id: String },
}

/// Package listing preferences that candidate evidence honours.
#[derive(Clone, Debug, PartialEq, Eq)]
pub struct ConfigPackageSettings {
    pub show_prerelease: bool,
    pub hide_local_user_packages: bool,
    pub hidden_repository_ids: Vec<String>,
}

#[derive(Clone, Debug, PartialEq, Eq)]
pub struct ProjectCandidateRequest {
    pub project_id: String,
    pub expected_revision: u64,
    pub view: CandidateView,
    pub limit: Option<u32>,
    pub expected_snapshot: Option<String>,
    pub cursor: Option<CandidateCursor>,
}

#[derive(Clone, Debug, PartialEq, Eq)]
pub enum CandidateView {
    Summary {
        package_ids: Option<Vec<String>>,
        sources: Option<Vec<CandidateSourceOverride>>,
    },
    Versions {
        package_id: String,
        source: Option<PackageSourceSelector>,
    },
}

#[derive(Clone, Debug, PartialEq, Eq)]
pub struct CandidateCursor {
    pub snapshot_fingerprint: String,
    pub query_fingerprint: String,
    pub offset: usize,
}

#[derive(Clone, Debug, PartialEq, Eq)]
pub struct CandidateSnapshot {
    pub fingerprint: String,
    pub project_revision: u64,
    pub config_revision: u64,
}

#[derive(Clone, Debug, PartialEq, Eq)]
pub enum CandidatePageItems {
    Summary {
        items: Vec<CandidateSummary>,
    },
    Versions {
        package_id: String,
        items: Vec<CandidateEvidence>,
    },
}

#[derive(Clone, Debug, PartialEq, Eq)]
pub struct ProjectCandidatePage {
    pub project_id: String,
    pub snapshot: CandidateSnapshot,
    pub show_prerelease: bool,
    pub catalog_complete: bool,
    pub page: CandidatePageItems,
    pub next_cursor: Option<CandidateCursor>,
}

#[derive(Clone, Copy, Debug, PartialEq, Eq, Structural)]
pub enum CandidateQueryError {
    InvalidInput,
    PermissionDenied,
    ProjectNotRegistered,
    ProjectManifestInvalid,
    RevisionConflict,
    EvidenceStale,
    LimitExceeded,
    Unavailable,
}

#[derive(Clone, Debug, PartialEq, Eq)]
pub struct CandidateStoreSnapshot {
    pub project: ProjectRecord,
    pub entries: Vec<CandidateCatalogEntry>,
    pub fingerprint_records: Vec<String>,
    pub catalog_complete: bool,
}

/// A registered observation, including entries not ready for the resolver.
#[derive(Clone, Debug, PartialEq, Eq)]
pub struct CandidateCatalogEntry {
    pub package_id: String,
    pub version: String,
    pub source: PackageSourceSelector,
    pub source_revision: u64,
    pub priority: u64,
    pub yanked: bool,
    pub unity: Option<String>,
    pub metadata_ready: bool,
    pub legacy_metadata_present: bool,
}

#[derive(Clone, Debug, PartialEq, Eq)]
pub struct CandidateEvidenceInput {
    pub project: ProjectObservation,
    pub entries: Vec<CandidateCatalogEntry>,
    pub settings: ConfigPackageSettings,
}

#[derive(Clone, Copy, Debug, PartialEq, Eq, Structural)]
pub enum CandidateClassification {
    Stable,
    Prerelease,
    Unknown,
}

#[derive(Clone, Copy, Debug, PartialEq, Eq, Structural)]
pub enum CandidateRelation {
    NotInstalled,
    Newer,
    SamePrecedence,
    Older,
    Unknown,
}

#[derive(Clone, Copy, Debug, PartialEq, Eq, Structural)]
pub enum CandidateUnity {
    NotRequired,
    Compatible,
    Incompatible,
    Unknown,
}

#[derive(Clone, Copy, Debug, PartialEq, Eq, Structural)]
pub enum CandidateEligibility {
    Eligible,
    Blocked,
    Unknown,
}

/// Declaration order is the frozen order of independently applicable reasons.
#[derive(Clone, Copy, Debug, PartialEq, Eq, PartialOrd, Ord, Structural)]
pub enum CandidateReason {
    NoVisibleCandidate,
    SourceUnavailable,
    AllYanked,
    PrereleaseExcluded,
    StableUnavailable,
    UnityIncompatible,
    ProjectUnityUnknown,
    CatalogIncomplete,
    MetadataInvalid,
    ClassificationUnknown,
    InstalledEvidenceUnknown,
    LegacyMetadata,
    SourceAmbiguous,
}

#[derive(Clone, Debug, PartialEq, Eq)]
pub enum CandidateInstalled {
    Absent,
    Locked { version: String },
    Unknown { reason: CandidateReason },
}

#[derive(Clone, Debug, PartialEq, Eq)]
pub struct CandidateEvidence {
    pub version: String,
    pub source: PackageSourceSelector,
    pub source_revision: u64,
    pub classification: CandidateClassification,
    pub relation: CandidateRelation,
    pub unity: CandidateUnity,
    pub eligibility: CandidateEligibility,
    pub reasons: Vec<CandidateReason>,
}

#[derive(Clone, Debug, PartialEq, Eq)]
pub enum CandidateChoice {
    Candidate { candidate: CandidateEvidence },
    NoCandidate { reasons: Vec<CandidateReason> },
    Unknown { reasons: Vec<CandidateReason> },
    Ambiguous { reason: CandidateReason },
}

#[derive(Clone, Copy, Debug, PartialEq, Eq, Structural)]
pub enum CandidateNoUpdateReason {
    SamePrecedence,
    InstalledNewer,
    NotInstalled,
}

#[derive(Clone, Debug, PartialEq, Eq)]
pub enum CandidateUpdate {
    Target { candidate: CandidateEvidence },
    NoUpdate { reason: CandidateNoUpdateReason },
    Unavailable { reasons: Vec<CandidateReason> },
}

#[derive(Clone, Debug, PartialEq, Eq)]
pub struct CandidateProvider {
    pub source: PackageSourceSelector,
    pub source_revision: u64,
}

#[derive(Clone, Debug, PartialEq, Eq)]
pub struct CandidateSummary {
    pub package_id: String,
    pub providers: Vec<CandidateProvider>,
    pub direct: bool,
    pub installed: CandidateInstalled,
    pub latest: CandidateChoice,
    pub latest_stable: CandidateChoice,
    pub project_latest: CandidateChoice,
    pub project_latest_stable: CandidateChoice,
    pub update: CandidateUpdate,
    pub stable_update: CandidateUpdate,
}

#[derive(Clone, Debug, PartialEq, Eq)]
pub struct CandidateSourceOverride {
    pub package_id: String,
    pub source: PackageSourceSelector,
}


/// The UTF-8 bytes of a string value.
pub open spec fn tb(s: String) -> Seq<u8> {
    vstd::utf8::encode_utf8(s@)
}

/// The byte texts of a list of strings.
pub open spec fn bytes_list(v: Seq<String>) -> Seq<Seq<u8>> {
    v.map_values(|s: String| tb(s))
}

/// The character texts of a list of strings.
pub open spec fn views_list(v: Seq<String>) -> Seq<Seq<char>> {
    v.map_values(|s: String| s@)
}

proof fn lemma_tb_injective(a: String, b: String)
    ensures
        (tb(a) == tb(b)) <==> (a@ == b@),
{
    vstd::utf8::encode_utf8_decode_utf8(a@);
    vstd::utf8::encode_utf8_decode_utf8(b@);
}

/// A package identifier: 1 to 128 bytes, ASCII letters, digits, `.`, `-`
/// and `_`, starting with a letter or digit.
pub open spec fn package_id_ok(b: Seq<u8>) -> bool {
    &&& 0 < b.len() <= 128
    &&& is_ascii_alnum(b[0])
    &&& forall|i: int|
        0 <= i < b.len() ==> is_ascii_alnum(#[trigger] b[i]) || b[i] == 0x2e || b[i] == 0x2d || b[i] == 0x5f
}

/// Checks a package identifier.
pub fn package_valid(id: &str) -> (r: bool)
    ensures
        r == package_id_ok(id.spec_bytes()),
{
    let b = id.as_bytes();
    if b.len() == 0 || b.len() > 128 {
        return false;
    }
    let first = b[0];
    if !((0x61 <= first && first <= 0x7a) || (0x41 <= first && first <= 0x5a) || (0x30 <= first && first <= 0x39)) {
        return false;
    }
    let mut i: usize = 0;
    while i < b.len()
        invariant
            b@ == id.spec_bytes(),
            0 < b@.len() <= 128,
            is_ascii_alnum(b@[0]),
            i <= b@.len(),
            forall|k: int|
                0 <= k < i ==> is_ascii_alnum(#[trigger] b@[k]) || b@[k] == 0x2e || b@[k] == 0x2d || b@[k] == 0x5f,
        decreases b@.len() - i,
    {
        let c = b[i];
        if !((0x61 <= c && c <= 0x7a) || (0x41 <= c && c <= 0x5a) || (0x30 <= c && c <= 0x39) || c == 0x2e
            || c == 0x2d || c == 0x5f) {
            assert(!(is_ascii_alnum(b@[i as int]) || b@[i as int] == 0x2e || b@[i as int] == 0x2d || b@[i as int] == 0x5f));
            return false;
        }
        i = i + 1;
    }
    true
}

/// Checks a lowercase hexadecimal digest.
pub fn digest_valid(value: &str) -> (r: bool)
    ensures
        r == crate::text::is_sha256_hex(value.spec_bytes()),
{
    crate::text::sha256_from_hex(value).is_some()
}

/// The canonical key of a package source: `repository:<id>` for a valid
/// repository identifier, `user_package:<id>` for a user package.
pub open spec fn source_key_text(s: PackageSourceSelector) -> Option<Seq<char>> {
    match s {
        PackageSourceSelector::Repository { repository_id } => if crate::uuids::uuid_parse(repository_id@) is Some {
            Some("repository:"@ + repository_id@)
        } else {
            None
        },
        PackageSourceSelector::UserPackage { user_package_id } => Some("user_package:"@ + user_package_id@),
    }
}

/// Builds the canonical key of a package source.
pub fn source_key(source: &PackageSourceSelector) -> (r: Result<String, CandidateQueryError>)
    ensures
        match r {
            Ok(k) => source_key_text(*source) == Some(k@),
            Err(e) => source_key_text(*source) is None && e == CandidateQueryError::InvalidInput,
        },
{
    match source {
        PackageSourceSelector::Repository { repository_id } => {
            if RepositoryId::parse(repository_id.as_str()).is_err() {
                return Err(CandidateQueryError::InvalidInput);
            }
            let mut k = String::new();
            k.append("repository:");
            k.append(repository_id.as_str());
            Ok(k)
        },
        PackageSourceSelector::UserPackage { user_package_id } => {
            let mut k = String::new();
            k.append("user_package:");
            k.append(user_package_id.as_str());
            Ok(k)
        },
    }
}

/// Inserts a text into a strictly sorted list unless it is already there.
fn insert_text(v: &mut Vec<String>, x: String) -> (r: bool)
    requires
        strictly_sorted(bytes_list(old(v)@)),
    ensures
        strictly_sorted(bytes_list(final(v)@)),
        r == !views_list(old(v)@).contains(x@),
        !r ==> final(v)@ == old(v)@,
        r ==> views_list(final(v)@).to_set() == views_list(old(v)@).to_set().insert(x@) && final(v)@.len()
            == old(v)@.len() + 1,
{
    let ghost old_v = v@;
    let mut p: usize = 0;
    while p < v.len() && crate::order::lex_less(v[p].as_str().as_bytes(), x.as_str().as_bytes())
        invariant
            v@ == old_v,
            strictly_sorted(bytes_list(old_v)),
            p <= v@.len(),
            forall|k: int| 0 <= k < p ==> lex_lt(#[trigger] tb(v@[k]), tb(x)),
        decreases v@.len() - p,
    {
        p = p + 1;
    }
    let ghost bl = bytes_list(old_v);
    if p < v.len() && crate::text::str_eq(v[p].as_str(), x.as_str()) {
        proof {
            assert(views_list(old_v)[p as int] == x@);
        }
        return false;
    }
    proof {
        if p < old_v.len() {
            crate::order::lemma_lex_total(tb(old_v[p as int]), tb(x));
            lemma_tb_injective(old_v[p as int], x);
        }
        assert forall|k: int| 0 <= k < old_v.len() implies (#[trigger] views_list(old_v)[k]) != x@ by {
            lemma_tb_injective(old_v[k], x);
            if k < p {
                crate::order::lemma_lex_irreflexive(tb(x));
            } else if k > p {
                assert(lex_lt(bl[p as int], bl[k]));
                if views_list(old_v)[k] == x@ {
                    crate::order::lemma_lex_asymmetric(tb(x), tb(old_v[p as int]));
                }
            }
        }
    }
    v.insert(p, x);
    proof {
        let nv = v@;
        assert(nv == old_v.insert(p as int, x));
        assert forall|a: int, b: int| 0 <= a < b < nv.len() implies lex_lt(#[trigger] bytes_list(nv)[a], #[trigger] bytes_list(nv)[b]) by {
            if a < p && b < p {
                assert(bl[a] == bytes_list(nv)[a] && bl[b] == bytes_list(nv)[b]);
            } else if a < p && b == p {
            } else if a < p && b > p {
                assert(bytes_list(nv)[b] == bl[b - 1]);
                assert(lex_lt(bl[a], bl[b - 1]));
            } else if a == p {
                assert(bytes_list(nv)[b] == bl[b - 1]);
                if b - 1 > p {
                    assert(lex_lt(bl[p as int], bl[b - 1]));
                    crate::order::lemma_lex_transitive(tb(x), bl[p as int], bl[b - 1]);
                }
            } else {
                assert(bytes_list(nv)[a] == bl[a - 1]);
                assert(bytes_list(nv)[b] == bl[b - 1]);
            }
        }
        assert(views_list(nv).to_set() =~= views_list(old_v).to_set().insert(x@)) by {
            assert forall|t: Seq<char>| views_list(nv).to_set().contains(t) <==> views_list(old_v).to_set().insert(x@).contains(t) by {
                if views_list(nv).to_set().contains(t) {
                    let k = choose|k: int| 0 <= k < views_list(nv).len() && views_list(nv)[k] == t;
                    if k < p {
                        assert(views_list(old_v)[k] == t);
                    } else if k > p {
                        assert(views_list(old_v)[k - 1] == t);
                    }
                }
                if views_list(old_v).to_set().contains(t) {
                    let k = choose|k: int| 0 <= k < views_list(old_v).len() && views_list(old_v)[k] == t;
                    if k < p {
                        assert(views_list(nv)[k] == t);
                    } else {
                        assert(views_list(nv)[k + 1] == t);
                    }
                }
                if t == x@ {
                    assert(views_list(nv)[p as int] == t);
                }
            }
        }
    }
    true
}


/// The listed package identifiers are valid and distinct, 1 to 256 of them.
pub open spec fn ids_ok(ids: Seq<String>) -> bool {
    &&& 0 < ids.len() <= 256
    &&& forall|i: int| 0 <= i < ids.len() ==> package_id_ok(tb(#[trigger] ids[i]))
    &&& forall|i: int, j: int| 0 <= i < j < ids.len() ==> (#[trigger] ids[i])@ != (#[trigger] ids[j])@
}

/// The source overrides are at most 256, for valid, distinct packages (all
/// of them listed when a list is given), each naming a valid source.
pub open spec fn sources_ok(items: Seq<CandidateSourceOverride>, ids: Option<Vec<String>>) -> bool {
    &&& items.len() <= 256
    &&& forall|i: int| 0 <= i < items.len() ==> package_id_ok(tb((#[trigger] items[i]).package_id))
    &&& forall|i: int, j: int|
        0 <= i < j < items.len() ==> (#[trigger] items[i]).package_id@ != (#[trigger] items[j]).package_id@
    &&& forall|i: int|
        0 <= i < items.len() ==> match ids {
            Some(v) => views_list(v@).contains((#[trigger] items[i]).package_id@),
            None => true,
        }
    &&& forall|i: int| 0 <= i < items.len() ==> source_key_text((#[trigger] items[i]).source) is Some
}

/// Whether a candidate request is well formed.
pub open spec fn request_ok(r: ProjectCandidateRequest) -> bool {
    &&& 0 < r.expected_revision <= i64::MAX
    &&& match r.limit {
        Some(v) => 1 <= v <= 128,
        None => true,
    }
    &&& match r.expected_snapshot {
        Some(v) => crate::text::is_sha256_hex(tb(v)),
        None => true,
    }
    &&& match r.cursor {
        Some(c) => c.offset <= MAX_CANDIDATE_RECORDS && crate::text::is_sha256_hex(tb(c.snapshot_fingerprint))
            && crate::text::is_sha256_hex(tb(c.query_fingerprint)) && match r.expected_snapshot {
            Some(v) => v@ == c.snapshot_fingerprint@,
            None => true,
        },
        None => true,
    }
    &&& match r.view {
        CandidateView::Summary { package_ids, sources } => {
            &&& match package_ids {
                Some(ids) => ids_ok(ids@),
                None => true,
            }
            &&& match sources {
                Some(items) => sources_ok(items@, package_ids),
                None => true,
            }
        },
        CandidateView::Versions { package_id, source } => {
            &&& package_id_ok(tb(package_id))
            &&& match source {
                Some(s) => source_key_text(s) is Some,
                None => true,
            }
        },
    }
}

/// `s` holds exactly the texts of `v`, strictly sorted by their bytes.
pub open spec fn sorted_texts_of(s: Seq<Seq<char>>, v: Seq<Seq<char>>) -> bool {
    &&& s.len() == v.len()
    &&& strictly_sorted(s.map_values(|t: Seq<char>| vstd::utf8::encode_utf8(t)))
    &&& s.to_set() == v.to_set()
}

/// The position of an override whose package is `id`.
pub open spec fn override_index(items: Seq<CandidateSourceOverride>, id: Seq<char>) -> int {
    choose|i: int| 0 <= i < items.len() && (#[trigger] items[i]).package_id@ == id
}

/// The override whose package is `id`.
pub open spec fn override_for(items: Seq<CandidateSourceOverride>, id: Seq<char>) -> CandidateSourceOverride {
    items[override_index(items, id)]
}

/// The canonical records a valid request is fingerprinted by: a version
/// tag, the project, then the view: for a summary the sorted explicit
/// package list (or `all`) and the overrides as package and source-key
/// pairs sorted by package; for versions the package and its source key.
pub open spec fn query_records_ok(r: ProjectCandidateRequest, rv: Seq<Seq<char>>) -> bool {
    &&& rv.len() >= 3
    &&& rv[0] == "project-candidates-query-v1"@
    &&& rv[1] == r.project_id@
    &&& match r.view {
        CandidateView::Versions { package_id, source } => rv.len() == 5 && rv[2] == "versions"@ && rv[3]
            == package_id@ && rv[4] == match source {
            Some(s) => source_key_text(s)->0,
            None => Seq::<char>::empty(),
        },
        CandidateView::Summary { package_ids, sources } => {
            let k = match package_ids {
                Some(ids) => ids@.len() as int,
                None => 0,
            };
            let items = match sources {
                Some(v) => v@,
                None => Seq::<CandidateSourceOverride>::empty(),
            };
            &&& rv[2] == "summary"@
            &&& match package_ids {
                Some(ids) => rv[3] == "explicit"@ && sorted_texts_of(rv.subrange(4, 4 + k), views_list(ids@)),
                None => rv[3] == "all"@,
            }
            &&& rv.len() >= 5 + k
            &&& rv[4 + k] == "sources"@
            &&& overrides_follow(rv.subrange(0, 5 + k), items, rv)
        },
    }
}


proof fn lemma_views_bytes_sorted(s: Seq<String>)
    ensures
        views_list(s).map_values(|t: Seq<char>| vstd::utf8::encode_utf8(t)) == bytes_list(s),
{
    assert(views_list(s).map_values(|t: Seq<char>| vstd::utf8::encode_utf8(t)) =~= bytes_list(s));
}

/// Sorts a package list, refusing an invalid, empty, oversized or repeated one.
fn sorted_package_ids(ids: &Vec<String>) -> (r: Option<Vec<String>>)
    ensures
        r is Some <==> ids_ok(ids@),
        r matches Some(s) ==> sorted_texts_of(views_list(s@), views_list(ids@)),
{
    if ids.len() == 0 || ids.len() > 256 {
        return None;
    }
    let mut out: Vec<String> = Vec::new();
    let mut i: usize = 0;
    while i < ids.len()
        invariant
            0 < ids@.len() <= 256,
            i <= ids@.len(),
            out@.len() == i,
            strictly_sorted(bytes_list(out@)),
            views_list(out@).to_set() == views_list(ids@.take(i as int)).to_set(),
            forall|k: int| 0 <= k < i ==> package_id_ok(tb(#[trigger] ids@[k])),
            forall|k: int, m: int| 0 <= k < m < i ==> (#[trigger] ids@[k])@ != (#[trigger] ids@[m])@,
        decreases ids@.len() - i,
    {
        if !package_valid(ids[i].as_str()) {
            return None;
        }
        let x = ids[i].clone();
        let ghost before = out@;
        let fresh = insert_text(&mut out, x);
        proof {
            assert(views_list(ids@.take(i + 1)) =~= views_list(ids@.take(i as int)).push(ids@[i as int]@));
            views_list(ids@.take(i as int)).lemma_push_to_set_commute(ids@[i as int]@);
        }
        if !fresh {
            proof {
                assert(views_list(before).to_set().contains(ids@[i as int]@));
                assert(views_list(ids@.take(i as int)).to_set().contains(ids@[i as int]@));
                let k = choose|k: int| 0 <= k < i && views_list(ids@.take(i as int))[k] == ids@[i as int]@;
                assert(ids@[k]@ == ids@[i as int]@);
            }
            return None;
        }
        proof {
            assert forall|k: int, m: int| 0 <= k < m < i + 1 implies (#[trigger] ids@[k])@ != (#[trigger] ids@[m])@ by {
                if m == i {
                    assert(views_list(ids@.take(i as int))[k] == ids@[k]@);
                    assert(views_list(before).to_set().contains(ids@[k]@));
                }
            }
        }
        i = i + 1;
    }
    proof {
        assert(ids@.take(i as int) =~= ids@);
        lemma_views_bytes_sorted(out@);
    }
    Some(out)
}


/// Whether a list holds a text.
fn contains_text(v: &Vec<String>, x: &str) -> (r: bool)
    ensures
        r == views_list(v@).contains(x@),
{
    let mut i: usize = 0;
    while i < v.len()
        invariant
            i <= v@.len(),
            forall|k: int| 0 <= k < i ==> (#[trigger] v@[k])@ != x@,
        decreases v@.len() - i,
    {
        if crate::text::str_eq(v[i].as_str(), x) {
            assert(views_list(v@)[i as int] == x@);
            return true;
        }
        i = i + 1;
    }
    proof {
        if views_list(v@).contains(x@) {
            let k = choose|k: int| 0 <= k < views_list(v@).len() && views_list(v@)[k] == x@;
            assert(v@[k]@ == x@);
        }
    }
    false
}

/// The packages of the overrides, in order.
pub open spec fn override_ids(items: Seq<CandidateSourceOverride>) -> Seq<Seq<char>> {
    items.map_values(|o: CandidateSourceOverride| o.package_id@)
}

/// Sorts the overridden packages, refusing invalid, repeated or unlisted ones.
fn sorted_override_ids(items: &Vec<CandidateSourceOverride>, ids: &Option<Vec<String>>) -> (r: Option<Vec<String>>)
    ensures
        r is Some <==> (items@.len() <= 256 && (forall|i: int|
            0 <= i < items@.len() ==> package_id_ok(tb((#[trigger] items@[i]).package_id))) && (forall|i: int, j: int|
            0 <= i < j < items@.len() ==> (#[trigger] items@[i]).package_id@ != (#[trigger] items@[j]).package_id@)
            && (forall|i: int|
            0 <= i < items@.len() ==> match *ids {
                Some(v) => views_list(v@).contains((#[trigger] items@[i]).package_id@),
                None => true,
            })),
        r matches Some(s) ==> sorted_texts_of(views_list(s@), override_ids(items@)),
{
    if items.len() > 256 {
        return None;
    }
    let mut out: Vec<String> = Vec::new();
    let mut i: usize = 0;
    while i < items.len()
        invariant
            items@.len() <= 256,
            i <= items@.len(),
            out@.len() == i,
            strictly_sorted(bytes_list(out@)),
            views_list(out@).to_set() == override_ids(items@.take(i as int)).to_set(),
            forall|k: int| 0 <= k < i ==> package_id_ok(tb((#[trigger] items@[k]).package_id)),
            forall|k: int, m: int| 0 <= k < m < i ==> (#[trigger] items@[k]).package_id@ != (#[trigger] items@[m]).package_id@,
            forall|k: int|
                0 <= k < i ==> match *ids {
                    Some(v) => views_list(v@).contains((#[trigger] items@[k]).package_id@),
                    None => true,
                },
        decreases items@.len() - i,
    {
        let item = &items[i];
        if !package_valid(item.package_id.as_str()) {
            return None;
        }
        let ghost before = out@;
        let fresh = insert_text(&mut out, item.package_id.clone());
        proof {
            assert(override_ids(items@.take(i + 1)) =~= override_ids(items@.take(i as int)).push(items@[i as int].package_id@));
            override_ids(items@.take(i as int)).lemma_push_to_set_commute(items@[i as int].package_id@);
        }
        if !fresh {
            proof {
                assert(override_ids(items@.take(i as int)).to_set().contains(items@[i as int].package_id@));
                let k = choose|k: int| 0 <= k < i && override_ids(items@.take(i as int))[k] == items@[i as int].package_id@;
                assert(items@[k].package_id@ == items@[i as int].package_id@);
            }
            return None;
        }
        let listed = match ids {
            Some(v) => contains_text(v, item.package_id.as_str()),
            None => true,
        };
        if !listed {
            return None;
        }
        proof {
            assert forall|k: int, m: int| 0 <= k < m < i + 1 implies (#[trigger] items@[k]).package_id@
                != (#[trigger] items@[m]).package_id@ by {
                if m == i {
                    assert(override_ids(items@.take(i as int))[k] == items@[k].package_id@);
                    assert(views_list(before).to_set().contains(items@[k].package_id@));
                }
            }
        }
        i = i + 1;
    }
    proof {
        assert(items@.take(i as int) =~= items@);
        lemma_views_bytes_sorted(out@);
    }
    Some(out)
}


fn find_override(items: &Vec<CandidateSourceOverride>, id: &str) -> (r: usize)
    requires
        override_ids(items@).contains(id@),
    ensures
        r < items@.len(),
        items@[r as int].package_id@ == id@,
{
    let mut i: usize = 0;
    while i < items.len()
        invariant
            override_ids(items@).contains(id@),
            i <= items@.len(),
            forall|k: int| 0 <= k < i ==> (#[trigger] items@[k]).package_id@ != id@,
        decreases items@.len() - i,
    {
        if crate::text::str_eq(items[i].package_id.as_str(), id) {
            return i;
        }
        i = i + 1;
    }
    proof {
        let k = choose|k: int| 0 <= k < override_ids(items@).len() && override_ids(items@)[k] == id@;
        assert(items@[k].package_id@ == id@);
    }
    i
}

fn push_text(records: &mut Vec<String>, x: String)
    ensures
        views_list(final(records)@) == views_list(old(records)@).push(x@),
{
    records.push(x);
    assert(views_list(records@) =~= views_list(old(records)@).push(x@));
}

/// Appends the texts of `v` to `records`.
fn append_texts(records: &mut Vec<String>, v: &Vec<String>)
    ensures
        views_list(final(records)@) == views_list(old(records)@) + views_list(v@),
{
    let ghost head = views_list(records@);
    let mut i: usize = 0;
    while i < v.len()
        invariant
            i <= v@.len(),
            views_list(records@) == head + views_list(v@).take(i as int),
        decreases v@.len() - i,
    {
        push_text(records, v[i].clone());
        proof {
            assert(views_list(v@).take(i + 1) =~= views_list(v@).take(i as int).push(v@[i as int]@));
            assert(head + views_list(v@).take(i + 1) =~= (head + views_list(v@).take(i as int)).push(v@[i as int]@));
        }
        i = i + 1;
    }
    proof {
        assert(views_list(v@).take(i as int) =~= views_list(v@));
    }
}

/// The packages of a run of package and source-key record pairs.
pub open spec fn record_ids(ov: Seq<Seq<char>>) -> Seq<Seq<char>> {
    Seq::new(ov.len() / 2, |j: int| ov[2 * j])
}

/// The source keys of a run of package and source-key record pairs.
pub open spec fn record_keys(ov: Seq<Seq<char>>) -> Seq<Seq<char>> {
    Seq::new(ov.len() / 2, |j: int| ov[2 * j + 1])
}

/// The override records that follow `head` in `rv`: each overridden
/// package, in byte order, followed by the canonical key of its source.
pub open spec fn overrides_follow(head: Seq<Seq<char>>, items: Seq<CandidateSourceOverride>, rv: Seq<Seq<char>>) -> bool {
    let a = head.len() as int;
    let ov = rv.subrange(a, rv.len() as int);
    &&& rv.len() == a + 2 * items.len()
    &&& rv.subrange(0, a) == head
    &&& forall|j: int|
        0 <= j < items.len() ==> record_keys(ov)[j] == source_key_text(
            override_for(items, #[trigger] record_ids(ov)[j]).source,
        )->0
    &&& sorted_texts_of(record_ids(ov), override_ids(items))
}

/// Checks the source overrides of a summary and appends their records.
fn append_overrides(
    records: &mut Vec<String>,
    items: &Vec<CandidateSourceOverride>,
    ids: &Option<Vec<String>>,
) -> (r: Result<(), CandidateQueryError>)
    ensures
        r is Ok <==> sources_ok(items@, *ids),
        r matches Err(e) ==> e == CandidateQueryError::InvalidInput,
        r is Ok ==> overrides_follow(views_list(old(records)@), items@, views_list(final(records)@)),
{
    let ghost head = views_list(records@);
    let ids_sorted = match sorted_override_ids(items, ids) {
        Some(s) => s,
        None => return Err(CandidateQueryError::InvalidInput),
    };
    let ghost a = head.len() as int;
    let mut j: usize = 0;
    while j < ids_sorted.len()
        invariant
            ids_sorted@.len() == items@.len(),
            sorted_texts_of(views_list(ids_sorted@), override_ids(items@)),
            forall|x: int, y: int|
                0 <= x < y < items@.len() ==> (#[trigger] items@[x]).package_id@ != (#[trigger] items@[y]).package_id@,
            forall|x: int| 0 <= x < items@.len() ==> package_id_ok(tb((#[trigger] items@[x]).package_id)),
            items@.len() <= 256,
            forall|x: int|
                0 <= x < items@.len() ==> match *ids {
                    Some(v) => views_list(v@).contains((#[trigger] items@[x]).package_id@),
                    None => true,
                },
            j <= ids_sorted@.len(),
            a == head.len(),
            views_list(records@).len() == a + 2 * j,
            views_list(records@).subrange(0, a) == head,
            forall|m: int| 0 <= m < j ==> views_list(records@)[a + 2 * m] == (#[trigger] ids_sorted@[m])@,
            forall|m: int|
                0 <= m < j ==> views_list(records@)[a + 2 * m + 1] == source_key_text(
                    override_for(items@, (#[trigger] ids_sorted@[m])@).source,
                )->0,
            forall|m: int| 0 <= m < j ==> source_key_text(override_for(items@, (#[trigger] ids_sorted@[m])@).source) is Some,
        decreases ids_sorted@.len() - j,
    {
        let id = &ids_sorted[j];
        proof {
            assert(views_list(ids_sorted@).to_set().contains(id@)) by {
                assert(views_list(ids_sorted@)[j as int] == id@);
            }
        }
        let at = find_override(items, id.as_str());
        proof {
            assert(items@[at as int].package_id@ == id@);
            let c = override_index(items@, id@);
            assert(0 <= c < items@.len() && items@[c].package_id@ == id@);
            if c != at {
                if c < at {
                    assert(items@[c].package_id@ != items@[at as int].package_id@);
                } else {
                    assert(items@[at as int].package_id@ != items@[c].package_id@);
                }
            }
            assert(override_for(items@, id@) == items@[at as int]);
        }
        let key = match source_key(&items[at].source) {
            Ok(k) => k,
            Err(e) => {
                assert(source_key_text(items@[at as int].source) is None);
                return Err(e);
            },
        };
        let ghost before = views_list(records@);
        push_text(records, id.clone());
        push_text(records, key);
        proof {
            assert(views_list(records@) == before.push(id@).push(key@));
            assert(views_list(records@).subrange(0, a) =~= before.subrange(0, a));
            assert(views_list(records@)[a + 2 * j] == id@);
            assert(views_list(records@)[a + 2 * j + 1] == key@);
        }
        j = j + 1;
    }
    proof {
        assert forall|x: int| 0 <= x < items@.len() implies source_key_text((#[trigger] items@[x]).source) is Some by {
            assert(override_ids(items@)[x] == items@[x].package_id@);
            assert(views_list(ids_sorted@).to_set().contains(items@[x].package_id@));
            let m = choose|m: int| 0 <= m < views_list(ids_sorted@).len() && views_list(ids_sorted@)[m] == items@[x].package_id@;
            let c = choose|c: int| 0 <= c < items@.len() && (#[trigger] items@[c]).package_id@ == items@[x].package_id@;
            if c != x {
                if c < x {
                    assert(items@[c].package_id@ != items@[x].package_id@);
                } else {
                    assert(items@[x].package_id@ != items@[c].package_id@);
                }
            }
            assert(ids_sorted@[m]@ == items@[x].package_id@);
        }
        let rv = views_list(records@);
        let ov = rv.subrange(a, rv.len() as int);
        assert(record_ids(ov) =~= views_list(ids_sorted@));
        assert forall|m: int| 0 <= m < items@.len() implies record_keys(ov)[m] == source_key_text(
            override_for(items@, #[trigger] record_ids(ov)[m]).source,
        )->0 by {
            assert(record_ids(ov)[m] == ids_sorted@[m]@);
            assert(record_keys(ov)[m] == rv[a + 2 * m + 1]);
        }
    }
    Ok(())
}

/// The records of a summary view after its tag: the sorted explicit list
/// (or `all`), then `sources` and the override records.
fn append_summary(
    records: &mut Vec<String>,
    package_ids: &Option<Vec<String>>,
    sources: &Option<Vec<CandidateSourceOverride>>,
) -> (r: Result<(), CandidateQueryError>)
    ensures
        r is Ok <==> (match *package_ids {
            Some(ids) => ids_ok(ids@),
            None => true,
        } && match *sources {
            Some(items) => sources_ok(items@, *package_ids),
            None => true,
        }),
        r matches Err(e) ==> e == CandidateQueryError::InvalidInput,
        r is Ok ==> summary_follows(views_list(old(records)@), *package_ids, *sources, views_list(final(records)@)),
{
    let ghost head = views_list(records@);
    let ghost mut listed: Seq<Seq<char>> = Seq::empty();
    match package_ids {
        Some(ids) => {
            let sorted = match sorted_package_ids(ids) {
                Some(s) => s,
                None => return Err(CandidateQueryError::InvalidInput),
            };
            push_text(records, "explicit".to_owned());
            append_texts(records, &sorted);
            proof {
                let h = head.len() as int;
                listed = views_list(sorted@);
                assert(views_list(records@).subrange(h + 1, h + 1 + ids@.len()) =~= listed);
            }
        },
        None => {
            push_text(records, "all".to_owned());
        },
    }
    let ghost pre = views_list(records@);
    push_text(records, "sources".to_owned());
    let ghost mid = views_list(records@);
    match sources {
        Some(items) => {
            let r = append_overrides(records, items, package_ids);
            if r.is_err() {
                return r;
            }
        },
        None => {},
    }
    proof {
        let rv = views_list(records@);
        let h = head.len() as int;
        let k = match package_ids {
            Some(ids) => ids@.len() as int,
            None => 0,
        };
        assert(mid.len() == h + 2 + k);
        assert(rv.subrange(0, mid.len() as int) == mid);
        assert(rv.subrange(0, h) =~= mid.subrange(0, h));
        assert(mid.subrange(0, h) =~= pre.subrange(0, h));
        assert(pre.subrange(0, h) =~= head);
        assert(rv[h] == mid[h]);
        assert(rv[h + 1 + k] == mid[h + 1 + k]);
        assert(rv.subrange(h + 1, h + 1 + k) =~= mid.subrange(h + 1, h + 1 + k));
        assert(mid.subrange(h + 1, h + 1 + k) =~= pre.subrange(h + 1, h + 1 + k));
        if package_ids is Some {
            assert(rv.subrange(h + 1, h + 1 + k) == listed);
        }
        match sources {
            Some(items) => {},
            None => {
                assert(record_ids(rv.subrange(h + 2 + k, rv.len() as int)) =~= Seq::<Seq<char>>::empty());
                assert(override_ids(Seq::<CandidateSourceOverride>::empty()) =~= Seq::<Seq<char>>::empty());
            },
        }
    }
    Ok(())
}

/// The summary records that follow `head` in `rv`.
pub open spec fn summary_follows(
    head: Seq<Seq<char>>,
    package_ids: Option<Vec<String>>,
    sources: Option<Vec<CandidateSourceOverride>>,
    rv: Seq<Seq<char>>,
) -> bool {
    let h = head.len() as int;
    let k = match package_ids {
        Some(ids) => ids@.len() as int,
        None => 0,
    };
    let items = match sources {
        Some(v) => v@,
        None => Seq::<CandidateSourceOverride>::empty(),
    };
    &&& rv.len() >= h + 2 + k
    &&& rv.subrange(0, h) == head
    &&& match package_ids {
        Some(ids) => rv[h] == "explicit"@ && sorted_texts_of(rv.subrange(h + 1, h + 1 + k), views_list(ids@)),
        None => rv[h] == "all"@,
    }
    &&& rv[h + 1 + k] == "sources"@
    &&& overrides_follow(rv.subrange(0, h + 2 + k), items, rv)
}

/// Validates a candidate request and returns the canonical records its
/// query fingerprint is computed from. The records ignore the page size and
/// the order in which packages and overrides are listed, and bind the view,
/// the package list and every source override. Every refusal is `invalid_input`.
pub fn validate_request(request: &ProjectCandidateRequest) -> (r: Result<Vec<String>, CandidateQueryError>)
    ensures
        r is Ok <==> request_ok(*request),
        r matches Err(e) ==> e == CandidateQueryError::InvalidInput,
        r matches Ok(records) ==> query_records_ok(*request, views_list(records@)),
{
    let invalid = CandidateQueryError::InvalidInput;
    if request.expected_revision == 0 || request.expected_revision > 0x7fff_ffff_ffff_ffff {
        return Err(invalid);
    }
    if let Some(v) = request.limit {
        if v < 1 || v > 128 {
            return Err(invalid);
        }
    }
    if let Some(v) = &request.expected_snapshot {
        if !digest_valid(v.as_str()) {
            return Err(invalid);
        }
    }
    if let Some(cursor) = &request.cursor {
        if cursor.offset > MAX_CANDIDATE_RECORDS || !digest_valid(cursor.snapshot_fingerprint.as_str())
            || !digest_valid(cursor.query_fingerprint.as_str())
        {
            return Err(invalid);
        }
        if let Some(v) = &request.expected_snapshot {
            if !crate::text::str_eq(v.as_str(), cursor.snapshot_fingerprint.as_str()) {
                return Err(invalid);
            }
        }
    }
    let mut records: Vec<String> = Vec::new();
    push_text(&mut records, "project-candidates-query-v1".to_owned());
    push_text(&mut records, request.project_id.clone());
    match &request.view {
        CandidateView::Summary { package_ids, sources } => {
            push_text(&mut records, "summary".to_owned());
            let ghost head = views_list(records@);
            let r = append_summary(&mut records, package_ids, sources);
            if r.is_err() {
                return Err(invalid);
            }
            proof {
                let rv = views_list(records@);
                assert(rv.subrange(0, 3) == head);
                assert(rv[0] == head[0] && rv[1] == head[1] && rv[2] == head[2]);
                let k = match package_ids {
                    Some(ids) => ids@.len() as int,
                    None => 0,
                };
                let items = match sources {
                    Some(v) => v@,
                    None => Seq::<CandidateSourceOverride>::empty(),
                };
                assert(rv.subrange(0, 5 + k).len() == 5 + k);
            }
        },
        CandidateView::Versions { package_id, source } => {
            if !package_valid(package_id.as_str()) {
                return Err(invalid);
            }
            let key = match source {
                Some(sel) => match source_key(sel) {
                    Ok(k) => k,
                    Err(e) => return Err(e),
                },
                None => String::new(),
            };
            push_text(&mut records, "versions".to_owned());
            push_text(&mut records, package_id.clone());
            push_text(&mut records, key);
        },
    }
    Ok(records)
}


proof fn lemma_sorted_texts_unique(s1: Seq<Seq<char>>, s2: Seq<Seq<char>>, v1: Seq<Seq<char>>, v2: Seq<Seq<char>>)
    requires
        sorted_texts_of(s1, v1),
        sorted_texts_of(s2, v2),
        v1.to_set() == v2.to_set(),
    ensures
        s1 == s2,
{
    let e1 = s1.map_values(|t: Seq<char>| vstd::utf8::encode_utf8(t));
    let e2 = s2.map_values(|t: Seq<char>| vstd::utf8::encode_utf8(t));
    assert forall|b: Seq<u8>| e1.to_set().contains(b) implies e2.to_set().contains(b) by {
        let i = choose|i: int| 0 <= i < e1.len() && e1[i] == b;
        assert(s1.to_set().contains(s1[i]));
        assert(s2.to_set().contains(s1[i]));
        let j = choose|j: int| 0 <= j < s2.len() && s2[j] == s1[i];
        assert(e2[j] == b);
    }
    assert forall|b: Seq<u8>| e2.to_set().contains(b) implies e1.to_set().contains(b) by {
        let i = choose|i: int| 0 <= i < e2.len() && e2[i] == b;
        assert(s2.to_set().contains(s2[i]));
        assert(s1.to_set().contains(s2[i]));
        let j = choose|j: int| 0 <= j < s1.len() && s1[j] == s2[i];
        assert(e1[j] == b);
    }
    assert(e1.to_set() =~= e2.to_set());
    crate::order::lemma_sorted_sets_equal(e1, e2);
    assert forall|i: int| 0 <= i < s1.len() implies s1[i] == s2[i] by {
        assert(e1[i] == e2[i]);
        vstd::utf8::encode_utf8_decode_utf8(s1[i]);
        vstd::utf8::encode_utf8_decode_utf8(s2[i]);
    }
    assert(s1 =~= s2);
}

/// The overrides as package and source pairs.
pub open spec fn override_pairs(items: Seq<CandidateSourceOverride>) -> Seq<(Seq<char>, PackageSourceSelector)> {
    items.map_values(|o: CandidateSourceOverride| (o.package_id@, o.source))
}

/// Two requests ask the same query: the same project and view, the same
/// set of listed packages and the same set of source overrides, whatever
/// their order, page size, expected revision, snapshot or cursor.
pub open spec fn same_query(a: ProjectCandidateRequest, b: ProjectCandidateRequest) -> bool {
    &&& a.project_id@ == b.project_id@
    &&& match (a.view, b.view) {
        (
            CandidateView::Versions { package_id: p1, source: s1 },
            CandidateView::Versions { package_id: p2, source: s2 },
        ) => p1@ == p2@ && s1 == s2,
        (
            CandidateView::Summary { package_ids: i1, sources: o1 },
            CandidateView::Summary { package_ids: i2, sources: o2 },
        ) => {
            &&& match (i1, i2) {
                (Some(x), Some(y)) => views_list(x@).to_set() == views_list(y@).to_set(),
                (None, None) => true,
                _ => false,
            }
            &&& match (o1, o2) {
                (Some(x), Some(y)) => override_pairs(x@).to_set() == override_pairs(y@).to_set(),
                (None, None) => true,
                _ => false,
            }
        },
        _ => false,
    }
}

proof fn lemma_pairs_give_ids(x: Seq<CandidateSourceOverride>, y: Seq<CandidateSourceOverride>)
    requires
        override_pairs(x).to_set() == override_pairs(y).to_set(),
    ensures
        override_ids(x).to_set() == override_ids(y).to_set(),
{
    assert forall|t: Seq<char>| override_ids(x).to_set().contains(t) implies override_ids(y).to_set().contains(t) by {
        let i = choose|i: int| 0 <= i < override_ids(x).len() && override_ids(x)[i] == t;
        assert(override_pairs(x).to_set().contains(override_pairs(x)[i]));
        let j = choose|j: int| 0 <= j < override_pairs(y).len() && override_pairs(y)[j] == override_pairs(x)[i];
        assert(override_ids(y)[j] == t);
    }
    assert forall|t: Seq<char>| override_ids(y).to_set().contains(t) implies override_ids(x).to_set().contains(t) by {
        let i = choose|i: int| 0 <= i < override_ids(y).len() && override_ids(y)[i] == t;
        assert(override_pairs(y).to_set().contains(override_pairs(y)[i]));
        let j = choose|j: int| 0 <= j < override_pairs(x).len() && override_pairs(x)[j] == override_pairs(y)[i];
        assert(override_ids(x)[j] == t);
    }
    assert(override_ids(x).to_set() =~= override_ids(y).to_set());
}

proof fn lemma_same_override_source(x: Seq<CandidateSourceOverride>, y: Seq<CandidateSourceOverride>, id: Seq<char>)
    requires
        override_pairs(x).to_set() == override_pairs(y).to_set(),
        forall|i: int, j: int| 0 <= i < j < x.len() ==> (#[trigger] x[i]).package_id@ != (#[trigger] x[j]).package_id@,
        forall|i: int, j: int| 0 <= i < j < y.len() ==> (#[trigger] y[i]).package_id@ != (#[trigger] y[j]).package_id@,
        override_ids(x).contains(id),
    ensures
        override_for(x, id).source == override_for(y, id).source,
{
    let i = choose|i: int| 0 <= i < override_ids(x).len() && override_ids(x)[i] == id;
    assert(x[i].package_id@ == id);
    let c1 = override_index(x, id);
    assert(0 <= c1 < x.len() && x[c1].package_id@ == id);
    assert(override_pairs(x).to_set().contains(override_pairs(x)[c1]));
    let c = choose|c: int| 0 <= c < override_pairs(y).len() && override_pairs(y)[c] == override_pairs(x)[c1];
    assert(override_pairs(y)[c] == (y[c].package_id@, y[c].source));
    assert(y[c].source == x[c1].source);
    assert(y[c].package_id@ == id);
    let c2 = override_index(y, id);
    assert(0 <= c2 < y.len() && y[c2].package_id@ == id);
    if c2 != c {
        if c2 < c {
            assert(y[c2].package_id@ != y[c].package_id@);
        } else {
            assert(y[c].package_id@ != y[c2].package_id@);
        }
    }
}

proof fn lemma_overrides_equal(
    h: Seq<Seq<char>>,
    xa: Seq<CandidateSourceOverride>,
    xb: Seq<CandidateSourceOverride>,
    ra: Seq<Seq<char>>,
    rb: Seq<Seq<char>>,
)
    requires
        overrides_follow(h, xa, ra),
        overrides_follow(h, xb, rb),
        override_pairs(xa).to_set() == override_pairs(xb).to_set(),
        forall|i: int, j: int| 0 <= i < j < xa.len() ==> (#[trigger] xa[i]).package_id@ != (#[trigger] xa[j]).package_id@,
        forall|i: int, j: int| 0 <= i < j < xb.len() ==> (#[trigger] xb[i]).package_id@ != (#[trigger] xb[j]).package_id@,
    ensures
        ra == rb,
{
    let a = h.len() as int;
    let oa = ra.subrange(a, ra.len() as int);
    let ob = rb.subrange(a, rb.len() as int);
    lemma_pairs_give_ids(xa, xb);
    lemma_sorted_texts_unique(record_ids(oa), record_ids(ob), override_ids(xa), override_ids(xb));
    assert(oa.len() == ob.len());
    assert forall|m: int| 0 <= m < oa.len() implies oa[m] == ob[m] by {
        let j = m / 2;
        assert(0 <= j < xa.len());
        assert(record_ids(oa)[j] == record_ids(ob)[j]);
        if m % 2 == 0 {
            assert(oa[m] == record_ids(oa)[j]);
            assert(ob[m] == record_ids(ob)[j]);
        } else {
            let id = record_ids(oa)[j];
            assert(record_ids(oa).to_set().contains(id));
            assert(override_ids(xa).contains(id));
            lemma_same_override_source(xa, xb, id);
            assert(oa[m] == record_keys(oa)[j]);
            assert(ob[m] == record_keys(ob)[j]);
        }
    }
    assert(oa =~= ob);
    assert(ra =~= ra.subrange(0, a) + oa);
    assert(rb =~= rb.subrange(0, a) + ob);
}

/// The canonical records of two valid requests that ask the same query are
/// equal: they ignore the page size and the order of packages and overrides.
pub proof fn query_records_ignore_order_and_page_size(
    a: ProjectCandidateRequest,
    b: ProjectCandidateRequest,
    ra: Seq<Seq<char>>,
    rb: Seq<Seq<char>>,
)
    requires
        request_ok(a),
        request_ok(b),
        same_query(a, b),
        query_records_ok(a, ra),
        query_records_ok(b, rb),
    ensures
        ra == rb,
{
    if a.view is Summary && b.view is Summary {
        let i1 = a.view->package_ids;
        let o1 = a.view->sources;
        let i2 = b.view->package_ids;
        let o2 = b.view->sources;
        let k = match i1 {
            Some(ids) => ids@.len() as int,
            None => 0,
        };
        let kb = match i2 {
            Some(ids) => ids@.len() as int,
            None => 0,
        };
        if i1 is Some && i2 is Some {
            let x = i1->0;
            let y = i2->0;
            lemma_sorted_texts_unique(ra.subrange(4, 4 + k), rb.subrange(4, 4 + kb), views_list(x@), views_list(y@));
            assert(ra.subrange(4, 4 + k).len() == k);
        }
        assert(kb == k);
        let h = ra.subrange(0, 5 + k);
        assert(h =~= rb.subrange(0, 5 + k)) by {
            assert forall|m: int| 0 <= m < 5 + k implies ra[m] == rb[m] by {
                if 4 <= m < 4 + k {
                    assert(ra[m] == ra.subrange(4, 4 + k)[m - 4]);
                    assert(rb[m] == rb.subrange(4, 4 + k)[m - 4]);
                }
            }
        }
        let xa = match o1 {
            Some(v) => v@,
            None => Seq::<CandidateSourceOverride>::empty(),
        };
        let xb = match o2 {
            Some(v) => v@,
            None => Seq::<CandidateSourceOverride>::empty(),
        };
        if !(o1 is Some && o2 is Some) {
            assert(override_pairs(xa) =~= override_pairs(xb));
        }
        lemma_overrides_equal(h, xa, xb, ra, rb);
    } else if a.view is Versions && b.view is Versions {
        assert(ra =~= rb);
    }
}

/// A summary query and a versions query never share canonical records.
pub proof fn query_records_bind_the_view(
    a: ProjectCandidateRequest,
    b: ProjectCandidateRequest,
    ra: Seq<Seq<char>>,
    rb: Seq<Seq<char>>,
)
    requires
        a.view is Summary,
        b.view is Versions,
        query_records_ok(a, ra),
        query_records_ok(b, rb),
    ensures
        ra != rb,
{
    reveal_strlit("summary");
    reveal_strlit("versions");
    assert(ra[2][0] != rb[2][0]);
}



/// A candidate query needs the project, repository, package and settings
/// read permissions and read access to its exact project.
pub fn authorize_candidate_query(access: &AccessContext, project_id: &str) -> (r: Result<(), CandidateQueryError>)
    ensures
        r is Ok <==> access@.permissions.contains(Permission::ProjectsRead) && access@.permissions.contains(
            Permission::RepositoriesRead,
        ) && access@.permissions.contains(Permission::PackagesRead) && access@.permissions.contains(
            Permission::SettingsRead,
        ) && crate::access::scope_admits(access@.project_scopes, project_id@),
        r matches Err(e) ==> e == CandidateQueryError::PermissionDenied,
{
    if access.require(Permission::ProjectsRead).is_err() || access.require(Permission::RepositoriesRead).is_err()
        || access.require(Permission::PackagesRead).is_err() || access.require(Permission::SettingsRead).is_err()
        || access.require_project_read_scope(project_id).is_err() {
        return Err(CandidateQueryError::PermissionDenied);
    }
    Ok(())
}

/// A query's encoded request must fit in 64 KiB.
pub fn check_request_size(encoded: Option<usize>) -> (r: Result<(), CandidateQueryError>)
    ensures
        r is Ok <==> (encoded matches Some(n) && n <= 65536),
        r matches Err(e) ==> e == CandidateQueryError::LimitExceeded,
{
    match encoded {
        Some(n) => if n <= 65536 {
            Ok(())
        } else {
            Err(CandidateQueryError::LimitExceeded)
        },
        None => Err(CandidateQueryError::LimitExceeded),
    }
}

/// A page's encoded form must fit in 1 MiB.
pub fn check_page_size(encoded: Option<usize>) -> (r: Result<(), CandidateQueryError>)
    ensures
        r is Ok <==> (encoded matches Some(n) && n <= 1048576),
        r matches Err(e) ==> e == CandidateQueryError::LimitExceeded,
{
    match encoded {
        Some(n) => if n <= 1048576 {
            Ok(())
        } else {
            Err(CandidateQueryError::LimitExceeded)
        },
        None => Err(CandidateQueryError::LimitExceeded),
    }
}

/// A cursor is only valid for the query it was issued for.
pub fn check_cursor_query(request: &ProjectCandidateRequest, query_fingerprint: &str) -> (r: Result<(), CandidateQueryError>)
    ensures
        r is Ok <==> (request.cursor matches Some(c) ==> c.query_fingerprint@ == query_fingerprint@),
        r matches Err(e) ==> e == CandidateQueryError::InvalidInput,
{
    if let Some(c) = &request.cursor {
        if !crate::text::str_eq(c.query_fingerprint.as_str(), query_fingerprint) {
            return Err(CandidateQueryError::InvalidInput);
        }
    }
    Ok(())
}

/// The answer to a project read at another revision than expected: a
/// request that continues or pins a snapshot learns its evidence is stale,
/// any other has a revision conflict.
pub fn revision_mismatch_error(request: &ProjectCandidateRequest) -> (r: CandidateQueryError)
    ensures
        r == if request.cursor is Some || request.expected_snapshot is Some {
            CandidateQueryError::EvidenceStale
        } else {
            CandidateQueryError::RevisionConflict
        },
{
    if request.cursor.is_some() || request.expected_snapshot.is_some() {
        CandidateQueryError::EvidenceStale
    } else {
        CandidateQueryError::RevisionConflict
    }
}

/// A pinned or continued snapshot must be the current one.
pub fn check_snapshot(request: &ProjectCandidateRequest, fingerprint: &str) -> (r: Result<(), CandidateQueryError>)
    ensures
        r is Ok <==> (request.expected_snapshot matches Some(v) ==> v@ == fingerprint@) && (request.cursor matches Some(
            c,
        ) ==> c.snapshot_fingerprint@ == fingerprint@),
        r matches Err(e) ==> e == CandidateQueryError::EvidenceStale,
{
    if let Some(v) = &request.expected_snapshot {
        if !crate::text::str_eq(v.as_str(), fingerprint) {
            return Err(CandidateQueryError::EvidenceStale);
        }
    }
    if let Some(c) = &request.cursor {
        if !crate::text::str_eq(c.snapshot_fingerprint.as_str(), fingerprint) {
            return Err(CandidateQueryError::EvidenceStale);
        }
    }
    Ok(())
}

/// The packages a query reads from the store: the explicit summary list,
/// every package, or the one package of a versions view.
pub fn snapshot_package_ids(view: &CandidateView) -> (r: Option<Vec<String>>)
    ensures
        match *view {
            CandidateView::Summary { package_ids, .. } => match package_ids {
                Some(ids) => r matches Some(v) && views_list(v@) == views_list(ids@),
                None => r is None,
            },
            CandidateView::Versions { package_id, .. } => r matches Some(v) && views_list(v@) == seq![package_id@],
        },
{
    match view {
        CandidateView::Summary { package_ids, .. } => match package_ids {
            Some(ids) => {
                let copy = crate::access::clone_strings(ids);
                proof {
                    assert(views_list(copy@) =~= views_list(ids@));
                }
                Some(copy)
            },
            None => None,
        },
        CandidateView::Versions { package_id, .. } => {
            let mut v: Vec<String> = Vec::new();
            v.push(package_id.clone());
            proof {
                assert(views_list(v@) =~= seq![package_id@]);
            }
            Some(v)
        },
    }
}

/// Where a page starts and how many records it holds at most: the cursor's
/// offset (or 0) and the requested limit (or 64).
pub fn page_offset_and_limit(request: &ProjectCandidateRequest) -> (r: (usize, usize))
    ensures
        r.0 == match request.cursor {
            Some(c) => c.offset,
            None => 0,
        },
        r.1 == match request.limit {
            Some(v) => v as usize,
            None => 64,
        },
{
    let offset = match &request.cursor {
        Some(c) => c.offset,
        None => 0,
    };
    let limit: usize = match request.limit {
        Some(v) => v as usize,
        None => 64,
    };
    (offset, limit)
}

/// The window of a page over `total` records: more than the record bound is
/// `limit_exceeded`; an offset past the end, or at the end of a non-empty
/// result, is `invalid_input`. On success, the cursor offset of the next
/// page when records remain.
pub fn page_window(offset: usize, limit: usize, total: usize) -> (r: Result<Option<usize>, CandidateQueryError>)
    requires
        offset <= MAX_CANDIDATE_RECORDS,
        limit <= 128,
    ensures
        total > MAX_CANDIDATE_RECORDS ==> r == Err::<Option<usize>, CandidateQueryError>(CandidateQueryError::LimitExceeded),
        total <= MAX_CANDIDATE_RECORDS && (offset > total || (offset == total && offset != 0)) ==> r == Err::<
            Option<usize>,
            CandidateQueryError,
        >(CandidateQueryError::InvalidInput),
        total <= MAX_CANDIDATE_RECORDS && !(offset > total || (offset == total && offset != 0)) ==> r == Ok::<
            Option<usize>,
            CandidateQueryError,
        >(if offset + limit < total { Some((offset + limit) as usize) } else { None }),
{
    if total > MAX_CANDIDATE_RECORDS {
        return Err(CandidateQueryError::LimitExceeded);
    }
    if offset > total || (offset == total && offset != 0) {
        return Err(CandidateQueryError::InvalidInput);
    }
    if offset + limit < total {
        Ok(Some(offset + limit))
    } else {
        Ok(None)
    }
}

/// The records of one page: at most `limit` records from `offset` on.
pub fn take_window<T>(items: Vec<T>, offset: usize, limit: usize) -> (r: Vec<T>)
    requires
        offset + limit <= usize::MAX,
    ensures
        r@ == items@.subrange(
            if offset < items@.len() { offset as int } else { items@.len() as int },
            if offset + limit < items@.len() { (offset + limit) as int } else { items@.len() as int },
        ),
{
    let n = items.len();
    let start = if offset < n { offset } else { n };
    let end = if offset + limit < n { offset + limit } else { n };
    let mut rest = items;
    let mut tail: Vec<T> = Vec::new();
    while rest.len() > end
        invariant
            end <= n,
            rest@.len() >= end,
            rest@ == items@.take(rest@.len() as int),
            rest@.len() <= n,
            items@.len() == n,
        decreases rest@.len(),
    {
        let _ = rest.pop();
        proof {
            assert(rest@ =~= items@.take(rest@.len() as int));
        }
    }
    let ghost kept = rest@;
    let mut reversed: Vec<T> = Vec::new();
    while rest.len() > start
        invariant
            start <= end <= n,
            items@.len() == n,
            kept == items@.take(end as int),
            kept.len() == end,
            rest@.len() >= start,
            rest@ == kept.take(rest@.len() as int),
            rest@.len() + reversed@.len() == end,
            forall|i: int| 0 <= i < reversed@.len() ==> reversed@[i] == kept[end - 1 - i],
        decreases rest@.len(),
    {
        let ghost before = rest@;
        let x = rest.pop().unwrap();
        proof {
            assert(rest@ =~= kept.take(rest@.len() as int));
            assert(x == kept[rest@.len() as int]);
        }
        reversed.push(x);
    }
    while reversed.len() > 0
        invariant
            start <= end <= n,
            kept == items@.take(end as int),
            kept.len() == end,
            reversed@.len() + tail@.len() == end - start,
            forall|i: int| 0 <= i < reversed@.len() ==> reversed@[i] == kept[end - 1 - i],
            forall|i: int| 0 <= i < tail@.len() ==> tail@[i] == kept[start + i],
        decreases reversed@.len(),
    {
        let x = reversed.pop().unwrap();
        tail.push(x);
    }
    proof {
        assert(tail@ =~= items@.subrange(start as int, end as int));
    }
    tail
}

/// Whether every summary fits the read model: package identifiers of at
/// most 128 bytes and locked versions of at most 256.
pub open spec fn summaries_fit(items: Seq<CandidateSummary>) -> bool {
    forall|i: int|
        0 <= i < items.len() ==> tb((#[trigger] items[i]).package_id).len() <= 128 && match items[i].installed {
            CandidateInstalled::Locked { version } => tb(version).len() <= 256,
            _ => true,
        }
}

/// Checks that every summary fits the read model.
pub fn check_summaries(items: &Vec<CandidateSummary>) -> (r: Result<(), CandidateQueryError>)
    ensures
        r is Ok <==> summaries_fit(items@),
        r matches Err(e) ==> e == CandidateQueryError::LimitExceeded,
{
    let mut i: usize = 0;
    while i < items.len()
        invariant
            i <= items@.len(),
            forall|k: int|
                0 <= k < i ==> tb((#[trigger] items@[k]).package_id).len() <= 128 && match items@[k].installed {
                    CandidateInstalled::Locked { version } => tb(version).len() <= 256,
                    _ => true,
                },
        decreases items@.len() - i,
    {
        let item = &items[i];
        if item.package_id.as_str().as_bytes().len() > 128 {
            return Err(CandidateQueryError::LimitExceeded);
        }
        if let CandidateInstalled::Locked { version } = &item.installed {
            if version.as_str().as_bytes().len() > 256 {
                return Err(CandidateQueryError::LimitExceeded);
            }
        }
        i = i + 1;
    }
    Ok(())
}

/// The text `bool::to_string` writes.
pub open spec fn bool_text(b: bool) -> Seq<char> {
    if b {
        "true"@
    } else {
        "false"@
    }
}

fn bool_str(b: bool) -> (r: &'static str)
    ensures
        r@ == bool_text(b),
{
    if b {
        "true"
    } else {
        "false"
    }
}

/// The bytes of a text.
pub open spec fn text_bytes(t: Seq<char>) -> Seq<u8> {
    vstd::utf8::encode_utf8(t)
}

/// `s` holds the texts of `v`, each as often, in ascending byte order.
pub open spec fn sorted_copy_of(s: Seq<Seq<char>>, v: Seq<Seq<char>>) -> bool {
    &&& s.to_multiset() == v.to_multiset()
    &&& forall|a: int, b: int| 0 <= a < b < s.len() ==> !lex_lt(text_bytes(#[trigger] s[b]), text_bytes(#[trigger] s[a]))
}

/// Sorts texts by their bytes, keeping repeats, as `slice::sort` orders
/// strings.
pub fn sort_texts(v: &Vec<String>) -> (r: Vec<String>)
    ensures
        sorted_copy_of(views_list(r@), views_list(v@)),
{
    broadcast use vstd::seq_lib::to_multiset_build, vstd::seq_lib::to_multiset_insert;

    let mut out: Vec<String> = Vec::new();
    let mut i: usize = 0;
    assert(views_list(v@.take(0)) =~= Seq::<Seq<char>>::empty());
    assert(views_list(out@) =~= Seq::<Seq<char>>::empty());
    while i < v.len()
        invariant
            i <= v@.len(),
            views_list(out@).to_multiset() == views_list(v@.take(i as int)).to_multiset(),
            forall|a: int, b: int|
                0 <= a < b < out@.len() ==> !lex_lt(tb(#[trigger] out@[b]), tb(#[trigger] out@[a])),
        decreases v@.len() - i,
    {
        let x = v[i].clone();
        let mut p: usize = 0;
        while p < out.len() && !crate::order::lex_less(x.as_str().as_bytes(), out[p].as_str().as_bytes())
            invariant
                p <= out@.len(),
                forall|k: int| 0 <= k < p ==> !lex_lt(tb(x), tb(#[trigger] out@[k])),
            decreases out@.len() - p,
        {
            p = p + 1;
        }
        let ghost before = out@;
        out.insert(p, x);
        proof {
            assert(views_list(out@) =~= views_list(before).insert(p as int, x@));
            assert(views_list(v@.take(i + 1)) =~= views_list(v@.take(i as int)).push(x@));
            vstd::seq_lib::to_multiset_build(views_list(v@.take(i as int)), x@);
            vstd::seq_lib::to_multiset_insert(views_list(before), p as int, x@);
            let px = tb(x);
            assert forall|a: int, b: int| 0 <= a < b < out@.len() implies !lex_lt(
                tb(#[trigger] out@[b]),
                tb(#[trigger] out@[a]),
            ) by {
                if a == p as int {
                    let q = tb(before[p as int]);
                    let w = tb(before[b - 1]);
                    assert(lex_lt(px, q));
                    if b - 1 > p {
                        assert(!lex_lt(w, q));
                    }
                    crate::order::lemma_lex_total(q, w);
                    if q != w {
                        crate::order::lemma_lex_transitive(px, q, w);
                    }
                    crate::order::lemma_lex_asymmetric(px, w);
                } else if b == p as int {
                    assert(!lex_lt(px, tb(before[a])));
                } else {
                    let a0 = if a < p { a } else { a - 1 };
                    let b0 = if b < p { b } else { b - 1 };
                    assert(out@[a] == before[a0] && out@[b] == before[b0]);
                }
            }
        }
        i = i + 1;
    }
    proof {
        assert(v@.take(v@.len() as int) =~= v@);
        assert forall|a: int, b: int| 0 <= a < b < views_list(out@).len() implies !lex_lt(
            text_bytes(#[trigger] views_list(out@)[b]),
            text_bytes(#[trigger] views_list(out@)[a]),
        ) by {
            assert(text_bytes(views_list(out@)[b]) == tb(out@[b]));
            assert(text_bytes(views_list(out@)[a]) == tb(out@[a]));
        }
    }
    out
}

/// The records a candidate snapshot fingerprint covers: the store's records,
/// then the principal, the configuration revision, the two package display
/// switches, and the hidden repositories in byte order.
pub fn snapshot_fingerprint_records(
    records: &Vec<String>,
    principal: &str,
    config_revision: u64,
    show_prerelease: bool,
    hide_local_user_packages: bool,
    hidden_repository_ids: &Vec<String>,
) -> (r: Vec<String>)
    ensures
        views_list(r@).len() == records@.len() + 4 + hidden_repository_ids@.len(),
        views_list(r@).take(records@.len() + 4int) == views_list(records@) + seq![
            principal@,
            crate::text::decimal_text(config_revision as nat),
            bool_text(show_prerelease),
            bool_text(hide_local_user_packages),
        ],
        sorted_copy_of(views_list(r@).skip(records@.len() + 4int), views_list(hidden_repository_ids@)),
{
    broadcast use vstd::seq_lib::to_multiset_len;

    let mut out: Vec<String> = Vec::new();
    append_texts(&mut out, records);
    push_text(&mut out, principal.to_owned());
    push_text(&mut out, crate::text::u64_to_decimal(config_revision));
    push_text(&mut out, String::from_str(bool_str(show_prerelease)));
    push_text(&mut out, String::from_str(bool_str(hide_local_user_packages)));
    let ghost head = views_list(out@);
    let sorted = sort_texts(hidden_repository_ids);
    append_texts(&mut out, &sorted);
    proof {
        assert(Seq::<String>::empty().map_values(|s: String| s@) =~= Seq::<Seq<char>>::empty());
        assert(head =~= views_list(records@) + seq![
            principal@,
            crate::text::decimal_text(config_revision as nat),
            bool_text(show_prerelease),
            bool_text(hide_local_user_packages),
        ]);
        assert(views_list(out@).take(records@.len() + 4int) =~= head);
        assert(views_list(out@).skip(records@.len() + 4int) =~= views_list(sorted@));
        assert(views_list(sorted@).to_multiset().len() == views_list(hidden_repository_ids@).to_multiset().len());
    }
    out
}

/// Two sorted copies of the same texts are the same sequence.
pub proof fn lemma_sorted_copies_equal(s: Seq<Seq<char>>, t: Seq<Seq<char>>, v: Seq<Seq<char>>)
    requires
        sorted_copy_of(s, v),
        sorted_copy_of(t, v),
    ensures
        s == t,
    decreases s.len(),
{
    broadcast use vstd::seq_lib::to_multiset_len, vstd::seq_lib::to_multiset_contains,
        vstd::seq_lib::to_multiset_remove;

    assert(s.len() == t.len()) by {
        assert(s.to_multiset().len() == t.to_multiset().len());
    }
    if s.len() == 0 {
        assert(s =~= t);
    } else {
        // Each first element is no greater than anything in its sequence.
        assert(s.to_multiset().contains(t[0]));
        assert(t.to_multiset().contains(s[0]));
        let i = choose|i: int| 0 <= i < s.len() && s[i] == t[0];
        let j = choose|j: int| 0 <= j < t.len() && t[j] == s[0];
        if i > 0 {
            assert(!lex_lt(text_bytes(s[i]), text_bytes(s[0])));
        }
        if j > 0 {
            assert(!lex_lt(text_bytes(t[j]), text_bytes(t[0])));
        }
        crate::order::lemma_lex_total(text_bytes(s[0]), text_bytes(t[0]));
        vstd::utf8::encode_utf8_decode_utf8(s[0]);
        vstd::utf8::encode_utf8_decode_utf8(t[0]);
        assert(s[0] == t[0]);
        let s1 = s.remove(0);
        let t1 = t.remove(0);
        let v1 = s1;
        assert(s1.to_multiset() == s.to_multiset().remove(s[0]));
        assert(t1.to_multiset() == t.to_multiset().remove(t[0]));
        assert forall|a: int, b: int| 0 <= a < b < s1.len() implies !lex_lt(text_bytes(#[trigger] s1[b]), text_bytes(#[trigger] s1[a])) by {
            assert(s1[a] == s[a + 1] && s1[b] == s[b + 1]);
        }
        assert forall|a: int, b: int| 0 <= a < b < t1.len() implies !lex_lt(text_bytes(#[trigger] t1[b]), text_bytes(#[trigger] t1[a])) by {
            assert(t1[a] == t[a + 1] && t1[b] == t[b + 1]);
        }
        lemma_sorted_copies_equal(s1, t1, v1);
        assert(s =~= seq![s[0]] + s1);
        assert(t =~= seq![t[0]] + t1);
    }
}

/// The snapshot fingerprint records do not depend on the order in which the
/// hidden repositories are listed: two record lists that agree on their
/// first `n` records and continue with sorted copies of the same hidden
/// repositories, in any order, are equal.
pub proof fn snapshot_records_ignore_hidden_order(
    a: Seq<Seq<char>>,
    b: Seq<Seq<char>>,
    n: int,
    hidden_a: Seq<Seq<char>>,
    hidden_b: Seq<Seq<char>>,
)
    requires
        0 <= n <= a.len(),
        0 <= n <= b.len(),
        a.take(n) == b.take(n),
        sorted_copy_of(a.skip(n), hidden_a),
        sorted_copy_of(b.skip(n), hidden_b),
        hidden_a.to_multiset() == hidden_b.to_multiset(),
    ensures
        a == b,
{
    lemma_sorted_copies_equal(a.skip(n), b.skip(n), hidden_b);
    assert(a =~= a.take(n) + a.skip(n));
    assert(b =~= b.take(n) + b.skip(n));
}

} // verus!
