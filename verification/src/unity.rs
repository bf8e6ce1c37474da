//! Unity installations, exact Editor versions, launch arguments, writer
//! observation and launch decisions.

use vstd::prelude::*;
use vstd::string::StringSliceAdditionalSpecFns;

use crate::access::AccessContext;
use crate::domain::{Permission, Revision};
use crate::ids::{ProjectId, UnityInstallationId, UnityLaunchId};
use crate::text::{is_ascii_digit, is_ascii_upper};

verus! {

/// Verified or intentionally unknown Unity executable architecture.
#[derive(Clone, Copy, Debug, PartialEq, Eq, Structural)]
pub enum UnityArchitecture {
    X86_64,
    Arm64,
    Universal,
    Unknown,
}

/// Source that produced a candidate before executable validation.
#[derive(Clone, Copy, Debug, PartialEq, Eq, Structural)]
pub enum UnitySourceKind {
    Manual,
    HubConfig,
    KnownInstallRoot,
    UnityCliHint,
}

/// Validated input ready for persistence.
#[derive(Clone, Debug, PartialEq, Eq)]
pub struct UnityInstallationObservation {
    pub executable_path: String,
    pub filesystem_identity: Vec<u8>,
    pub unity_version: String,
    pub architecture: UnityArchitecture,
    pub source_kind: UnitySourceKind,
    pub observed_at_ms: u64,
}

/// Durable Unity installation registry row.
#[derive(Clone, Debug, PartialEq, Eq)]
pub struct UnityInstallationRecord {
    pub installation_id: UnityInstallationId,
    pub observation: UnityInstallationObservation,
    pub revision: Revision,
    pub updated_at_ms: u64,
}

/// Stable tuple cursor for installation listing.
#[derive(Clone, Debug, PartialEq, Eq)]
pub struct UnityInstallationCursor {
    pub updated_at_ms: u64,
    pub installation_id: UnityInstallationId,
}

/// Bounded installation page.
#[derive(Clone, Debug, PartialEq, Eq)]
pub struct UnityInstallationPage {
    pub installations: Vec<UnityInstallationRecord>,
    pub next_cursor: Option<UnityInstallationCursor>,
}

/// Per-project safe Unity launch arguments. A missing row is represented by a
#[derive(Clone, Debug, PartialEq, Eq)]
pub struct ProjectUnityLaunchConfig {
    pub project_id: ProjectId,
    pub arguments: Vec<String>,
    pub revision: Option<Revision>,
    pub updated_at_ms: u64,
}

/// Exact one-shot launch candidates for the project's observed Unity version.
#[derive(Clone, Debug, PartialEq, Eq)]
pub struct UnityLaunchOptions {
    pub project_id: ProjectId,
    pub project_revision: Revision,
    pub project_unity_version: String,
    pub exact_matching_installations: Vec<UnityInstallationRecord>,
}

/// One short-lived, non-persisted process observation.
#[derive(Clone, Debug, PartialEq, Eq)]
pub struct UnityProcessObservation {
    pub pid: u32,
    pub start_time: u64,
    pub name: String,
    pub executable_identity: Option<Vec<u8>>,
    pub arguments: Option<Vec<String>>,
}

/// Public writer state is deliberately not a boolean.
#[derive(Clone, Copy, Debug, PartialEq, Eq, Structural)]
pub enum UnityWriterStateKind {
    RunningConfirmed,
    RunningSuspected,
    NotObserved,
    Unknown,
}

/// Safe evidence kind that never contains argv, PID or a private path.
#[derive(Clone, Copy, Debug, PartialEq, Eq, Structural)]
pub enum UnityWriterEvidenceKind {
    ProcessProjectArgument,
    ProcessUnreadable,
    InspectionError,
}

/// Safe bounded writer result.
#[derive(Clone, Debug, PartialEq, Eq)]
pub struct UnityWriterState {
    pub project_id: ProjectId,
    pub state: UnityWriterStateKind,
    pub evidence: Vec<UnityWriterEvidenceKind>,
    pub checked_at_ms: u64,
}

/// Public launch observation state.
#[derive(Clone, Copy, Debug, PartialEq, Eq, Structural)]
pub enum UnityLaunchState {
    Opening,
    Open,
    Failed,
}

/// Durable, non-sensitive launch record.
#[derive(Clone, Debug, PartialEq, Eq)]
pub struct UnityLaunchRecord {
    pub launch_id: UnityLaunchId,
    pub project_id: ProjectId,
    pub installation_id: UnityInstallationId,
    pub state: UnityLaunchState,
    pub spawn_accepted: bool,
    pub created_at_ms: u64,
}

/// Stable M5 Unity error code.
#[derive(Clone, Copy, Debug, PartialEq, Eq, Structural)]
pub enum M5UnityErrorCode {
    InvalidInput,
    PermissionDenied,
    RevisionConflict,
    IdempotencyConflict,
    ProjectNotRegistered,
    InstallationNotFound,
    InstallationInvalid,
    InstallationInUse,
    EditorSelectionRequired,
    VersionUnverified,
    VersionMismatch,
    ProjectSelectorForbidden,
    ProjectRunning,
    LaunchStateUncertain,
    LaunchFailed,
    LaunchNotFound,
    StoreUnavailable,
    Internal,
}

/// Safe Unity error with no platform detail.
#[derive(Clone, Copy, Debug, PartialEq, Eq, Structural)]
pub struct M5UnityError {
    code: M5UnityErrorCode,
}

impl M5UnityError {
    pub closed spec fn spec_code(self) -> M5UnityErrorCode {
        self.code
    }

    pub fn new(code: M5UnityErrorCode) -> (r: Self)
        ensures
            r.spec_code() == code,
    {
        M5UnityError { code }
    }

    pub fn code(&self) -> (r: M5UnityErrorCode)
        ensures
            r == self.spec_code(),
    {
        self.code
    }
}


/// The UTF-8 bytes of a string value.
pub open spec fn text_bytes(s: String) -> Seq<u8> {
    vstd::utf8::encode_utf8(s@)
}

/// End of the run of ASCII digits that starts at `i`.
pub open spec fn digit_run_end(b: Seq<u8>, i: int) -> int
    decreases b.len() - i,
{
    if 0 <= i < b.len() && is_ascii_digit(b[i]) {
        digit_run_end(b, i + 1)
    } else {
        i
    }
}

/// A decimal number starts at `start`: a digit, no leading zero unless the
/// number is a lone zero, and no zero at all unless `allow_zero`.
pub open spec fn decimal_ok(b: Seq<u8>, start: int, allow_zero: bool) -> bool {
    &&& 0 <= start < b.len()
    &&& is_ascii_digit(b[start])
    &&& (allow_zero || b[start] != 0x30)
    &&& (b[start] != 0x30 || digit_run_end(b, start + 1) == start + 1)
}

/// Where the decimal number starting at `start` ends.
pub open spec fn decimal_end(b: Seq<u8>, start: int) -> int {
    digit_run_end(b, start + 1)
}

/// A Unity release channel letter: alpha, beta, final, patch or experimental.
pub open spec fn is_channel(b: u8) -> bool {
    b == 0x61 || b == 0x62 || b == 0x66 || b == 0x70 || b == 0x78
}

/// The canonical Unity version shape `major.minor.patch<channel><increment>`
/// with an optional `c<china-increment>`, 8 to 64 bytes long. Components
/// have no leading zeros; increments are positive.
pub open spec fn unity_version_shape(b: Seq<u8>) -> bool {
    let e1 = decimal_end(b, 0);
    let e2 = decimal_end(b, e1 + 1);
    let e3 = decimal_end(b, e2 + 1);
    let e4 = decimal_end(b, e3 + 1);
    &&& 8 <= b.len() <= 64
    &&& decimal_ok(b, 0, true) && e1 < b.len() && b[e1] == 0x2e
    &&& decimal_ok(b, e1 + 1, true) && e2 < b.len() && b[e2] == 0x2e
    &&& decimal_ok(b, e2 + 1, true) && e3 < b.len() && is_channel(b[e3])
    &&& decimal_ok(b, e3 + 1, false)
    &&& (e4 == b.len() || (b[e4] == 0x63 && decimal_ok(b, e4 + 1, false) && decimal_end(b, e4 + 1) == b.len()))
}

fn run_end(bytes: &[u8], start: usize) -> (r: usize)
    requires
        start <= bytes@.len(),
    ensures
        r as int == digit_run_end(bytes@, start as int),
        start <= r <= bytes@.len(),
{
    let mut end = start;
    while end < bytes.len() && 0x30 <= bytes[end] && bytes[end] <= 0x39
        invariant
            start <= end <= bytes@.len(),
            digit_run_end(bytes@, end as int) == digit_run_end(bytes@, start as int),
        decreases bytes@.len() - end,
    {
        end = end + 1;
    }
    end
}

/// Parses the decimal number at `start`, returning where it ends; anything
/// else is `version_unverified`.
pub fn parse_decimal(bytes: &[u8], start: usize, allow_zero: bool) -> (r: Result<usize, M5UnityError>)
    ensures
        r is Ok <==> decimal_ok(bytes@, start as int, allow_zero),
        r matches Ok(end) ==> end as int == decimal_end(bytes@, start as int),
        r matches Err(e) ==> e.spec_code() == M5UnityErrorCode::VersionUnverified,
{
    if start >= bytes.len() {
        return Err(M5UnityError::new(M5UnityErrorCode::VersionUnverified));
    }
    let first = bytes[start];
    if !(0x30 <= first && first <= 0x39) || (!allow_zero && first == 0x30) {
        return Err(M5UnityError::new(M5UnityErrorCode::VersionUnverified));
    }
    let end = run_end(bytes, start + 1);
    if first == 0x30 && end > start + 1 {
        return Err(M5UnityError::new(M5UnityErrorCode::VersionUnverified));
    }
    Ok(end)
}

/// Accepts only a canonical Unity version, returned unchanged; anything
/// else is `version_unverified`.
pub fn canonical_unity_version(value: &str) -> (r: Result<String, M5UnityError>)
    ensures
        r is Ok <==> unity_version_shape(value.spec_bytes()),
        r matches Ok(s) ==> s@ == value@,
        r matches Err(e) ==> e.spec_code() == M5UnityErrorCode::VersionUnverified,
{
    let bytes = value.as_bytes();
    let n = bytes.len();
    if n < 8 || n > 64 {
        return Err(M5UnityError::new(M5UnityErrorCode::VersionUnverified));
    }
    let e1 = parse_decimal(bytes, 0, true)?;
    if e1 >= n || bytes[e1] != 0x2e {
        return Err(M5UnityError::new(M5UnityErrorCode::VersionUnverified));
    }
    let e2 = parse_decimal(bytes, e1 + 1, true)?;
    if e2 >= n || bytes[e2] != 0x2e {
        return Err(M5UnityError::new(M5UnityErrorCode::VersionUnverified));
    }
    let e3 = parse_decimal(bytes, e2 + 1, true)?;
    if e3 >= n {
        return Err(M5UnityError::new(M5UnityErrorCode::VersionUnverified));
    }
    let channel = bytes[e3];
    if !(channel == 0x61 || channel == 0x62 || channel == 0x66 || channel == 0x70 || channel == 0x78) {
        return Err(M5UnityError::new(M5UnityErrorCode::VersionUnverified));
    }
    let e4 = parse_decimal(bytes, e3 + 1, false)?;
    let mut index = e4;
    if index < n {
        if bytes[index] != 0x63 {
            return Err(M5UnityError::new(M5UnityErrorCode::VersionUnverified));
        }
        index = parse_decimal(bytes, index + 1, false)?;
    }
    if index != n {
        return Err(M5UnityError::new(M5UnityErrorCode::VersionUnverified));
    }
    Ok(value.to_owned())
}

/// Whether an installation's version is canonical and exactly the project's.
pub fn exact_unity_version(project: &str, installation: &str) -> (r: bool)
    ensures
        r == (unity_version_shape(installation.spec_bytes()) && installation@ == project@),
{
    match canonical_unity_version(installation) {
        Ok(value) => crate::text::str_eq(value.as_str(), project),
        Err(_) => false,
    }
}

/// The order in which installation sources are listed.
pub open spec fn source_rank(source: UnitySourceKind) -> u8 {
    match source {
        UnitySourceKind::Manual => 0,
        UnitySourceKind::HubConfig => 1,
        UnitySourceKind::KnownInstallRoot => 2,
        UnitySourceKind::UnityCliHint => 3,
    }
}

/// Ranks an installation source: manual first, command-line hints last.
pub fn source_order(source: UnitySourceKind) -> (r: u8)
    ensures
        r == source_rank(source),
{
    match source {
        UnitySourceKind::Manual => 0,
        UnitySourceKind::HubConfig => 1,
        UnitySourceKind::KnownInstallRoot => 2,
        UnitySourceKind::UnityCliHint => 3,
    }
}

/// ASCII lowercase of a byte.
pub open spec fn ascii_lower(b: u8) -> u8 {
    if is_ascii_upper(b) {
        (b + 32) as u8
    } else {
        b
    }
}

/// The lowercase bytes of the project selector flag, `-projectpath=`.
pub open spec fn selector_flag_bytes() -> Seq<u8> {
    seq![0x2d, 0x70, 0x72, 0x6f, 0x6a, 0x65, 0x63, 0x74, 0x70, 0x61, 0x74, 0x68, 0x3d]
}

/// The argument is `-projectPath` in any ASCII case.
pub open spec fn is_selector_flag(a: Seq<u8>) -> bool {
    a.len() == 12 && forall|i: int| 0 <= i < 12 ==> ascii_lower(#[trigger] a[i]) == selector_flag_bytes()[i]
}

/// The argument starts with `-projectPath=` in any ASCII case.
pub open spec fn is_inline_selector(a: Seq<u8>) -> bool {
    a.len() >= 13 && forall|i: int| 0 <= i < 13 ==> ascii_lower(#[trigger] a[i]) == selector_flag_bytes()[i]
}

fn lower_prefix_matches(a: &[u8], n: usize) -> (r: bool)
    requires
        n <= 13,
        n <= a@.len(),
    ensures
        r == forall|i: int| 0 <= i < n ==> ascii_lower(#[trigger] a@[i]) == selector_flag_bytes()[i],
{
    let flag: [u8; 13] = [0x2d, 0x70, 0x72, 0x6f, 0x6a, 0x65, 0x63, 0x74, 0x70, 0x61, 0x74, 0x68, 0x3d];
    assert(flag@ =~= selector_flag_bytes());
    let mut i: usize = 0;
    while i < n
        invariant
            flag@ == selector_flag_bytes(),
            n <= 13,
            n <= a@.len(),
            i <= n,
            forall|k: int| 0 <= k < i ==> ascii_lower(#[trigger] a@[k]) == selector_flag_bytes()[k],
        decreases n - i,
    {
        let b = a[i];
        let lower = if 0x41 <= b && b <= 0x5a { b + 32 } else { b };
        if lower != flag[i] {
            assert(ascii_lower(a@[i as int]) != selector_flag_bytes()[i as int]);
            return false;
        }
        i = i + 1;
    }
    true
}

/// Whether an argument is the project selector flag.
pub fn selector_flag(argument: &str) -> (r: bool)
    ensures
        r == is_selector_flag(argument.spec_bytes()),
{
    let a = argument.as_bytes();
    a.len() == 12 && lower_prefix_matches(a, 12)
}

/// Whether an argument carries the project selector inline.
pub fn inline_selector(argument: &str) -> (r: bool)
    ensures
        r == is_inline_selector(argument.spec_bytes()),
{
    let a = argument.as_bytes();
    a.len() >= 13 && lower_prefix_matches(a, 13)
}

/// The position of the first selector flag that has a value after it.
pub open spec fn first_selector(args: Seq<String>) -> int {
    choose|i: int|
        0 <= i < args.len() - 1 && is_selector_flag(text_bytes(#[trigger] args[i])) && forall|j: int|
            0 <= j < i ==> !is_selector_flag(text_bytes(#[trigger] args[j]))
}

/// Some selector flag has a value after it.
pub open spec fn has_selector(args: Seq<String>) -> bool {
    exists|i: int| 0 <= i < args.len() - 1 && is_selector_flag(text_bytes(#[trigger] args[i]))
}

/// The project an observed Unity command line selects: the argument after
/// the first `-projectPath` flag, in any ASCII case.
pub fn project_selector(arguments: &[String]) -> (r: Option<&str>)
    ensures
        r is Some <==> has_selector(arguments@),
        r matches Some(s) ==> s@ == arguments@[first_selector(arguments@) + 1]@,
{
    let n = arguments.len();
    if n < 2 {
        return None;
    }
    let mut i: usize = 0;
    while i + 1 < n
        invariant
            n == arguments@.len(),
            n >= 2,
            i <= n - 1,
            forall|j: int| 0 <= j < i ==> !is_selector_flag(text_bytes(#[trigger] arguments@[j])),
        decreases n - i,
    {
        if selector_flag(arguments[i].as_str()) {
            proof {
                let c = first_selector(arguments@);
                assert(is_selector_flag(text_bytes(arguments@[i as int])));
                assert(0 <= c < arguments@.len() - 1 && is_selector_flag(text_bytes(arguments@[c])) && forall|j: int|
                    0 <= j < c ==> !is_selector_flag(text_bytes(#[trigger] arguments@[j])));
                if c < i {
                    assert(!is_selector_flag(text_bytes(arguments@[c])));
                }
                if i < c {
                    assert(!is_selector_flag(text_bytes(arguments@[i as int])));
                }
            }
            return Some(arguments[i + 1].as_str());
        }
        i = i + 1;
    }
    None
}


/// Bytes one UTF-8 byte of an argument takes inside a JSON string: two for
/// the short escapes, six for other control characters, one otherwise (a
/// multi-byte character keeps its own length).
pub open spec fn json_byte_size(b: u8) -> int {
    if b == 0x22 || b == 0x5c || b == 0x08 || b == 0x09 || b == 0x0a || b == 0x0c || b == 0x0d {
        2
    } else if b < 0x20 {
        6
    } else {
        1
    }
}

/// Bytes the escaped contents of a JSON string take.
pub open spec fn json_text_size(t: Seq<u8>) -> int
    decreases t.len(),
{
    if t.len() == 0 {
        0
    } else {
        json_text_size(t.drop_last()) + json_byte_size(t.last())
    }
}

/// Bytes the quoted arguments take, separators not counted.
pub open spec fn json_strings_size(args: Seq<String>) -> int
    decreases args.len(),
{
    if args.len() == 0 {
        0
    } else {
        json_strings_size(args.drop_last()) + 2 + json_text_size(text_bytes(args.last()))
    }
}

/// Bytes of the compact JSON array of the arguments.
pub open spec fn json_array_size(args: Seq<String>) -> int {
    2 + (if args.len() > 0 { args.len() - 1 } else { 0 }) + json_strings_size(args)
}

proof fn lemma_json_text_size_prefix(t: Seq<u8>, k: int)
    requires
        0 <= k <= t.len(),
    ensures
        json_text_size(t.take(k)) <= json_text_size(t),
        json_text_size(t) >= 0,
    decreases t.len(),
{
    if t.len() > 0 {
        if k == t.len() {
            lemma_json_text_size_prefix(t.drop_last(), 0);
            assert(t.take(k) =~= t);
        } else {
            lemma_json_text_size_prefix(t.drop_last(), k);
            assert(t.drop_last().take(k) =~= t.take(k));
        }
    }
}

proof fn lemma_json_strings_size_prefix(args: Seq<String>, k: int)
    requires
        0 <= k <= args.len(),
    ensures
        json_strings_size(args.take(k)) <= json_strings_size(args),
    decreases args.len(),
{
    if args.len() > 0 {
        if k == args.len() {
            assert(args.take(k) =~= args);
        } else {
            lemma_json_strings_size_prefix(args.drop_last(), k);
            assert(args.drop_last().take(k) =~= args.take(k));
            lemma_json_text_size_prefix(text_bytes(args.last()), 0);
        }
    }
}

proof fn lemma_json_text_size_ge_len(t: Seq<u8>)
    ensures
        json_text_size(t) >= t.len(),
    decreases t.len(),
{
    if t.len() > 0 {
        lemma_json_text_size_ge_len(t.drop_last());
    }
}

proof fn lemma_json_strings_size_covers(args: Seq<String>, j: int)
    requires
        0 <= j < args.len(),
    ensures
        json_strings_size(args) >= 2 + json_text_size(text_bytes(args[j])),
    decreases args.len(),
{
    if j == args.len() - 1 {
        lemma_json_strings_size_prefix(args.drop_last(), 0);
        assert(args.drop_last().take(0).len() == 0);
    } else {
        lemma_json_strings_size_covers(args.drop_last(), j);
        lemma_json_text_size_prefix(text_bytes(args.last()), 0);
    }
}

/// Adds the escaped size of one argument, failing on overflow.
fn add_text_size(size: usize, t: &[u8]) -> (r: Option<usize>)
    ensures
        r is Some <==> size + json_text_size(t@) <= usize::MAX,
        r matches Some(n) ==> n == size + json_text_size(t@),
{
    let mut total = size;
    let mut i: usize = 0;
    while i < t.len()
        invariant
            i <= t@.len(),
            total == size + json_text_size(t@.take(i as int)),
        decreases t@.len() - i,
    {
        proof {
            assert(t@.take(i + 1).drop_last() =~= t@.take(i as int));
        }
        let b = t[i];
        let encoded: usize = if b == 0x22 || b == 0x5c || b == 0x08 || b == 0x09 || b == 0x0a || b == 0x0c
            || b == 0x0d {
            2
        } else if b < 0x20 {
            6
        } else {
            1
        };
        match total.checked_add(encoded) {
            Some(v) => total = v,
            None => {
                proof {
                    lemma_json_text_size_prefix(t@, i + 1);
                }
                return None;
            },
        }
        i = i + 1;
    }
    assert(t@.take(i as int) =~= t@);
    Some(total)
}

/// Size of the compact JSON array of the arguments, or `None` when it does
/// not fit in `usize`.
pub fn json_arguments_size(arguments: &[String]) -> (r: Option<usize>)
    ensures
        r is Some <==> json_array_size(arguments@) <= usize::MAX,
        r matches Some(n) ==> n == json_array_size(arguments@),
{
    let separators: usize = if arguments.len() > 0 { arguments.len() - 1 } else { 0 };
    let mut size: usize = match 2usize.checked_add(separators) {
        Some(v) => v,
        None => {
            proof {
                lemma_json_strings_size_prefix(arguments@, 0);
                assert(arguments@.take(0).len() == 0);
            }
            return None;
        },
    };
    let mut i: usize = 0;
    while i < arguments.len()
        invariant
            i <= arguments@.len(),
            size == 2 + separators + json_strings_size(arguments@.take(i as int)),
            separators == (if arguments@.len() > 0 { arguments@.len() - 1 } else { 0 }),
        decreases arguments@.len() - i,
    {
        proof {
            assert(arguments@.take(i + 1).drop_last() =~= arguments@.take(i as int));
            assert(arguments@.take(i + 1).last() == arguments@[i as int]);
        }
        let quoted = match size.checked_add(2) {
            Some(v) => v,
            None => {
                proof {
                    lemma_json_strings_size_prefix(arguments@, i + 1);
                    lemma_json_text_size_prefix(text_bytes(arguments@[i as int]), 0);
                }
                return None;
            },
        };
        match add_text_size(quoted, arguments[i].as_str().as_bytes()) {
            Some(v) => size = v,
            None => {
                proof {
                    lemma_json_strings_size_prefix(arguments@, i + 1);
                }
                return None;
            },
        }
        i = i + 1;
    }
    assert(arguments@.take(i as int) =~= arguments@);
    Some(size)
}

/// Why a launch argument list is refused, if it is.
pub open spec fn arguments_error(args: Seq<String>) -> Option<M5UnityErrorCode> {
    if json_array_size(args) > usize::MAX {
        Some(M5UnityErrorCode::InvalidInput)
    } else if exists|i: int|
        0 <= i < args.len() && (is_selector_flag(text_bytes(#[trigger] args[i])) || is_inline_selector(
            text_bytes(args[i]),
        )) {
        Some(M5UnityErrorCode::ProjectSelectorForbidden)
    } else if args.len() > 64 || json_array_size(args) > 65_536 || exists|i: int|
        0 <= i < args.len() && text_bytes(#[trigger] args[i]).len() > 4_096 {
        Some(M5UnityErrorCode::InvalidInput)
    } else {
        None
    }
}

/// Checks saved launch arguments: a user may never choose the project
/// (`project_selector_forbidden`), and the list is bounded to 64 arguments
/// of at most 4096 bytes and 64 KiB of JSON (`invalid_input`).
pub fn validate_arguments(arguments: &[String]) -> (r: Result<(), M5UnityError>)
    ensures
        r is Ok <==> arguments_error(arguments@) is None,
        r matches Err(e) ==> arguments_error(arguments@) == Some(e.spec_code()),
{
    let encoded_size = match json_arguments_size(arguments) {
        Some(v) => v,
        None => return Err(M5UnityError::new(M5UnityErrorCode::InvalidInput)),
    };
    let mut i: usize = 0;
    while i < arguments.len()
        invariant
            i <= arguments@.len(),
            encoded_size == json_array_size(arguments@),
            forall|j: int|
                0 <= j < i ==> !(is_selector_flag(text_bytes(#[trigger] arguments@[j])) || is_inline_selector(
                    text_bytes(arguments@[j]),
                )),
        decreases arguments@.len() - i,
    {
        let a = arguments[i].as_str();
        if selector_flag(a) || inline_selector(a) {
            assert(is_selector_flag(text_bytes(arguments@[i as int])) || is_inline_selector(text_bytes(arguments@[i as int])));
            return Err(M5UnityError::new(M5UnityErrorCode::ProjectSelectorForbidden));
        }
        i = i + 1;
    }
    if arguments.len() > 64 || encoded_size > 65_536 {
        return Err(M5UnityError::new(M5UnityErrorCode::InvalidInput));
    }
    proof {
        assert forall|j: int| 0 <= j < arguments@.len() implies text_bytes(#[trigger] arguments@[j]).len()
            <= 65_536 by {
            lemma_json_strings_size_covers(arguments@, j);
            lemma_json_text_size_ge_len(text_bytes(arguments@[j]));
        }
    }
    let mut k: usize = 0;
    while k < arguments.len()
        invariant
            forall|j: int| 0 <= j < arguments@.len() ==> text_bytes(#[trigger] arguments@[j]).len() <= 65_536,
            k <= arguments@.len(),
            arguments@.len() <= 64,
            encoded_size == json_array_size(arguments@),
            encoded_size <= 65_536,
            forall|j: int|
                0 <= j < arguments@.len() ==> !(is_selector_flag(text_bytes(#[trigger] arguments@[j]))
                    || is_inline_selector(text_bytes(arguments@[j]))),
            forall|j: int| 0 <= j < k ==> text_bytes(#[trigger] arguments@[j]).len() <= 4_096,
        decreases arguments@.len() - k,
    {
        if arguments[k].as_str().len() > 4_096 {
            assert(text_bytes(arguments@[k as int]).len() > 4_096);
            return Err(M5UnityError::new(M5UnityErrorCode::InvalidInput));
        }
        k = k + 1;
    }
    Ok(())
}

/// Requires one Unity permission, answering `permission_denied`.
pub fn require_m5(access: &AccessContext, permission: Permission) -> (r: Result<(), M5UnityError>)
    ensures
        r is Ok <==> access@.permissions.contains(permission),
        r matches Err(e) ==> e.spec_code() == M5UnityErrorCode::PermissionDenied,
{
    if access.require(permission).is_err() {
        return Err(M5UnityError::new(M5UnityErrorCode::PermissionDenied));
    }
    Ok(())
}

/// Rejects an installation page size outside 1..=1000 with `invalid_input`.
pub fn validate_installation_limit(limit: u32) -> (r: Result<(), M5UnityError>)
    ensures
        r is Ok <==> 1 <= limit <= 1_000,
        r matches Err(e) ==> e.spec_code() == M5UnityErrorCode::InvalidInput,
{
    if 1 <= limit && limit <= 1_000 {
        Ok(())
    } else {
        Err(M5UnityError::new(M5UnityErrorCode::InvalidInput))
    }
}


/// Two byte strings are equal ignoring ASCII case.
pub open spec fn ascii_case_equal(a: Seq<u8>, b: Seq<u8>) -> bool {
    a.len() == b.len() && forall|i: int| 0 <= i < a.len() ==> ascii_lower(#[trigger] a[i]) == ascii_lower(b[i])
}

/// Compares two byte strings ignoring ASCII case.
pub fn eq_ignore_ascii_case(a: &[u8], b: &[u8]) -> (r: bool)
    ensures
        r == ascii_case_equal(a@, b@),
{
    if a.len() != b.len() {
        return false;
    }
    let mut i: usize = 0;
    while i < a.len()
        invariant
            a@.len() == b@.len(),
            i <= a@.len(),
            forall|k: int| 0 <= k < i ==> ascii_lower(#[trigger] a@[k]) == ascii_lower(b@[k]),
        decreases a@.len() - i,
    {
        let x = if 0x41 <= a[i] && a[i] <= 0x5a { a[i] + 32 } else { a[i] };
        let y = if 0x41 <= b[i] && b[i] <= 0x5a { b[i] + 32 } else { b[i] };
        if x != y {
            assert(ascii_lower(a@[i as int]) != ascii_lower(b@[i as int]));
            return false;
        }
        i = i + 1;
    }
    true
}

/// Compares two byte strings.
pub fn bytes_equal(a: &Vec<u8>, b: &Vec<u8>) -> (r: bool)
    ensures
        r == (a@ == b@),
{
    crate::text::bytes_eq(a.as_slice(), b.as_slice())
}

/// What one observed process says about a project's writer.
#[derive(Clone, Debug, PartialEq, Eq)]
pub enum ProcessVerdict {
    /// Not a Unity process, or not a real one.
    Ignore,
    /// Unity may be writing, but the project cannot be confirmed.
    Suspect,
    /// A known Unity Editor selecting this path; its identity decides.
    CheckSelector(String),
}

/// The process runs a registered Unity executable.
pub open spec fn known_executable(process: UnityProcessObservation, installations: Seq<UnityInstallationRecord>) -> bool {
    match process.executable_identity {
        Some(identity) => exists|k: int|
            0 <= k < installations.len() && (#[trigger] installations[k]).observation.filesystem_identity@
                == identity@,
        None => false,
    }
}

/// The process is named like the Unity Editor.
pub open spec fn unity_by_name(name: Seq<u8>) -> bool {
    ascii_case_equal(name, "unity"@.map_values(|c: char| c as u8)) || ascii_case_equal(
        name,
        "unity.exe"@.map_values(|c: char| c as u8),
    )
}

/// The process says nothing about a writer: not a real process, or neither
/// named Unity nor running a registered Editor.
pub open spec fn process_ignored(process: UnityProcessObservation, installations: Seq<UnityInstallationRecord>) -> bool {
    process.pid == 0 || process.start_time == 0 || (!unity_by_name(text_bytes(process.name))
        && !known_executable(process, installations))
}

/// The process is a registered Editor whose command line selects a project.
pub open spec fn process_selects(process: UnityProcessObservation, installations: Seq<UnityInstallationRecord>) -> bool {
    &&& !process_ignored(process, installations)
    &&& known_executable(process, installations)
    &&& process.arguments matches Some(args) && has_selector(args@)
}

fn is_known_executable(identity: &Vec<u8>, installations: &[UnityInstallationRecord]) -> (r: bool)
    ensures
        r == exists|k: int|
            0 <= k < installations@.len() && (#[trigger] installations@[k]).observation.filesystem_identity@
                == identity@,
{
    let mut k: usize = 0;
    while k < installations.len()
        invariant
            k <= installations@.len(),
            forall|j: int|
                0 <= j < k ==> (#[trigger] installations@[j]).observation.filesystem_identity@ != identity@,
        decreases installations@.len() - k,
    {
        if bytes_equal(&installations[k].observation.filesystem_identity, identity) {
            return true;
        }
        k = k + 1;
    }
    false
}

/// Classifies one observed process: ignored unless it is a real process
/// named Unity or running a registered Editor; suspected unless it runs a
/// registered Editor whose command line selects a project.
pub fn classify_process(process: &UnityProcessObservation, installations: &[UnityInstallationRecord]) -> (r: ProcessVerdict)
    ensures
        r is Ignore <==> process_ignored(*process, installations@),
        r is CheckSelector <==> process_selects(*process, installations@),
        r matches ProcessVerdict::CheckSelector(sel) ==> process.arguments matches Some(args) && sel@
            == args@[first_selector(args@) + 1]@,
{
    if process.pid == 0 || process.start_time == 0 {
        return ProcessVerdict::Ignore;
    }
    let name = process.name.as_str().as_bytes();
    let unity_name: &[u8] = "unity".as_bytes();
    let unity_exe: &[u8] = "unity.exe".as_bytes();
    proof {
        reveal_strlit("unity");
        reveal_strlit("unity.exe");
        vstd::utf8::is_ascii_chars_encode_utf8("unity"@);
        vstd::utf8::is_ascii_chars_encode_utf8("unity.exe"@);
        assert(unity_name@ =~= "unity"@.map_values(|c: char| c as u8));
        assert(unity_exe@ =~= "unity.exe"@.map_values(|c: char| c as u8));
    }
    let by_name = eq_ignore_ascii_case(name, unity_name) || eq_ignore_ascii_case(name, unity_exe);
    let known = match &process.executable_identity {
        Some(identity) => is_known_executable(identity, installations),
        None => false,
    };
    if !by_name && !known {
        return ProcessVerdict::Ignore;
    }
    if !known {
        return ProcessVerdict::Suspect;
    }
    match &process.arguments {
        None => ProcessVerdict::Suspect,
        Some(arguments) => match project_selector(arguments.as_slice()) {
            Some(selector) => ProcessVerdict::CheckSelector(selector.to_owned()),
            None => ProcessVerdict::Suspect,
        },
    }
}

/// What the identity of a selected path says.
#[derive(Clone, Copy, Debug, PartialEq, Eq, Structural)]
pub enum SelectorVerdict {
    /// The path is this project: its writer is confirmed running.
    Confirmed,
    /// The path is another project.
    OtherProject,
    /// The identity could not be read: the writer is suspected.
    Suspect,
}

/// Judges the identity of a selected path against the project's.
pub fn selector_verdict(identity: Option<&Vec<u8>>, project_identity: &Vec<u8>) -> (r: SelectorVerdict)
    ensures
        r == match identity {
            Some(id) => if id@ == project_identity@ {
                SelectorVerdict::Confirmed
            } else {
                SelectorVerdict::OtherProject
            },
            None => SelectorVerdict::Suspect,
        },
{
    match identity {
        Some(id) => if bytes_equal(id, project_identity) {
            SelectorVerdict::Confirmed
        } else {
            SelectorVerdict::OtherProject
        },
        None => SelectorVerdict::Suspect,
    }
}

/// The writer state after every process was judged without confirmation.
pub fn unconfirmed_writer_state(suspected: bool) -> (r: (UnityWriterStateKind, Vec<UnityWriterEvidenceKind>))
    ensures
        r.0 == if suspected {
            UnityWriterStateKind::RunningSuspected
        } else {
            UnityWriterStateKind::NotObserved
        },
        r.1@ == if suspected {
            seq![UnityWriterEvidenceKind::ProcessUnreadable]
        } else {
            Seq::<UnityWriterEvidenceKind>::empty()
        },
{
    if suspected {
        (UnityWriterStateKind::RunningSuspected, vec![UnityWriterEvidenceKind::ProcessUnreadable])
    } else {
        (UnityWriterStateKind::NotObserved, Vec::new())
    }
}

/// A launch may start only when no writer is observed: a confirmed writer is
/// `project_running`, a suspected or unknown one `launch_state_uncertain`.
pub fn launch_writer_gate(state: UnityWriterStateKind) -> (r: Result<(), M5UnityError>)
    ensures
        r is Ok <==> state == UnityWriterStateKind::NotObserved,
        state == UnityWriterStateKind::RunningConfirmed ==> (r matches Err(e) && e.spec_code()
            == M5UnityErrorCode::ProjectRunning),
        (state == UnityWriterStateKind::RunningSuspected || state == UnityWriterStateKind::Unknown)
            ==> (r matches Err(e) && e.spec_code() == M5UnityErrorCode::LaunchStateUncertain),
{
    match state {
        UnityWriterStateKind::RunningConfirmed => Err(M5UnityError::new(M5UnityErrorCode::ProjectRunning)),
        UnityWriterStateKind::RunningSuspected | UnityWriterStateKind::Unknown => Err(
            M5UnityError::new(M5UnityErrorCode::LaunchStateUncertain),
        ),
        UnityWriterStateKind::NotObserved => Ok(()),
    }
}

/// A replayed launch answers its recorded outcome: a failed one is `launch_failed`.
pub fn replayed_launch_outcome(state: UnityLaunchState) -> (r: Result<(), M5UnityError>)
    ensures
        r is Ok <==> state != UnityLaunchState::Failed,
        r matches Err(e) ==> e.spec_code() == M5UnityErrorCode::LaunchFailed,
{
    if state == UnityLaunchState::Failed {
        Err(M5UnityError::new(M5UnityErrorCode::LaunchFailed))
    } else {
        Ok(())
    }
}

/// What to do once a launch was accepted.
#[derive(Clone, Copy, Debug, PartialEq, Eq, Structural)]
pub enum AcceptedLaunchStep {
    /// The replayed launch failed before.
    Fail,
    /// The replayed launch was already spawned.
    ReturnReplayed,
    /// Spawn the Editor now.
    Spawn,
}

/// Decides the step after the store accepted a launch.
pub fn accepted_launch_step(replayed: bool, state: UnityLaunchState, spawn_accepted: bool) -> (r: AcceptedLaunchStep)
    ensures
        r == if replayed && state == UnityLaunchState::Failed {
            AcceptedLaunchStep::Fail
        } else if replayed && spawn_accepted {
            AcceptedLaunchStep::ReturnReplayed
        } else {
            AcceptedLaunchStep::Spawn
        },
{
    if replayed && state == UnityLaunchState::Failed {
        AcceptedLaunchStep::Fail
    } else if replayed && spawn_accepted {
        AcceptedLaunchStep::ReturnReplayed
    } else {
        AcceptedLaunchStep::Spawn
    }
}

/// The launch state a status poll records from the writer state.
pub fn launch_status_next(writer: UnityWriterStateKind) -> (r: UnityLaunchState)
    ensures
        r == match writer {
            UnityWriterStateKind::RunningConfirmed => UnityLaunchState::Open,
            UnityWriterStateKind::NotObserved => UnityLaunchState::Failed,
            _ => UnityLaunchState::Opening,
        },
{
    match writer {
        UnityWriterStateKind::RunningConfirmed => UnityLaunchState::Open,
        UnityWriterStateKind::NotObserved => UnityLaunchState::Failed,
        UnityWriterStateKind::RunningSuspected | UnityWriterStateKind::Unknown => UnityLaunchState::Opening,
    }
}

/// Fails with `revision_conflict` unless the project is at the expected revision.
pub fn require_project_revision(current: Revision, expected: Revision) -> (r: Result<(), M5UnityError>)
    ensures
        r is Ok <==> current == expected,
        r matches Err(e) ==> e.spec_code() == M5UnityErrorCode::RevisionConflict,
{
    if current != expected {
        return Err(M5UnityError::new(M5UnityErrorCode::RevisionConflict));
    }
    Ok(())
}


/// The installations whose version is exactly `version`, in order.
pub open spec fn select_exact(s: Seq<UnityInstallationRecord>, version: Seq<char>) -> Seq<UnityInstallationRecord>
    decreases s.len(),
{
    if s.len() == 0 {
        s
    } else {
        let rest = select_exact(s.drop_last(), version);
        let last = s.last();
        if unity_version_shape(text_bytes(last.observation.unity_version)) && last.observation.unity_version@
            == version {
            rest.push(last)
        } else {
            rest
        }
    }
}

/// Keeps, in order, the installations that exactly match a project's
/// canonical Unity version.
pub fn exact_matching_installations(installations: Vec<UnityInstallationRecord>, version: &str) -> (r: Vec<UnityInstallationRecord>)
    ensures
        r@ == select_exact(installations@, version@),
{
    let ghost orig = installations@;
    let mut rest = installations;
    let mut out: Vec<UnityInstallationRecord> = Vec::new();
    while rest.len() > 0
        invariant
            rest@.len() <= orig.len(),
            rest@ == orig.skip(orig.len() - rest@.len()),
            out@ == select_exact(orig.take(orig.len() - rest@.len()), version@),
        decreases rest@.len(),
    {
        let ghost k = orig.len() - rest@.len();
        let x = rest.remove(0);
        proof {
            assert(orig[k] == x);
            assert(orig.take(k + 1).drop_last() =~= orig.take(k));
            assert(orig.take(k + 1).last() == x);
            assert(rest@ =~= orig.skip(k + 1));
        }
        if exact_unity_version(version, x.observation.unity_version.as_str()) {
            out.push(x);
        }
    }
    assert(orig.take(orig.len() as int) =~= orig);
    out
}


/// What one running process says of the project's writer.
#[derive(Clone, Copy, Debug, PartialEq, Eq, Structural)]
pub enum WriterObservation {
    /// The process is not a Unity Editor that matters.
    Ignored,
    /// A Unity process that cannot be ruled out.
    Suspected,
    /// A known Unity Editor selecting a path, judged by that path's identity.
    Selected(SelectorVerdict),
}

/// Some process confirms a Unity Editor on the project.
pub open spec fn writer_confirmed(observations: Seq<WriterObservation>) -> bool {
    exists|i: int| 0 <= i < observations.len() && observations[i] == WriterObservation::Selected(SelectorVerdict::Confirmed)
}

/// Some process leaves a Unity Editor on the project possible.
pub open spec fn writer_suspected(observations: Seq<WriterObservation>) -> bool {
    exists|i: int|
        0 <= i < observations.len() && (observations[i] == WriterObservation::Suspected || observations[i]
            == WriterObservation::Selected(SelectorVerdict::Suspect))
}

/// The writer state that the processes running on the machine add up to:
/// confirmed with the project-argument evidence when any known editor
/// selects the project's own path; otherwise suspected, with unreadable
/// process evidence, when any Unity process cannot be ruled out; otherwise
/// not observed.
pub fn writer_state_of(observations: &Vec<WriterObservation>) -> (r: (UnityWriterStateKind, Vec<UnityWriterEvidenceKind>))
    ensures
        r.0 == if writer_confirmed(observations@) {
            UnityWriterStateKind::RunningConfirmed
        } else if writer_suspected(observations@) {
            UnityWriterStateKind::RunningSuspected
        } else {
            UnityWriterStateKind::NotObserved
        },
        r.1@ == if writer_confirmed(observations@) {
            seq![UnityWriterEvidenceKind::ProcessProjectArgument]
        } else if writer_suspected(observations@) {
            seq![UnityWriterEvidenceKind::ProcessUnreadable]
        } else {
            Seq::<UnityWriterEvidenceKind>::empty()
        },
{
    let mut suspected = false;
    let mut i: usize = 0;
    while i < observations.len()
        invariant
            i <= observations@.len(),
            forall|k: int| 0 <= k < i ==> observations@[k] != WriterObservation::Selected(SelectorVerdict::Confirmed),
            suspected <==> exists|k: int|
                0 <= k < i && (observations@[k] == WriterObservation::Suspected || observations@[k]
                    == WriterObservation::Selected(SelectorVerdict::Suspect)),
        decreases observations@.len() - i,
    {
        match observations[i] {
            WriterObservation::Selected(SelectorVerdict::Confirmed) => {
                return (UnityWriterStateKind::RunningConfirmed, vec![UnityWriterEvidenceKind::ProcessProjectArgument]);
            },
            WriterObservation::Suspected | WriterObservation::Selected(SelectorVerdict::Suspect) => {
                suspected = true;
            },
            _ => {},
        }
        proof {
            if suspected {
                if !(observations@[i as int] == WriterObservation::Suspected || observations@[i as int]
                    == WriterObservation::Selected(SelectorVerdict::Suspect)) {
                    let k = choose|k: int|
                        0 <= k < i && (observations@[k] == WriterObservation::Suspected || observations@[k]
                            == WriterObservation::Selected(SelectorVerdict::Suspect));
                    assert(0 <= k < i + 1);
                }
            }
        }
        i = i + 1;
    }
    unconfirmed_writer_state(suspected)
}

} // verus!
