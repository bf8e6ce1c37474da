//! Signed extension packages: the limits of an archive, the allowed
//! roots and names of its entries, the validation of its manifest and the
//! strict verification of its publisher signature.

use vstd::prelude::*;
use vstd::string::StringExecFns;
use vstd::string::StringSliceAdditionalSpecFns;

use crate::extensions::{valid_extension_id, valid_extension_id_bytes};
use crate::order::{lex_lt, strictly_sorted};
use crate::text::{is_ascii_digit, is_ascii_lower, is_lower_hex};

verus! {

/// Path of the manifest inside a package.
pub const MANIFEST_PATH: &'static str = "alcomd-extension.toml";

/// Path of the signature envelope inside a package.
pub const SIGNATURE_PATH: &'static str = "META-INF/alcomd-signature-v1.json";

/// Path of the background component inside a package.
pub const COMPONENT_PATH: &'static str = "component/extension.wasm";

/// Largest package archive.
pub const MAX_ARCHIVE_BYTES: u64 = 67_108_864;

/// Most entries one archive may hold.
pub const MAX_ENTRIES: usize = 1_024;

/// Largest uncompressed entry.
pub const MAX_ENTRY_BYTES: u64 = 33_554_432;

/// Largest uncompressed total.
pub const MAX_TOTAL_BYTES: u64 = 134_217_728;

/// Largest manifest.
pub const MAX_MANIFEST_BYTES: u64 = 65_536;

/// Largest signature envelope.
pub const MAX_SIGNATURE_BYTES: u64 = 8_192;

/// Largest UI tree.
pub const MAX_UI_BYTES: u64 = 67_108_864;

/// Deepest entry path.
pub const MAX_PATH_DEPTH: usize = 16;

/// Longest normalized entry path.
pub const MAX_PATH_BYTES: usize = 512;

/// Largest ratio between an entry's expanded and compressed size.
pub const MAX_EXPANSION_RATIO: u64 = 100;

/// Why an extension package was rejected.
#[derive(Clone, Copy, Debug, PartialEq, Eq, Structural)]
pub enum PackageErrorCode {
    Io,
    InvalidArchive,
    ArchiveLimitExceeded,
    UnsafePath,
    PathCollision,
    UnsupportedEntry,
    ManifestInvalid,
    SignatureInvalid,
}

/// An extension package rejection.
#[derive(Clone, Copy, Debug, PartialEq, Eq, Structural)]
pub struct PackageError {
    code: PackageErrorCode,
}

impl PackageError {
    pub closed spec fn spec_code(self) -> PackageErrorCode {
        self.code
    }

    /// A rejection with this code.
    pub fn new(code: PackageErrorCode) -> (r: Self)
        ensures
            r.spec_code() == code,
    {
        PackageError { code }
    }

    /// The rejection code.
    pub fn code(&self) -> (r: PackageErrorCode)
        ensures
            r == self.spec_code(),
    {
        self.code
    }
}

#[derive(Clone, Debug, PartialEq, Eq)]
pub struct ExtensionManifest {
    pub schema: u32,
    pub id: String,
    pub name: String,
    pub version: String,
    pub api: u32,
    pub publisher_name: String,
    pub publisher_key_fingerprint: String,
    pub license: String,
    pub entrypoints: ManifestEntrypoints,
    pub interfaces: ManifestRequirements,
    pub permissions: ManifestRequirements,
}

#[derive(Clone, Debug, PartialEq, Eq)]
pub struct ManifestEntrypoints {
    pub background_component: Option<String>,
    pub ui_entry: Option<String>,
}

#[derive(Clone, Debug, PartialEq, Eq)]
pub struct ManifestRequirements {
    pub required: Vec<String>,
    pub optional: Vec<String>,
}

#[derive(Clone, Debug, PartialEq, Eq)]
pub struct VerifiedExtensionPackage {
    pub manifest: ExtensionManifest,
    pub package_digest: [u8; 32],
    pub manifest_digest: [u8; 32],
    pub component_digest: [u8; 32],
    pub publisher_fingerprint: String,
}

/// The signature envelope of a package.
#[derive(Clone, Debug, PartialEq, Eq)]
pub struct SignatureEnvelope {
    pub format_version: u32,
    pub algorithm: String,
    pub package_digest: String,
    pub public_key: String,
    pub publisher_fingerprint: String,
    pub signature: String,
}

/// The byte length of a string.
pub open spec fn sb(s: String) -> Seq<u8> {
    vstd::utf8::encode_utf8(s@)
}

/// A permission name: 3 to 128 lowercase letters, digits, `.` and `-`.
pub open spec fn permission_ok(b: Seq<u8>) -> bool {
    &&& 3 <= b.len() <= 128
    &&& forall|i: int| 0 <= i < b.len() ==> is_ascii_lower(#[trigger] b[i]) || is_ascii_digit(b[i]) || b[i] == 0x2e || b[i] == 0x2d
}

/// Checks a permission name.
pub fn valid_permission(value: &str) -> (r: bool)
    ensures
        r == permission_ok(value.spec_bytes()),
{
    let b = value.as_bytes();
    if b.len() < 3 || b.len() > 128 {
        return false;
    }
    let mut i: usize = 0;
    while i < b.len()
        invariant
            b@ == value.spec_bytes(),
            i <= b@.len(),
            forall|k: int| 0 <= k < i ==> is_ascii_lower(#[trigger] b@[k]) || is_ascii_digit(b@[k]) || b@[k] == 0x2e || b@[k] == 0x2d,
        decreases b@.len() - i,
    {
        let c = b[i];
        if !((0x61 <= c && c <= 0x7a) || (0x30 <= c && c <= 0x39) || c == 0x2e || c == 0x2d) {
            return false;
        }
        i = i + 1;
    }
    true
}

/// The bytes of `ed25519-sha256:`.
pub open spec fn fingerprint_prefix() -> Seq<u8> {
    vstd::utf8::encode_utf8("ed25519-sha256:"@)
}

/// A publisher fingerprint: `ed25519-sha256:` and 64 lowercase hexadecimal digits.
pub open spec fn fingerprint_ok(b: Seq<u8>) -> bool {
    &&& b.len() == 79
    &&& b.take(15) == fingerprint_prefix()
    &&& forall|i: int| 15 <= i < 79 ==> is_lower_hex(#[trigger] b[i])
}

/// Checks a publisher fingerprint.
pub fn valid_fingerprint(value: &str) -> (r: bool)
    ensures
        r == fingerprint_ok(value.spec_bytes()),
{
    let b = value.as_bytes();
    if b.len() != 79 {
        return false;
    }
    let prefix = "ed25519-sha256:".as_bytes();
    if !crate::text::bytes_eq(vstd::slice::slice_subrange(b, 0, 15), prefix) {
        proof {
            assert(b@.subrange(0, 15) =~= b@.take(15));
        }
        return false;
    }
    assert(b@.subrange(0, 15) =~= b@.take(15));
    let mut i: usize = 15;
    while i < 79
        invariant
            b@ == value.spec_bytes(),
            b@.len() == 79,
            15 <= i <= 79,
            forall|k: int| 15 <= k < i ==> is_lower_hex(#[trigger] b@[k]),
        decreases 79 - i,
    {
        let c = b[i];
        if !((0x30 <= c && c <= 0x39) || (0x61 <= c && c <= 0x66)) {
            return false;
        }
        i = i + 1;
    }
    true
}


/// Lowercase hexadecimal text of a byte string.
pub open spec fn hex_text(b: Seq<u8>) -> Seq<char> {
    Seq::new(
        2 * b.len(),
        |i: int|
            if i % 2 == 0 {
                crate::uuids::hex_char((b[i / 2] / 16) as int)
            } else {
                crate::uuids::hex_char((b[i / 2] % 16) as int)
            },
    )
}

/// Lowercase hexadecimal text of a byte string.
pub fn hex(bytes: &[u8]) -> (r: String)
    ensures
        r@ == hex_text(bytes@),
{
    let mut out = String::new();
    let mut i: usize = 0;
    while i < bytes.len()
        invariant
            i <= bytes@.len(),
            out@ == hex_text(bytes@.take(i as int)),
        decreases bytes@.len() - i,
    {
        let b = bytes[i];
        out.append(crate::text::hex_digit_str(b / 16));
        out.append(crate::text::hex_digit_str(b % 16));
        proof {
            assert(out@ =~= hex_text(bytes@.take(i + 1)));
        }
        i = i + 1;
    }
    proof {
        assert(bytes@.take(i as int) =~= bytes@);
    }
    out
}

/// The value of a hexadecimal digit of either case.
pub open spec fn hex_digit_value(c: u8) -> Option<u8> {
    if 0x30 <= c <= 0x39 {
        Some((c - 0x30) as u8)
    } else if 0x61 <= c <= 0x66 {
        Some((c - 0x61 + 10) as u8)
    } else if 0x41 <= c <= 0x46 {
        Some((c - 0x41 + 10) as u8)
    } else {
        None
    }
}

/// The byte a two-character radix-16 number spells, a leading `+` allowed.
pub open spec fn hex_pair_value(a: u8, b: u8) -> Option<u8> {
    if a == 0x2b {
        hex_digit_value(b)
    } else {
        match (hex_digit_value(a), hex_digit_value(b)) {
            (Some(x), Some(y)) => Some((16 * x + y) as u8),
            _ => None,
        }
    }
}

/// Whether a text spells `n` bytes, two characters each.
pub open spec fn hex_decodes(b: Seq<u8>, n: nat) -> bool {
    &&& b.len() == 2 * n
    &&& forall|i: int| 0 <= i < n ==> (#[trigger] hex_pair_value(b[2 * i], b[2 * i + 1])) is Some
}

fn digit_value(c: u8) -> (r: Option<u8>)
    ensures
        r == hex_digit_value(c),
{
    if 0x30 <= c && c <= 0x39 {
        Some(c - 0x30)
    } else if 0x61 <= c && c <= 0x66 {
        Some(c - 0x61 + 10)
    } else if 0x41 <= c && c <= 0x46 {
        Some(c - 0x41 + 10)
    } else {
        None
    }
}

fn pair_value(a: u8, b: u8) -> (r: Option<u8>)
    ensures
        r == hex_pair_value(a, b),
{
    if a == 0x2b {
        return digit_value(b);
    }
    match (digit_value(a), digit_value(b)) {
        (Some(x), Some(y)) => Some(16 * x + y),
        _ => None,
    }
}

/// Decodes `n` bytes from hexadecimal text; any other length or an
/// unparsable pair is an invalid signature.
pub fn decode_hex(value: &str, n: usize) -> (r: Result<Vec<u8>, PackageError>)
    requires
        n <= 1024,
    ensures
        r is Ok <==> hex_decodes(value.spec_bytes(), n as nat),
        r matches Ok(v) ==> v@.len() == n && forall|i: int|
            0 <= i < n ==> Some(#[trigger] v@[i]) == hex_pair_value(value.spec_bytes()[2 * i], value.spec_bytes()[2 * i + 1]),
        r matches Err(e) ==> e.spec_code() == PackageErrorCode::SignatureInvalid,
{
    let b = value.as_bytes();
    if b.len() != 2 * n {
        return Err(PackageError::new(PackageErrorCode::SignatureInvalid));
    }
    let mut out: Vec<u8> = Vec::new();
    let mut i: usize = 0;
    while i < n
        invariant
            b@ == value.spec_bytes(),
            b@.len() == 2 * n,
            n <= 1024,
            i <= n,
            out@.len() == i,
            forall|k: int| 0 <= k < i ==> Some(#[trigger] out@[k]) == hex_pair_value(b@[2 * k], b@[2 * k + 1]),
        decreases n - i,
    {
        match pair_value(b[2 * i], b[2 * i + 1]) {
            Some(v) => out.push(v),
            None => {
                assert(hex_pair_value(b@[2 * i], b@[2 * i + 1]) is None);
                return Err(PackageError::new(PackageErrorCode::SignatureInvalid));
            },
        }
        i = i + 1;
    }
    proof {
        assert forall|k: int| 0 <= k < n implies (#[trigger] hex_pair_value(b@[2 * k], b@[2 * k + 1])) is Some by {
            assert(Some(out@[k]) == hex_pair_value(b@[2 * k], b@[2 * k + 1]));
        }
    }
    Ok(out)
}

/// The roots a package entry may live under: the manifest, the signature,
/// and the `META-INF`, `component` and `ui` trees (and, for directories,
/// those roots themselves).
pub open spec fn allowed_root(p: Seq<char>, directory: bool) -> bool {
    ||| (directory && (p == "META-INF"@ || p == "component"@ || p == "ui"@))
    ||| p == "alcomd-extension.toml"@
    ||| p == "META-INF/alcomd-signature-v1.json"@
    ||| crate::text::has_prefix(vstd::utf8::encode_utf8(p), vstd::utf8::encode_utf8("META-INF/"@))
    ||| crate::text::has_prefix(vstd::utf8::encode_utf8(p), vstd::utf8::encode_utf8("component/"@))
    ||| crate::text::has_prefix(vstd::utf8::encode_utf8(p), vstd::utf8::encode_utf8("ui/"@))
}

/// Checks that an entry lives under an allowed root.
pub fn validate_allowed_root(path: &str, directory: bool) -> (r: Result<(), PackageError>)
    ensures
        r is Ok <==> allowed_root(path@, directory),
        r matches Err(e) ==> e.spec_code() == PackageErrorCode::UnsafePath,
{
    let b = path.as_bytes();
    if (directory && (crate::text::str_eq(path, "META-INF") || crate::text::str_eq(path, "component")
        || crate::text::str_eq(path, "ui"))) || crate::text::str_eq(path, MANIFEST_PATH) || crate::text::str_eq(
        path,
        SIGNATURE_PATH,
    ) || crate::text::starts_with_bytes(b, "META-INF/".as_bytes()) || crate::text::starts_with_bytes(
        b,
        "component/".as_bytes(),
    ) || crate::text::starts_with_bytes(b, "ui/".as_bytes()) {
        Ok(())
    } else {
        Err(PackageError::new(PackageErrorCode::UnsafePath))
    }
}

/// Whether a text is a semantic version.
pub uninterp spec fn semver_valid(text: Seq<char>) -> bool;

/// Whether bytes are the UTF-8 encoding of a semantic version.
pub open spec fn semver_bytes_valid(b: Seq<u8>) -> bool {
    vstd::utf8::valid_utf8(b) && semver_valid(vstd::utf8::decode_utf8(b))
}

/// Calls `semver::Version::parse` on a text. The version grammar is not
/// restated; the contract names the verdict `semver_valid` of the text.
#[verifier::external_body]
fn semver_parses(text: &str) -> (r: bool)
    ensures
        r == semver_valid(text@),
{
    semver::Version::parse(text).is_ok()
}

/// Whether bytes are UTF-8 text that is a semantic version.
fn semver_bytes(bytes: &[u8]) -> (r: bool)
    ensures
        r == semver_bytes_valid(bytes@),
{
    match crate::archive::utf8_text(bytes) {
        Some(text) => semver_parses(text.as_str()),
        None => false,
    }
}

/// The number of `.` bytes of a text.
pub open spec fn dot_count(b: Seq<u8>) -> nat
    decreases b.len(),
{
    if b.len() == 0 {
        0
    } else {
        dot_count(b.drop_last()) + if b.last() == 0x2e {
            1nat
        } else {
            0nat
        }
    }
}

/// An interface name: at most 128 bytes with a `:` and a `/`, ending in
/// `@` and a three-part semantic version after its last `@`.
pub open spec fn interface_ok(b: Seq<u8>) -> bool {
    &&& b.len() <= 128
    &&& exists|i: int| 0 <= i < b.len() && #[trigger] b[i] == 0x3a
    &&& exists|i: int| 0 <= i < b.len() && #[trigger] b[i] == 0x2f
    &&& exists|k: int|
        0 <= k < b.len() && #[trigger] b[k] == 0x40 && (forall|j: int| k < j < b.len() ==> #[trigger] b[j] != 0x40)
            && semver_bytes_valid(b.subrange(k + 1, b.len() as int)) && dot_count(b.subrange(k + 1, b.len() as int)) == 2
}

pub(crate) fn contains_byte(b: &[u8], x: u8) -> (r: bool)
    ensures
        r == exists|i: int| 0 <= i < b@.len() && #[trigger] b@[i] == x,
{
    let mut i: usize = 0;
    while i < b.len()
        invariant
            i <= b@.len(),
            forall|k: int| 0 <= k < i ==> #[trigger] b@[k] != x,
        decreases b@.len() - i,
    {
        if b[i] == x {
            return true;
        }
        i = i + 1;
    }
    false
}

fn count_dots(b: &[u8]) -> (r: usize)
    ensures
        r == dot_count(b@),
{
    let mut n: usize = 0;
    let mut i: usize = 0;
    while i < b.len()
        invariant
            i <= b@.len(),
            n == dot_count(b@.take(i as int)),
            n <= i,
        decreases b@.len() - i,
    {
        assert(b@.take(i + 1).drop_last() =~= b@.take(i as int));
        if b[i] == 0x2e {
            n = n + 1;
        }
        i = i + 1;
    }
    assert(b@.take(i as int) =~= b@);
    n
}

/// Checks an interface name.
pub fn valid_interface(value: &str) -> (r: bool)
    ensures
        r == interface_ok(value.spec_bytes()),
{
    let b = value.as_bytes();
    if b.len() > 128 || !contains_byte(b, 0x3a) || !contains_byte(b, 0x2f) {
        return false;
    }
    let n = b.len();
    let mut k: usize = n;
    while k > 0 && b[k - 1] != 0x40
        invariant
            b@ == value.spec_bytes(),
            n == b@.len(),
            k <= n,
            forall|j: int| k <= j < n ==> #[trigger] b@[j] != 0x40,
        decreases k,
    {
        k = k - 1;
    }
    if k == 0 {
        return false;
    }
    let at = k - 1;
    let version = vstd::slice::slice_subrange(b, at + 1, n);
    let ok = semver_bytes(version) && count_dots(version) == 2;
    proof {
        if !ok {
            if interface_ok(b@) {
                let k2 = choose|k2: int|
                    0 <= k2 < b@.len() && #[trigger] b@[k2] == 0x40 && (forall|j: int| k2 < j < b@.len() ==> #[trigger] b@[j] != 0x40)
                        && semver_bytes_valid(b@.subrange(k2 + 1, b@.len() as int)) && dot_count(b@.subrange(k2 + 1, b@.len() as int)) == 2;
                if k2 < at {
                    assert(b@[at as int] != 0x40);
                } else if k2 > at {
                    assert(b@[k2] != 0x40);
                }
            }
        } else {
            assert(b@[at as int] == 0x40);
        }
    }
    ok
}

/// Which names a requirement list holds.
#[derive(Clone, Copy, Debug, PartialEq, Eq, Structural)]
pub enum RequirementKind {
    Interface,
    Permission,
}

/// Whether a name is valid for a requirement kind.
pub open spec fn requirement_name_ok(kind: RequirementKind, b: Seq<u8>) -> bool {
    match kind {
        RequirementKind::Interface => interface_ok(b),
        RequirementKind::Permission => permission_ok(b),
    }
}

/// A requirement list: at most `maximum` valid names in strictly increasing
/// byte order.
pub open spec fn requirement_list_ok(v: Seq<String>, maximum: usize, kind: RequirementKind) -> bool {
    &&& v.len() <= maximum
    &&& forall|i: int| 0 <= i < v.len() - 1 ==> lex_lt(sb(#[trigger] v[i]), sb(v[i + 1]))
    &&& forall|i: int| 0 <= i < v.len() ==> requirement_name_ok(kind, sb(#[trigger] v[i]))
}

/// Valid requirements: both lists valid, and nothing both required and optional.
pub open spec fn requirements_ok(r: ManifestRequirements, maximum: usize, kind: RequirementKind) -> bool {
    &&& requirement_list_ok(r.required@, maximum, kind)
    &&& requirement_list_ok(r.optional@, maximum, kind)
    &&& forall|i: int, j: int|
        0 <= i < r.required@.len() && 0 <= j < r.optional@.len() ==> (#[trigger] r.required@[i])@ != (
        #[trigger] r.optional@[j])@
}

fn requirement_list_valid(v: &Vec<String>, maximum: usize, kind: RequirementKind) -> (r: bool)
    ensures
        r == requirement_list_ok(v@, maximum, kind),
{
    if v.len() > maximum {
        return false;
    }
    let mut i: usize = 0;
    while i < v.len()
        invariant
            v@.len() <= maximum,
            i <= v@.len(),
            forall|k: int| 0 <= k < i && k < v@.len() - 1 ==> lex_lt(sb(#[trigger] v@[k]), sb(v@[k + 1])),
            forall|k: int| 0 <= k < i ==> requirement_name_ok(kind, sb(#[trigger] v@[k])),
        decreases v@.len() - i,
    {
        let name = v[i].as_str();
        let ok = match kind {
            RequirementKind::Interface => valid_interface(name),
            RequirementKind::Permission => valid_permission(name),
        };
        if !ok {
            return false;
        }
        if i + 1 < v.len() && !crate::order::lex_less(name.as_bytes(), v[i + 1].as_str().as_bytes()) {
            return false;
        }
        i = i + 1;
    }
    true
}

/// Checks the requirement lists of a manifest.
pub fn valid_requirements(values: &ManifestRequirements, maximum: usize, kind: RequirementKind) -> (r: bool)
    ensures
        r == requirements_ok(*values, maximum, kind),
{
    if !requirement_list_valid(&values.required, maximum, kind) || !requirement_list_valid(
        &values.optional,
        maximum,
        kind,
    ) {
        return false;
    }
    let mut i: usize = 0;
    while i < values.required.len()
        invariant
            i <= values.required@.len(),
            forall|a: int, b: int|
                0 <= a < i && 0 <= b < values.optional@.len() ==> (#[trigger] values.required@[a])@ != (
                #[trigger] values.optional@[b])@,
        decreases values.required@.len() - i,
    {
        let mut j: usize = 0;
        while j < values.optional.len()
            invariant
                i < values.required@.len(),
                j <= values.optional@.len(),
                forall|a: int, b: int|
                    0 <= a < i && 0 <= b < values.optional@.len() ==> (#[trigger] values.required@[a])@ != (
                    #[trigger] values.optional@[b])@,
                forall|b: int| 0 <= b < j ==> values.required@[i as int]@ != (#[trigger] values.optional@[b])@,
            decreases values.optional@.len() - j,
        {
            if crate::text::str_eq(values.required[i].as_str(), values.optional[j].as_str()) {
                return false;
            }
            j = j + 1;
        }
        i = i + 1;
    }
    true
}

/// The checks a parsed manifest passes: schema and API version one, a
/// valid identifier and semantic version, bounded non-empty names and
/// license, the fixed background component, a publisher fingerprint,
/// valid interface and permission requirements, and a UI entry, if any,
/// under `ui/` and at most 512 bytes.
pub open spec fn manifest_ok(m: ExtensionManifest) -> bool {
    &&& m.schema == 1
    &&& m.api == 1
    &&& valid_extension_id_bytes(sb(m.id))
    &&& semver_valid(m.version@)
    &&& 1 <= sb(m.name).len() <= 120
    &&& 1 <= sb(m.publisher_name).len() <= 120
    &&& 1 <= sb(m.license).len() <= 128
    &&& (m.entrypoints.background_component matches Some(c) && c@ == "component/extension.wasm"@)
    &&& fingerprint_ok(sb(m.publisher_key_fingerprint))
    &&& requirements_ok(m.interfaces, 32, RequirementKind::Interface)
    &&& requirements_ok(m.permissions, 64, RequirementKind::Permission)
    &&& (m.entrypoints.ui_entry matches Some(ui) ==> crate::text::has_prefix(sb(ui), vstd::utf8::encode_utf8("ui/"@))
        && sb(ui).len() <= MAX_PATH_BYTES)
}

/// Validates a parsed manifest.
pub fn validate_manifest(manifest: &ExtensionManifest) -> (r: Result<(), PackageError>)
    ensures
        r is Ok <==> manifest_ok(*manifest),
        r matches Err(e) ==> e.spec_code() == PackageErrorCode::ManifestInvalid,
{
    let invalid = PackageError::new(PackageErrorCode::ManifestInvalid);
    let component_ok = match &manifest.entrypoints.background_component {
        Some(c) => crate::text::str_eq(c.as_str(), COMPONENT_PATH),
        None => false,
    };
    let name = manifest.name.as_str().as_bytes().len();
    let publisher = manifest.publisher_name.as_str().as_bytes().len();
    let license = manifest.license.as_str().as_bytes().len();
    if manifest.schema != 1 || manifest.api != 1 || !valid_extension_id(manifest.id.as_str()) || !semver_parses(
        manifest.version.as_str(),
    ) || name == 0 || name > 120 || publisher == 0 || publisher > 120 || license == 0 || license > 128
        || !component_ok || !valid_fingerprint(manifest.publisher_key_fingerprint.as_str()) || !valid_requirements(
        &manifest.interfaces,
        32,
        RequirementKind::Interface,
    ) || !valid_requirements(&manifest.permissions, 64, RequirementKind::Permission) {
        return Err(invalid);
    }
    if let Some(ui) = &manifest.entrypoints.ui_entry {
        let b = ui.as_str().as_bytes();
        if !crate::text::starts_with_bytes(b, "ui/".as_bytes()) || b.len() > MAX_PATH_BYTES {
            return Err(invalid);
        }
    }
    Ok(())
}

/// Manifest text may not begin with a byte order mark or hold a NUL byte.
pub open spec fn manifest_text_ok(b: Seq<u8>) -> bool {
    &&& !crate::text::has_prefix(b, seq![0xefu8, 0xbbu8, 0xbfu8])
    &&& forall|i: int| 0 <= i < b.len() ==> #[trigger] b[i] != 0
}

/// Checks manifest text before it is parsed.
pub fn check_manifest_text(text: &str) -> (r: Result<(), PackageError>)
    ensures
        r is Ok <==> manifest_text_ok(text.spec_bytes()),
        r matches Err(e) ==> e.spec_code() == PackageErrorCode::ManifestInvalid,
{
    let b = text.as_bytes();
    let bom: [u8; 3] = [0xef, 0xbb, 0xbf];
    assert(bom@ =~= seq![0xefu8, 0xbbu8, 0xbfu8]);
    if crate::text::starts_with_bytes(b, bom.as_slice()) || contains_byte(b, 0) {
        return Err(PackageError::new(PackageErrorCode::ManifestInvalid));
    }
    Ok(())
}

/// The text of manifest bytes: UTF-8 that passes `check_manifest_text`.
pub fn manifest_text(bytes: &[u8]) -> (r: Result<String, PackageError>)
    ensures
        r is Ok <==> (vstd::utf8::valid_utf8(bytes@) && manifest_text_ok(bytes@)),
        r matches Ok(text) ==> text@ == vstd::utf8::decode_utf8(bytes@),
        r matches Err(e) ==> e.spec_code() == PackageErrorCode::ManifestInvalid,
{
    let text = match crate::archive::utf8_text(bytes) {
        Some(t) => t,
        None => {
            return Err(PackageError::new(PackageErrorCode::ManifestInvalid));
        },
    };
    proof {
        vstd::utf8::decode_utf8_encode_utf8(bytes@);
    }
    check_manifest_text(text.as_str())?;
    Ok(text)
}

/// The SHA-256 digest of a file's bytes.
pub fn file_digest(bytes: &[u8]) -> (r: [u8; 32])
    ensures
        r@ == crate::host_protocol::sha256_of(bytes@),
{
    crate::host_protocol::sha256(bytes)
}

/// Whether an Ed25519 public key strictly accepts a signature of a message.
pub uninterp spec fn ed25519_strict_accepts(public_key: Seq<u8>, message: Seq<u8>, signature: Seq<u8>) -> bool;

/// Calls `ed25519_dalek::VerifyingKey::from_bytes` on the 32 key bytes and
/// `verify_strict` with the 64 signature bytes; a key that does not
/// decompress rejects. The curve arithmetic is not restated; the contract
/// names the verdict `ed25519_strict_accepts` of the three byte strings.
#[verifier::external_body]
fn ed25519_verify_strict(public_key: &[u8], message: &[u8], signature: &[u8]) -> (r: bool)
    requires
        public_key@.len() == 32,
        signature@.len() == 64,
    ensures
        r == ed25519_strict_accepts(public_key@, message@, signature@),
{
    let key: [u8; 32] = public_key.try_into().unwrap_or([0; 32]);
    let signature: [u8; 64] = signature.try_into().unwrap_or([0; 64]);
    match ed25519_dalek::VerifyingKey::from_bytes(&key) {
        Ok(key) => key.verify_strict(message, &ed25519_dalek::Signature::from_bytes(&signature)).is_ok(),
        Err(_) => false,
    }
}

/// The bytes signed by a publisher: the domain separator and the package digest.
pub open spec fn signed_message(package_digest: Seq<u8>) -> Seq<u8> {
    vstd::utf8::encode_utf8("ALCOMD-EXT-SIGNATURE-V1\0"@) + package_digest
}

/// The fingerprint of a public key: `ed25519-sha256:` and the hexadecimal
/// digest of the key.
pub open spec fn key_fingerprint(public_key: Seq<u8>) -> Seq<char> {
    "ed25519-sha256:"@ + hex_text(crate::host_protocol::sha256_of(public_key))
}

/// The envelope fields a valid signature has: format one, Ed25519, the
/// package digest in hexadecimal, and the manifest's publisher fingerprint.
pub open spec fn envelope_fields_ok(m: ExtensionManifest, package_digest: Seq<u8>, e: SignatureEnvelope) -> bool {
    &&& e.format_version == 1
    &&& e.algorithm@ == "ed25519"@
    &&& e.package_digest@ == hex_text(package_digest)
    &&& e.publisher_fingerprint@ == m.publisher_key_fingerprint@
    &&& fingerprint_ok(sb(e.publisher_fingerprint))
}

/// The decoded 32 key bytes of an envelope.
pub open spec fn envelope_key(e: SignatureEnvelope) -> Seq<u8> {
    Seq::new(32, |i: int| hex_pair_value(sb(e.public_key)[2 * i], sb(e.public_key)[2 * i + 1])->0)
}

/// The decoded 64 signature bytes of an envelope.
pub open spec fn envelope_signature(e: SignatureEnvelope) -> Seq<u8> {
    Seq::new(64, |i: int| hex_pair_value(sb(e.signature)[2 * i], sb(e.signature)[2 * i + 1])->0)
}

/// A valid package signature: the envelope fields, a decodable key and
/// signature, a fingerprint that is the key's, and a strict Ed25519
/// acceptance of the signed message.
pub open spec fn signature_ok(m: ExtensionManifest, package_digest: Seq<u8>, e: SignatureEnvelope) -> bool {
    &&& envelope_fields_ok(m, package_digest, e)
    &&& hex_decodes(sb(e.public_key), 32)
    &&& hex_decodes(sb(e.signature), 64)
    &&& e.publisher_fingerprint@ == key_fingerprint(envelope_key(e))
    &&& ed25519_strict_accepts(envelope_key(e), signed_message(package_digest), envelope_signature(e))
}

/// Verifies the publisher signature of a package.
pub fn verify_signature(
    manifest: &ExtensionManifest,
    package_digest: [u8; 32],
    envelope: &SignatureEnvelope,
) -> (r: Result<(), PackageError>)
    ensures
        r is Ok <==> signature_ok(*manifest, package_digest@, *envelope),
        r matches Err(e) ==> e.spec_code() == PackageErrorCode::SignatureInvalid,
{
    let invalid = PackageError::new(PackageErrorCode::SignatureInvalid);
    let digest_text = hex(package_digest.as_slice());
    if envelope.format_version != 1 || !crate::text::str_eq(envelope.algorithm.as_str(), "ed25519")
        || !crate::text::str_eq(envelope.package_digest.as_str(), digest_text.as_str()) || !crate::text::str_eq(
        envelope.publisher_fingerprint.as_str(),
        manifest.publisher_key_fingerprint.as_str(),
    ) || !valid_fingerprint(envelope.publisher_fingerprint.as_str()) {
        return Err(invalid);
    }
    let public_key = decode_hex(envelope.public_key.as_str(), 32)?;
    let signature = decode_hex(envelope.signature.as_str(), 64)?;
    proof {
        assert(public_key@ =~= envelope_key(*envelope));
        assert(signature@ =~= envelope_signature(*envelope));
    }
    let key_digest = crate::host_protocol::sha256(public_key.as_slice());
    let mut expected = String::new();
    expected.append("ed25519-sha256:");
    let key_hex = hex(key_digest.as_slice());
    expected.append(key_hex.as_str());
    if !crate::text::str_eq(envelope.publisher_fingerprint.as_str(), expected.as_str()) {
        return Err(invalid);
    }
    let mut message: Vec<u8> = Vec::new();
    crate::domain::append_bytes(&mut message, "ALCOMD-EXT-SIGNATURE-V1\0".as_bytes());
    crate::domain::append_bytes(&mut message, package_digest.as_slice());
    if !ed25519_verify_strict(public_key.as_slice(), message.as_slice(), signature.as_slice()) {
        return Err(invalid);
    }
    Ok(())
}

/// The ASCII uppercase of a byte.
pub open spec fn ascii_upper(c: u8) -> u8 {
    if 0x61 <= c <= 0x7a {
        (c - 32) as u8
    } else {
        c
    }
}

/// The position of the first `.` of a segment, or its length.
pub open spec fn first_dot(b: Seq<u8>) -> int
    decreases b.len(),
{
    if b.len() == 0 {
        0
    } else if b[0] == 0x2e {
        0
    } else {
        1 + first_dot(b.skip(1))
    }
}

/// Whether three bytes spell a word, ignoring ASCII case.
pub open spec fn upper_is(b: Seq<u8>, w: Seq<u8>) -> bool {
    b.len() == w.len() && forall|i: int| 0 <= i < b.len() ==> ascii_upper(#[trigger] b[i]) == w[i]
}

/// Whether a segment names a Windows device: its stem before the first `.`
/// is `CON`, `PRN`, `AUX` or `NUL`, or `COM` or `LPT` and one digit 1 to 9,
/// in any ASCII case.
pub open spec fn device_segment(b: Seq<u8>) -> bool {
    let stem = b.take(first_dot(b));
    ||| upper_is(stem, seq![0x43u8, 0x4fu8, 0x4eu8])
    ||| upper_is(stem, seq![0x50u8, 0x52u8, 0x4eu8])
    ||| upper_is(stem, seq![0x41u8, 0x55u8, 0x58u8])
    ||| upper_is(stem, seq![0x4eu8, 0x55u8, 0x4cu8])
    ||| (stem.len() == 4 && (upper_is(stem.take(3), seq![0x43u8, 0x4fu8, 0x4du8]) || upper_is(
        stem.take(3),
        seq![0x4cu8, 0x50u8, 0x54u8],
    )) && 0x31 <= stem[3] <= 0x39)
}

proof fn lemma_first_dot(b: Seq<u8>)
    ensures
        0 <= first_dot(b) <= b.len(),
        forall|i: int| 0 <= i < first_dot(b) ==> #[trigger] b[i] != 0x2e,
        first_dot(b) < b.len() ==> b[first_dot(b)] == 0x2e,
    decreases b.len(),
{
    if b.len() > 0 && b[0] != 0x2e {
        lemma_first_dot(b.skip(1));
        assert forall|i: int| 0 <= i < first_dot(b) implies #[trigger] b[i] != 0x2e by {
            if i > 0 {
                assert(b[i] == b.skip(1)[i - 1]);
            }
        }
    }
}

fn upper(c: u8) -> (r: u8)
    ensures
        r == ascii_upper(c),
{
    if 0x61 <= c && c <= 0x7a {
        c - 32
    } else {
        c
    }
}

fn stem_is(b: &[u8], w0: u8, w1: u8, w2: u8) -> (r: bool)
    requires
        b@.len() >= 3,
    ensures
        r == upper_is(b@.take(3), seq![w0, w1, w2]),
{
    let r = upper(b[0]) == w0 && upper(b[1]) == w1 && upper(b[2]) == w2;
    proof {
        let t = b@.take(3);
        if r {
            assert forall|i: int| 0 <= i < t.len() implies ascii_upper(#[trigger] t[i]) == seq![w0, w1, w2][i] by {
                if i == 0 {
                } else if i == 1 {
                } else {
                }
            }
        } else {
            if upper_is(t, seq![w0, w1, w2]) {
                assert(ascii_upper(t[0]) == w0);
                assert(ascii_upper(t[1]) == w1);
                assert(ascii_upper(t[2]) == w2);
            }
        }
    }
    r
}

/// Whether a path segment names a Windows device.
pub fn windows_device_segment(segment: &str) -> (r: bool)
    ensures
        r == device_segment(segment.spec_bytes()),
{
    let b = segment.as_bytes();
    let mut n: usize = 0;
    while n < b.len() && b[n] != 0x2e
        invariant
            n <= b@.len(),
            forall|i: int| 0 <= i < n ==> #[trigger] b@[i] != 0x2e,
        decreases b@.len() - n,
    {
        n = n + 1;
    }
    proof {
        lemma_first_dot(b@);
        let f = first_dot(b@);
        if f < n {
            assert(b@[f] == 0x2e);
        }
        if n < f {
            assert(b@[n as int] == 0x2e);
        }
        assert(f == n);
    }
    let stem = vstd::slice::slice_subrange(b, 0, n);
    assert(stem@ =~= b@.take(n as int));
    if n == 3 {
        assert(stem@.take(3) =~= stem@);
        let r = stem_is(stem, 0x43, 0x4f, 0x4e) || stem_is(stem, 0x50, 0x52, 0x4e) || stem_is(stem, 0x41, 0x55, 0x58)
            || stem_is(stem, 0x4e, 0x55, 0x4c);
        return r;
    }
    if n == 4 {
        let r = (stem_is(stem, 0x43, 0x4f, 0x4d) || stem_is(stem, 0x4c, 0x50, 0x54)) && 0x31 <= stem[3]
            && stem[3] <= 0x39;
        return r;
    }
    false
}

/// Whether any segment of a path names a Windows device.
pub fn is_windows_device_name(segments: &Vec<String>) -> (r: bool)
    ensures
        r == exists|i: int| 0 <= i < segments@.len() && device_segment(sb(#[trigger] segments@[i])),
{
    let mut i: usize = 0;
    while i < segments.len()
        invariant
            i <= segments@.len(),
            forall|k: int| 0 <= k < i ==> !device_segment(sb(#[trigger] segments@[k])),
        decreases segments@.len() - i,
    {
        if windows_device_segment(segments[i].as_str()) {
            return true;
        }
        i = i + 1;
    }
    false
}
} // verus!
