//! Entry names of an extension archive: the normal form of a path, its
//! case-folded collision key, and the table of names already admitted.

use vstd::prelude::*;
use vstd::string::StringExecFns;
use vstd::string::StringSliceAdditionalSpecFns;
use unicode_normalization::UnicodeNormalization;

use crate::package::{device_segment, is_windows_device_name, PackageError, PackageErrorCode};
use crate::order::{lemma_lex_asymmetric, lemma_lex_total, lemma_lex_transitive, lex_less, lex_lt};
use crate::text::text_chars;

verus! {

/// The Unicode canonical composition (NFC) of a text.
pub uninterp spec fn nfc_text(text: Seq<char>) -> Seq<char>;

/// Calls `UnicodeNormalization::nfc` of `unicode-normalization` on the text
/// and collects the characters. The normalization tables are not restated;
/// the contract names the result `nfc_text` of the characters.
#[verifier::external_body]
fn nfc_of(text: &str) -> (r: String)
    ensures
        r@ == nfc_text(text@),
{
    text.nfc().collect::<String>()
}

/// The lowercase mapping of one character, as `char::to_lowercase` yields it.
pub uninterp spec fn lowercase_of(c: char) -> Seq<char>;

/// Calls `char::to_lowercase` and collects the characters it yields. The
/// Unicode case tables are not restated; the contract names the result
/// `lowercase_of` of the character.
#[verifier::external_body]
fn char_lowercase(c: char) -> (r: String)
    ensures
        r@ == lowercase_of(c),
{
    c.to_lowercase().collect::<String>()
}

/// Calls `String::push`, which appends one character.
#[verifier::external_body]
fn push_char(s: &mut String, c: char)
    ensures
        final(s)@ == old(s)@.push(c),
{
    s.push(c)
}

/// An ASCII control character (`U+0000`..`U+001F` or `U+007F`). In UTF-8
/// these are exactly the bytes that `u8::is_ascii_control` accepts.
pub open spec fn is_control(c: char) -> bool {
    (c as u32) < 0x20 || (c as u32) == 0x7f
}

/// The checks on a raw entry name before it is split: not empty, not
/// absolute, no backslash and no control character.
pub open spec fn raw_path_ok(raw: Seq<char>) -> bool {
    &&& raw.len() > 0
    &&& raw[0] != '/'
    &&& raw[0] != '\\'
    &&& forall|i: int| 0 <= i < raw.len() ==> #[trigger] raw[i] != '\\' && !is_control(raw[i])
}

/// The name without one trailing `/`.
pub open spec fn trim_slash(raw: Seq<char>) -> Seq<char> {
    if raw.len() > 0 && raw.last() == '/' {
        raw.drop_last()
    } else {
        raw
    }
}

/// One character of a scan that splits a text at `/`: the finished pieces
/// and the piece being read.
pub open spec fn split_step(acc: (Seq<Seq<char>>, Seq<char>), c: char) -> (Seq<Seq<char>>, Seq<char>) {
    if c == '/' {
        (acc.0.push(acc.1), Seq::empty())
    } else {
        (acc.0, acc.1.push(c))
    }
}

/// The scan of a whole text.
pub open spec fn split_scan(s: Seq<char>) -> (Seq<Seq<char>>, Seq<char>)
    decreases s.len(),
{
    if s.len() == 0 {
        (Seq::empty(), Seq::empty())
    } else {
        split_step(split_scan(s.drop_last()), s.last())
    }
}

/// The pieces of a text between `/` characters, as `str::split('/')` gives
/// them.
pub open spec fn split_slash(s: Seq<char>) -> Seq<Seq<char>> {
    split_scan(s).0.push(split_scan(s).1)
}

/// The pieces joined with `/`.
pub open spec fn join_slash(segments: Seq<Seq<char>>) -> Seq<char>
    decreases segments.len(),
{
    if segments.len() == 0 {
        Seq::empty()
    } else if segments.len() == 1 {
        segments[0]
    } else {
        join_slash(segments.drop_last()) + seq!['/'] + segments.last()
    }
}

/// A path segment that is safe on every platform: not empty, not `.` or
/// `..`, no `:`, and not ending in `.` or space.
pub open spec fn segment_ok(segment: Seq<char>) -> bool {
    &&& segment.len() > 0
    &&& segment != seq!['.']
    &&& segment != seq!['.', '.']
    &&& !segment.contains(':')
    &&& segment.last() != '.'
    &&& segment.last() != ' '
}

/// The segments of a raw entry name.
pub open spec fn raw_segments(raw: Seq<char>) -> Seq<Seq<char>> {
    split_slash(trim_slash(raw))
}

/// The normal form of an entry name: each segment in NFC, joined by `/`.
pub open spec fn normalized_path(raw: Seq<char>) -> Seq<char> {
    join_slash(raw_segments(raw).map_values(|s: Seq<char>| nfc_text(s)))
}

/// The text with every character replaced by its lowercase mapping.
pub open spec fn lower_text(s: Seq<char>) -> Seq<char>
    decreases s.len(),
{
    if s.len() == 0 {
        Seq::empty()
    } else {
        lower_text(s.drop_last()) + lowercase_of(s.last())
    }
}

/// Whether an entry name is accepted: safe raw text, at most
/// `MAX_PATH_DEPTH` safe segments, a normal form of at most
/// `MAX_PATH_BYTES` bytes, and no segment that names a Windows device.
pub open spec fn path_ok(raw: Seq<char>) -> bool {
    &&& raw_path_ok(raw)
    &&& trim_slash(raw).len() > 0
    &&& raw_segments(raw).len() <= crate::package::MAX_PATH_DEPTH
    &&& forall|i: int| 0 <= i < raw_segments(raw).len() ==> segment_ok(#[trigger] raw_segments(raw)[i])
    &&& vstd::utf8::encode_utf8(normalized_path(raw)).len() <= crate::package::MAX_PATH_BYTES
    &&& !exists|i: int|
        0 <= i < raw_segments(raw).len() && device_segment(vstd::utf8::encode_utf8(#[trigger] raw_segments(raw)[i]))
}

fn is_control_char(c: char) -> (r: bool)
    ensures
        r == is_control(c),
{
    (c as u32) < 0x20 || (c as u32) == 0x7f
}

/// Splits `chars[..end]` at `/`.
fn split_chars(chars: &Vec<char>, end: usize) -> (r: Vec<String>)
    requires
        end <= chars@.len(),
    ensures
        r@.map_values(|s: String| s@) == split_slash(chars@.take(end as int)),
{
    let mut done: Vec<String> = Vec::new();
    let mut cur = String::new();
    let mut i: usize = 0;
    while i < end
        invariant
            end <= chars@.len(),
            i <= end,
            split_scan(chars@.take(i as int)) == (done@.map_values(|s: String| s@), cur@),
        decreases end - i,
    {
        let c = chars[i];
        proof {
            assert(chars@.take(i + 1).drop_last() =~= chars@.take(i as int));
        }
        if c == '/' {
            let finished = cur;
            cur = String::new();
            proof {
                assert(done@.push(finished).map_values(|s: String| s@) =~= done@.map_values(|s: String| s@).push(finished@));
            }
            done.push(finished);
        } else {
            push_char(&mut cur, c);
        }
        i = i + 1;
    }
    let ghost before = done@;
    done.push(cur);
    proof {
        assert(done@.map_values(|s: String| s@) =~= before.map_values(|s: String| s@).push(cur@));
    }
    done
}

fn segment_check(segment: &String) -> (r: bool)
    ensures
        r == segment_ok(segment@),
{
    let cs = text_chars(segment.as_str());
    let n = cs.len();
    if n == 0 {
        return false;
    }
    if cs[n - 1] == '.' || cs[n - 1] == ' ' {
        return false;
    }
    let mut i: usize = 0;
    while i < n
        invariant
            n == cs@.len(),
            cs@ == segment@,
            i <= n,
            forall|k: int| 0 <= k < i ==> cs@[k] != ':',
        decreases n - i,
    {
        if cs[i] == ':' {
            assert(segment@[i as int] == ':');
            return false;
        }
        i = i + 1;
    }
    proof {
        assert(segment@.last() != '.');
        if segment@ == seq!['.'] || segment@ == seq!['.', '.'] {
            assert(segment@.last() == '.');
        }
        if segment@.contains(':') {
            let k = choose|k: int| 0 <= k < segment@.len() && segment@[k] == ':';
            assert(cs@[k] != ':');
        }
    }
    true
}

/// Joins the NFC forms of the segments with `/`.
fn join_nfc(segments: &Vec<String>) -> (r: String)
    requires
        segments@.len() > 0,
    ensures
        r@ == join_slash(segments@.map_values(|s: String| s@).map_values(|s: Seq<char>| nfc_text(s))),
{
    let ghost full = segments@.map_values(|s: String| s@).map_values(|s: Seq<char>| nfc_text(s));
    let mut out = nfc_of(segments[0].as_str());
    let mut i: usize = 1;
    proof {
        assert(full.take(1).len() == 1);
    }
    while i < segments.len()
        invariant
            1 <= i <= segments@.len(),
            full == segments@.map_values(|s: String| s@).map_values(|s: Seq<char>| nfc_text(s)),
            out@ == join_slash(full.take(i as int)),
        decreases segments@.len() - i,
    {
        out.append("/");
        let part = nfc_of(segments[i].as_str());
        out.append(part.as_str());
        proof {
            reveal_strlit("/");
            let t = full.take(i + 1);
            assert(t.drop_last() =~= full.take(i as int));
            assert(t.last() == nfc_text(segments@[i as int]@));
        }
        i = i + 1;
    }
    proof {
        assert(full.take(segments@.len() as int) =~= full);
    }
    out
}

/// The lowercase mapping of every character of a text.
fn lowercase_text(text: &str) -> (r: String)
    ensures
        r@ == lower_text(text@),
{
    let cs = text_chars(text);
    let mut out = String::new();
    let mut i: usize = 0;
    while i < cs.len()
        invariant
            cs@ == text@,
            i <= cs@.len(),
            out@ == lower_text(cs@.take(i as int)),
        decreases cs@.len() - i,
    {
        let low = char_lowercase(cs[i]);
        out.append(low.as_str());
        proof {
            assert(cs@.take(i + 1).drop_last() =~= cs@.take(i as int));
        }
        i = i + 1;
    }
    proof {
        assert(cs@.take(cs@.len() as int) =~= cs@);
    }
    out
}

/// Normalizes an entry name. On success the result is the normal form of
/// the name and its collision key, the lowercase mapping of the normal form.
pub fn normalize_path(raw: &str) -> (r: Result<(String, String), PackageError>)
    ensures
        r is Ok <==> path_ok(raw@),
        r matches Ok(p) ==> (p.0@ == normalized_path(raw@) && p.1@ == lower_text(normalized_path(raw@))),
        r matches Err(e) ==> e.spec_code() == PackageErrorCode::UnsafePath,
{
    let cs = text_chars(raw);
    let n = cs.len();
    if n == 0 || cs[0] == '/' || cs[0] == '\\' {
        return Err(PackageError::new(PackageErrorCode::UnsafePath));
    }
    let mut i: usize = 0;
    while i < n
        invariant
            n == cs@.len(),
            cs@ == raw@,
            i <= n,
            forall|k: int| 0 <= k < i ==> #[trigger] cs@[k] != '\\' && !is_control(cs@[k]),
        decreases n - i,
    {
        if cs[i] == '\\' || is_control_char(cs[i]) {
            assert(!raw_path_ok(raw@));
            return Err(PackageError::new(PackageErrorCode::UnsafePath));
        }
        i = i + 1;
    }
    let end = if cs[n - 1] == '/' {
        n - 1
    } else {
        n
    };
    proof {
        assert(trim_slash(raw@) =~= cs@.take(end as int));
    }
    let segments = split_chars(&cs, end);
    let ghost segs = segments@.map_values(|s: String| s@);
    assert(segs == raw_segments(raw@));
    if end == 0 || segments.len() > crate::package::MAX_PATH_DEPTH {
        return Err(PackageError::new(PackageErrorCode::UnsafePath));
    }
    let mut j: usize = 0;
    while j < segments.len()
        invariant
            segs == segments@.map_values(|s: String| s@),
            segs == raw_segments(raw@),
            j <= segments@.len(),
            forall|k: int| 0 <= k < j ==> segment_ok(#[trigger] segs[k]),
        decreases segments@.len() - j,
    {
        if !segment_check(&segments[j]) {
            assert(!segment_ok(segs[j as int]));
            return Err(PackageError::new(PackageErrorCode::UnsafePath));
        }
        j = j + 1;
    }
    let normalized = join_nfc(&segments);
    proof {
        assert(segments@.map_values(|s: String| s@).map_values(|s: Seq<char>| nfc_text(s)) =~= raw_segments(
            raw@,
        ).map_values(|s: Seq<char>| nfc_text(s)));
        assert(normalized@ == normalized_path(raw@));
    }
    if normalized.as_str().as_bytes().len() > crate::package::MAX_PATH_BYTES {
        return Err(PackageError::new(PackageErrorCode::UnsafePath));
    }
    if is_windows_device_name(&segments) {
        proof {
            let k = choose|k: int| 0 <= k < segments@.len() && device_segment(crate::package::sb(#[trigger] segments@[k]));
            assert(segs[k] == segments@[k]@);
        }
        return Err(PackageError::new(PackageErrorCode::UnsafePath));
    }
    proof {
        if exists|k: int| 0 <= k < segs.len() && device_segment(vstd::utf8::encode_utf8(#[trigger] segs[k])) {
            let k = choose|k: int| 0 <= k < segs.len() && device_segment(vstd::utf8::encode_utf8(#[trigger] segs[k]));
            assert(device_segment(crate::package::sb(segments@[k])));
        }
    }
    let collision = lowercase_text(normalized.as_str());
    Ok((normalized, collision))
}

/// The admitted names as a table of collision keys and whether each names
/// a directory.
pub open spec fn key_table(keys: Seq<(Vec<char>, bool)>) -> Seq<(Seq<char>, bool)> {
    Seq::new(keys.len(), |i: int| (keys[i].0@, keys[i].1))
}

/// Whether a key was admitted.
pub open spec fn has_key(paths: Seq<(Seq<char>, bool)>, key: Seq<char>) -> bool {
    exists|i: int| 0 <= i < paths.len() && (#[trigger] paths[i]).0 == key
}

/// Whether a key was admitted as a file.
pub open spec fn has_file(paths: Seq<(Seq<char>, bool)>, key: Seq<char>) -> bool {
    exists|i: int| 0 <= i < paths.len() && (#[trigger] paths[i]).0 == key && !paths[i].1
}

/// Whether an admitted key lies below `key`, that is starts with `key/`.
pub open spec fn has_child(paths: Seq<(Seq<char>, bool)>, key: Seq<char>) -> bool {
    exists|i: int|
        0 <= i < paths.len() && (#[trigger] paths[i]).0.len() > key.len() && paths[i].0.take(key.len() as int) == key
            && paths[i].0[key.len() as int] == '/'
}

/// A key may be admitted when it is new, no ancestor of it was admitted as a
/// file, and, for a file, nothing was admitted below it.
pub open spec fn collision_free(key: Seq<char>, directory: bool, paths: Seq<(Seq<char>, bool)>) -> bool {
    &&& !has_key(paths, key)
    &&& forall|p: int| 0 <= p < key.len() && key[p] == '/' ==> !has_file(paths, #[trigger] key.take(p))
    &&& (directory || !has_child(paths, key))
}

/// Whether `k` equals the first `n` characters of `c`.
fn key_is_prefix(k: &Vec<char>, c: &Vec<char>, n: usize) -> (r: bool)
    requires
        n <= c@.len(),
    ensures
        r == (k@ == c@.take(n as int)),
{
    if k.len() != n {
        return false;
    }
    let mut i: usize = 0;
    while i < n
        invariant
            n <= c@.len(),
            k@.len() == n,
            i <= n,
            forall|j: int| 0 <= j < i ==> k@[j] == c@[j],
        decreases n - i,
    {
        if k[i] != c[i] {
            assert(c@.take(n as int)[i as int] == c@[i as int]);
            return false;
        }
        i = i + 1;
    }
    assert(k@ =~= c@.take(n as int));
    true
}

/// Whether `k` starts with `c` followed by `/`.
fn key_is_below(k: &Vec<char>, c: &Vec<char>) -> (r: bool)
    ensures
        r == (k@.len() > c@.len() && k@.take(c@.len() as int) == c@ && k@[c@.len() as int] == '/'),
{
    if k.len() <= c.len() {
        return false;
    }
    if k[c.len()] != '/' {
        return false;
    }
    let mut i: usize = 0;
    while i < c.len()
        invariant
            k@.len() > c@.len(),
            i <= c@.len(),
            forall|j: int| 0 <= j < i ==> k@[j] == c@[j],
        decreases c@.len() - i,
    {
        if k[i] != c[i] {
            assert(k@.take(c@.len() as int)[i as int] == k@[i as int]);
            return false;
        }
        i = i + 1;
    }
    assert(k@.take(c@.len() as int) =~= c@);
    true
}

/// Whether a file was admitted under the first `n` characters of `key`.
fn file_at_prefix(paths: &Vec<(Vec<char>, bool)>, key: &Vec<char>, n: usize) -> (r: bool)
    requires
        n <= key@.len(),
    ensures
        r == has_file(key_table(paths@), key@.take(n as int)),
{
    let ghost t = key_table(paths@);
    let mut i: usize = 0;
    while i < paths.len()
        invariant
            n <= key@.len(),
            t == key_table(paths@),
            i <= paths@.len(),
            forall|j: int| 0 <= j < i ==> !((#[trigger] t[j]).0 == key@.take(n as int) && !t[j].1),
        decreases paths@.len() - i,
    {
        if !paths[i].1 && key_is_prefix(&paths[i].0, key, n) {
            assert(t[i as int].0 == key@.take(n as int));
            return true;
        }
        i = i + 1;
    }
    false
}

/// Checks a collision key against the table of admitted keys.
pub fn validate_collision(key: &Vec<char>, directory: bool, paths: &Vec<(Vec<char>, bool)>) -> (r: Result<
    (),
    PackageError,
>)
    ensures
        r is Ok <==> collision_free(key@, directory, key_table(paths@)),
        r matches Err(e) ==> e.spec_code() == PackageErrorCode::PathCollision,
{
    let ghost t = key_table(paths@);
    let mut i: usize = 0;
    while i < paths.len()
        invariant
            t == key_table(paths@),
            i <= paths@.len(),
            forall|j: int| 0 <= j < i ==> (#[trigger] t[j]).0 != key@,
        decreases paths@.len() - i,
    {
        if key_is_prefix(&paths[i].0, key, key.len()) {
            assert(key@.take(key@.len() as int) =~= key@);
            assert(t[i as int].0 == key@);
            return Err(PackageError::new(PackageErrorCode::PathCollision));
        }
        assert(key@.take(key@.len() as int) =~= key@);
        i = i + 1;
    }
    let mut p: usize = 0;
    while p < key.len()
        invariant
            t == key_table(paths@),
            !has_key(t, key@),
            p <= key@.len(),
            forall|q: int| 0 <= q < p && key@[q] == '/' ==> !has_file(t, #[trigger] key@.take(q)),
        decreases key@.len() - p,
    {
        if key[p] == '/' && file_at_prefix(paths, key, p) {
            return Err(PackageError::new(PackageErrorCode::PathCollision));
        }
        p = p + 1;
    }
    if !directory {
        let mut i: usize = 0;
        while i < paths.len()
            invariant
                !directory,
                t == key_table(paths@),
                i <= paths@.len(),
                forall|j: int|
                    0 <= j < i ==> !((#[trigger] t[j]).0.len() > key@.len() && t[j].0.take(key@.len() as int)
                        == key@ && t[j].0[key@.len() as int] == '/'),
            decreases paths@.len() - i,
        {
            if key_is_below(&paths[i].0, key) {
                assert(t[i as int].0 == paths@[i as int].0@);
                return Err(PackageError::new(PackageErrorCode::PathCollision));
            }
            i = i + 1;
        }
    }
    Ok(())
}

/// How an archive entry is compressed.
#[derive(Clone, Copy, Debug, PartialEq, Eq, Structural)]
pub enum EntryCompression {
    Stored,
    Deflated,
    Other,
}

/// What the preflight of an archive reads of one entry of its central
/// directory.
#[derive(Debug)]
pub struct ArchiveEntry {
    pub encrypted: bool,
    pub compression: EntryCompression,
    pub unix_mode: Option<u32>,
    pub name_raw: Vec<u8>,
    pub name: String,
    pub is_dir: bool,
    pub size: u64,
    pub compressed_size: u64,
}

/// A file of an archive that passed the preflight: its index in the
/// archive, its normal path and its uncompressed size.
#[derive(Debug)]
pub struct EntryPlan {
    pub index: usize,
    pub path: String,
    pub size: u64,
}

/// What the preflight has admitted so far.
pub struct Tally {
    pub paths: Seq<(Seq<char>, bool)>,
    pub plans: Seq<(int, Seq<char>, u64)>,
    pub total: nat,
    pub ui_total: nat,
}

/// The plans as values.
pub open spec fn plan_table(plans: Seq<EntryPlan>) -> Seq<(int, Seq<char>, u64)> {
    Seq::new(plans.len(), |i: int| (plans[i].index as int, plans[i].path@, plans[i].size))
}

/// Whether the entry is plain: not encrypted, stored or deflated, and, where
/// it carries a Unix mode, a regular file or a directory.
pub open spec fn entry_kind_ok(e: ArchiveEntry) -> bool {
    &&& !e.encrypted
    &&& e.compression != EntryCompression::Other
    &&& match e.unix_mode {
        Some(mode) => {
            let kind = mode & 0o170000u32;
            kind == 0 || kind == 0o040000u32 || kind == 0o100000u32
        },
        None => true,
    }
}

/// Whether the raw name is UTF-8 and agrees with the decoded name.
pub open spec fn entry_name_ok(e: ArchiveEntry) -> bool {
    vstd::utf8::valid_utf8(e.name_raw@) && vstd::utf8::decode_utf8(e.name_raw@) == e.name@
}

/// `c * 100`, or `u64::MAX` where that overflows.
pub open spec fn expansion_bound(c: u64) -> int {
    if c * crate::package::MAX_EXPANSION_RATIO > u64::MAX {
        u64::MAX as int
    } else {
        c * crate::package::MAX_EXPANSION_RATIO
    }
}

/// Whether the sizes of an entry are within the limits: at most
/// `MAX_ENTRY_BYTES`, and a non-empty entry is compressed and expands at
/// most `MAX_EXPANSION_RATIO` times.
pub open spec fn entry_size_ok(e: ArchiveEntry) -> bool {
    &&& e.size <= crate::package::MAX_ENTRY_BYTES
    &&& e.size > 0 ==> (e.compressed_size != 0 && e.size <= expansion_bound(e.compressed_size))
}

/// Whether a path lies in the `ui` tree.
pub open spec fn in_ui_tree(path: Seq<char>) -> bool {
    crate::text::has_prefix(vstd::utf8::encode_utf8(path), vstd::utf8::encode_utf8("ui/"@))
}

/// One entry of the preflight, at position `index`: its checks in order,
/// then the admitted key, the plan of a file and the running totals.
pub open spec fn entry_step(t: Tally, index: int, e: ArchiveEntry) -> Result<Tally, PackageErrorCode> {
    if !entry_kind_ok(e) {
        Err(PackageErrorCode::UnsupportedEntry)
    } else if !entry_name_ok(e) || !path_ok(e.name@) {
        Err(PackageErrorCode::UnsafePath)
    } else {
        let path = normalized_path(e.name@);
        let key = lower_text(path);
        if !collision_free(key, e.is_dir, t.paths) {
            Err(PackageErrorCode::PathCollision)
        } else if !crate::package::allowed_root(path, e.is_dir) {
            Err(PackageErrorCode::UnsafePath)
        } else if !entry_size_ok(e) || t.total + e.size > crate::package::MAX_TOTAL_BYTES || (in_ui_tree(path)
            && t.ui_total + e.size > crate::package::MAX_UI_BYTES) {
            Err(PackageErrorCode::ArchiveLimitExceeded)
        } else {
            Ok(
                Tally {
                    paths: t.paths.push((key, e.is_dir)),
                    plans: if e.is_dir {
                        t.plans
                    } else {
                        t.plans.push((index, path, e.size))
                    },
                    total: t.total + e.size as nat,
                    ui_total: if in_ui_tree(path) {
                        t.ui_total + e.size as nat
                    } else {
                        t.ui_total
                    },
                },
            )
        }
    }
}

/// Nothing admitted yet.
pub open spec fn empty_tally() -> Tally {
    Tally { paths: Seq::empty(), plans: Seq::empty(), total: 0, ui_total: 0 }
}

/// The preflight of the entries in order, stopping at the first rejection.
pub open spec fn preflight_fold(entries: Seq<ArchiveEntry>) -> Result<Tally, PackageErrorCode>
    decreases entries.len(),
{
    if entries.len() == 0 {
        Ok(empty_tally())
    } else {
        match preflight_fold(entries.drop_last()) {
            Ok(t) => entry_step(t, entries.len() - 1, entries.last()),
            Err(c) => Err(c),
        }
    }
}

/// How many plans have a path.
pub open spec fn path_count(plans: Seq<(int, Seq<char>, u64)>, path: Seq<char>) -> nat
    decreases plans.len(),
{
    if plans.len() == 0 {
        0
    } else {
        path_count(plans.drop_last(), path) + if plans.last().1 == path {
            1nat
        } else {
            0nat
        }
    }
}

/// The manifest, the signature and the component each occur once.
pub open spec fn required_once(plans: Seq<(int, Seq<char>, u64)>) -> bool {
    &&& path_count(plans, "alcomd-extension.toml"@) == 1
    &&& path_count(plans, "META-INF/alcomd-signature-v1.json"@) == 1
    &&& path_count(plans, "component/extension.wasm"@) == 1
}

/// The preflight of a whole archive: between one and `MAX_ENTRIES` entries,
/// each admitted in order, and the required files present once.
pub open spec fn preflight_result(entries: Seq<ArchiveEntry>) -> Result<Seq<(int, Seq<char>, u64)>, PackageErrorCode> {
    if entries.len() == 0 || entries.len() > crate::package::MAX_ENTRIES {
        Err(PackageErrorCode::ArchiveLimitExceeded)
    } else {
        match preflight_fold(entries) {
            Err(c) => Err(c),
            Ok(t) => if required_once(t.plans) {
                Ok(t.plans)
            } else {
                Err(PackageErrorCode::InvalidArchive)
            },
        }
    }
}

/// Calls `std::str::from_utf8` and copies the text. By its documentation
/// the call succeeds exactly on valid UTF-8, and the text has those bytes.
#[verifier::external_body]
pub(crate) fn utf8_text(bytes: &[u8]) -> (r: Option<String>)
    ensures
        r is Some <==> vstd::utf8::valid_utf8(bytes@),
        r matches Some(text) ==> text@ == vstd::utf8::decode_utf8(bytes@),
{
    match std::str::from_utf8(bytes) {
        Ok(text) => Some(text.to_string()),
        Err(_) => None,
    }
}

fn entry_kind_check(e: &ArchiveEntry) -> (r: bool)
    ensures
        r == entry_kind_ok(*e),
{
    if e.encrypted {
        return false;
    }
    match e.compression {
        EntryCompression::Other => {
            return false;
        },
        _ => {},
    }
    match e.unix_mode {
        Some(mode) => {
            let kind = mode & 0o170000u32;
            kind == 0 || kind == 0o040000u32 || kind == 0o100000u32
        },
        None => true,
    }
}

fn entry_size_check(e: &ArchiveEntry) -> (r: bool)
    ensures
        r == entry_size_ok(*e),
{
    if e.size > crate::package::MAX_ENTRY_BYTES {
        return false;
    }
    if e.size == 0 {
        return true;
    }
    if e.compressed_size == 0 {
        return false;
    }
    let bound = match e.compressed_size.checked_mul(crate::package::MAX_EXPANSION_RATIO) {
        Some(v) => v,
        None => u64::MAX,
    };
    e.size <= bound
}

/// The running state of the preflight.
struct Admitted {
    keys: Vec<(Vec<char>, bool)>,
    plans: Vec<EntryPlan>,
    total: u64,
    ui_total: u64,
}

impl Admitted {
    spec fn tally(&self) -> Tally {
        Tally {
            paths: key_table(self.keys@),
            plans: plan_table(self.plans@),
            total: self.total as nat,
            ui_total: self.ui_total as nat,
        }
    }

    spec fn bounded(&self) -> bool {
        self.total <= crate::package::MAX_TOTAL_BYTES && self.ui_total <= crate::package::MAX_UI_BYTES
    }

    /// Admits one entry, or says why it is refused.
    fn take_entry(&mut self, index: usize, e: &ArchiveEntry) -> (r: Result<(), PackageError>)
        requires
            old(self).bounded(),
        ensures
            final(self).bounded(),
            match entry_step(old(self).tally(), index as int, *e) {
                Ok(t) => r is Ok && final(self).tally() == t,
                Err(c) => r matches Err(x) && x.spec_code() == c,
            },
    {
        if !entry_kind_check(e) {
            return Err(PackageError::new(PackageErrorCode::UnsupportedEntry));
        }
        let raw = match utf8_text(e.name_raw.as_slice()) {
            Some(text) => text,
            None => {
                return Err(PackageError::new(PackageErrorCode::UnsafePath));
            },
        };
        if !crate::text::str_eq(raw.as_str(), e.name.as_str()) {
            return Err(PackageError::new(PackageErrorCode::UnsafePath));
        }
        let (path, collision) = match normalize_path(e.name.as_str()) {
            Ok(p) => p,
            Err(x) => {
                return Err(x);
            },
        };
        let key = text_chars(collision.as_str());
        match validate_collision(&key, e.is_dir, &self.keys) {
            Ok(()) => {},
            Err(x) => {
                return Err(x);
            },
        }
        match crate::package::validate_allowed_root(path.as_str(), e.is_dir) {
            Ok(()) => {},
            Err(x) => {
                return Err(x);
            },
        }
        if !entry_size_check(e) || e.size > crate::package::MAX_TOTAL_BYTES - self.total {
            return Err(PackageError::new(PackageErrorCode::ArchiveLimitExceeded));
        }
        let ui = crate::text::starts_with_bytes(path.as_str().as_bytes(), "ui/".as_bytes());
        if ui && e.size > crate::package::MAX_UI_BYTES - self.ui_total {
            return Err(PackageError::new(PackageErrorCode::ArchiveLimitExceeded));
        }
        let ghost before = *self;
        self.keys.push((key, e.is_dir));
        self.total = self.total + e.size;
        if ui {
            self.ui_total = self.ui_total + e.size;
        }
        if !e.is_dir {
            self.plans.push(EntryPlan { index, path, size: e.size });
            proof {
                assert(plan_table(self.plans@) =~= plan_table(before.plans@).push(
                    (index as int, normalized_path(e.name@), e.size),
                ));
            }
        }
        proof {
            reveal_strlit("ui/");
            assert(key_table(self.keys@) =~= key_table(before.keys@).push((lower_text(normalized_path(e.name@)), e.is_dir)));
        }
        Ok(())
    }
}

/// Counts the plans whose path is `path`.
fn count_path(plans: &Vec<EntryPlan>, path: &str) -> (r: usize)
    ensures
        r == path_count(plan_table(plans@), path@),
{
    let ghost t = plan_table(plans@);
    let mut n: usize = 0;
    let mut i: usize = 0;
    while i < plans.len()
        invariant
            t == plan_table(plans@),
            i <= plans@.len(),
            n == path_count(t.take(i as int), path@),
            n <= i,
        decreases plans@.len() - i,
    {
        proof {
            assert(t.take(i + 1).drop_last() =~= t.take(i as int));
        }
        if crate::text::str_eq(plans[i].path.as_str(), path) {
            n = n + 1;
        }
        i = i + 1;
    }
    assert(t.take(plans@.len() as int) =~= t);
    n
}

/// Checks every entry of an archive before anything is read from it, and
/// plans the files to read: the count of entries, each entry in order, and
/// the required files.
pub fn preflight(entries: &Vec<ArchiveEntry>) -> (r: Result<Vec<EntryPlan>, PackageError>)
    ensures
        match preflight_result(entries@) {
            Ok(plans) => r matches Ok(v) && plan_table(v@) == plans,
            Err(c) => r matches Err(e) && e.spec_code() == c,
        },
{
    if entries.len() == 0 || entries.len() > crate::package::MAX_ENTRIES {
        return Err(PackageError::new(PackageErrorCode::ArchiveLimitExceeded));
    }
    let mut state = Admitted { keys: Vec::new(), plans: Vec::new(), total: 0, ui_total: 0 };
    proof {
        assert(state.tally().paths =~= empty_tally().paths);
        assert(state.tally().plans =~= empty_tally().plans);
    }
    let mut i: usize = 0;
    while i < entries.len()
        invariant
            0 < entries@.len() <= crate::package::MAX_ENTRIES,
            i <= entries@.len(),
            state.bounded(),
            preflight_fold(entries@.take(i as int)) == Ok::<Tally, PackageErrorCode>(state.tally()),
        decreases entries@.len() - i,
    {
        proof {
            assert(entries@.take(i + 1).drop_last() =~= entries@.take(i as int));
        }
        match state.take_entry(i, &entries[i]) {
            Ok(()) => {},
            Err(x) => {
                proof {
                    assert(entries@.take(i + 1).last() == entries@[i as int]);
                    assert(preflight_fold(entries@.take(i + 1)) == Err::<Tally, PackageErrorCode>(x.spec_code()));
                    lemma_fold_stops(entries@, i as int);
                }
                return Err(x);
            },
        }
        i = i + 1;
    }
    proof {
        assert(entries@.take(entries@.len() as int) =~= entries@);
    }
    let manifests = count_path(&state.plans, crate::package::MANIFEST_PATH);
    let signatures = count_path(&state.plans, crate::package::SIGNATURE_PATH);
    let components = count_path(&state.plans, crate::package::COMPONENT_PATH);
    proof {
        reveal_strlit("alcomd-extension.toml");
        reveal_strlit("META-INF/alcomd-signature-v1.json");
        reveal_strlit("component/extension.wasm");
    }
    if manifests != 1 || signatures != 1 || components != 1 {
        return Err(PackageError::new(PackageErrorCode::InvalidArchive));
    }
    Ok(state.plans)
}

/// Once the fold over a prefix has refused an entry, the fold over the
/// whole sequence refuses with the same code.
proof fn lemma_fold_stops(entries: Seq<ArchiveEntry>, i: int)
    requires
        0 <= i < entries.len(),
        preflight_fold(entries.take(i + 1)) is Err,
    ensures
        preflight_fold(entries) == preflight_fold(entries.take(i + 1)),
    decreases entries.len() - i,
{
    if i + 1 < entries.len() {
        assert(entries.take(i + 2).drop_last() =~= entries.take(i + 1));
        assert(preflight_fold(entries.take(i + 2)) == preflight_fold(entries.take(i + 1)));
        lemma_fold_stops(entries, i + 1);
    } else {
        assert(entries.take(i + 1) =~= entries);
    }
}

/// The UTF-8 bytes of the path of plan `j`.
pub open spec fn plan_path_bytes(plans: Seq<EntryPlan>, j: int) -> Seq<u8> {
    vstd::utf8::encode_utf8(plans[j].path@)
}

/// Whether plan `j` is covered by the content digest: every file but the
/// signature.
pub open spec fn digested(plans: Seq<EntryPlan>, j: int) -> bool {
    0 <= j < plans.len() && plans[j].path@ != "META-INF/alcomd-signature-v1.json"@
}

/// `order` lists each digested plan once, by path bytes in ascending order.
pub open spec fn canonical_order_of(plans: Seq<EntryPlan>, order: Seq<usize>) -> bool {
    &&& forall|k: int| 0 <= k < order.len() ==> digested(plans, #[trigger] order[k] as int)
    &&& forall|j: int| digested(plans, j) ==> exists|k: int| 0 <= k < order.len() && #[trigger] order[k] == j
    &&& forall|a: int, b: int| 0 <= a < b < order.len() ==> #[trigger] order[a] != #[trigger] order[b]
    &&& forall|a: int, b: int|
        0 <= a < b < order.len() ==> !lex_lt(
            plan_path_bytes(plans, #[trigger] order[b] as int),
            plan_path_bytes(plans, #[trigger] order[a] as int),
        )
}

/// The plans that the content digest covers, in the order it covers them.
pub fn canonical_order(plans: &Vec<EntryPlan>) -> (r: Vec<usize>)
    ensures
        canonical_order_of(plans@, r@),
{
    let mut order: Vec<usize> = Vec::new();
    let mut i: usize = 0;
    while i < plans.len()
        invariant
            i <= plans@.len(),
            forall|k: int| 0 <= k < order@.len() ==> digested(plans@, #[trigger] order@[k] as int) && order@[k] < i,
            forall|j: int| 0 <= j < i && digested(plans@, j) ==> exists|k: int| 0 <= k < order@.len() && #[trigger] order@[k] == j,
            forall|a: int, b: int| 0 <= a < b < order@.len() ==> #[trigger] order@[a] != #[trigger] order@[b],
            forall|a: int, b: int|
                0 <= a < b < order@.len() ==> !lex_lt(
                    plan_path_bytes(plans@, #[trigger] order@[b] as int),
                    plan_path_bytes(plans@, #[trigger] order@[a] as int),
                ),
        decreases plans@.len() - i,
    {
        proof {
            reveal_strlit("META-INF/alcomd-signature-v1.json");
        }
        if !crate::text::str_eq(plans[i].path.as_str(), crate::package::SIGNATURE_PATH) {
            let key = plans[i].path.as_str().as_bytes();
            let mut pos: usize = 0;
            while pos < order.len() && !lex_less(key, plans[order[pos]].path.as_str().as_bytes())
                invariant
                    i < plans@.len(),
                    key@ == plan_path_bytes(plans@, i as int),
                    pos <= order@.len(),
                    forall|k: int| 0 <= k < order@.len() ==> (#[trigger] order@[k]) < plans@.len(),
                    forall|k: int| 0 <= k < pos ==> !lex_lt(key@, plan_path_bytes(plans@, #[trigger] order@[k] as int)),
                decreases order@.len() - pos,
            {
                pos = pos + 1;
            }
            let ghost before = order@;
            order.insert(pos, i);
            proof {
                let pi = plan_path_bytes(plans@, i as int);
                assert forall|a: int, b: int| 0 <= a < b < order@.len() implies !lex_lt(
                    plan_path_bytes(plans@, #[trigger] order@[b] as int),
                    plan_path_bytes(plans@, #[trigger] order@[a] as int),
                ) by {
                    if a == pos as int {
                        let q = before[pos as int] as int;
                        let w = before[b - 1] as int;
                        assert(lex_lt(pi, plan_path_bytes(plans@, q)));
                        if b - 1 > pos {
                            assert(!lex_lt(plan_path_bytes(plans@, w), plan_path_bytes(plans@, q)));
                        }
                        lemma_lex_total(plan_path_bytes(plans@, q), plan_path_bytes(plans@, w));
                        if plan_path_bytes(plans@, q) != plan_path_bytes(plans@, w) {
                            lemma_lex_transitive(pi, plan_path_bytes(plans@, q), plan_path_bytes(plans@, w));
                        }
                        lemma_lex_asymmetric(pi, plan_path_bytes(plans@, w));
                    } else if b == pos as int {
                        assert(!lex_lt(pi, plan_path_bytes(plans@, before[a] as int)));
                    } else {
                        let a0 = if a < pos { a } else { a - 1 };
                        let b0 = if b < pos { b } else { b - 1 };
                        assert(order@[a] == before[a0] && order@[b] == before[b0]);
                    }
                }
                assert forall|j: int| 0 <= j < i + 1 && digested(plans@, j) implies exists|k: int|
                    0 <= k < order@.len() && #[trigger] order@[k] == j by {
                    if j == i {
                        assert(order@[pos as int] == j);
                    } else {
                        let k = choose|k: int| 0 <= k < before.len() && before[k] == j;
                        if k < pos {
                            assert(order@[k] == j);
                        } else {
                            assert(order@[k + 1] == j);
                        }
                    }
                }
                assert forall|a: int, b: int| 0 <= a < b < order@.len() implies #[trigger] order@[a] != #[trigger] order@[b] by {
                    if a != pos as int && b != pos as int {
                        let a0 = if a < pos { a } else { a - 1 };
                        let b0 = if b < pos { b } else { b - 1 };
                        assert(order@[a] == before[a0] && order@[b] == before[b0]);
                    }
                }
            }
        }
        i = i + 1;
    }
    order
}

/// The eight little-endian bytes of a size.
pub open spec fn le_u64_bytes(n: u64) -> Seq<u8> {
    Seq::new(8, |k: int| ((n as int / vstd::arithmetic::power2::pow2((8 * k) as nat) as int) % 256) as u8)
}

/// The digest frame of a file: the byte length of its path as four
/// little-endian bytes, the path, and its size as eight little-endian bytes.
pub open spec fn entry_frame_bytes(path: Seq<char>, size: u64) -> Seq<u8> {
    crate::host_protocol::le_prefix(vstd::utf8::encode_utf8(path).len() as int) + vstd::utf8::encode_utf8(path)
        + le_u64_bytes(size)
}

/// The digest frame of a file, refused where the path is longer than
/// `u32::MAX` bytes.
pub fn entry_frame(path: &str, size: u64) -> (r: Result<Vec<u8>, PackageError>)
    ensures
        path.spec_bytes().len() <= u32::MAX ==> (r matches Ok(f) && f@ == entry_frame_bytes(path@, size)),
        path.spec_bytes().len() > u32::MAX ==> (r matches Err(e) && e.spec_code()
            == PackageErrorCode::ArchiveLimitExceeded),
{
    let bytes = path.as_bytes();
    let n = bytes.len();
    if n > 0xffff_ffff {
        return Err(PackageError::new(PackageErrorCode::ArchiveLimitExceeded));
    }
    let mut frame: Vec<u8> = Vec::new();
    frame.push((n % 256) as u8);
    frame.push(((n / 256) % 256) as u8);
    frame.push(((n / 65536) % 256) as u8);
    frame.push(((n / 16777216) % 256) as u8);
    crate::domain::append_bytes(&mut frame, bytes);
    let ghost head = frame@;
    assert(head =~= crate::host_protocol::le_prefix(n as int) + bytes@);
    proof {
        vstd::arithmetic::power2::lemma2_to64();
        assert(size as int / vstd::arithmetic::power2::pow2(0) as int == size as int);
    }
    let mut rest = size;
    let mut k: usize = 0;
    while k < 8
        invariant
            k <= 8,
            frame@.len() == head.len() + k,
            frame@.subrange(0, head.len() as int) == head,
            forall|j: int| 0 <= j < k ==> #[trigger] frame@[head.len() + j] == le_u64_bytes(size)[j],
            rest as int == size as int / vstd::arithmetic::power2::pow2((8 * k) as nat) as int,
        decreases 8 - k,
    {
        proof {
            lemma_shift_byte(size, k as nat);
        }
        frame.push((rest % 256) as u8);
        rest = rest / 256;
        k = k + 1;
    }
    assert forall|j: int| 0 <= j < frame@.len() implies frame@[j] == (head + le_u64_bytes(size))[j] by {
        if j < head.len() {
            assert(frame@[j] == frame@.subrange(0, head.len() as int)[j]);
        } else {
            assert(frame@[head.len() + (j - head.len())] == le_u64_bytes(size)[j - head.len()]);
        }
    }
    assert(frame@ =~= crate::host_protocol::le_prefix(n as int) + bytes@ + le_u64_bytes(size));
    Ok(frame)
}

proof fn lemma_shift_byte(size: u64, k: nat)
    ensures
        size as int / vstd::arithmetic::power2::pow2(8 * (k + 1)) as int == (size as int
            / vstd::arithmetic::power2::pow2(8 * k) as int) / 256,
{
    vstd::arithmetic::power2::lemma_pow2_adds(8 * k, 8);
    vstd::arithmetic::power2::lemma2_to64();
    vstd::arithmetic::power2::lemma_pow2_pos(8 * k);
    vstd::arithmetic::div_mod::lemma_div_denominator(
        size as int,
        vstd::arithmetic::power2::pow2(8 * k) as int,
        256,
    );
    assert(8 * (k + 1) == 8 * k + 8) by (nonlinear_arith);
}

/// The plan of the file at `name`, refused where no plan has that path or
/// the file is larger than `maximum` bytes.
pub fn plan_named(plans: &Vec<EntryPlan>, name: &str, maximum: u64) -> (r: Result<usize, PackageError>)
    ensures
        match r {
            Ok(k) => k < plans@.len() && plans@[k as int].path@ == name@ && plans@[k as int].size <= maximum
                && forall|j: int| 0 <= j < k ==> (#[trigger] plans@[j]).path@ != name@,
            Err(e) => {
                ||| (e.spec_code() == PackageErrorCode::InvalidArchive && forall|j: int|
                    0 <= j < plans@.len() ==> (#[trigger] plans@[j]).path@ != name@)
                ||| (e.spec_code() == PackageErrorCode::ArchiveLimitExceeded && exists|k: int|
                    0 <= k < plans@.len() && plans@[k].path@ == name@ && plans@[k].size > maximum && forall|j: int|
                        0 <= j < k ==> (#[trigger] plans@[j]).path@ != name@)
            },
        },
{
    let mut i: usize = 0;
    while i < plans.len()
        invariant
            i <= plans@.len(),
            forall|j: int| 0 <= j < i ==> (#[trigger] plans@[j]).path@ != name@,
        decreases plans@.len() - i,
    {
        if crate::text::str_eq(plans[i].path.as_str(), name) {
            if plans[i].size > maximum {
                return Err(PackageError::new(PackageErrorCode::ArchiveLimitExceeded));
            }
            return Ok(i);
        }
        i = i + 1;
    }
    Err(PackageError::new(PackageErrorCode::InvalidArchive))
}

/// What every tally of the preflight keeps: each planned file's key was
/// admitted, and no two planned files share a key.
pub open spec fn tally_keys_distinct(t: Tally) -> bool {
    &&& forall|a: int| 0 <= a < t.plans.len() ==> has_key(t.paths, lower_text(#[trigger] t.plans[a].1))
    &&& forall|a: int, b: int|
        0 <= a < b < t.plans.len() ==> lower_text(#[trigger] t.plans[a].1) != lower_text(#[trigger] t.plans[b].1)
}

proof fn lemma_fold_keys_distinct(entries: Seq<ArchiveEntry>)
    requires
        preflight_fold(entries) is Ok,
    ensures
        tally_keys_distinct(preflight_fold(entries)->Ok_0),
    decreases entries.len(),
{
    if entries.len() > 0 {
        let prev = entries.drop_last();
        lemma_fold_keys_distinct(prev);
        let t = preflight_fold(prev)->Ok_0;
        let e = entries.last();
        let n = preflight_fold(entries)->Ok_0;
        let key = lower_text(normalized_path(e.name@));
        assert forall|a: int| 0 <= a < n.plans.len() implies has_key(n.paths, lower_text(#[trigger] n.plans[a].1)) by {
            if a < t.plans.len() {
                let i = choose|i: int| 0 <= i < t.paths.len() && (#[trigger] t.paths[i]).0 == lower_text(t.plans[a].1);
                assert(n.paths[i] == t.paths[i]);
            } else {
                assert(n.paths[t.paths.len() as int].0 == key);
            }
        }
        assert forall|a: int, b: int| 0 <= a < b < n.plans.len() implies lower_text(#[trigger] n.plans[a].1)
            != lower_text(#[trigger] n.plans[b].1) by {
            if b >= t.plans.len() {
                assert(has_key(t.paths, lower_text(t.plans[a].1)));
                assert(!has_key(t.paths, key));
            }
        }
    }
}

/// In an archive that passes the preflight, no two planned files have
/// paths that differ only in case: their collision keys are distinct.
pub proof fn preflight_keys_are_distinct(entries: Seq<ArchiveEntry>)
    requires
        preflight_result(entries) is Ok,
    ensures
        forall|a: int, b: int|
            0 <= a < b < preflight_result(entries)->Ok_0.len() ==> lower_text(
                #[trigger] preflight_result(entries)->Ok_0[a].1,
            ) != lower_text(#[trigger] preflight_result(entries)->Ok_0[b].1),
{
    lemma_fold_keys_distinct(entries);
}


proof fn lemma_fold_plans_allowed(entries: Seq<ArchiveEntry>)
    requires
        preflight_fold(entries) is Ok,
    ensures
        forall|k: int|
            0 <= k < preflight_fold(entries)->Ok_0.plans.len() ==> {
                let p = #[trigger] preflight_fold(entries)->Ok_0.plans[k];
                &&& crate::package::allowed_root(p.1, false)
                &&& 0 <= p.0 < entries.len()
                &&& p.1 == normalized_path(entries[p.0].name@)
                &&& !entries[p.0].is_dir
            },
    decreases entries.len(),
{
    if entries.len() > 0 {
        let prev = entries.drop_last();
        lemma_fold_plans_allowed(prev);
        let t = preflight_fold(prev)->Ok_0;
        let n = preflight_fold(entries)->Ok_0;
        assert forall|k: int| 0 <= k < n.plans.len() implies {
            let p = #[trigger] n.plans[k];
            &&& crate::package::allowed_root(p.1, false)
            &&& 0 <= p.0 < entries.len()
            &&& p.1 == normalized_path(entries[p.0].name@)
            &&& !entries[p.0].is_dir
        } by {
            if k < t.plans.len() {
                assert(n.plans[k] == t.plans[k]);
                assert(entries[t.plans[k].0] == prev[t.plans[k].0]);
            }
        }
    }
}

/// Every file an accepted archive plans is a file entry of the archive, at
/// the normal form of its name, under an allowed root.
pub proof fn preflight_plans_lie_under_allowed_roots(entries: Seq<ArchiveEntry>)
    requires
        preflight_result(entries) is Ok,
    ensures
        forall|k: int|
            0 <= k < preflight_result(entries)->Ok_0.len() ==> {
                let p = #[trigger] preflight_result(entries)->Ok_0[k];
                &&& crate::package::allowed_root(p.1, false)
                &&& 0 <= p.0 < entries.len()
                &&& p.1 == normalized_path(entries[p.0].name@)
                &&& !entries[p.0].is_dir
            },
{
    lemma_fold_plans_allowed(entries);
}

} // verus!
