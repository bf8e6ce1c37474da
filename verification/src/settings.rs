//! Official client settings (a small TOML subset read and written by the
//! daemon), activity and diagnostics listing checks.

use vstd::prelude::*;
use vstd::string::StringExecFns;

use crate::access::{AccessContext, StoreError};
use crate::domain::Permission;
use crate::text::{decimal_text, digit_char};

verus! {

/// Largest settings file the daemon reads.
pub const MAX_SETTINGS_BYTES: u64 = 16 * 1024;

/// Page size used when the caller names none.
pub const DEFAULT_PAGE_LIMIT: u32 = 100;

/// Largest page a caller may ask for.
pub const MAX_PAGE_LIMIT: u32 = 200;

#[derive(Clone, Copy, Debug, PartialEq, Eq, Structural)]
pub enum ConfigAppearanceMode {
    System,
    Light,
    Dark,
}

#[derive(Clone, Copy, Debug, PartialEq, Eq, Structural)]
pub enum ConfigAppearanceDensity {
    Default,
    Compact,
}

#[derive(Clone, Copy, Debug, PartialEq, Eq, Structural)]
pub enum ConfigAppearanceMotion {
    System,
    Reduced,
}

#[derive(Clone, Copy, Debug, PartialEq, Eq, Structural)]
pub enum ConfigLocale {
    System,
    EnUs,
    ZhCn,
    JaJp,
}

#[derive(Clone, Debug, PartialEq, Eq)]
pub struct ConfigAppearance {
    pub mode: ConfigAppearanceMode,
    pub source_color: Option<String>,
    pub density: ConfigAppearanceDensity,
    pub motion: ConfigAppearanceMotion,
}

#[derive(Clone, Debug, PartialEq, Eq)]
pub struct ConfigSettings {
    pub appearance: ConfigAppearance,
    pub locale: ConfigLocale,
}

#[derive(Clone, Debug, PartialEq, Eq)]
pub struct ConfigSnapshot {
    pub revision: u64,
    pub settings: ConfigSettings,
}

#[derive(Clone, Debug, PartialEq, Eq)]
pub enum ConfigNullableUpdate<T> {
    Unchanged,
    Clear,
    Assign(T),
}

#[derive(Clone, Debug, PartialEq, Eq)]
pub struct ConfigAppearanceUpdate {
    pub mode: Option<ConfigAppearanceMode>,
    pub source_color: ConfigNullableUpdate<String>,
    pub density: Option<ConfigAppearanceDensity>,
    pub motion: Option<ConfigAppearanceMotion>,
}

#[derive(Clone, Debug, PartialEq, Eq)]
pub struct ConfigUpdate {
    pub appearance: Option<ConfigAppearanceUpdate>,
    pub locale: Option<ConfigLocale>,
}

#[derive(Clone, Debug, PartialEq, Eq)]
pub struct OfficialActivityCursor {
    pub occurred_at_ms: u64,
    pub source_rank: u8,
    pub stable_id: String,
}

#[derive(Clone, Debug, PartialEq, Eq)]
pub enum OfficialActivityKind {
    Operation,
    Event,
}

#[derive(Clone, Debug, PartialEq, Eq)]
pub struct OfficialActivityItem {
    pub occurred_at_ms: u64,
    pub kind: OfficialActivityKind,
    pub summary_code: String,
    pub operation_id: Option<String>,
    pub event_sequence: Option<u64>,
    pub resource_kind: Option<String>,
    pub resource_id: Option<String>,
    pub state: Option<String>,
}

#[derive(Clone, Debug, PartialEq, Eq)]
pub struct OfficialActivityPage {
    pub items: Vec<OfficialActivityItem>,
    pub next_cursor: Option<OfficialActivityCursor>,
}

#[derive(Clone, Debug, PartialEq, Eq)]
pub struct OfficialDiagnosticCursor {
    pub occurred_at_ms: u64,
    pub operation_id: String,
}

#[derive(Clone, Debug, PartialEq, Eq)]
pub struct OfficialDiagnosticItem {
    pub occurred_at_ms: u64,
    pub subsystem: String,
    pub code: String,
    pub diagnostic_id: Option<String>,
    pub operation_id: String,
}

#[derive(Clone, Debug, PartialEq, Eq)]
pub struct OfficialDiagnosticPage {
    pub items: Vec<OfficialDiagnosticItem>,
    pub next_cursor: Option<OfficialDiagnosticCursor>,
}

#[derive(Clone, Copy, Debug, PartialEq, Eq, Structural)]
pub enum OfficialGuiError {
    InvalidInput,
    PermissionDenied,
    RevisionConflict,
    Unavailable,
    Corrupt,
}


/// The public name of each appearance mode.
pub open spec fn mode_name(v: ConfigAppearanceMode) -> Seq<char> {
    match v {
        ConfigAppearanceMode::System => "system"@,
        ConfigAppearanceMode::Light => "light"@,
        ConfigAppearanceMode::Dark => "dark"@,
    }
}

/// The public name of each density.
pub open spec fn density_name(v: ConfigAppearanceDensity) -> Seq<char> {
    match v {
        ConfigAppearanceDensity::Default => "default"@,
        ConfigAppearanceDensity::Compact => "compact"@,
    }
}

/// The public name of each motion preference.
pub open spec fn motion_name(v: ConfigAppearanceMotion) -> Seq<char> {
    match v {
        ConfigAppearanceMotion::System => "system"@,
        ConfigAppearanceMotion::Reduced => "reduced"@,
    }
}

/// The public name of each locale choice.
pub open spec fn locale_name(v: ConfigLocale) -> Seq<char> {
    match v {
        ConfigLocale::System => "system"@,
        ConfigLocale::EnUs => "en-US"@,
        ConfigLocale::ZhCn => "zh-CN"@,
        ConfigLocale::JaJp => "ja-JP"@,
    }
}

/// Names an appearance mode.
pub fn mode_str(v: ConfigAppearanceMode) -> (r: &'static str)
    ensures
        r@ == mode_name(v),
{
    match v {
        ConfigAppearanceMode::System => "system",
        ConfigAppearanceMode::Light => "light",
        ConfigAppearanceMode::Dark => "dark",
    }
}

/// Names a density.
pub fn density_str(v: ConfigAppearanceDensity) -> (r: &'static str)
    ensures
        r@ == density_name(v),
{
    match v {
        ConfigAppearanceDensity::Default => "default",
        ConfigAppearanceDensity::Compact => "compact",
    }
}

/// Names a motion preference.
pub fn motion_str(v: ConfigAppearanceMotion) -> (r: &'static str)
    ensures
        r@ == motion_name(v),
{
    match v {
        ConfigAppearanceMotion::System => "system",
        ConfigAppearanceMotion::Reduced => "reduced",
    }
}

/// Names a locale choice.
pub fn locale_str(v: ConfigLocale) -> (r: &'static str)
    ensures
        r@ == locale_name(v),
{
    match v {
        ConfigLocale::System => "system",
        ConfigLocale::EnUs => "en-US",
        ConfigLocale::ZhCn => "zh-CN",
        ConfigLocale::JaJp => "ja-JP",
    }
}

/// The settings a fresh installation starts with, at revision one.
pub fn default_snapshot() -> (r: ConfigSnapshot)
    ensures
        r.revision == 1,
        r.settings.appearance.mode == ConfigAppearanceMode::System,
        r.settings.appearance.source_color is None,
        r.settings.appearance.density == ConfigAppearanceDensity::Default,
        r.settings.appearance.motion == ConfigAppearanceMotion::System,
        r.settings.locale == ConfigLocale::System,
{
    ConfigSnapshot {
        revision: 1,
        settings: ConfigSettings {
            appearance: ConfigAppearance {
                mode: ConfigAppearanceMode::System,
                source_color: None,
                density: ConfigAppearanceDensity::Default,
                motion: ConfigAppearanceMotion::System,
            },
            locale: ConfigLocale::System,
        },
    }
}

/// A source color is `#` and six uppercase hexadecimal digits.
pub open spec fn source_color_ok(v: Seq<char>) -> bool {
    &&& v.len() == 7
    &&& v[0] == '#'
    &&& forall|i: int| 1 <= i < 7 ==> ('0' <= #[trigger] v[i] <= '9' || 'A' <= v[i] <= 'F')
}

/// Checks a source color.
pub fn valid_source_color(value: &str) -> (r: bool)
    ensures
        r == source_color_ok(value@),
{
    let c = crate::text::text_chars(value);
    if c.len() != 7 || c[0] != '#' {
        return false;
    }
    let mut i: usize = 1;
    while i < 7
        invariant
            c@ == value@,
            c@.len() == 7,
            c@[0] == '#',
            1 <= i <= 7,
            forall|k: int| 1 <= k < i ==> ('0' <= #[trigger] c@[k] <= '9' || 'A' <= c@[k] <= 'F'),
        decreases 7 - i,
    {
        let ch = c[i];
        if !(('0' <= ch && ch <= '9') || ('A' <= ch && ch <= 'F')) {
            assert(!('0' <= c@[i as int] <= '9' || 'A' <= c@[i as int] <= 'F'));
            return false;
        }
        i = i + 1;
    }
    true
}

/// Unicode `White_Space`, the characters `str::trim` removes.
pub open spec fn is_white_space(c: char) -> bool {
    ||| c == '\t' || c == '\n' || c == '\u{0B}' || c == '\u{0C}' || c == '\r' || c == ' '
    ||| c == '\u{85}' || c == '\u{A0}' || c == '\u{1680}'
    ||| ('\u{2000}' <= c && c <= '\u{200A}')
    ||| c == '\u{2028}' || c == '\u{2029}' || c == '\u{202F}' || c == '\u{205F}' || c == '\u{3000}'
}

fn white_space(c: char) -> (r: bool)
    ensures
        r == is_white_space(c),
{
    c == '\t' || c == '\n' || c == '\u{0B}' || c == '\u{0C}' || c == '\r' || c == ' ' || c == '\u{85}'
        || c == '\u{A0}' || c == '\u{1680}' || ('\u{2000}' <= c && c <= '\u{200A}') || c == '\u{2028}'
        || c == '\u{2029}' || c == '\u{202F}' || c == '\u{205F}' || c == '\u{3000}'
}

/// First position in `i..j` that is not white space, or `j`.
pub open spec fn trim_start_at(t: Seq<char>, i: int, j: int) -> int
    decreases j - i,
{
    if i < j && is_white_space(t[i]) {
        trim_start_at(t, i + 1, j)
    } else {
        i
    }
}

/// End of `i..j` after dropping trailing white space.
pub open spec fn trim_end_at(t: Seq<char>, i: int, j: int) -> int
    decreases j - i,
{
    if i < j && is_white_space(t[j - 1]) {
        trim_end_at(t, i, j - 1)
    } else {
        j
    }
}

/// `t[i..j]` with white space removed at both ends.
pub open spec fn trimmed(t: Seq<char>, i: int, j: int) -> Seq<char> {
    let a = trim_start_at(t, i, j);
    t.subrange(a, trim_end_at(t, a, j))
}

proof fn lemma_trim_bounds(t: Seq<char>, i: int, j: int)
    requires
        0 <= i <= j <= t.len(),
    ensures
        i <= trim_start_at(t, i, j) <= j,
        trim_start_at(t, i, j) <= trim_end_at(t, trim_start_at(t, i, j), j) <= j,
    decreases j - i,
{
    if i < j && is_white_space(t[i]) {
        lemma_trim_bounds(t, i + 1, j);
    }
    lemma_trim_end_bounds(t, trim_start_at(t, i, j), j);
}

proof fn lemma_trim_end_bounds(t: Seq<char>, i: int, j: int)
    requires
        0 <= i <= j <= t.len(),
    ensures
        i <= trim_end_at(t, i, j) <= j,
    decreases j - i,
{
    if i < j && is_white_space(t[j - 1]) {
        lemma_trim_end_bounds(t, i, j - 1);
    }
}

fn trim_range(t: &Vec<char>, i: usize, j: usize) -> (r: (usize, usize))
    requires
        i <= j <= t@.len(),
    ensures
        r.0 as int == trim_start_at(t@, i as int, j as int),
        r.1 as int == trim_end_at(t@, r.0 as int, j as int),
        i <= r.0 <= r.1 <= j,
{
    proof {
        lemma_trim_bounds(t@, i as int, j as int);
    }
    let mut a = i;
    while a < j && white_space(t[a])
        invariant
            i <= a <= j <= t@.len(),
            trim_start_at(t@, a as int, j as int) == trim_start_at(t@, i as int, j as int),
        decreases j - a,
    {
        a = a + 1;
    }
    let mut b = j;
    while b > a && white_space(t[b - 1])
        invariant
            a <= b <= j <= t@.len(),
            trim_end_at(t@, a as int, b as int) == trim_end_at(t@, a as int, j as int),
        decreases b - a,
    {
        b = b - 1;
    }
    (a, b)
}

/// A quoted settings string: `"`, no `"` or `\`, `"`; the contents.
pub open spec fn quoted_contents(v: Seq<char>) -> Option<Seq<char>> {
    if v.len() >= 2 && v[0] == '"' && v[v.len() - 1] == '"' && forall|i: int|
        1 <= i < v.len() - 1 ==> #[trigger] v[i] != '"' && v[i] != '\\' {
        Some(v.subrange(1, v.len() - 1))
    } else {
        None
    }
}

/// Value of decimal digit characters.
pub open spec fn char_digits_value(d: Seq<char>) -> int
    decreases d.len(),
{
    if d.len() == 0 {
        0
    } else {
        char_digits_value(d.drop_last()) * 10 + (d.last() as int - 48)
    }
}

/// Every character is a decimal digit.
pub open spec fn all_digit_chars(d: Seq<char>) -> bool {
    forall|i: int| 0 <= i < d.len() ==> '0' <= #[trigger] d[i] <= '9'
}

/// What `u64::from_str` gives for settings text: an optional `+` and one or
/// more decimal digits whose value fits.
pub open spec fn u64_chars_value(v: Seq<char>) -> Option<u64> {
    let d = if v.len() > 0 && v[0] == '+' { v.skip(1) } else { v };
    if d.len() > 0 && all_digit_chars(d) && char_digits_value(d) <= u64::MAX {
        Some(char_digits_value(d) as u64)
    } else {
        None
    }
}

/// The fields read so far: whether the appearance section started, then
/// schema, revision, locale, mode, source color, density and motion.
pub type SettingsFields = (
    bool,
    Option<u64>,
    Option<u64>,
    Option<ConfigLocale>,
    Option<ConfigAppearanceMode>,
    Option<Seq<char>>,
    Option<ConfigAppearanceDensity>,
    Option<ConfigAppearanceMotion>,
);

/// The locale a settings value names.
pub open spec fn locale_of(v: Seq<char>) -> Option<ConfigLocale> {
    if v == "system"@ {
        Some(ConfigLocale::System)
    } else if v == "en-US"@ {
        Some(ConfigLocale::EnUs)
    } else if v == "zh-CN"@ {
        Some(ConfigLocale::ZhCn)
    } else if v == "ja-JP"@ {
        Some(ConfigLocale::JaJp)
    } else {
        None
    }
}

/// The appearance mode a settings value names.
pub open spec fn mode_of(v: Seq<char>) -> Option<ConfigAppearanceMode> {
    if v == "system"@ {
        Some(ConfigAppearanceMode::System)
    } else if v == "light"@ {
        Some(ConfigAppearanceMode::Light)
    } else if v == "dark"@ {
        Some(ConfigAppearanceMode::Dark)
    } else {
        None
    }
}

/// The density a settings value names.
pub open spec fn density_of(v: Seq<char>) -> Option<ConfigAppearanceDensity> {
    if v == "default"@ {
        Some(ConfigAppearanceDensity::Default)
    } else if v == "compact"@ {
        Some(ConfigAppearanceDensity::Compact)
    } else {
        None
    }
}

/// The motion preference a settings value names.
pub open spec fn motion_of(v: Seq<char>) -> Option<ConfigAppearanceMotion> {
    if v == "system"@ {
        Some(ConfigAppearanceMotion::System)
    } else if v == "reduced"@ {
        Some(ConfigAppearanceMotion::Reduced)
    } else {
        None
    }
}

/// Position of the first `=` in `i..j`, or `j`.
pub open spec fn equals_at(t: Seq<char>, i: int, j: int) -> int
    decreases j - i,
{
    if i < j && t[i] != '=' {
        equals_at(t, i + 1, j)
    } else {
        i
    }
}

/// Reads one key and value into the fields, or refuses: an unknown key, a
/// key seen before, or a value that does not parse.
pub open spec fn read_key(f: SettingsFields, key: Seq<char>, value: Seq<char>) -> Option<SettingsFields> {
    let q = quoted_contents(value);
    if !f.0 {
        if key == "schema"@ {
            if f.1 is Some || u64_chars_value(value) is None { None } else { Some((f.0, u64_chars_value(value), f.2, f.3, f.4, f.5, f.6, f.7)) }
        } else if key == "revision"@ {
            if f.2 is Some || u64_chars_value(value) is None { None } else { Some((f.0, f.1, u64_chars_value(value), f.3, f.4, f.5, f.6, f.7)) }
        } else if key == "locale"@ {
            if f.3 is Some || q is None || locale_of(q->0) is None { None } else { Some((f.0, f.1, f.2, locale_of(q->0), f.4, f.5, f.6, f.7)) }
        } else {
            None
        }
    } else {
        if key == "mode"@ {
            if f.4 is Some || q is None || mode_of(q->0) is None { None } else { Some((f.0, f.1, f.2, f.3, mode_of(q->0), f.5, f.6, f.7)) }
        } else if key == "source_color"@ {
            if f.5 is Some || q is None || !source_color_ok(q->0) { None } else { Some((f.0, f.1, f.2, f.3, f.4, q, f.6, f.7)) }
        } else if key == "density"@ {
            if f.6 is Some || q is None || density_of(q->0) is None { None } else { Some((f.0, f.1, f.2, f.3, f.4, f.5, density_of(q->0), f.7)) }
        } else if key == "motion"@ {
            if f.7 is Some || q is None || motion_of(q->0) is None { None } else { Some((f.0, f.1, f.2, f.3, f.4, f.5, f.6, motion_of(q->0))) }
        } else {
            None
        }
    }
}

/// Reads one line `t[i..j]`: blank lines and `#` comments are skipped, the
/// only section header is `[appearance]` once, and every other line is
/// `key = value`.
pub open spec fn read_line(f: SettingsFields, t: Seq<char>, i: int, j: int) -> Option<SettingsFields> {
    let line = trimmed(t, i, j);
    if line.len() == 0 || line[0] == '#' {
        Some(f)
    } else if line[0] == '[' {
        if line == "[appearance]"@ && !f.0 {
            Some((true, f.1, f.2, f.3, f.4, f.5, f.6, f.7))
        } else {
            None
        }
    } else {
        let a = trim_start_at(t, i, j);
        let b = trim_end_at(t, a, j);
        let e = equals_at(t, a, b);
        if e >= b {
            None
        } else {
            read_key(f, trimmed(t, a, e), trimmed(t, e + 1, b))
        }
    }
}

/// End of the line that starts at `i`: the next newline, or the end.
pub open spec fn line_end(t: Seq<char>, i: int) -> int
    decreases t.len() - i,
{
    if 0 <= i < t.len() && t[i] != '\n' {
        line_end(t, i + 1)
    } else {
        i
    }
}

pub proof fn lemma_line_end(t: Seq<char>, i: int)
    requires
        0 <= i <= t.len(),
    ensures
        i <= line_end(t, i) <= t.len(),
        line_end(t, i) < t.len() ==> t[line_end(t, i)] == '\n',
    decreases t.len() - i,
{
    if i < t.len() && t[i] != '\n' {
        lemma_line_end(t, i + 1);
    }
}

/// Reads every line from position `i` on.
pub open spec fn read_lines(f: SettingsFields, t: Seq<char>, i: int) -> Option<SettingsFields>
    decreases t.len() - i,
{
    if i < 0 || i > t.len() {
        None
    } else {
        let e = line_end(t, i);
        match read_line(f, t, i, e) {
            None => None,
            Some(g) => if e >= t.len() {
                Some(g)
            } else {
                proof {
                    lemma_line_end(t, i);
                }
                read_lines(g, t, e + 1)
            },
        }
    }
}


/// No field read yet, in the root section.
pub open spec fn no_fields() -> SettingsFields {
    (false, None, None, None, None, None, None, None)
}

/// Fields being read, as values.
struct SettingsDraft {
    appearance: bool,
    schema: Option<u64>,
    revision: Option<u64>,
    locale: Option<ConfigLocale>,
    mode: Option<ConfigAppearanceMode>,
    source_color: Option<String>,
    density: Option<ConfigAppearanceDensity>,
    motion: Option<ConfigAppearanceMotion>,
}

spec fn draft_view(d: SettingsDraft) -> SettingsFields {
    (
        d.appearance,
        d.schema,
        d.revision,
        d.locale,
        d.mode,
        match d.source_color {
            Some(s) => Some(s@),
            None => None,
        },
        d.density,
        d.motion,
    )
}

/// Whether `t[a..b]` is exactly the text `lit`.
fn range_is(t: &Vec<char>, a: usize, b: usize, lit: &str) -> (r: bool)
    requires
        a <= b <= t@.len(),
    ensures
        r == (t@.subrange(a as int, b as int) == lit@),
{
    let l = crate::text::text_chars(lit);
    if b - a != l.len() {
        assert(t@.subrange(a as int, b as int).len() != lit@.len());
        return false;
    }
    let mut k: usize = 0;
    while k < l.len()
        invariant
            a <= b <= t@.len(),
            l@ == lit@,
            b - a == l@.len(),
            k <= l@.len(),
            forall|m: int| 0 <= m < k ==> t@[a + m] == l@[m],
        decreases l@.len() - k,
    {
        if t[a + k] != l[k] {
            assert(t@.subrange(a as int, b as int)[k as int] != lit@[k as int]);
            return false;
        }
        k = k + 1;
    }
    assert(t@.subrange(a as int, b as int) =~= lit@);
    true
}

fn equals_in(t: &Vec<char>, i: usize, j: usize) -> (r: usize)
    requires
        i <= j <= t@.len(),
    ensures
        r as int == equals_at(t@, i as int, j as int),
        i <= r <= j,
{
    let mut k = i;
    while k < j && t[k] != '='
        invariant
            i <= k <= j <= t@.len(),
            equals_at(t@, k as int, j as int) == equals_at(t@, i as int, j as int),
        decreases j - k,
    {
        k = k + 1;
    }
    k
}

/// The range of a quoted value's contents.
fn quoted_range(t: &Vec<char>, a: usize, b: usize) -> (r: Option<(usize, usize)>)
    requires
        a <= b <= t@.len(),
    ensures
        match r {
            Some((x, y)) => quoted_contents(t@.subrange(a as int, b as int)) == Some(t@.subrange(x as int, y as int))
                && a < x <= y < b,
            None => quoted_contents(t@.subrange(a as int, b as int)) is None,
        },
{
    let ghost v = t@.subrange(a as int, b as int);
    if b - a < 2 || t[a] != '"' || t[b - 1] != '"' {
        return None;
    }
    let mut k = a + 1;
    while k < b - 1
        invariant
            a + 2 <= b <= t@.len(),
            v == t@.subrange(a as int, b as int),
            a + 1 <= k <= b - 1,
            forall|m: int| 1 <= m < k - a ==> #[trigger] v[m] != '"' && v[m] != '\\',
        decreases b - 1 - k,
    {
        if t[k] == '"' || t[k] == '\\' {
            assert(v[k - a] == t@[k as int]);
            return None;
        }
        k = k + 1;
    }
    assert(v.subrange(1, v.len() - 1) =~= t@.subrange(a + 1, b - 1));
    Some((a + 1, b - 1))
}

proof fn lemma_char_digits_grow(d: Seq<char>, k: int)
    requires
        0 <= k <= d.len(),
        all_digit_chars(d),
    ensures
        char_digits_value(d.take(k)) <= char_digits_value(d),
        char_digits_value(d) >= 0,
    decreases d.len(),
{
    if d.len() > 0 {
        if k == d.len() {
            lemma_char_digits_grow(d.drop_last(), 0);
            assert(d.take(k) =~= d);
        } else {
            lemma_char_digits_grow(d.drop_last(), k);
            assert(d.drop_last().take(k) =~= d.take(k));
        }
    }
}

/// Parses `t[a..b]` as an unsigned 64-bit integer, as `u64::from_str` does.
fn parse_u64_range(t: &Vec<char>, a: usize, b: usize) -> (r: Option<u64>)
    requires
        a <= b <= t@.len(),
    ensures
        r == u64_chars_value(t@.subrange(a as int, b as int)),
{
    let ghost v = t@.subrange(a as int, b as int);
    let mut i = a;
    if i < b && t[i] == '+' {
        i = i + 1;
    }
    let ghost d = t@.subrange(i as int, b as int);
    assert(d =~= (if v.len() > 0 && v[0] == '+' { v.skip(1) } else { v }));
    if i == b {
        return None;
    }
    let first = i;
    let mut value: u64 = 0;
    while i < b
        invariant
            a <= first <= i <= b <= t@.len(),
            v == t@.subrange(a as int, b as int),
            d == (if v.len() > 0 && v[0] == '+' { v.skip(1) } else { v }),
            d == t@.subrange(first as int, b as int),
            forall|m: int| first <= m < i ==> '0' <= #[trigger] t@[m] <= '9',
            value == char_digits_value(t@.subrange(first as int, i as int)),
        decreases b - i,
    {
        let c = t[i];
        proof {
            assert(t@.subrange(first as int, i + 1).drop_last() =~= t@.subrange(first as int, i as int));
            assert(d.take(i + 1 - first) =~= t@.subrange(first as int, i + 1));
        }
        if !('0' <= c && c <= '9') {
            assert(d[i - first] == t@[i as int]);
            assert(!('0' <= d[i - first] <= '9'));
            assert(!all_digit_chars(d));
            return None;
        }
        proof {
            assert(char_digits_value(t@.subrange(first as int, i + 1)) == value * 10 + (c as int - 48));
        }
        let digit: u64 = (c as u32 - 48) as u64;
        assert(digit == c as int - 48);
        let next = match value.checked_mul(10) {
            Some(x) => x.checked_add(digit),
            None => None,
        };
        match next {
            Some(n) => value = n,
            None => {
                proof {
                    assert(value * 10 + digit > u64::MAX);
                    if all_digit_chars(d) {
                        lemma_char_digits_grow(d, i + 1 - first);
                        assert(char_digits_value(d) > u64::MAX);
                    }
                }
                return None;
            },
        }
        i = i + 1;
    }
    assert(t@.subrange(first as int, i as int) =~= d);
    Some(value)
}

fn locale_in(t: &Vec<char>, x: usize, y: usize) -> (r: Option<ConfigLocale>)
    requires
        x <= y <= t@.len(),
    ensures
        r == locale_of(t@.subrange(x as int, y as int)),
{
    if range_is(t, x, y, "system") {
        Some(ConfigLocale::System)
    } else if range_is(t, x, y, "en-US") {
        Some(ConfigLocale::EnUs)
    } else if range_is(t, x, y, "zh-CN") {
        Some(ConfigLocale::ZhCn)
    } else if range_is(t, x, y, "ja-JP") {
        Some(ConfigLocale::JaJp)
    } else {
        None
    }
}

fn mode_in(t: &Vec<char>, x: usize, y: usize) -> (r: Option<ConfigAppearanceMode>)
    requires
        x <= y <= t@.len(),
    ensures
        r == mode_of(t@.subrange(x as int, y as int)),
{
    if range_is(t, x, y, "system") {
        Some(ConfigAppearanceMode::System)
    } else if range_is(t, x, y, "light") {
        Some(ConfigAppearanceMode::Light)
    } else if range_is(t, x, y, "dark") {
        Some(ConfigAppearanceMode::Dark)
    } else {
        None
    }
}

fn density_in(t: &Vec<char>, x: usize, y: usize) -> (r: Option<ConfigAppearanceDensity>)
    requires
        x <= y <= t@.len(),
    ensures
        r == density_of(t@.subrange(x as int, y as int)),
{
    if range_is(t, x, y, "default") {
        Some(ConfigAppearanceDensity::Default)
    } else if range_is(t, x, y, "compact") {
        Some(ConfigAppearanceDensity::Compact)
    } else {
        None
    }
}

fn motion_in(t: &Vec<char>, x: usize, y: usize) -> (r: Option<ConfigAppearanceMotion>)
    requires
        x <= y <= t@.len(),
    ensures
        r == motion_of(t@.subrange(x as int, y as int)),
{
    if range_is(t, x, y, "system") {
        Some(ConfigAppearanceMotion::System)
    } else if range_is(t, x, y, "reduced") {
        Some(ConfigAppearanceMotion::Reduced)
    } else {
        None
    }
}

/// The one-character text of a source color character.
fn color_char_str(c: char) -> (r: &'static str)
    requires
        c == '#' || ('0' <= c <= '9') || ('A' <= c <= 'F'),
    ensures
        r@ == seq![c],
{
    proof {
        reveal_strlit("#");
        reveal_strlit("0");
        reveal_strlit("1");
        reveal_strlit("2");
        reveal_strlit("3");
        reveal_strlit("4");
        reveal_strlit("5");
        reveal_strlit("6");
        reveal_strlit("7");
        reveal_strlit("8");
        reveal_strlit("9");
        reveal_strlit("A");
        reveal_strlit("B");
        reveal_strlit("C");
        reveal_strlit("D");
        reveal_strlit("E");
        reveal_strlit("F");
    }
    match c {
        '#' => "#",
        '0' => "0",
        '1' => "1",
        '2' => "2",
        '3' => "3",
        '4' => "4",
        '5' => "5",
        '6' => "6",
        '7' => "7",
        '8' => "8",
        '9' => "9",
        'A' => "A",
        'B' => "B",
        'C' => "C",
        'D' => "D",
        'E' => "E",
        _ => "F",
    }
}

/// Whether `t[x..y]` is a valid source color.
fn color_in(t: &Vec<char>, x: usize, y: usize) -> (r: bool)
    requires
        x <= y <= t@.len(),
    ensures
        r == source_color_ok(t@.subrange(x as int, y as int)),
{
    let ghost v = t@.subrange(x as int, y as int);
    if y - x != 7 || t[x] != '#' {
        return false;
    }
    let mut k: usize = 1;
    while k < 7
        invariant
            x + 7 == y <= t@.len(),
            v == t@.subrange(x as int, y as int),
            v[0] == '#',
            1 <= k <= 7,
            forall|m: int| 1 <= m < k ==> ('0' <= #[trigger] v[m] <= '9' || 'A' <= v[m] <= 'F'),
        decreases 7 - k,
    {
        let ch = t[x + k];
        assert(v[k as int] == ch);
        if !(('0' <= ch && ch <= '9') || ('A' <= ch && ch <= 'F')) {
            return false;
        }
        k = k + 1;
    }
    true
}

/// The text of a validated source color held in `t[x..y]`.
fn color_text(t: &Vec<char>, x: usize, y: usize) -> (r: String)
    requires
        x <= y <= t@.len(),
        source_color_ok(t@.subrange(x as int, y as int)),
    ensures
        r@ == t@.subrange(x as int, y as int),
{
    let ghost v = t@.subrange(x as int, y as int);
    let mut out = String::new();
    let mut k = x;
    while k < y
        invariant
            x <= k <= y <= t@.len(),
            v == t@.subrange(x as int, y as int),
            source_color_ok(v),
            out@ == t@.subrange(x as int, k as int),
        decreases y - k,
    {
        assert(v[k - x] == t@[k as int]);
        out.append(color_char_str(t[k]));
        assert(t@.subrange(x as int, k + 1) =~= t@.subrange(x as int, k as int).push(t@[k as int]));
        k = k + 1;
    }
    out
}

fn read_key_exec(f: SettingsDraft, t: &Vec<char>, ka: usize, kb: usize, va: usize, vb: usize) -> (r: Option<SettingsDraft>)
    requires
        ka <= kb <= t@.len(),
        va <= vb <= t@.len(),
    ensures
        match r {
            Some(g) => read_key(draft_view(f), t@.subrange(ka as int, kb as int), t@.subrange(va as int, vb as int))
                == Some(draft_view(g)),
            None => read_key(draft_view(f), t@.subrange(ka as int, kb as int), t@.subrange(va as int, vb as int)) is None,
        },
{
    let mut f = f;
    let q = quoted_range(t, va, vb);
    if !f.appearance {
        if range_is(t, ka, kb, "schema") {
            if f.schema.is_some() {
                return None;
            }
            let v = parse_u64_range(t, va, vb);
            if v.is_none() {
                return None;
            }
            f.schema = v;
            Some(f)
        } else if range_is(t, ka, kb, "revision") {
            if f.revision.is_some() {
                return None;
            }
            let v = parse_u64_range(t, va, vb);
            if v.is_none() {
                return None;
            }
            f.revision = v;
            Some(f)
        } else if range_is(t, ka, kb, "locale") {
            if f.locale.is_some() {
                return None;
            }
            match q {
                Some((x, y)) => {
                    let l = locale_in(t, x, y);
                    if l.is_none() {
                        return None;
                    }
                    f.locale = l;
                    Some(f)
                },
                None => None,
            }
        } else {
            None
        }
    } else {
        if range_is(t, ka, kb, "mode") {
            if f.mode.is_some() {
                return None;
            }
            match q {
                Some((x, y)) => {
                    let m = mode_in(t, x, y);
                    if m.is_none() {
                        return None;
                    }
                    f.mode = m;
                    Some(f)
                },
                None => None,
            }
        } else if range_is(t, ka, kb, "source_color") {
            if f.source_color.is_some() {
                return None;
            }
            match q {
                Some((x, y)) => {
                    if !color_in(t, x, y) {
                        return None;
                    }
                    f.source_color = Some(color_text(t, x, y));
                    Some(f)
                },
                None => None,
            }
        } else if range_is(t, ka, kb, "density") {
            if f.density.is_some() {
                return None;
            }
            match q {
                Some((x, y)) => {
                    let d = density_in(t, x, y);
                    if d.is_none() {
                        return None;
                    }
                    f.density = d;
                    Some(f)
                },
                None => None,
            }
        } else if range_is(t, ka, kb, "motion") {
            if f.motion.is_some() {
                return None;
            }
            match q {
                Some((x, y)) => {
                    let m = motion_in(t, x, y);
                    if m.is_none() {
                        return None;
                    }
                    f.motion = m;
                    Some(f)
                },
                None => None,
            }
        } else {
            None
        }
    }
}


fn read_line_exec(f: SettingsDraft, t: &Vec<char>, i: usize, j: usize) -> (r: Option<SettingsDraft>)
    requires
        i <= j <= t@.len(),
    ensures
        match r {
            Some(g) => read_line(draft_view(f), t@, i as int, j as int) == Some(draft_view(g)),
            None => read_line(draft_view(f), t@, i as int, j as int) is None,
        },
{
    let (a, b) = trim_range(t, i, j);
    if a == b || t[a] == '#' {
        return Some(f);
    }
    if t[a] == '[' {
        if range_is(t, a, b, "[appearance]") && !f.appearance {
            let mut g = f;
            g.appearance = true;
            return Some(g);
        }
        return None;
    }
    let e = equals_in(t, a, b);
    if e >= b {
        return None;
    }
    let (ka, kb) = trim_range(t, a, e);
    let (va, vb) = trim_range(t, e + 1, b);
    read_key_exec(f, t, ka, kb, va, vb)
}

fn line_end_exec(t: &Vec<char>, i: usize) -> (r: usize)
    requires
        i <= t@.len(),
    ensures
        r as int == line_end(t@, i as int),
        i <= r <= t@.len(),
{
    proof {
        lemma_line_end(t@, i as int);
    }
    let mut k = i;
    while k < t.len() && t[k] != '\n'
        invariant
            i <= k <= t@.len(),
            line_end(t@, k as int) == line_end(t@, i as int),
        decreases t@.len() - k,
    {
        k = k + 1;
    }
    k
}

/// A complete reading: schema one, a positive revision and every required value.
pub open spec fn fields_complete(f: SettingsFields) -> bool {
    &&& f.1 == Some(1u64)
    &&& f.2 matches Some(rev) && rev > 0
    &&& f.3 is Some
    &&& f.4 is Some
    &&& f.6 is Some
    &&& f.7 is Some
}

/// The snapshot holds exactly the fields read.
pub open spec fn snapshot_has_fields(s: ConfigSnapshot, f: SettingsFields) -> bool {
    &&& Some(s.revision) == f.2
    &&& Some(s.settings.locale) == f.3
    &&& Some(s.settings.appearance.mode) == f.4
    &&& match s.settings.appearance.source_color {
        Some(c) => f.5 == Some(c@),
        None => f.5 is None,
    }
    &&& Some(s.settings.appearance.density) == f.6
    &&& Some(s.settings.appearance.motion) == f.7
}

/// Reads a settings file. Any line that is not blank, a comment, the single
/// `[appearance]` header or a known `key = value` pair, any repeated key or
/// unparsable value, and any missing value makes the file `corrupt`.
pub fn parse_settings(text: &str) -> (r: Result<ConfigSnapshot, OfficialGuiError>)
    ensures
        ({
            let f = read_lines(no_fields(), text@, 0);
            &&& r is Ok <==> (f is Some && fields_complete(f->0))
            &&& r matches Ok(s) ==> snapshot_has_fields(s, f->0)
            &&& r matches Err(e) ==> e == OfficialGuiError::Corrupt
        }),
{
    let t = crate::text::text_chars(text);
    let mut f = SettingsDraft {
        appearance: false,
        schema: None,
        revision: None,
        locale: None,
        mode: None,
        source_color: None,
        density: None,
        motion: None,
    };
    let mut i: usize = 0;
    loop
        invariant_except_break
            read_lines(no_fields(), t@, 0) == read_lines(draft_view(f), t@, i as int),
        invariant
            t@ == text@,
            i <= t@.len(),
        ensures
            read_lines(no_fields(), t@, 0) == Some(draft_view(f)),
        decreases t@.len() - i,
    {
        let e = line_end_exec(&t, i);
        match read_line_exec(f, &t, i, e) {
            None => return Err(OfficialGuiError::Corrupt),
            Some(g) => {
                f = g;
            },
        }
        if e >= t.len() {
            break;
        }
        i = e + 1;
    }
    if f.schema != Some(1u64) {
        return Err(OfficialGuiError::Corrupt);
    }
    let revision = match f.revision {
        Some(r) => if r > 0 {
            r
        } else {
            return Err(OfficialGuiError::Corrupt);
        },
        None => return Err(OfficialGuiError::Corrupt),
    };
    let mode = match f.mode {
        Some(v) => v,
        None => return Err(OfficialGuiError::Corrupt),
    };
    let density = match f.density {
        Some(v) => v,
        None => return Err(OfficialGuiError::Corrupt),
    };
    let motion = match f.motion {
        Some(v) => v,
        None => return Err(OfficialGuiError::Corrupt),
    };
    let locale = match f.locale {
        Some(v) => v,
        None => return Err(OfficialGuiError::Corrupt),
    };
    Ok(ConfigSnapshot {
        revision,
        settings: ConfigSettings {
            appearance: ConfigAppearance { mode, source_color: f.source_color, density, motion },
            locale,
        },
    })
}

/// `key = value`.
pub open spec fn key_line(k: Seq<char>, v: Seq<char>) -> Seq<char> {
    k + seq![' ', '=', ' '] + v
}

/// `"x"`.
pub open spec fn quoted(x: Seq<char>) -> Seq<char> {
    seq!['"'] + x + seq!['"']
}

/// The lines of the appearance section: the mode, the source color where
/// set, the density and the motion.
pub open spec fn appearance_lines(s: ConfigSnapshot) -> Seq<Seq<char>> {
    seq![key_line("mode"@, quoted(mode_name(s.settings.appearance.mode)))] + (match s.settings.appearance.source_color {
        Some(c) => seq![key_line("source_color"@, quoted(c@))],
        None => Seq::empty(),
    } + (seq![key_line("density"@, quoted(density_name(s.settings.appearance.density)))] + seq![
        key_line("motion"@, quoted(motion_name(s.settings.appearance.motion))),
    ]))
}

/// The lines of the settings file of a snapshot, without their newlines:
/// the schema, the revision and the locale, a blank line, the
/// `[appearance]` header and the appearance lines.
pub open spec fn settings_lines(s: ConfigSnapshot) -> Seq<Seq<char>> {
    seq![key_line("schema"@, "1"@)] + (seq![key_line("revision"@, decimal_text(s.revision as nat))] + (seq![
        key_line("locale"@, quoted(locale_name(s.settings.locale))),
    ] + (seq![Seq::empty()] + (seq!["[appearance]"@] + appearance_lines(s)))))
}

/// Lines, each followed by a newline.
pub open spec fn lines_text(lines: Seq<Seq<char>>) -> Seq<char>
    decreases lines.len(),
{
    if lines.len() == 0 {
        Seq::empty()
    } else {
        lines[0] + seq!['\n'] + lines_text(lines.drop_first())
    }
}

/// Reads the bytes of a settings file: at most `MAX_SETTINGS_BYTES`, no NUL
/// byte, UTF-8, and then `parse_settings`; anything else is `corrupt`.
pub fn settings_from_bytes(bytes: &[u8]) -> (r: Result<ConfigSnapshot, OfficialGuiError>)
    ensures
        (bytes@.len() > MAX_SETTINGS_BYTES || (exists|i: int| 0 <= i < bytes@.len() && bytes@[i] == 0)
            || !vstd::utf8::valid_utf8(bytes@)) ==> r == Err::<ConfigSnapshot, OfficialGuiError>(
            OfficialGuiError::Corrupt,
        ),
        (bytes@.len() <= MAX_SETTINGS_BYTES && !(exists|i: int| 0 <= i < bytes@.len() && bytes@[i] == 0)
            && vstd::utf8::valid_utf8(bytes@)) ==> ({
            let f = read_lines(no_fields(), vstd::utf8::decode_utf8(bytes@), 0);
            &&& r is Ok <==> (f is Some && fields_complete(f->0))
            &&& r matches Ok(s) ==> snapshot_has_fields(s, f->0)
            &&& r matches Err(e) ==> e == OfficialGuiError::Corrupt
        }),
{
    if bytes.len() as u64 > MAX_SETTINGS_BYTES || crate::package::contains_byte(bytes, 0) {
        return Err(OfficialGuiError::Corrupt);
    }
    match crate::archive::utf8_text(bytes) {
        Some(text) => parse_settings(text.as_str()),
        None => Err(OfficialGuiError::Corrupt),
    }
}

/// The settings file text of a snapshot.
pub open spec fn settings_text(s: ConfigSnapshot) -> Seq<char> {
    lines_text(settings_lines(s))
}

/// Adding a line at the end adds it and a newline to the text.
proof fn lemma_lines_text_push(lines: Seq<Seq<char>>, line: Seq<char>)
    ensures
        lines_text(lines.push(line)) == lines_text(lines) + line + seq!['\n'],
    decreases lines.len(),
{
    if lines.len() == 0 {
        assert(lines.push(line).drop_first() =~= Seq::<Seq<char>>::empty());
        assert(lines_text(Seq::<Seq<char>>::empty()) == Seq::<char>::empty());
        assert(lines.push(line)[0] == line);
        assert(lines_text(lines.push(line)) =~= line + seq!['\n'] + Seq::<char>::empty());
        assert(lines_text(lines) =~= Seq::<char>::empty());
        assert(lines_text(lines.push(line)) =~= lines_text(lines) + line + seq!['\n']);
    } else {
        lemma_lines_text_push(lines.drop_first(), line);
        assert(lines.push(line).drop_first() =~= lines.drop_first().push(line));
        assert(lines_text(lines.push(line)) =~= lines_text(lines) + line + seq!['\n']);
    }
}

/// The literal pieces of the settings lines.
proof fn lemma_line_literals()
    ensures
        "schema = "@ == "schema"@ + seq![' ', '=', ' '],
        "revision = "@ == "revision"@ + seq![' ', '=', ' '],
        "locale = \""@ == "locale"@ + seq![' ', '=', ' '] + seq!['"'],
        "mode = \""@ == "mode"@ + seq![' ', '=', ' '] + seq!['"'],
        "source_color = \""@ == "source_color"@ + seq![' ', '=', ' '] + seq!['"'],
        "density = \""@ == "density"@ + seq![' ', '=', ' '] + seq!['"'],
        "motion = \""@ == "motion"@ + seq![' ', '=', ' '] + seq!['"'],
        "\""@ == seq!['"'],
        "\n"@ == seq!['\n'],
        ""@ == Seq::<char>::empty(),
{
    reveal_strlit("schema = ");
    reveal_strlit("schema");
    reveal_strlit("revision = ");
    reveal_strlit("revision");
    reveal_strlit("locale = \"");
    reveal_strlit("locale");
    reveal_strlit("mode = \"");
    reveal_strlit("mode");
    reveal_strlit("source_color = \"");
    reveal_strlit("source_color");
    reveal_strlit("density = \"");
    reveal_strlit("density");
    reveal_strlit("motion = \"");
    reveal_strlit("motion");
    reveal_strlit("\"");
    reveal_strlit("\n");
    reveal_strlit("");
    assert("schema = "@ =~= "schema"@ + seq![' ', '=', ' ']);
    assert("revision = "@ =~= "revision"@ + seq![' ', '=', ' ']);
    assert("locale = \""@ =~= "locale"@ + seq![' ', '=', ' '] + seq!['"']);
    assert("mode = \""@ =~= "mode"@ + seq![' ', '=', ' '] + seq!['"']);
    assert("source_color = \""@ =~= "source_color"@ + seq![' ', '=', ' '] + seq!['"']);
    assert("density = \""@ =~= "density"@ + seq![' ', '=', ' '] + seq!['"']);
    assert("motion = \""@ =~= "motion"@ + seq![' ', '=', ' '] + seq!['"']);
}

/// Appends the line `a b c` and a newline.
fn push_line(out: &mut String, a: &str, b: &str, c: &str, Ghost(done): Ghost<Seq<Seq<char>>>)
    requires
        old(out)@ == lines_text(done),
    ensures
        final(out)@ == lines_text(done.push(a@ + b@ + c@)),
{
    out.append(a);
    out.append(b);
    out.append(c);
    out.append("\n");
    proof {
        lemma_line_literals();
        lemma_lines_text_push(done, a@ + b@ + c@);
        assert(out@ =~= lines_text(done) + (a@ + b@ + c@) + seq!['\n']);
    }
}

/// Writes the settings file text: fields in a fixed order, the source color
/// only when set.
pub fn serialize_settings(snapshot: &ConfigSnapshot) -> (r: String)
    ensures
        r@ == settings_text(*snapshot),
{
    proof {
        lemma_line_literals();
        reveal_strlit("1");
        reveal_strlit("[appearance]");
    }
    let s = snapshot;
    let mut out = String::new();
    let ghost mut done: Seq<Seq<char>> = Seq::empty();
    assert(out@ == lines_text(done));
    push_line(&mut out, "schema = ", "1", "", Ghost(done));
    proof {
        let line = key_line("schema"@, "1"@);
        assert("schema = "@ + "1"@ + ""@ =~= line);
        done = done.push(line);
    }
    let revision = crate::text::u64_to_decimal(s.revision);
    push_line(&mut out, "revision = ", revision.as_str(), "", Ghost(done));
    proof {
        let line = key_line("revision"@, decimal_text(s.revision as nat));
        assert("revision = "@ + revision@ + ""@ =~= line);
        done = done.push(line);
    }
    push_line(&mut out, "locale = \"", locale_str(s.settings.locale), "\"", Ghost(done));
    proof {
        let line = key_line("locale"@, quoted(locale_name(s.settings.locale)));
        assert("locale = \""@ + locale_name(s.settings.locale) + "\""@ =~= line);
        done = done.push(line);
    }
    push_line(&mut out, "", "", "", Ghost(done));
    proof {
        let line = Seq::<char>::empty();
        assert(""@ + ""@ + ""@ =~= line);
        done = done.push(line);
    }
    push_line(&mut out, "[appearance]", "", "", Ghost(done));
    proof {
        let line = "[appearance]"@;
        assert("[appearance]"@ + ""@ + ""@ =~= line);
        done = done.push(line);
    }
    push_line(&mut out, "mode = \"", mode_str(s.settings.appearance.mode), "\"", Ghost(done));
    proof {
        let line = key_line("mode"@, quoted(mode_name(s.settings.appearance.mode)));
        assert("mode = \""@ + mode_name(s.settings.appearance.mode) + "\""@ =~= line);
        done = done.push(line);
    }
    let ghost head = done;
    match &s.settings.appearance.source_color {
        Some(c) => {
            push_line(&mut out, "source_color = \"", c.as_str(), "\"", Ghost(done));
            proof {
                let line = key_line("source_color"@, quoted(c@));
                assert("source_color = \""@ + c@ + "\""@ =~= line);
                done = done.push(line);
            }
        },
        None => {},
    }
    push_line(&mut out, "density = \"", density_str(s.settings.appearance.density), "\"", Ghost(done));
    proof {
        let line = key_line("density"@, quoted(density_name(s.settings.appearance.density)));
        assert("density = \""@ + density_name(s.settings.appearance.density) + "\""@ =~= line);
        done = done.push(line);
    }
    push_line(&mut out, "motion = \"", motion_str(s.settings.appearance.motion), "\"", Ghost(done));
    proof {
        let line = key_line("motion"@, quoted(motion_name(s.settings.appearance.motion)));
        assert("motion = \""@ + motion_name(s.settings.appearance.motion) + "\""@ =~= line);
        done = done.push(line);
        assert(done =~= settings_lines(*s));
    }
    out
}


/// An update that changes nothing.
pub open spec fn update_empty(u: ConfigUpdate) -> bool {
    &&& u.locale is None
    &&& match u.appearance {
        None => true,
        Some(a) => a.mode is None && a.density is None && a.motion is None && a.source_color is Unchanged,
    }
}

/// Whether an update changes nothing.
pub fn update_is_empty(update: &ConfigUpdate) -> (r: bool)
    ensures
        r == update_empty(*update),
{
    if update.locale.is_some() {
        return false;
    }
    match &update.appearance {
        None => true,
        Some(a) => a.mode.is_none() && a.density.is_none() && a.motion.is_none() && match a.source_color {
            ConfigNullableUpdate::Unchanged => true,
            _ => false,
        },
    }
}

/// Whether an update's new source color, if any, is valid.
pub open spec fn update_color_ok(u: ConfigUpdate) -> bool {
    match u.appearance {
        Some(a) => match a.source_color {
            ConfigNullableUpdate::Assign(c) => source_color_ok(c@),
            _ => true,
        },
        None => true,
    }
}

/// The settings an update leaves: each field it names is replaced, the
/// source color set or cleared, and every other field kept.
pub open spec fn updated_settings(s: ConfigSettings, u: ConfigUpdate, r: ConfigSettings) -> bool {
    let a = s.appearance;
    &&& r.locale == match u.locale {
        Some(l) => l,
        None => s.locale,
    }
    &&& match u.appearance {
        None => r.appearance == a,
        Some(ua) => {
            &&& r.appearance.mode == match ua.mode {
                Some(m) => m,
                None => a.mode,
            }
            &&& r.appearance.density == match ua.density {
                Some(d) => d,
                None => a.density,
            }
            &&& r.appearance.motion == match ua.motion {
                Some(m) => m,
                None => a.motion,
            }
            &&& match ua.source_color {
                ConfigNullableUpdate::Unchanged => r.appearance.source_color == a.source_color,
                ConfigNullableUpdate::Clear => r.appearance.source_color is None,
                ConfigNullableUpdate::Assign(c) => r.appearance.source_color == Some(c),
            }
        },
    }
}

/// Applies an update; a new source color must be valid (`invalid_input`).
pub fn apply_update(settings: ConfigSettings, update: ConfigUpdate) -> (r: Result<ConfigSettings, OfficialGuiError>)
    ensures
        r is Ok <==> update_color_ok(update),
        r matches Err(e) ==> e == OfficialGuiError::InvalidInput,
        r matches Ok(n) ==> updated_settings(settings, update, n),
{
    let mut settings = settings;
    let ghost original = settings;
    if let Some(appearance) = update.appearance {
        if let Some(mode) = appearance.mode {
            settings.appearance.mode = mode;
        }
        match appearance.source_color {
            ConfigNullableUpdate::Unchanged => {},
            ConfigNullableUpdate::Clear => {
                settings.appearance.source_color = None;
            },
            ConfigNullableUpdate::Assign(value) => {
                if !valid_source_color(value.as_str()) {
                    return Err(OfficialGuiError::InvalidInput);
                }
                settings.appearance.source_color = Some(value);
            },
        }
        if let Some(density) = appearance.density {
            settings.appearance.density = density;
        }
        if let Some(motion) = appearance.motion {
            settings.appearance.motion = motion;
        }
    }
    if let Some(locale) = update.locale {
        settings.locale = locale;
    }
    Ok(settings)
}

/// The snapshot an update produces from the current one: the caller must
/// name the current revision (`revision_conflict`), the revision must not
/// be at its limit (`corrupt`), and the update must be valid.
pub fn next_snapshot(current: ConfigSnapshot, expected_revision: u64, update: ConfigUpdate) -> (r: Result<ConfigSnapshot, OfficialGuiError>)
    ensures
        current.revision != expected_revision ==> r == Err::<ConfigSnapshot, OfficialGuiError>(
            OfficialGuiError::RevisionConflict,
        ),
        current.revision == expected_revision && current.revision == u64::MAX ==> r == Err::<
            ConfigSnapshot,
            OfficialGuiError,
        >(OfficialGuiError::Corrupt),
        current.revision == expected_revision && current.revision < u64::MAX ==> {
            &&& r is Ok <==> update_color_ok(update)
            &&& r matches Err(e) ==> e == OfficialGuiError::InvalidInput
            &&& r matches Ok(n) ==> n.revision == current.revision + 1 && updated_settings(
                current.settings,
                update,
                n.settings,
            )
        },
{
    if current.revision != expected_revision {
        return Err(OfficialGuiError::RevisionConflict);
    }
    let revision = match current.revision.checked_add(1) {
        Some(v) => v,
        None => return Err(OfficialGuiError::Corrupt),
    };
    let settings = apply_update(current.settings, update)?;
    Ok(ConfigSnapshot { revision, settings })
}

/// Checks an update request before the file is touched: a positive
/// expected revision and a non-empty update.
pub fn check_update_request(expected_revision: u64, update: &ConfigUpdate) -> (r: Result<(), OfficialGuiError>)
    ensures
        r is Ok <==> expected_revision != 0 && !update_empty(*update),
        r matches Err(e) ==> e == OfficialGuiError::InvalidInput,
{
    if expected_revision == 0 || update_is_empty(update) {
        return Err(OfficialGuiError::InvalidInput);
    }
    Ok(())
}

/// The page size used for a listing: the default when none is named, and
/// only 1..=200 accepted.
pub fn validate_limit(limit: Option<u32>) -> (r: Result<u32, OfficialGuiError>)
    ensures
        ({
            let v = match limit {
                Some(x) => x,
                None => DEFAULT_PAGE_LIMIT,
            };
            &&& r is Ok <==> 0 < v <= MAX_PAGE_LIMIT
            &&& r matches Ok(x) ==> x == v
            &&& r matches Err(e) ==> e == OfficialGuiError::InvalidInput
        }),
{
    let value = match limit {
        Some(x) => x,
        None => DEFAULT_PAGE_LIMIT,
    };
    if value > 0 && value <= MAX_PAGE_LIMIT {
        Ok(value)
    } else {
        Err(OfficialGuiError::InvalidInput)
    }
}

/// A safe stable identity: 1 to 255 bytes, ASCII letters and digits, with
/// `.`, `_`, `:` and `-` allowed after the first byte.
pub open spec fn safe_identity_bytes(b: Seq<u8>) -> bool {
    &&& 0 < b.len() <= 255
    &&& forall|i: int|
        0 <= i < b.len() ==> crate::text::is_ascii_alnum(#[trigger] b[i]) || (i > 0 && (b[i] == 0x2e
            || b[i] == 0x5f || b[i] == 0x3a || b[i] == 0x2d))
}

/// Checks a stable identity taken from a cursor.
pub fn safe_identity(value: &str) -> (r: bool)
    ensures
        r == safe_identity_bytes(vstd::string::StringSliceAdditionalSpecFns::spec_bytes(value)),
{
    let b = value.as_bytes();
    if b.len() == 0 || b.len() > 255 {
        return false;
    }
    let mut i: usize = 0;
    while i < b.len()
        invariant
            b@ == vstd::string::StringSliceAdditionalSpecFns::spec_bytes(value),
            0 < b@.len() <= 255,
            i <= b@.len(),
            forall|k: int|
                0 <= k < i ==> crate::text::is_ascii_alnum(#[trigger] b@[k]) || (k > 0 && (b@[k] == 0x2e
                    || b@[k] == 0x5f || b@[k] == 0x3a || b@[k] == 0x2d)),
        decreases b@.len() - i,
    {
        let c = b[i];
        let alnum = (0x61 <= c && c <= 0x7a) || (0x41 <= c && c <= 0x5a) || (0x30 <= c && c <= 0x39);
        if !(alnum || (i > 0 && (c == 0x2e || c == 0x5f || c == 0x3a || c == 0x2d))) {
            assert(!(crate::text::is_ascii_alnum(b@[i as int]) || (i > 0 && (b@[i as int] == 0x2e
                || b@[i as int] == 0x5f || b@[i as int] == 0x3a || b@[i as int] == 0x2d))));
            return false;
        }
        i = i + 1;
    }
    true
}

/// Checks an activity cursor: an instant that fits signed 64-bit storage, a
/// source rank of 0 or 1 and a safe identity.
pub fn validate_activity_cursor(cursor: Option<&OfficialActivityCursor>) -> (r: Result<(), OfficialGuiError>)
    ensures
        r is Ok <==> match cursor {
            None => true,
            Some(c) => c.occurred_at_ms <= i64::MAX && c.source_rank <= 1 && safe_identity_bytes(
                vstd::utf8::encode_utf8(c.stable_id@),
            ),
        },
        r matches Err(e) ==> e == OfficialGuiError::InvalidInput,
{
    match cursor {
        None => Ok(()),
        Some(c) => {
            if c.occurred_at_ms > 0x7fff_ffff_ffff_ffff || c.source_rank > 1 || !safe_identity(c.stable_id.as_str()) {
                Err(OfficialGuiError::InvalidInput)
            } else {
                Ok(())
            }
        },
    }
}

/// Checks a diagnostics cursor: an instant that fits signed 64-bit storage
/// and a safe Operation identity.
pub fn validate_diagnostic_cursor(cursor: Option<&OfficialDiagnosticCursor>) -> (r: Result<(), OfficialGuiError>)
    ensures
        r is Ok <==> match cursor {
            None => true,
            Some(c) => c.occurred_at_ms <= i64::MAX && safe_identity_bytes(vstd::utf8::encode_utf8(c.operation_id@)),
        },
        r matches Err(e) ==> e == OfficialGuiError::InvalidInput,
{
    match cursor {
        None => Ok(()),
        Some(c) => {
            if c.occurred_at_ms > 0x7fff_ffff_ffff_ffff || !safe_identity(c.operation_id.as_str()) {
                Err(OfficialGuiError::InvalidInput)
            } else {
                Ok(())
            }
        },
    }
}

/// Requires one settings permission, answering `permission_denied`.
pub fn require_official(access: &AccessContext, permission: Permission) -> (r: Result<(), OfficialGuiError>)
    ensures
        r is Ok <==> access@.permissions.contains(permission),
        r matches Err(e) ==> e == OfficialGuiError::PermissionDenied,
{
    if access.require(permission).is_err() {
        return Err(OfficialGuiError::PermissionDenied);
    }
    Ok(())
}

impl From<StoreError> for OfficialGuiError {
    fn from(error: StoreError) -> (r: Self) {
        OfficialGuiError::Unavailable
    }
}

impl vstd::std_specs::convert::FromSpecImpl<StoreError> for OfficialGuiError {
    open spec fn obeys_from_spec() -> bool {
        true
    }

    open spec fn from_spec(v: StoreError) -> OfficialGuiError {
        OfficialGuiError::Unavailable
    }
}


/// Trimming the front of `b[i..j]` inside `a + b + c` gives the same place.
proof fn lemma_trim_start_shift(a: Seq<char>, b: Seq<char>, c: Seq<char>, i: int, j: int)
    requires
        0 <= i <= j <= b.len(),
    ensures
        trim_start_at(a + b + c, a.len() + i, a.len() + j) == a.len() + trim_start_at(b, i, j),
    decreases j - i,
{
    if i < j {
        assert((a + b + c)[a.len() + i] == b[i]);
        lemma_trim_start_shift(a, b, c, i + 1, j);
    }
}

/// Trimming the back of `b[i..j]` inside `a + b + c` gives the same place.
proof fn lemma_trim_end_shift(a: Seq<char>, b: Seq<char>, c: Seq<char>, i: int, j: int)
    requires
        0 <= i <= j <= b.len(),
    ensures
        trim_end_at(a + b + c, a.len() + i, a.len() + j) == a.len() + trim_end_at(b, i, j),
    decreases j - i,
{
    if i < j {
        assert((a + b + c)[a.len() + j - 1] == b[j - 1]);
        lemma_trim_end_shift(a, b, c, i, j - 1);
    }
}

/// The first `=` of `b[i..j]` inside `a + b + c` is at the same place.
proof fn lemma_equals_shift(a: Seq<char>, b: Seq<char>, c: Seq<char>, i: int, j: int)
    requires
        0 <= i <= j <= b.len(),
    ensures
        equals_at(a + b + c, a.len() + i, a.len() + j) == a.len() + equals_at(b, i, j),
        i <= equals_at(b, i, j) <= j,
    decreases j - i,
{
    if i < j {
        assert((a + b + c)[a.len() + i] == b[i]);
        lemma_equals_shift(a, b, c, i + 1, j);
    }
}

/// `b[i..j]` trimmed reads the same inside `a + b + c`.
proof fn lemma_trimmed_shift(a: Seq<char>, b: Seq<char>, c: Seq<char>, i: int, j: int)
    requires
        0 <= i <= j <= b.len(),
    ensures
        trimmed(a + b + c, a.len() + i, a.len() + j) == trimmed(b, i, j),
{
    lemma_trim_bounds(b, i, j);
    lemma_trim_start_shift(a, b, c, i, j);
    let s = trim_start_at(b, i, j);
    lemma_trim_end_shift(a, b, c, s, j);
    let e = trim_end_at(b, s, j);
    assert((a + b + c).subrange(a.len() + s, a.len() + e) =~= b.subrange(s, e));
}

/// A line `b[i..j]` reads the same inside `a + b + c`.
proof fn lemma_read_line_shift(f: SettingsFields, a: Seq<char>, b: Seq<char>, c: Seq<char>, i: int, j: int)
    requires
        0 <= i <= j <= b.len(),
    ensures
        read_line(f, a + b + c, a.len() + i, a.len() + j) == read_line(f, b, i, j),
{
    let t = a + b + c;
    lemma_trimmed_shift(a, b, c, i, j);
    lemma_trim_bounds(b, i, j);
    lemma_trim_start_shift(a, b, c, i, j);
    let s = trim_start_at(b, i, j);
    lemma_trim_end_shift(a, b, c, s, j);
    let e = trim_end_at(b, s, j);
    lemma_equals_shift(a, b, c, s, e);
    let q = equals_at(b, s, e);
    if q < e {
        lemma_trimmed_shift(a, b, c, s, q);
        lemma_trimmed_shift(a, b, c, q + 1, e);
    }
}

/// The end of the line that starts at `i` when `t[i..k]` holds no newline
/// and `k` is a newline or the end.
proof fn lemma_line_end_at(t: Seq<char>, i: int, k: int)
    requires
        0 <= i <= k <= t.len(),
        forall|m: int| i <= m < k ==> t[m] != '\n',
        k < t.len() ==> t[k] == '\n',
    ensures
        line_end(t, i) == k,
    decreases k - i,
{
    if i < k {
        lemma_line_end_at(t, i + 1, k);
    }
}

/// Reading a text that starts with one line and a newline reads that line,
/// then the rest.
proof fn lemma_read_lines_cons(f: SettingsFields, line: Seq<char>, rest: Seq<char>)
    requires
        forall|m: int| 0 <= m < line.len() ==> line[m] != '\n',
    ensures
        read_lines(f, line + seq!['\n'] + rest, 0) == match read_line(f, line, 0, line.len() as int) {
            None => None,
            Some(g) => read_lines(g, rest, 0),
        },
{
    let t = line + seq!['\n'] + rest;
    lemma_line_end_at(t, 0, line.len() as int);
    lemma_read_line_shift(f, Seq::empty(), line, seq!['\n'] + rest, 0, line.len() as int);
    assert(Seq::<char>::empty() + line + (seq!['\n'] + rest) =~= t);
    match read_line(f, line, 0, line.len() as int) {
        None => {},
        Some(g) => {
            lemma_read_lines_shift(g, line + seq!['\n'], rest, 0);
            assert(line + seq!['\n'] + rest =~= t);
        },
    }
}

/// Reading the lines of `b` from `i` is the same inside `a + b`.
proof fn lemma_read_lines_shift(f: SettingsFields, a: Seq<char>, b: Seq<char>, i: int)
    requires
        0 <= i <= b.len(),
    ensures
        read_lines(f, a + b, a.len() + i) == read_lines(f, b, i),
    decreases b.len() - i,
{
    let t = a + b;
    lemma_line_end(b, i);
    let e = line_end(b, i);
    assert forall|m: int| a.len() + i <= m < a.len() + e implies t[m] != '\n' by {
        lemma_line_end_before(b, i, m - a.len());
    }
    if e < b.len() {
        assert(t[a.len() + e] == b[e]);
    }
    lemma_line_end_at(t, a.len() + i, a.len() + e);
    lemma_read_line_shift(f, a, b, Seq::empty(), i, e);
    assert(a + b + Seq::<char>::empty() =~= t);
    match read_line(f, b, i, e) {
        None => {},
        Some(g) => {
            if e < b.len() {
                lemma_read_lines_shift(g, a, b, e + 1);
            }
        },
    }
}

/// No newline lies between a line's start and its end.
proof fn lemma_line_end_before(t: Seq<char>, i: int, m: int)
    requires
        0 <= i <= m < line_end(t, i),
        line_end(t, i) <= t.len(),
    ensures
        t[m] != '\n',
    decreases m - i,
{
    if i < m {
        lemma_line_end_before(t, i + 1, m);
    }
}


/// A line `key = value` reads as that key and value.
proof fn lemma_key_line(f: SettingsFields, k: Seq<char>, v: Seq<char>)
    requires
        k.len() > 0,
        !is_white_space(k[0]),
        !is_white_space(k.last()),
        k[0] != '#',
        k[0] != '[',
        forall|m: int| 0 <= m < k.len() ==> k[m] != '=',
        v.len() > 0,
        !is_white_space(v[0]),
        !is_white_space(v.last()),
    ensures
        read_line(f, k + seq![' ', '=', ' '] + v, 0, (k.len() + 3 + v.len()) as int) == read_key(f, k, v),
{
    let line = k + seq![' ', '=', ' '] + v;
    let n = line.len() as int;
    let kl = k.len() as int;
    assert(line[0] == k[0]);
    assert(line[n - 1] == v.last());
    assert(trim_start_at(line, 0, n) == 0);
    assert(trim_end_at(line, 0, n) == n);
    assert(trimmed(line, 0, n) =~= line);
    lemma_equals_is(line, 0, n, kl + 1);
    assert(line[kl] == ' ');
    assert(line[kl - 1] == k.last());
    assert(trim_start_at(line, 0, kl + 1) == 0);
    assert(trim_end_at(line, 0, kl) == kl);
    assert(trim_end_at(line, 0, kl + 1) == kl);
    assert(trimmed(line, 0, kl + 1) =~= k);
    assert(line[kl + 2] == ' ');
    assert(line[kl + 3] == v[0]);
    assert(trim_start_at(line, kl + 3, n) == kl + 3);
    assert(trim_start_at(line, kl + 2, n) == kl + 3);
    assert(trim_end_at(line, kl + 3, n) == n);
    assert(trimmed(line, kl + 2, n) =~= v);
}

/// The first `=` of `t[i..j]` is at `p` when none comes before it.
proof fn lemma_equals_is(t: Seq<char>, i: int, j: int, p: int)
    requires
        0 <= i <= p < j <= t.len(),
        forall|m: int| i <= m < p ==> t[m] != '=',
        t[p] == '=',
    ensures
        equals_at(t, i, j) == p,
    decreases p - i,
{
    if i < p {
        lemma_equals_is(t, i + 1, j, p);
    }
}

/// The decimal text of a number is one or more digits worth that number.
proof fn lemma_decimal_text(n: nat)
    ensures
        decimal_text(n).len() > 0,
        all_digit_chars(decimal_text(n)),
        char_digits_value(decimal_text(n)) == n,
    decreases n,
{
    let d = decimal_text(n);
    if n < 10 {
        assert('0' <= digit_char(n as int) <= '9' && digit_char(n as int) as int == 48 + n) by {
            if n == 0 { assert(digit_char(0) == '0'); }
            else if n == 1 { assert(digit_char(1) == '1'); }
            else if n == 2 { assert(digit_char(2) == '2'); }
            else if n == 3 { assert(digit_char(3) == '3'); }
            else if n == 4 { assert(digit_char(4) == '4'); }
            else if n == 5 { assert(digit_char(5) == '5'); }
            else if n == 6 { assert(digit_char(6) == '6'); }
            else if n == 7 { assert(digit_char(7) == '7'); }
            else if n == 8 { assert(digit_char(8) == '8'); }
            else { assert(digit_char(9) == '9'); }
        }
        assert(d.drop_last() =~= Seq::<char>::empty());
        assert(char_digits_value(d.drop_last()) == 0);
        assert(char_digits_value(d) == n);
    } else {
        lemma_decimal_text(n / 10);
        let m = (n % 10) as nat;
        lemma_decimal_text(m);
        let one = seq![digit_char(m as int)];
        assert(decimal_text(m) == one);
        assert(one.drop_last() =~= Seq::<char>::empty());
        assert(char_digits_value(one) == digit_char(m as int) as int - 48);
        assert(d.drop_last() =~= decimal_text(n / 10));
        assert(d.last() == digit_char(m as int));
        assert(n == (n / 10) * 10 + m);
        assert(char_digits_value(d) == char_digits_value(decimal_text(n / 10)) * 10 + (digit_char(m as int) as int - 48));
        assert(char_digits_value(d) == n);
        assert forall|i: int| 0 <= i < d.len() implies '0' <= #[trigger] d[i] <= '9' by {
            if i < d.len() - 1 {
                assert(d[i] == decimal_text(n / 10)[i]);
            } else {
                assert(one[0] == d[i]);
            }
        }
    }
}

/// A decimal text reads back as its number.
proof fn lemma_decimal_value(n: u64)
    ensures
        u64_chars_value(decimal_text(n as nat)) == Some(n),
        !is_white_space(decimal_text(n as nat)[0]),
        !is_white_space(decimal_text(n as nat).last()),
        decimal_text(n as nat)[0] != '+',
        forall|m: int| 0 <= m < decimal_text(n as nat).len() ==> decimal_text(n as nat)[m] != '\n',
{
    lemma_decimal_text(n as nat);
    let d = decimal_text(n as nat);
    assert('0' <= d[0] <= '9');
    assert('0' <= d.last() <= '9');
}

/// `"x"` reads as `x` when `x` holds no quote or backslash.
proof fn lemma_quoted(x: Seq<char>)
    requires
        forall|m: int| 0 <= m < x.len() ==> x[m] != '"' && x[m] != '\\',
    ensures
        quoted_contents(seq!['"'] + x + seq!['"']) == Some(x),
{
    let v = seq!['"'] + x + seq!['"'];
    assert forall|i: int| 1 <= i < v.len() - 1 implies #[trigger] v[i] != '"' && v[i] != '\\' by {
        assert(v[i] == x[i - 1]);
    }
    assert(v.subrange(1, v.len() - 1) =~= x);
}


/// A value that may stand between quotes on one line.
pub open spec fn plain_value(x: Seq<char>) -> bool {
    forall|m: int| 0 <= m < x.len() ==> x[m] != '"' && x[m] != '\\' && x[m] != '\n'
}

/// A key line holds no newline when its key and value hold none.
proof fn lemma_key_line_one_line(k: Seq<char>, v: Seq<char>)
    requires
        forall|m: int| 0 <= m < k.len() ==> k[m] != '\n',
        forall|m: int| 0 <= m < v.len() ==> v[m] != '\n',
    ensures
        forall|m: int| 0 <= m < key_line(k, v).len() ==> key_line(k, v)[m] != '\n',
{
    assert forall|m: int| 0 <= m < key_line(k, v).len() implies key_line(k, v)[m] != '\n' by {
        if m < k.len() {
            assert(key_line(k, v)[m] == k[m]);
        } else if m >= k.len() + 3 {
            assert(key_line(k, v)[m] == v[m - k.len() - 3]);
        }
    }
}

/// A quoted plain value reads back and holds no newline.
proof fn lemma_quoted_plain(x: Seq<char>)
    requires
        plain_value(x),
    ensures
        quoted_contents(quoted(x)) == Some(x),
        quoted(x).len() > 0,
        !is_white_space(quoted(x)[0]),
        !is_white_space(quoted(x).last()),
        forall|m: int| 0 <= m < quoted(x).len() ==> quoted(x)[m] != '\n',
{
    lemma_quoted(x);
    assert forall|m: int| 0 <= m < quoted(x).len() implies quoted(x)[m] != '\n' by {
        if 0 < m < quoted(x).len() - 1 {
            assert(quoted(x)[m] == x[m - 1]);
        }
    }
}

/// A key made of lowercase letters and `_`.
pub open spec fn word_key(k: Seq<char>) -> bool {
    k.len() > 0 && forall|m: int| 0 <= m < k.len() ==> ('a' <= #[trigger] k[m] <= 'z' || k[m] == '_')
}

/// Reading `key = value` for a word key gives what `read_key` gives, and the
/// line holds no newline.
proof fn lemma_word_line(f: SettingsFields, k: Seq<char>, v: Seq<char>)
    requires
        word_key(k),
        v.len() > 0,
        !is_white_space(v[0]),
        !is_white_space(v.last()),
        forall|m: int| 0 <= m < v.len() ==> v[m] != '\n',
    ensures
        read_line(f, key_line(k, v), 0, key_line(k, v).len() as int) == read_key(f, k, v),
        forall|m: int| 0 <= m < key_line(k, v).len() ==> key_line(k, v)[m] != '\n',
{
    assert(k[0] == k[0]);
    assert(k.last() == k[k.len() - 1]);
    assert forall|m: int| 0 <= m < k.len() implies k[m] != '=' && k[m] != '\n' by {
        assert('a' <= k[m] <= 'z' || k[m] == '_');
    }
    lemma_key_line(f, k, v);
    lemma_key_line_one_line(k, v);
}

proof fn lemma_locale_name(l: ConfigLocale)
    ensures
        locale_of(locale_name(l)) == Some(l),
        plain_value(locale_name(l)),
{
    reveal_strlit("system");
    reveal_strlit("en-US");
    reveal_strlit("zh-CN");
    reveal_strlit("ja-JP");
    assert(("zh-CN"@)[0] != ("en-US"@)[0]);
    assert(("ja-JP"@)[0] != ("en-US"@)[0]);
    assert(("ja-JP"@)[0] != ("zh-CN"@)[0]);
}

proof fn lemma_mode_name(v: ConfigAppearanceMode)
    ensures
        mode_of(mode_name(v)) == Some(v),
        plain_value(mode_name(v)),
{
    reveal_strlit("system");
    reveal_strlit("light");
    reveal_strlit("dark");
    assert(("light"@).len() != ("system"@).len());
    assert(("dark"@).len() != ("system"@).len());
    assert(("dark"@).len() != ("light"@).len());
}

proof fn lemma_density_name(v: ConfigAppearanceDensity)
    ensures
        density_of(density_name(v)) == Some(v),
        plain_value(density_name(v)),
{
    reveal_strlit("default");
    reveal_strlit("compact");
    assert(("compact"@)[0] != ("default"@)[0]);
}

proof fn lemma_motion_name(v: ConfigAppearanceMotion)
    ensures
        motion_of(motion_name(v)) == Some(v),
        plain_value(motion_name(v)),
{
    reveal_strlit("system");
    reveal_strlit("reduced");
    assert(("reduced"@).len() != ("system"@).len());
}

/// A valid source color is a plain value.
proof fn lemma_color_plain(c: Seq<char>)
    requires
        source_color_ok(c),
    ensures
        plain_value(c),
{
    assert forall|m: int| 0 <= m < c.len() implies c[m] != '"' && c[m] != '\\' && c[m] != '\n' by {
        if m > 0 {
            assert('0' <= c[m] <= '9' || 'A' <= c[m] <= 'F');
        }
    }
}

/// An empty text reads as nothing more.
proof fn lemma_read_lines_empty(f: SettingsFields)
    ensures
        read_lines(f, Seq::empty(), 0) == Some(f),
{
    let t = Seq::<char>::empty();
    lemma_line_end_at(t, 0, 0);
    assert(trimmed(t, 0, 0) =~= Seq::<char>::empty());
}


/// The fields the settings text of a snapshot carries.
pub open spec fn snapshot_fields(s: ConfigSnapshot) -> SettingsFields {
    (
        true,
        Some(1u64),
        Some(s.revision),
        Some(s.settings.locale),
        Some(s.settings.appearance.mode),
        match s.settings.appearance.source_color {
            Some(c) => Some(c@),
            None => None,
        },
        Some(s.settings.appearance.density),
        Some(s.settings.appearance.motion),
    )
}

/// A snapshot the settings file can hold: a positive revision and, where
/// set, a valid source color.
pub open spec fn storable_snapshot(s: ConfigSnapshot) -> bool {
    &&& s.revision > 0
    &&& match s.settings.appearance.source_color {
        Some(c) => source_color_ok(c@),
        None => true,
    }
}

/// Reading the text of lines that starts with one line reads that line,
/// then the text of the rest.
proof fn lemma_lines_cons(f: SettingsFields, x: Seq<char>, rest: Seq<Seq<char>>)
    requires
        forall|m: int| 0 <= m < x.len() ==> x[m] != '\n',
    ensures
        read_lines(f, lines_text(seq![x] + rest), 0) == match read_line(f, x, 0, x.len() as int) {
            None => None,
            Some(g) => read_lines(g, lines_text(rest), 0),
        },
{
    assert((seq![x] + rest).drop_first() =~= rest);
    assert(lines_text(seq![x] + rest) == x + seq!['\n'] + lines_text(rest));
    lemma_read_lines_cons(f, x, lines_text(rest));
}

/// The fields after the root section and the section header.
pub open spec fn root_fields(s: ConfigSnapshot) -> SettingsFields {
    (true, Some(1u64), Some(s.revision), Some(s.settings.locale), None, None, None, None)
}

/// The fields after the schema, revision and locale lines.
pub open spec fn root_values(s: ConfigSnapshot) -> SettingsFields {
    (false, Some(1u64), Some(s.revision), Some(s.settings.locale), None, None, None, None)
}

/// `1` reads as one.
proof fn lemma_one_text()
    ensures
        u64_chars_value("1"@) == Some(1u64),
        ("1"@).len() == 1,
        !is_white_space(("1"@)[0]),
        ("1"@)[0] != '\n',
{
    reveal_strlit("1");
    assert("1"@ =~= decimal_text(1));
    lemma_decimal_value(1u64);
}

proof fn lemma_root_values(s: ConfigSnapshot)
    requires
        storable_snapshot(s),
    ensures
        read_lines(no_fields(), settings_text(s), 0) == read_lines(
            root_values(s),
            lines_text(seq![Seq::empty()] + (seq!["[appearance]"@] + appearance_lines(s))),
            0,
        ),
{
    reveal_strlit("schema");
    reveal_strlit("revision");
    reveal_strlit("locale");
    let dec = decimal_text(s.revision as nat);
    let loc = locale_name(s.settings.locale);
    let l1 = key_line("schema"@, "1"@);
    let l2 = key_line("revision"@, dec);
    let l3 = key_line("locale"@, quoted(loc));
    let r4 = seq![Seq::empty()] + (seq!["[appearance]"@] + appearance_lines(s));
    let r3 = seq![l3] + r4;
    let r2 = seq![l2] + r3;
    lemma_one_text();
    lemma_decimal_value(s.revision);
    lemma_locale_name(s.settings.locale);
    lemma_quoted_plain(loc);
    let f0 = no_fields();
    lemma_word_line(f0, "schema"@, "1"@);
    let f1 = (false, Some(1u64), None, None, None, None, None, None);
    assert(read_key(f0, "schema"@, "1"@) == Some(f1));
    lemma_lines_cons(f0, l1, r2);
    lemma_word_line(f1, "revision"@, dec);
    let f2 = (false, Some(1u64), Some(s.revision), None, None, None, None, None);
    assert(read_key(f1, "revision"@, dec) == Some(f2));
    lemma_lines_cons(f1, l2, r3);
    lemma_word_line(f2, "locale"@, quoted(loc));
    assert(("locale"@)[0] != ("schema"@)[0]);
    assert(read_key(f2, "locale"@, quoted(loc)) == Some(root_values(s)));
    lemma_lines_cons(f2, l3, r4);
}

proof fn lemma_root_section(s: ConfigSnapshot)
    requires
        storable_snapshot(s),
    ensures
        read_lines(no_fields(), settings_text(s), 0) == read_lines(root_fields(s), lines_text(appearance_lines(s)), 0),
{
    reveal_strlit("[appearance]");
    lemma_root_values(s);
    let l5 = "[appearance]"@;
    let f3 = root_values(s);
    let empty = Seq::<char>::empty();
    assert(trimmed(empty, 0, 0) =~= empty);
    assert(read_line(f3, empty, 0, 0) == Some(f3));
    lemma_lines_cons(f3, empty, seq![l5] + appearance_lines(s));
    assert(trim_start_at(l5, 0, 12) == 0);
    assert(trim_end_at(l5, 0, 12) == 12);
    assert(trimmed(l5, 0, 12) =~= l5);
    assert(read_line(f3, l5, 0, 12) == Some(root_fields(s)));
    lemma_lines_cons(f3, l5, appearance_lines(s));
}

proof fn lemma_appearance_section(s: ConfigSnapshot)
    requires
        storable_snapshot(s),
    ensures
        read_lines(root_fields(s), lines_text(appearance_lines(s)), 0) == Some(snapshot_fields(s)),
{
    reveal_strlit("mode");
    reveal_strlit("source_color");
    reveal_strlit("density");
    reveal_strlit("motion");
    let mn = mode_name(s.settings.appearance.mode);
    let dn = density_name(s.settings.appearance.density);
    let mo = motion_name(s.settings.appearance.motion);
    let l6 = key_line("mode"@, quoted(mn));
    let l8 = key_line("density"@, quoted(dn));
    let l9 = key_line("motion"@, quoted(mo));
    let tail = seq![l8] + seq![l9];
    let color = match s.settings.appearance.source_color {
        Some(c) => seq![key_line("source_color"@, quoted(c@))],
        None => Seq::<Seq<char>>::empty(),
    };
    lemma_mode_name(s.settings.appearance.mode);
    lemma_density_name(s.settings.appearance.density);
    lemma_motion_name(s.settings.appearance.motion);
    lemma_quoted_plain(mn);
    lemma_quoted_plain(dn);
    lemma_quoted_plain(mo);
    let f4 = root_fields(s);
    lemma_word_line(f4, "mode"@, quoted(mn));
    let f5 = (true, Some(1u64), Some(s.revision), Some(s.settings.locale), Some(s.settings.appearance.mode), None, None, None);
    assert(read_key(f4, "mode"@, quoted(mn)) == Some(f5));
    lemma_lines_cons(f4, l6, color + tail);
    let f6 = (true, Some(1u64), Some(s.revision), Some(s.settings.locale), Some(s.settings.appearance.mode), snapshot_fields(s).5, None, None);
    match s.settings.appearance.source_color {
        Some(c) => {
            lemma_color_plain(c@);
            lemma_quoted_plain(c@);
            lemma_word_line(f5, "source_color"@, quoted(c@));
            assert(read_key(f5, "source_color"@, quoted(c@)) == Some(f6));
            lemma_lines_cons(f5, key_line("source_color"@, quoted(c@)), tail);
        },
        None => {
            assert(f6 == f5);
            assert(color + tail =~= tail);
        },
    }
    assert(read_lines(f4, lines_text(appearance_lines(s)), 0) == read_lines(f6, lines_text(tail), 0));
    lemma_word_line(f6, "density"@, quoted(dn));
    let f7 = (true, Some(1u64), Some(s.revision), Some(s.settings.locale), Some(s.settings.appearance.mode), snapshot_fields(s).5, Some(s.settings.appearance.density), None);
    assert(read_key(f6, "density"@, quoted(dn)) == Some(f7));
    lemma_lines_cons(f6, l8, seq![l9]);
    lemma_word_line(f7, "motion"@, quoted(mo));
    let f8 = snapshot_fields(s);
    assert(read_key(f7, "motion"@, quoted(mo)) == Some(f8));
    assert(seq![l9] =~= seq![l9] + Seq::<Seq<char>>::empty());
    lemma_lines_cons(f7, l9, Seq::empty());
    assert(lines_text(Seq::<Seq<char>>::empty()) == Seq::<char>::empty());
    lemma_read_lines_empty(f8);
}

/// What `serialize_settings` writes of a storable snapshot,
/// `parse_settings` reads back: the text reads as exactly the snapshot's
/// fields, and they are complete.
pub proof fn settings_text_reads_back(s: ConfigSnapshot)
    requires
        storable_snapshot(s),
    ensures
        read_lines(no_fields(), settings_text(s), 0) == Some(snapshot_fields(s)),
        fields_complete(snapshot_fields(s)),
        snapshot_has_fields(s, snapshot_fields(s)),
{
    lemma_root_section(s);
    lemma_appearance_section(s);
}


/// An update accepted on a storable snapshot leaves a storable snapshot, so
/// the file written after it reads back as the updated settings.
pub proof fn accepted_update_is_storable(current: ConfigSnapshot, update: ConfigUpdate, next: ConfigSnapshot)
    requires
        storable_snapshot(current),
        update_color_ok(update),
        updated_settings(current.settings, update, next.settings),
        next.revision == current.revision + 1,
    ensures
        storable_snapshot(next),
        read_lines(no_fields(), settings_text(next), 0) == Some(snapshot_fields(next)),
{
    settings_text_reads_back(next);
}

} // verus!
