//! Byte-level helpers for text that the library inspects.

use vstd::prelude::*;
use vstd::std_specs::iter::IteratorSpec;
use vstd::string::StringExecFns;
use vstd::string::StringSliceAdditionalSpecFns;

verus! {

pub open spec fn is_ascii_lower(b: u8) -> bool {
    0x61 <= b <= 0x7a
}

pub open spec fn is_ascii_upper(b: u8) -> bool {
    0x41 <= b <= 0x5a
}

pub open spec fn is_ascii_digit(b: u8) -> bool {
    0x30 <= b <= 0x39
}

pub open spec fn is_ascii_alnum(b: u8) -> bool {
    is_ascii_lower(b) || is_ascii_upper(b) || is_ascii_digit(b)
}

pub open spec fn is_lower_hex(b: u8) -> bool {
    is_ascii_digit(b) || 0x61 <= b <= 0x66
}

/// The UTF-8 bytes of a string.
pub open spec fn bytes_of(s: &str) -> Seq<u8> {
    s.spec_bytes()
}

/// Compares two byte slices.
pub fn bytes_eq(a: &[u8], b: &[u8]) -> (r: bool)
    ensures
        r == (a@ == b@),
{
    if a.len() != b.len() {
        return false;
    }
    let mut i: usize = 0;
    while i < a.len()
        invariant
            a@.len() == b@.len(),
            i <= a@.len(),
            forall|j: int| 0 <= j < i ==> a@[j] == b@[j],
        decreases a@.len() - i,
    {
        if a[i] != b[i] {
            return false;
        }
        i = i + 1;
    }
    assert(a@ =~= b@);
    true
}

/// UTF-8 encoding is injective.
pub proof fn lemma_bytes_determine_text(a: &str, b: &str)
    ensures
        (a.spec_bytes() == b.spec_bytes()) <==> (a@ == b@),
{
    vstd::utf8::encode_utf8_decode_utf8(a@);
    vstd::utf8::encode_utf8_decode_utf8(b@);
}

/// Compares two strings.
pub fn str_eq(a: &str, b: &str) -> (r: bool)
    ensures
        r == (a@ == b@),
        r == (a.spec_bytes() == b.spec_bytes()),
{
    let x = a.as_bytes();
    let y = b.as_bytes();
    let r = bytes_eq(x, y);
    proof {
        lemma_bytes_determine_text(a, b);
    }
    r
}

/// Whether `p` is a prefix of `s`.
pub open spec fn has_prefix(s: Seq<u8>, p: Seq<u8>) -> bool {
    p.len() <= s.len() && s.subrange(0, p.len() as int) == p
}

/// Whether `s` starts with the bytes of `p`.
pub fn starts_with_bytes(s: &[u8], p: &[u8]) -> (r: bool)
    ensures
        r == has_prefix(s@, p@),
{
    if p.len() > s.len() {
        return false;
    }
    let mut i: usize = 0;
    while i < p.len()
        invariant
            p@.len() <= s@.len(),
            i <= p@.len(),
            forall|j: int| 0 <= j < i ==> s@[j] == p@[j],
        decreases p@.len() - i,
    {
        if s[i] != p[i] {
            assert(s@.subrange(0, p@.len() as int)[i as int] != p@[i as int]);
            return false;
        }
        i = i + 1;
    }
    assert(s@.subrange(0, p@.len() as int) =~= p@);
    true
}


/// The decimal digit character for `d < 10`.
pub open spec fn digit_char(d: int) -> char {
    (48 + d) as char
}

/// The shortest decimal text of a natural number.
pub open spec fn decimal_text(n: nat) -> Seq<char>
    decreases n,
{
    if n < 10 {
        seq![digit_char(n as int)]
    } else {
        decimal_text(n / 10).push(digit_char((n % 10) as int))
    }
}

/// The one-character text of a decimal digit.
pub fn digit_str(d: u64) -> (r: &'static str)
    requires
        d < 10,
    ensures
        r@ == seq![digit_char(d as int)],
{
    proof {
        reveal_strlit("0");
        reveal_strlit("1");
        reveal_strlit("2");
        reveal_strlit("3");
        reveal_strlit("4");
        reveal_strlit("5");
        reveal_strlit("6");
        reveal_strlit("7");
        reveal_strlit("8");
        reveal_strlit("9");
    }
    match d {
        0 => "0",
        1 => "1",
        2 => "2",
        3 => "3",
        4 => "4",
        5 => "5",
        6 => "6",
        7 => "7",
        8 => "8",
        _ => "9",
    }
}

/// Appends the decimal text of `n` to `out`.
pub fn append_decimal(out: &mut String, n: u64)
    ensures
        final(out)@ == old(out)@ + decimal_text(n as nat),
    decreases n,
{
    if n >= 10 {
        append_decimal(out, n / 10);
    }
    out.append(digit_str(n % 10));
    proof {
        assert(old(out)@ + decimal_text((n / 10) as nat) + seq![digit_char((n % 10) as int)] =~= old(out)@
            + decimal_text((n / 10) as nat).push(digit_char((n % 10) as int)));
    }
}

/// The decimal text of a number.
pub fn u64_to_decimal(n: u64) -> (r: String)
    ensures
        r@ == decimal_text(n as nat),
{
    let mut out = String::new();
    append_decimal(&mut out, n);
    assert(out@ =~= decimal_text(n as nat));
    out
}


/// The lowercase hexadecimal text of a digest, two digits per byte, high nibble first.
pub open spec fn sha256_hex_text(d: Seq<u8>) -> Seq<char> {
    Seq::new(
        64,
        |i: int|
            if i % 2 == 0 {
                crate::uuids::hex_char((d[i / 2] / 16) as int)
            } else {
                crate::uuids::hex_char((d[i / 2] % 16) as int)
            },
    )
}

/// The one-character text of a hexadecimal digit.
pub fn hex_digit_str(n: u8) -> (r: &'static str)
    requires
        n < 16,
    ensures
        r@ == seq![crate::uuids::hex_char(n as int)],
{
    proof {
        reveal_strlit("0");
        reveal_strlit("1");
        reveal_strlit("2");
        reveal_strlit("3");
        reveal_strlit("4");
        reveal_strlit("5");
        reveal_strlit("6");
        reveal_strlit("7");
        reveal_strlit("8");
        reveal_strlit("9");
        reveal_strlit("a");
        reveal_strlit("b");
        reveal_strlit("c");
        reveal_strlit("d");
        reveal_strlit("e");
        reveal_strlit("f");
    }
    match n {
        0 => "0",
        1 => "1",
        2 => "2",
        3 => "3",
        4 => "4",
        5 => "5",
        6 => "6",
        7 => "7",
        8 => "8",
        9 => "9",
        10 => "a",
        11 => "b",
        12 => "c",
        13 => "d",
        14 => "e",
        _ => "f",
    }
}

/// Encodes a digest as lowercase hexadecimal.
pub fn sha256_to_hex(d: &[u8; 32]) -> (r: String)
    ensures
        r@ == sha256_hex_text(d@),
{
    let mut out = String::new();
    let mut i: usize = 0;
    while i < 32
        invariant
            d@.len() == 32,
            i <= 32,
            out@.len() == 2 * i,
            forall|k: int| 0 <= k < 2 * i ==> out@[k] == sha256_hex_text(d@)[k],
        decreases 32 - i,
    {
        let byte = d[i];
        out.append(hex_digit_str(byte / 16));
        out.append(hex_digit_str(byte % 16));
        i = i + 1;
    }
    assert(out@ =~= sha256_hex_text(d@));
    out
}

/// The value of a lowercase hexadecimal digit byte.
pub open spec fn hex_value(b: u8) -> int {
    if is_ascii_digit(b) {
        b - 48
    } else {
        b - 87
    }
}

/// Exactly sixty-four lowercase hexadecimal digits.
pub open spec fn is_sha256_hex(b: Seq<u8>) -> bool {
    b.len() == 64 && forall|i: int| 0 <= i < 64 ==> is_lower_hex(#[trigger] b[i])
}

/// The digest that sixty-four hexadecimal digits spell.
pub open spec fn sha256_hex_value(b: Seq<u8>) -> Seq<u8> {
    Seq::new(32, |i: int| (hex_value(b[2 * i]) * 16 + hex_value(b[2 * i + 1])) as u8)
}

/// Decodes a lowercase hexadecimal digest.
pub fn sha256_from_hex(text: &str) -> (r: Option<[u8; 32]>)
    ensures
        r is Some <==> is_sha256_hex(text.spec_bytes()),
        r matches Some(d) ==> d@ == sha256_hex_value(text.spec_bytes()),
{
    let b = text.as_bytes();
    if b.len() != 64 {
        return None;
    }
    let mut i: usize = 0;
    while i < 64
        invariant
            b@ == text.spec_bytes(),
            b@.len() == 64,
            i <= 64,
            forall|k: int| 0 <= k < i ==> is_lower_hex(#[trigger] b@[k]),
        decreases 64 - i,
    {
        let c = b[i];
        if !((0x30 <= c && c <= 0x39) || (0x61 <= c && c <= 0x66)) {
            assert(!is_lower_hex(b@[i as int]));
            return None;
        }
        i = i + 1;
    }
    let mut digest: [u8; 32] = [0u8; 32];
    let mut j: usize = 0;
    while j < 32
        invariant
            b@.len() == 64,
            is_sha256_hex(b@),
            j <= 32,
            digest@.len() == 32,
            forall|k: int| 0 <= k < j ==> digest@[k] == sha256_hex_value(b@)[k],
        decreases 32 - j,
    {
        let hi = b[2 * j];
        let lo = b[2 * j + 1];
        assert(is_lower_hex(b@[2 * j as int]) && is_lower_hex(b@[2 * j + 1]));
        let h: u8 = if hi <= 0x39 { hi - 0x30 } else { hi - 0x57 };
        let l: u8 = if lo <= 0x39 { lo - 0x30 } else { lo - 0x57 };
        digest[j] = h * 16 + l;
        j = j + 1;
    }
    assert(digest@ =~= sha256_hex_value(b@));
    Some(digest)
}

/// Decoding the hexadecimal text of a digest gives the digest back.
pub proof fn sha256_hex_roundtrip(d: Seq<u8>)
    requires
        d.len() == 32,
    ensures
        is_sha256_hex(vstd::utf8::encode_utf8(sha256_hex_text(d))),
        sha256_hex_value(vstd::utf8::encode_utf8(sha256_hex_text(d))) == d,
{
    let t = sha256_hex_text(d);
    assert(vstd::utf8::is_ascii_chars(t));
    vstd::utf8::is_ascii_chars_encode_utf8(t);
    let b = vstd::utf8::encode_utf8(t);
    assert forall|i: int| 0 <= i < 64 implies is_lower_hex(#[trigger] b[i]) by {
        assert(t[i] as u8 == b[i]);
    }
    assert forall|i: int| 0 <= i < 32 implies sha256_hex_value(b)[i] == d[i] by {
        assert(t[2 * i] as u8 == b[2 * i]);
        assert(t[2 * i + 1] as u8 == b[2 * i + 1]);
        assert((2 * i) % 2 == 0);
        assert((2 * i + 1) % 2 == 1);
        assert((2 * i) / 2 == i);
        assert((2 * i + 1) / 2 == i);
    }
    assert(sha256_hex_value(b) =~= d);
}


/// The characters of a string.
pub fn text_chars(s: &str) -> (r: Vec<char>)
    ensures
        r@ == s@,
{
    broadcast use vstd::string::axiom_spec_iter, vstd::string::next_postcondition;

    let mut it = s.chars();
    let mut out: Vec<char> = Vec::new();
    loop
        invariant
            it.obeys_prophetic_iter_laws(),
            it.decrease() is Some,
            out@ + it.remaining() == s@,
        ensures
            out@ == s@,
        decreases it.decrease()->0,
    {
        let ghost before = it;
        match it.next() {
            Some(c) => {
                proof {
                    assert(out@.push(c) + it.remaining() =~= out@ + before.remaining());
                }
                out.push(c);
            },
            None => {
                assert(it.remaining().len() == 0);
                assert(out@ =~= s@);
                break;
            },
        }
    }
    out
}

} // verus!
