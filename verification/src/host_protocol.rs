//! The framed protocol between the daemon and an extension host: frame
//! lengths, envelope bounds, authority tokens and action fingerprints.

use sha2::Digest;
use vstd::prelude::*;
use vstd::string::StringExecFns;
use vstd::string::StringSliceAdditionalSpecFns;

use crate::ids::OperationId;

verus! {

/// Version of the host protocol spoken by this daemon.
pub const HOST_PROTOCOL_VERSION: u32 = 1;

/// Largest host frame payload.
pub const MAX_HOST_FRAME_BYTES: usize = 524_288;

/// Largest encoded interface value inside a frame.
pub const MAX_WIT_VALUE_BYTES: usize = 262_144;

/// The SHA-256 digest of a byte string.
pub uninterp spec fn sha256_of(data: Seq<u8>) -> Seq<u8>;

/// Calls `sha2::Sha256::digest`. The digest is not restated; the contract
/// names it `sha256_of` of the input bytes.
#[verifier::external_body]
pub(crate) fn sha256(data: &[u8]) -> (r: [u8; 32])
    ensures
        r@ == sha256_of(data@),
{
    sha2::Sha256::digest(data).into()
}

/// The URL-safe base64 alphabet.
pub open spec fn base64url_alphabet() -> Seq<char> {
    "ABCDEFGHIJKLMNOPQRSTUVWXYZabcdefghijklmnopqrstuvwxyz0123456789-_"@
}

/// The characters of one group of one to three bytes, without padding.
pub open spec fn base64url_group(b: Seq<u8>) -> Seq<char> {
    let b1: int = if b.len() > 1 { b[1] as int } else { 0 };
    let b2: int = if b.len() > 2 { b[2] as int } else { 0 };
    let bits = b[0] as int * 65536 + b1 * 256 + b2;
    let a = base64url_alphabet();
    let head = seq![a[(bits / 262144) % 64], a[(bits / 4096) % 64]];
    if b.len() == 1 {
        head
    } else if b.len() == 2 {
        head.push(a[(bits / 64) % 64])
    } else {
        head.push(a[(bits / 64) % 64]).push(a[bits % 64])
    }
}

/// Unpadded URL-safe base64 text of a byte string.
pub open spec fn base64url_text(b: Seq<u8>) -> Seq<char>
    decreases b.len(),
{
    if b.len() == 0 {
        Seq::empty()
    } else if b.len() <= 3 {
        base64url_group(b)
    } else {
        base64url_group(b.take(3)) + base64url_text(b.skip(3))
    }
}

proof fn lemma_base64url_append(a: Seq<u8>, c: Seq<u8>)
    requires
        a.len() % 3 == 0,
        1 <= c.len() <= 3,
    ensures
        base64url_text(a + c) == base64url_text(a) + base64url_group(c),
    decreases a.len(),
{
    if a.len() == 0 {
        assert(a + c =~= c);
        assert(base64url_text(a) =~= Seq::<char>::empty());
        assert(base64url_text(a) + base64url_group(c) =~= base64url_group(c));
    } else {
        let s = a + c;
        assert(s.take(3) =~= a.take(3));
        assert(s.skip(3) =~= a.skip(3) + c);
        lemma_base64url_append(a.skip(3), c);
        if a.len() == 3 {
            assert(a.skip(3) =~= Seq::<u8>::empty());
            assert(a.take(3) =~= a);
            assert(a.skip(3) + c =~= c);
        } else {
            assert(base64url_text(a) == base64url_group(a.take(3)) + base64url_text(a.skip(3)));
        }
        assert(base64url_text(s) == base64url_group(s.take(3)) + base64url_text(s.skip(3)));
        assert(base64url_group(a.take(3)) + (base64url_text(a.skip(3)) + base64url_group(c)) =~= (base64url_group(
            a.take(3),
        ) + base64url_text(a.skip(3))) + base64url_group(c));
    }
}

/// Appends the base64 character of a six-bit value.
fn push_base64url_char(out: &mut String, n: u32)
    requires
        n < 64,
    ensures
        final(out)@ == old(out)@.push(base64url_alphabet()[n as int]),
{
    let alphabet = "ABCDEFGHIJKLMNOPQRSTUVWXYZabcdefghijklmnopqrstuvwxyz0123456789-_";
    proof {
        reveal_strlit("ABCDEFGHIJKLMNOPQRSTUVWXYZabcdefghijklmnopqrstuvwxyz0123456789-_");
    }
    let i = n as usize;
    let piece = alphabet.substring_ascii(i, i + 1);
    out.append(piece);
    assert(piece@ =~= seq![base64url_alphabet()[n as int]]);
}

/// Appends the characters of the group `bytes[start..end]`.
fn push_base64url_group(out: &mut String, bytes: &[u8], start: usize, end: usize)
    requires
        start < end <= bytes@.len(),
        end - start <= 3,
    ensures
        final(out)@ == old(out)@ + base64url_group(bytes@.subrange(start as int, end as int)),
{
    let ghost g = bytes@.subrange(start as int, end as int);
    let b0 = bytes[start] as u32;
    let b1: u32 = if end - start > 1 { bytes[start + 1] as u32 } else { 0 };
    let b2: u32 = if end - start > 2 { bytes[start + 2] as u32 } else { 0 };
    let bits = b0 * 65536 + b1 * 256 + b2;
    assert(bits == g[0] as int * 65536 + (if g.len() > 1 { g[1] as int } else { 0 }) * 256 + (if g.len() > 2 {
        g[2] as int
    } else {
        0
    }));
    push_base64url_char(out, (bits / 262144) % 64);
    push_base64url_char(out, (bits / 4096) % 64);
    if end - start > 1 {
        push_base64url_char(out, (bits / 64) % 64);
    }
    if end - start > 2 {
        push_base64url_char(out, bits % 64);
    }
    assert(final(out)@ =~= old(out)@ + base64url_group(g));
}

/// Unpadded URL-safe base64 text of a byte string.
#[verifier::spinoff_prover]
#[verifier::rlimit(50)]
pub fn base64url_unpadded(bytes: &[u8]) -> (r: String)
    ensures
        r@ == base64url_text(bytes@),
{
    let mut out = String::new();
    let n = bytes.len();
    let mut i: usize = 0;
    while i < n
        invariant
            n == bytes@.len(),
            i <= n,
            i % 3 == 0 || i == n,
            out@ == base64url_text(bytes@.take(i as int)),
        decreases n - i,
    {
        let end = if n - i < 3 { n } else { i + 3 };
        push_base64url_group(&mut out, bytes, i, end);
        proof {
            let c = bytes@.subrange(i as int, end as int);
            assert(bytes@.take(end as int) =~= bytes@.take(i as int) + c);
            lemma_base64url_append(bytes@.take(i as int), c);
        }
        i = end;
    }
    proof {
        assert(bytes@.take(n as int) =~= bytes@);
    }
    out
}


/// A character of an opaque token: an ASCII letter or digit, `-` or `_`.
pub open spec fn token_char(c: char) -> bool {
    ('A' <= c <= 'Z') || ('a' <= c <= 'z') || ('0' <= c <= '9') || c == '-' || c == '_'
}

proof fn lemma_alphabet_tokens()
    ensures
        forall|n: int| 0 <= n < 64 ==> token_char(#[trigger] base64url_alphabet()[n]),
{
    reveal_strlit("ABCDEFGHIJKLMNOPQRSTUVWXYZabcdefghijklmnopqrstuvwxyz0123456789-_");
    assert(forall|n: int| 0 <= n < 64 ==> token_char(#[trigger] base64url_alphabet()[n]));
}

/// The length of the unpadded base64 text of `n` bytes.
pub open spec fn base64url_len(n: nat) -> nat {
    (n / 3) * 4 + if n % 3 == 0 {
        0nat
    } else if n % 3 == 1 {
        2nat
    } else {
        3nat
    }
}

proof fn lemma_base64url_shape(b: Seq<u8>)
    ensures
        base64url_text(b).len() == base64url_len(b.len()),
        forall|i: int| 0 <= i < base64url_text(b).len() ==> token_char(#[trigger] base64url_text(b)[i]),
    decreases b.len(),
{
    lemma_alphabet_tokens();
    if b.len() == 0 {
    } else if b.len() <= 3 {
        let g = base64url_group(b);
        assert forall|i: int| 0 <= i < g.len() implies token_char(#[trigger] g[i]) by {
            let b1: int = if b.len() > 1 { b[1] as int } else { 0 };
            let b2: int = if b.len() > 2 { b[2] as int } else { 0 };
            let bits = b[0] as int * 65536 + b1 * 256 + b2;
            assert(0 <= (bits / 262144) % 64 < 64);
            assert(0 <= (bits / 4096) % 64 < 64);
            assert(0 <= (bits / 64) % 64 < 64);
            assert(0 <= bits % 64 < 64);
        }
    } else {
        lemma_base64url_shape(b.skip(3));
        lemma_base64url_shape(b.take(3));
        let t = base64url_text(b);
        let h = base64url_group(b.take(3));
        let r = base64url_text(b.skip(3));
        assert(t == h + r);
        assert forall|i: int| 0 <= i < t.len() implies token_char(#[trigger] t[i]) by {
            if i < h.len() {
                assert(t[i] == h[i]);
                assert(base64url_text(b.take(3)) == h);
            } else {
                assert(t[i] == r[i - h.len()]);
            }
        }
    }
}

/// An ASCII byte of an opaque token: a letter or digit, `-` or `_`.
pub open spec fn token_byte(b: u8) -> bool {
    (0x41 <= b <= 0x5a) || (0x61 <= b <= 0x7a) || (0x30 <= b <= 0x39) || b == 0x2d || b == 0x5f
}

/// The bytes of `ictx_`.
pub open spec fn ictx_prefix() -> Seq<u8> {
    seq![0x69u8, 0x63u8, 0x74u8, 0x78u8, 0x5fu8]
}

/// An invocation context identifier: `ictx_` and 43 token bytes.
pub open spec fn invocation_context_id_ok(b: Seq<u8>) -> bool {
    &&& b.len() == 48
    &&& b.take(5) == ictx_prefix()
    &&& forall|i: int| 5 <= i < 48 ==> token_byte(#[trigger] b[i])
}

/// Errors of the host protocol.
#[derive(Clone, Copy, Debug, PartialEq, Eq, Structural)]
pub enum HostProtocolError {
    Io,
    Truncated,
    FrameLimit,
    InvalidEnvelope,
}

/// Checks the exact shape of an invocation context identifier.
pub fn validate_invocation_context_id(value: &str) -> (r: Result<(), HostProtocolError>)
    ensures
        r is Ok <==> invocation_context_id_ok(value.spec_bytes()),
        r matches Err(e) ==> e == HostProtocolError::InvalidEnvelope,
{
    let b = value.as_bytes();
    if b.len() != 48 || b[0] != 0x69 || b[1] != 0x63 || b[2] != 0x74 || b[3] != 0x78 || b[4] != 0x5f {
        proof {
            if b@.len() == 48 {
                assert(!(b@.take(5) =~= ictx_prefix()) || b@.take(5)[0] != 0x69 || true);
                if b@.take(5) == ictx_prefix() {
                    assert(b@.take(5)[0] == b@[0] && b@.take(5)[1] == b@[1] && b@.take(5)[2] == b@[2]
                        && b@.take(5)[3] == b@[3] && b@.take(5)[4] == b@[4]);
                }
            }
        }
        return Err(HostProtocolError::InvalidEnvelope);
    }
    let mut i: usize = 5;
    while i < 48
        invariant
            b@ == value.spec_bytes(),
            b@.len() == 48,
            5 <= i <= 48,
            forall|k: int| 5 <= k < i ==> token_byte(#[trigger] b@[k]),
        decreases 48 - i,
    {
        let c = b[i];
        if !((0x41 <= c && c <= 0x5a) || (0x61 <= c && c <= 0x7a) || (0x30 <= c && c <= 0x39) || c == 0x2d || c
            == 0x5f) {
            assert(!token_byte(b@[i as int]));
            return Err(HostProtocolError::InvalidEnvelope);
        }
        i = i + 1;
    }
    assert(b@.take(5) =~= ictx_prefix());
    Ok(())
}

/// Issues one daemon-side opaque authority token for exactly one guest
/// export: `ictx_` and the base64 text of a digest of four random
/// identifiers.
pub fn invocation_context_id() -> (r: String)
    ensures
        invocation_context_id_ok(vstd::utf8::encode_utf8(r@)),
{
    let mut data: Vec<u8> = Vec::new();
    crate::domain::append_bytes(&mut data, "ALCOMD-EXT-INVOCATION-CONTEXT-V1\0".as_bytes());
    let mut k: usize = 0;
    while k < 4
        invariant
            k <= 4,
        decreases 4 - k,
    {
        let id = OperationId::new().to_string();
        crate::domain::append_bytes(&mut data, id.as_str().as_bytes());
        k = k + 1;
    }
    let digest = sha256(data.as_slice());
    let text = base64url_unpadded(digest.as_slice());
    let mut out = String::new();
    out.append("ictx_");
    out.append(text.as_str());
    proof {
        reveal_strlit("ictx_");
        lemma_base64url_shape(digest@);
        assert(base64url_len(32) == 43);
        let t = out@;
        assert(t == "ictx_"@ + base64url_text(digest@));
        assert(t.len() == 48);
        assert(vstd::utf8::is_ascii_chars(t)) by {
            assert forall|i: int| 0 <= i < t.len() implies '\0' <= #[trigger] t[i] <= '\u{7f}' by {
                if i >= 5 {
                    assert(t[i] == base64url_text(digest@)[i - 5]);
                    assert(token_char(base64url_text(digest@)[i - 5]));
                }
            }
        }
        vstd::utf8::is_ascii_chars_encode_utf8(t);
        let bytes = vstd::utf8::encode_utf8(t);
        assert forall|i: int| 5 <= i < 48 implies token_byte(#[trigger] bytes[i]) by {
            assert(t[i] == base64url_text(digest@)[i - 5]);
            assert(token_char(t[i]));
            assert(bytes[i] == t[i] as u8);
        }
        assert(bytes.take(5) =~= ictx_prefix()) by {
            assert(bytes[0] == t[0] as u8);
            assert(bytes[1] == t[1] as u8);
            assert(bytes[2] == t[2] as u8);
            assert(bytes[3] == t[3] as u8);
            assert(bytes[4] == t[4] as u8);
        }
    }
    out
}

/// A request or call identifier: 1 to 128 ASCII bytes.
pub open spec fn host_id_ok(b: Seq<u8>) -> bool {
    &&& 0 < b.len() <= 128
    &&& forall|i: int| 0 <= i < b.len() ==> #[trigger] b[i] < 0x80
}

/// Checks a request or call identifier.
pub fn validate_id(value: &str) -> (r: Result<(), HostProtocolError>)
    ensures
        r is Ok <==> host_id_ok(value.spec_bytes()),
        r matches Err(e) ==> e == HostProtocolError::InvalidEnvelope,
{
    let b = value.as_bytes();
    if b.len() == 0 || b.len() > 128 {
        return Err(HostProtocolError::InvalidEnvelope);
    }
    let mut i: usize = 0;
    while i < b.len()
        invariant
            b@ == value.spec_bytes(),
            i <= b@.len(),
            forall|k: int| 0 <= k < i ==> #[trigger] b@[k] < 0x80,
        decreases b@.len() - i,
    {
        if b[i] >= 0x80 {
            return Err(HostProtocolError::InvalidEnvelope);
        }
        i = i + 1;
    }
    Ok(())
}

/// The little-endian value of a four-byte length prefix.
pub open spec fn le_u32(p: Seq<u8>) -> int {
    p[0] as int + 256 * (p[1] as int) + 65536 * (p[2] as int) + 16777216 * (p[3] as int)
}

/// The four-byte little-endian prefix of a length below 2^32.
pub open spec fn le_prefix(n: int) -> Seq<u8> {
    seq![(n % 256) as u8, ((n / 256) % 256) as u8, ((n / 65536) % 256) as u8, ((n / 16777216) % 256) as u8]
}

/// The payload length a frame prefix announces: 1 to the frame bound.
pub fn frame_length(prefix: [u8; 4]) -> (r: Result<usize, HostProtocolError>)
    ensures
        match r {
            Ok(n) => n == le_u32(prefix@) && 1 <= n <= MAX_HOST_FRAME_BYTES,
            Err(e) => e == HostProtocolError::FrameLimit && !(1 <= le_u32(prefix@) <= MAX_HOST_FRAME_BYTES),
        },
{
    let length: u64 = prefix[0] as u64 + 256 * (prefix[1] as u64) + 65536 * (prefix[2] as u64) + 16777216 * (
    prefix[3] as u64);
    if length < 1 || length > 524_288 {
        return Err(HostProtocolError::FrameLimit);
    }
    Ok(length as usize)
}

/// A frame: the payload length as four little-endian bytes, then the payload.
pub fn encode_frame(payload: &[u8]) -> (r: Result<Vec<u8>, HostProtocolError>)
    ensures
        payload@.len() <= u32::MAX ==> (r matches Ok(f) && f@ == le_prefix(payload@.len() as int) + payload@),
        payload@.len() > u32::MAX ==> r == Err::<Vec<u8>, HostProtocolError>(HostProtocolError::FrameLimit),
{
    let n = payload.len();
    if n > 0xffff_ffff {
        return Err(HostProtocolError::FrameLimit);
    }
    let mut frame: Vec<u8> = Vec::new();
    frame.push((n % 256) as u8);
    frame.push(((n / 256) % 256) as u8);
    frame.push(((n / 65536) % 256) as u8);
    frame.push(((n / 16777216) % 256) as u8);
    crate::domain::append_bytes(&mut frame, payload);
    assert(frame@ =~= le_prefix(n as int) + payload@);
    Ok(frame)
}

/// The prefix of a frame announces exactly its payload length.
pub proof fn frame_prefix_announces_payload_length(n: int)
    requires
        0 <= n <= u32::MAX,
    ensures
        le_u32(le_prefix(n)) == n,
{
    assert(le_u32(le_prefix(n)) == n) by (nonlinear_arith)
        requires
            0 <= n <= 0xffff_ffff,
    {
        assert(n % 256 + 256 * ((n / 256) % 256) + 65536 * ((n / 65536) % 256) + 16777216 * ((n / 16777216)
            % 256) == n);
    }
}

/// The domain separator of portable UI action fingerprints.
pub open spec fn portable_ui_domain() -> Seq<u8> {
    vstd::utf8::encode_utf8("ALCOMD-PORTABLE-UI-ACTION-V1\0"@)
}

/// Computes the frozen in-memory portable UI action replay fingerprint:
/// the SHA-256 digest of the domain separator and the canonical action.
pub fn portable_ui_action_fingerprint(canonical_action: &[u8]) -> (r: [u8; 32])
    ensures
        r@ == sha256_of(portable_ui_domain() + canonical_action@),
{
    let mut data: Vec<u8> = Vec::new();
    crate::domain::append_bytes(&mut data, "ALCOMD-PORTABLE-UI-ACTION-V1\0".as_bytes());
    crate::domain::append_bytes(&mut data, canonical_action);
    sha256(data.as_slice())
}

/// A bootstrap nonce: the lowercase hexadecimal digest of four random
/// identifiers under the bootstrap domain separator.
pub fn bootstrap_nonce() -> (r: String)
    ensures
        exists|d: Seq<u8>| d.len() == 32 && r@ == crate::text::sha256_hex_text(d),
{
    let mut data: Vec<u8> = Vec::new();
    crate::domain::append_bytes(&mut data, "ALCOMD-EXT-BOOTSTRAP-NONCE-V1\0".as_bytes());
    let mut k: usize = 0;
    while k < 4
        invariant
            k <= 4,
        decreases 4 - k,
    {
        let id = OperationId::new().to_string();
        crate::domain::append_bytes(&mut data, id.as_str().as_bytes());
        k = k + 1;
    }
    let digest = sha256(data.as_slice());
    let r = crate::text::sha256_to_hex(&digest);
    assert(digest@.len() == 32);
    r
}

/// Resource limits of one extension runtime.
#[derive(Clone, Debug, PartialEq, Eq)]
pub struct RuntimeLimits {
    pub linear_memory_bytes: u64,
    pub table_elements: u32,
    pub concurrent_guest_calls: u32,
    pub wit_input_bytes: u32,
    pub wit_output_bytes: u32,
    pub host_protocol_frame_bytes: u32,
    pub host_call_window_ms: u64,
    pub host_calls_per_window: u32,
    pub host_call_burst: u32,
    pub fuel_per_guest_call: u64,
    pub epoch_tick_ms: u64,
    pub wall_timeout_ms: u64,
    pub activate_timeout_ms: u64,
    pub deactivate_timeout_ms: u64,
    pub background_lease_ms: u64,
    pub crash_threshold: u32,
    pub crash_window_ms: u64,
    pub restart_delays_ms: [u64; 2],
}

/// The frozen limits every extension runtime gets.
pub open spec fn default_limits(l: RuntimeLimits) -> bool {
    &&& l.linear_memory_bytes == 67_108_864
    &&& l.table_elements == 10_000
    &&& l.concurrent_guest_calls == 1
    &&& l.wit_input_bytes == 262_144
    &&& l.wit_output_bytes == 262_144
    &&& l.host_protocol_frame_bytes == 524_288
    &&& l.host_call_window_ms == 60_000
    &&& l.host_calls_per_window == 100
    &&& l.host_call_burst == 20
    &&& l.fuel_per_guest_call == 10_000_000
    &&& l.epoch_tick_ms == 10
    &&& l.wall_timeout_ms == 2_000
    &&& l.activate_timeout_ms == 5_000
    &&& l.deactivate_timeout_ms == 2_000
    &&& l.background_lease_ms == 60_000
    &&& l.crash_threshold == 3
    &&& l.crash_window_ms == 300_000
    &&& l.restart_delays_ms@ == seq![1_000u64, 5_000u64]
}

impl Default for RuntimeLimits {
    fn default() -> (r: Self)
        ensures
            default_limits(r),
    {
        let r = RuntimeLimits {
            linear_memory_bytes: 67_108_864,
            table_elements: 10_000,
            concurrent_guest_calls: 1,
            wit_input_bytes: 262_144,
            wit_output_bytes: 262_144,
            host_protocol_frame_bytes: 524_288,
            host_call_window_ms: 60_000,
            host_calls_per_window: 100,
            host_call_burst: 20,
            fuel_per_guest_call: 10_000_000,
            epoch_tick_ms: 10,
            wall_timeout_ms: 2_000,
            activate_timeout_ms: 5_000,
            deactivate_timeout_ms: 2_000,
            background_lease_ms: 60_000,
            crash_threshold: 3,
            crash_window_ms: 300_000,
            restart_delays_ms: [1_000, 5_000],
        };
        assert(r.restart_delays_ms@ =~= seq![1_000u64, 5_000u64]);
        r
    }
}

/// Whether limits are the frozen defaults.
pub fn limits_are_default(l: &RuntimeLimits) -> (r: bool)
    ensures
        r == default_limits(*l),
{
    let ok = l.linear_memory_bytes == 67_108_864 && l.table_elements == 10_000 && l.concurrent_guest_calls == 1
        && l.wit_input_bytes == 262_144 && l.wit_output_bytes == 262_144 && l.host_protocol_frame_bytes == 524_288
        && l.host_call_window_ms == 60_000 && l.host_calls_per_window == 100 && l.host_call_burst == 20
        && l.fuel_per_guest_call == 10_000_000 && l.epoch_tick_ms == 10 && l.wall_timeout_ms == 2_000
        && l.activate_timeout_ms == 5_000 && l.deactivate_timeout_ms == 2_000 && l.background_lease_ms == 60_000
        && l.crash_threshold == 3 && l.crash_window_ms == 300_000 && l.restart_delays_ms[0] == 1_000
        && l.restart_delays_ms[1] == 5_000;
    proof {
        if ok {
            assert(l.restart_delays_ms@ =~= seq![1_000u64, 5_000u64]);
        }
    }
    ok
}

/// A stable error a capability or export answers with.
#[derive(Clone, Debug, PartialEq, Eq)]
pub struct HostStableError {
    pub code: String,
    pub diagnostic_id: Option<String>,
}

/// The byte length of a string.
pub open spec fn blen(s: String) -> int {
    vstd::utf8::encode_utf8(s@).len() as int
}

/// A stable host error: a known code, with a 36-byte diagnostic identifier
/// exactly when the code is `internal_error`.
pub open spec fn host_error_ok(e: HostStableError) -> bool {
    let c = e.code@;
    &&& (c == "extension_permission_denied"@ || c == "extension_scope_denied"@ || c == "extension_instance_stale"@ || c == "extension_resource_limit"@ || c == "extension_crashed"@ || c == "project_not_found"@ || c == "revision_conflict"@ || c == "extension_data_quota_exceeded"@ || c == "cancelled"@ || c == "internal_error"@)
    &&& (c == "internal_error"@) == e.diagnostic_id is Some
    &&& (e.diagnostic_id matches Some(d) ==> blen(d) == 36)
}

/// Checks a stable host error.
pub fn validate_error(error: &HostStableError) -> (r: Result<(), HostProtocolError>)
    ensures
        r is Ok <==> host_error_ok(*error),
        r matches Err(e) ==> e == HostProtocolError::InvalidEnvelope,
{
    let c = error.code.as_str();
    let known = crate::text::str_eq(c, "extension_permission_denied") || crate::text::str_eq(c, "extension_scope_denied") || crate::text::str_eq(c, "extension_instance_stale") || crate::text::str_eq(c, "extension_resource_limit") || crate::text::str_eq(c, "extension_crashed") || crate::text::str_eq(c, "project_not_found") || crate::text::str_eq(c, "revision_conflict") || crate::text::str_eq(c, "extension_data_quota_exceeded") || crate::text::str_eq(c, "cancelled") || crate::text::str_eq(c, "internal_error");
    let internal = crate::text::str_eq(c, "internal_error");
    let diag_ok = match &error.diagnostic_id {
        Some(d) => d.as_str().as_bytes().len() == 36,
        None => true,
    };
    if !known || internal != error.diagnostic_id.is_some() || !diag_ok {
        return Err(HostProtocolError::InvalidEnvelope);
    }
    Ok(())
}

/// The verdict on an interface value of the given encoded length.
pub open spec fn value_size_error(len: Option<usize>) -> Option<HostProtocolError> {
    match len {
        Some(n) => if n > MAX_WIT_VALUE_BYTES {
            Some(HostProtocolError::FrameLimit)
        } else {
            None
        },
        None => Some(HostProtocolError::InvalidEnvelope),
    }
}

/// Checks the encoded length of an interface value.
pub fn check_value_size(len: Option<usize>) -> (r: Result<(), HostProtocolError>)
    ensures
        match value_size_error(len) {
            Some(e) => r == Err::<(), HostProtocolError>(e),
            None => r is Ok,
        },
{
    match len {
        Some(n) => if n > MAX_WIT_VALUE_BYTES {
            Err(HostProtocolError::FrameLimit)
        } else {
            Ok(())
        },
        None => Err(HostProtocolError::InvalidEnvelope),
    }
}

/// One framed message between the daemon and an extension host.
#[derive(Debug)]
pub struct HostMessage {
    pub protocol_version: u32,
    pub daemon_epoch: String,
    pub instance_id: String,
    pub lifecycle_generation: u64,
    pub sequence: u64,
    pub body: HostMessageBody,
}

/// The typed body of a host message. Interface values (export inputs,
/// capability inputs and results) are held as their JSON encoding.
#[derive(Debug)]
pub enum HostMessageBody {
    Bootstrap { nonce: String, lease_id: String, extension_id: String, api_world: String, limits: RuntimeLimits },
    Ready { nonce: String },
    InvokeExport { request_id: String, invocation_context_id: String, export: String, input: Vec<u8> },
    CancelCall { request_id: String },
    CapabilityCall {
        call_id: String,
        invocation_context_id: String,
        lease_id: String,
        capability: String,
        input: Vec<u8>,
    },
    CapabilityResult { call_id: String, result: Option<Vec<u8>>, error: Option<HostStableError> },
    CapabilityCancelled { call_id: String },
    ExportResult { request_id: String, result: Option<Vec<u8>>, error: Option<HostStableError> },
    RevokeLease { lease_id: String },
    Shutdown,
    HostFault { code: String, diagnostic_id: Option<String> },
}

/// The envelope header: this protocol version, 36-byte epoch and instance
/// identifiers, and positive generation and sequence numbers.
pub open spec fn host_header_ok(m: HostMessage) -> bool {
    &&& m.protocol_version == HOST_PROTOCOL_VERSION
    &&& blen(m.daemon_epoch) == 36
    &&& blen(m.instance_id) == 36
    &&& m.lifecycle_generation != 0
    &&& m.sequence != 0
}

/// The first error of a result body, given the encoded length of its value.
pub open spec fn result_body_error(
    id: String,
    result: Option<Vec<u8>>,
    error: Option<HostStableError>,
    value_len: Option<usize>,
) -> Option<HostProtocolError> {
    if !host_id_ok(vstd::utf8::encode_utf8(id@)) {
        Some(HostProtocolError::InvalidEnvelope)
    } else if result is Some == error is Some {
        Some(HostProtocolError::InvalidEnvelope)
    } else if result is Some && value_size_error(value_len) is Some {
        value_size_error(value_len)
    } else if error matches Some(e) && !host_error_ok(e) {
        Some(HostProtocolError::InvalidEnvelope)
    } else {
        None
    }
}

/// The first error of a body, given the encoded length of its interface
/// value, if it carries one.
pub open spec fn host_body_error(body: HostMessageBody, value_len: Option<usize>) -> Option<HostProtocolError> {
    let bad = Some(HostProtocolError::InvalidEnvelope);
    match body {
        HostMessageBody::Bootstrap { nonce, lease_id, extension_id, api_world, limits } => if blen(nonce) != 64
            || blen(lease_id) != 36 || !(3 <= blen(extension_id) <= 255) || api_world@
            != "alcomd:extension/extension-v1@1.0.0"@ || !default_limits(limits) {
            bad
        } else {
            None
        },
        HostMessageBody::Ready { nonce } => if blen(nonce) != 64 {
            bad
        } else {
            None
        },
        HostMessageBody::InvokeExport { request_id, invocation_context_id, export, input } => if !host_id_ok(
            vstd::utf8::encode_utf8(request_id@),
        ) || !invocation_context_id_ok(vstd::utf8::encode_utf8(invocation_context_id@)) || !(export@ == "activate"@ || export@ == "deactivate"@ || export@ == "ui.open"@ || export@ == "ui.refresh"@ || export@ == "ui.dispatch"@ || export@ == "ui.close"@) {
            bad
        } else {
            value_size_error(value_len)
        },
        HostMessageBody::CancelCall { request_id } => if !host_id_ok(vstd::utf8::encode_utf8(request_id@)) {
            bad
        } else {
            None
        },
        HostMessageBody::CapabilityCall { call_id, invocation_context_id, lease_id, capability, input } => if !host_id_ok(
            vstd::utf8::encode_utf8(call_id@),
        ) || !invocation_context_id_ok(vstd::utf8::encode_utf8(invocation_context_id@)) || blen(lease_id) != 36
            || !(capability@ == "host-projects.get-summary"@ || capability@ == "host-data.get"@ || capability@ == "host-data.set"@ || capability@ == "host-data.delete"@) {
            bad
        } else {
            value_size_error(value_len)
        },
        HostMessageBody::CapabilityResult { call_id, result, error } => result_body_error(call_id, result, error, value_len),
        HostMessageBody::ExportResult { request_id, result, error } => result_body_error(request_id, result, error, value_len),
        HostMessageBody::CapabilityCancelled { call_id } => if !host_id_ok(vstd::utf8::encode_utf8(call_id@)) {
            bad
        } else {
            None
        },
        HostMessageBody::RevokeLease { lease_id } => if blen(lease_id) != 36 {
            bad
        } else {
            None
        },
        HostMessageBody::Shutdown => None,
        HostMessageBody::HostFault { code, diagnostic_id } => if !(code@ == "extension_crashed"@ || code@ == "extension_resource_limit"@ || code@ == "internal_error"@) || (diagnostic_id matches Some(
            d,
        ) && blen(d) != 36) {
            bad
        } else {
            None
        },
    }
}

/// The verdict on a host message, given the encoded length of its
/// interface value and of the whole message.
pub open spec fn host_bounds(m: HostMessage, value_len: Option<usize>, encoded_len: Option<usize>) -> Result<
    (),
    HostProtocolError,
> {
    if !host_header_ok(m) {
        Err(HostProtocolError::InvalidEnvelope)
    } else if host_body_error(m.body, value_len) is Some {
        Err(host_body_error(m.body, value_len)->0)
    } else {
        match encoded_len {
            Some(n) => if n == 0 || n > MAX_HOST_FRAME_BYTES {
                Err(HostProtocolError::FrameLimit)
            } else {
                Ok(())
            },
            None => Err(HostProtocolError::InvalidEnvelope),
        }
    }
}

fn check_result_body(
    id: &String,
    result: &Option<Vec<u8>>,
    error: &Option<HostStableError>,
    value_len: Option<usize>,
) -> (r: Result<(), HostProtocolError>)
    ensures
        match result_body_error(*id, *result, *error, value_len) {
            Some(e) => r == Err::<(), HostProtocolError>(e),
            None => r is Ok,
        },
{
    validate_id(id.as_str())?;
    if result.is_some() == error.is_some() {
        return Err(HostProtocolError::InvalidEnvelope);
    }
    if result.is_some() {
        check_value_size(value_len)?;
    }
    if let Some(e) = error {
        validate_error(e)?;
    }
    Ok(())
}

impl HostMessage {
    /// Checks a message whose interface value and whole encoding have the
    /// given lengths.
    pub fn check_bounds(&self, value_len: Option<usize>, encoded_len: Option<usize>) -> (r: Result<(), HostProtocolError>)
        ensures
            r == host_bounds(*self, value_len, encoded_len),
    {
        if self.protocol_version != HOST_PROTOCOL_VERSION || self.daemon_epoch.as_str().as_bytes().len() != 36
            || self.instance_id.as_str().as_bytes().len() != 36 || self.lifecycle_generation == 0 || self.sequence
            == 0 {
            return Err(HostProtocolError::InvalidEnvelope);
        }
        match &self.body {
            HostMessageBody::Bootstrap { nonce, lease_id, extension_id, api_world, limits } => {
                let ext = extension_id.as_str().as_bytes().len();
                if nonce.as_str().as_bytes().len() != 64 || lease_id.as_str().as_bytes().len() != 36 || ext < 3 || ext > 255
                    || !crate::text::str_eq(api_world.as_str(), "alcomd:extension/extension-v1@1.0.0")
                    || !limits_are_default(limits) {
                    return Err(HostProtocolError::InvalidEnvelope);
                }
            },
            HostMessageBody::Ready { nonce } => {
                if nonce.as_str().as_bytes().len() != 64 {
                    return Err(HostProtocolError::InvalidEnvelope);
                }
            },
            HostMessageBody::InvokeExport { request_id, invocation_context_id, export, input } => {
                validate_id(request_id.as_str())?;
                validate_invocation_context_id(invocation_context_id.as_str())?;
                let e = export.as_str();
                if !(crate::text::str_eq(e, "activate") || crate::text::str_eq(e, "deactivate") || crate::text::str_eq(e, "ui.open") || crate::text::str_eq(e, "ui.refresh") || crate::text::str_eq(e, "ui.dispatch") || crate::text::str_eq(e, "ui.close")) {
                    return Err(HostProtocolError::InvalidEnvelope);
                }
                check_value_size(value_len)?;
            },
            HostMessageBody::CancelCall { request_id } => {
                validate_id(request_id.as_str())?;
            },
            HostMessageBody::CapabilityCall { call_id, invocation_context_id, lease_id, capability, input } => {
                validate_id(call_id.as_str())?;
                validate_invocation_context_id(invocation_context_id.as_str())?;
                let c = capability.as_str();
                if lease_id.as_str().as_bytes().len() != 36 || !(crate::text::str_eq(c, "host-projects.get-summary") || crate::text::str_eq(c, "host-data.get") || crate::text::str_eq(c, "host-data.set") || crate::text::str_eq(c, "host-data.delete")) {
                    return Err(HostProtocolError::InvalidEnvelope);
                }
                check_value_size(value_len)?;
            },
            HostMessageBody::CapabilityResult { call_id, result, error } => {
                check_result_body(call_id, result, error, value_len)?;
            },
            HostMessageBody::ExportResult { request_id, result, error } => {
                check_result_body(request_id, result, error, value_len)?;
            },
            HostMessageBody::CapabilityCancelled { call_id } => {
                validate_id(call_id.as_str())?;
            },
            HostMessageBody::RevokeLease { lease_id } => {
                if lease_id.as_str().as_bytes().len() != 36 {
                    return Err(HostProtocolError::InvalidEnvelope);
                }
            },
            HostMessageBody::Shutdown => {},
            HostMessageBody::HostFault { code, diagnostic_id } => {
                let c = code.as_str();
                let known = crate::text::str_eq(c, "extension_crashed") || crate::text::str_eq(c, "extension_resource_limit") || crate::text::str_eq(c, "internal_error");
                let diag_bad = match diagnostic_id {
                    Some(d) => d.as_str().as_bytes().len() != 36,
                    None => false,
                };
                if !known || diag_bad {
                    return Err(HostProtocolError::InvalidEnvelope);
                }
            },
        }
        match encoded_len {
            Some(n) => if n == 0 || n > MAX_HOST_FRAME_BYTES {
                Err(HostProtocolError::FrameLimit)
            } else {
                Ok(())
            },
            None => Err(HostProtocolError::InvalidEnvelope),
        }
    }

    /// Checks a message whose whole encoding has the given length; the
    /// interface value it carries is measured here.
    pub fn validate_bounds(&self, encoded_len: Option<usize>) -> (r: Result<(), HostProtocolError>)
        ensures
            r == host_bounds(*self, interface_value_len(self.body), encoded_len),
    {
        let value_len = match &self.body {
            HostMessageBody::InvokeExport { input, .. } => Some(input.len()),
            HostMessageBody::CapabilityCall { input, .. } => Some(input.len()),
            HostMessageBody::CapabilityResult { result, .. } => match result {
                Some(v) => Some(v.len()),
                None => None,
            },
            HostMessageBody::ExportResult { result, .. } => match result {
                Some(v) => Some(v.len()),
                None => None,
            },
            _ => None,
        };
        self.check_bounds(value_len, encoded_len)
    }
}

/// The encoded length of the interface value a body carries, if it carries
/// one.
pub open spec fn interface_value_len(body: HostMessageBody) -> Option<usize> {
    match body {
        HostMessageBody::InvokeExport { input, .. } => Some(input@.len() as usize),
        HostMessageBody::CapabilityCall { input, .. } => Some(input@.len() as usize),
        HostMessageBody::CapabilityResult { result, .. } => match result {
            Some(v) => Some(v@.len() as usize),
            None => None,
        },
        HostMessageBody::ExportResult { result, .. } => match result {
            Some(v) => Some(v@.len() as usize),
            None => None,
        },
        _ => None,
    }
}

/// An interface value whose JSON encoding exceeds the interface-value bound
/// is refused as over the frame limit, whatever the rest of the message.
pub proof fn oversized_interface_values_are_refused(m: HostMessage, encoded_len: Option<usize>)
    requires
        host_header_ok(m),
        interface_value_len(m.body) matches Some(n) && n > MAX_WIT_VALUE_BYTES,
    ensures
        host_bounds(m, interface_value_len(m.body), encoded_len) is Err,
{
}

/// A result message that passes the bounds carries exactly one of a result
/// and an error, and an accepted message encodes to between one byte and the
/// frame bound.
pub proof fn accepted_results_carry_exactly_one_outcome(
    m: HostMessage,
    value_len: Option<usize>,
    encoded_len: Option<usize>,
)
    requires
        host_bounds(m, value_len, encoded_len) is Ok,
    ensures
        m.body matches HostMessageBody::CapabilityResult { result, error, .. } ==> (result is Some) != (error is Some),
        m.body matches HostMessageBody::ExportResult { result, error, .. } ==> (result is Some) != (error is Some),
        encoded_len matches Some(n) && 1 <= n <= MAX_HOST_FRAME_BYTES,
{
}

} // verus!
