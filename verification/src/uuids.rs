//! Trusted access to the `uuid` crate: random generation, parsing and the
//! canonical hyphenated text form.

use vstd::prelude::*;

verus! {

/// Lowercase hexadecimal digit for a nibble.
pub open spec fn hex_char(n: int) -> char {
    if n < 10 {
        (48 + n) as char
    } else {
        (87 + n) as char
    }
}

/// Position of the hexadecimal digit shown at text position `i` of a hyphenated UUID.
pub open spec fn uuid_digit_index(i: int) -> int {
    if i < 8 {
        i
    } else if i < 13 {
        i - 1
    } else if i < 18 {
        i - 2
    } else if i < 23 {
        i - 3
    } else {
        i - 4
    }
}

/// The canonical lowercase hyphenated text (8-4-4-4-12) of sixteen UUID bytes.
pub open spec fn spec_uuid_hyphenated(b: Seq<u8>) -> Seq<char> {
    Seq::new(
        36,
        |i: int|
            if i == 8 || i == 13 || i == 18 || i == 23 {
                '-'
            } else {
                let d = uuid_digit_index(i);
                let byte = b[d / 2];
                if d % 2 == 0 {
                    hex_char((byte / 16) as int)
                } else {
                    hex_char((byte % 16) as int)
                }
            },
    )
}

/// Whether a text has the shape of a lowercase hyphenated UUID.
pub open spec fn is_lower_hyphenated_uuid(t: Seq<char>) -> bool {
    t.len() == 36 && forall|i: int|
        0 <= i < 36 ==> if i == 8 || i == 13 || i == 18 || i == 23 {
            #[trigger] t[i] == '-'
        } else {
            ('0' <= t[i] <= '9') || ('a' <= t[i] <= 'f')
        }
}

/// What `uuid::Uuid::parse_str` yields for a text: the sixteen bytes, or nothing.
pub uninterp spec fn uuid_parse(text: Seq<char>) -> Option<Seq<u8>>;

/// Calls `uuid::Uuid::parse_str`. The accepted syntaxes (hyphenated, simple,
/// braced, URN; either case) are not restated; the contract ties the result to
/// `uuid_parse` and states that lowercase hyphenated text parses to the bytes
/// whose canonical text it is.
#[verifier::external_body]
pub(crate) fn uuid_parse_str(text: &str) -> (r: Option<[u8; 16]>)
    ensures
        match r {
            Some(x) => uuid_parse(text@) == Some(x@),
            None => uuid_parse(text@) is None,
        },
        match r {
            Some(x) => is_lower_hyphenated_uuid(text@) ==> spec_uuid_hyphenated(x@) == text@,
            None => !is_lower_hyphenated_uuid(text@),
        },
{
    uuid::Uuid::parse_str(text).ok().map(|value| value.into_bytes())
}

/// Calls `uuid::Uuid::new_v4`. The bytes are random; the crate fixes the
/// version nibble to 4 and the RFC 4122 variant bits, which is all that is
/// stated.
#[verifier::external_body]
pub(crate) fn uuid_new_v4() -> (r: [u8; 16])
    ensures
        r@[6] & 0xf0u8 == 0x40u8,
        r@[8] & 0xc0u8 == 0x80u8,
{
    uuid::Uuid::new_v4().into_bytes()
}

/// Calls `Display` of `uuid::Uuid`, which writes the lowercase hyphenated form.
#[verifier::external_body]
pub(crate) fn uuid_to_string(bytes: [u8; 16]) -> (r: String)
    ensures
        r@ == spec_uuid_hyphenated(bytes@),
{
    uuid::Uuid::from_bytes(bytes).to_string()
}

} // verus!
