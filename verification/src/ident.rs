//! Identifiers of sessions, messages and audit events: random (version 4)
//! UUIDs in their hyphenated lowercase text form.

use vstd::prelude::*;
use crate::hex::{hex_lower_spec, hex_char_at, is_lower_hex_char};

verus! {

/// The hyphenated lowercase text of a 16-byte UUID: 8-4-4-4-12 hex digits.
pub open spec fn uuid_text_spec(bytes: Seq<u8>) -> Seq<char> {
    let h = hex_lower_spec(bytes);
    h.subrange(0, 8) + seq!['-'] + h.subrange(8, 12) + seq!['-'] + h.subrange(12, 16) + seq!['-']
        + h.subrange(16, 20) + seq!['-'] + h.subrange(20, 32)
}

/// Whether `i` is one of the four hyphen positions of a hyphenated UUID.
pub open spec fn is_uuid_hyphen_pos(i: int) -> bool {
    i == 8 || i == 13 || i == 18 || i == 23
}

/// Whether `s` is the text of a random (version 4, RFC 4122 variant) UUID.
pub open spec fn is_v4_uuid_text(s: Seq<char>) -> bool {
    &&& s.len() == 36
    &&& forall|i: int|
        0 <= i < 36 ==> (if is_uuid_hyphen_pos(i) {
            s[i] == '-'
        } else {
            is_lower_hex_char(#[trigger] s[i])
        })
    &&& s[14] == '4'
    &&& (s[19] == '8' || s[19] == '9' || s[19] == 'a' || s[19] == 'b')
}

/// `uuid::Uuid::new_v4`, taken as its 16 bytes: random bytes with the
/// version nibble set to 4 and the two variant bits set to `10`.
#[verifier::external_body]
fn uuid_new_v4_bytes() -> (bytes: [u8; 16])
    ensures
        bytes@[6] / 16 == 4,
        bytes@[8] / 64 == 2,
{
    uuid::Uuid::new_v4().into_bytes()
}

/// `<uuid::Uuid as Display>::to_string` of the UUID with these bytes:
/// its hyphenated lowercase text.
#[verifier::external_body]
fn uuid_hyphenated(bytes: [u8; 16]) -> (text: String)
    ensures
        text@ == uuid_text_spec(bytes@),
{
    uuid::Uuid::from_bytes(bytes).to_string()
}

/// The text of the UUID with these bytes has the hyphenated shape, and its
/// version and variant digits are those of the bytes.
pub proof fn lemma_uuid_text_shape(bytes: Seq<u8>)
    requires
        bytes.len() == 16,
        bytes[6] / 16 == 4,
        bytes[8] / 64 == 2,
    ensures
        is_v4_uuid_text(uuid_text_spec(bytes)),
{
    let h = hex_lower_spec(bytes);
    let s = uuid_text_spec(bytes);
    assert(s.len() == 36);
    assert forall|i: int| 0 <= i < 36 implies (if is_uuid_hyphen_pos(i) {
        s[i] == '-'
    } else {
        is_lower_hex_char(#[trigger] s[i])
    }) by {
        if !is_uuid_hyphen_pos(i) {
            let j: int = if i < 8 {
                i
            } else if i < 13 {
                i - 1
            } else if i < 18 {
                i - 2
            } else if i < 23 {
                i - 3
            } else {
                i - 4
            };
            assert(s[i] == h[j]);
            let b = bytes[j / 2];
            assert(0 <= b / 16 < 16);
            assert(0 <= b % 16 < 16);
            assert(h[j] == hex_char_at(bytes, j));
        }
    }
    assert(s[14] == h[12]);
    assert(h[12] == hex_char_at(bytes, 12));
    assert(s[19] == h[16]);
    assert(h[16] == hex_char_at(bytes, 16));
    let b8 = bytes[8];
    assert(8 <= b8 / 16 < 12);
}

/// A fresh random identifier, as `Uuid::new_v4().to_string()` makes one.
pub fn new_id() -> (id: String)
    ensures
        is_v4_uuid_text(id@),
{
    let bytes = uuid_new_v4_bytes();
    let id = uuid_hyphenated(bytes);
    proof {
        lemma_uuid_text_shape(bytes@);
    }
    id
}

} // verus!
