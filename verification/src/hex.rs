//! Lowercase hexadecimal text of byte strings, as `{:x}` prints a digest.

use vstd::prelude::*;

verus! {

/// The lowercase hexadecimal digit of a value below 16.
pub open spec fn hex_digit(n: int) -> char
    recommends
        0 <= n < 16,
{
    if n < 10 {
        (n + 48) as char
    } else {
        (n + 87) as char
    }
}

/// Character `i` of the hex text of `bytes`: two digits per byte, high nibble first.
pub open spec fn hex_char_at(bytes: Seq<u8>, i: int) -> char {
    let b = bytes[i / 2];
    if i % 2 == 0 {
        hex_digit((b / 16) as int)
    } else {
        hex_digit((b % 16) as int)
    }
}

/// The lowercase hex text of `bytes`.
pub open spec fn hex_lower_spec(bytes: Seq<u8>) -> Seq<char> {
    Seq::new(2 * bytes.len(), |i: int| hex_char_at(bytes, i))
}

/// Whether `c` is one of the sixteen lowercase hex digits.
pub open spec fn is_lower_hex_char(c: char) -> bool {
    ('0' <= c <= '9') || ('a' <= c <= 'f')
}

/// Appends one character to a string (`String::push`).
#[verifier::external_body]
pub(crate) fn string_push(s: &mut String, c: char)
    ensures
        final(s)@ == old(s)@.push(c),
{
    s.push(c);
}

fn nibble_char(n: u8) -> (c: char)
    requires
        n < 16,
    ensures
        c == hex_digit(n as int),
{
    if n < 10 {
        (n + 48) as char
    } else {
        (n + 87) as char
    }
}

/// Lowercase hex text of `bytes`, two digits per byte.
pub fn hex_lower(bytes: &[u8]) -> (res: String)
    requires
        2 * bytes@.len() <= usize::MAX,
    ensures
        res@ == hex_lower_spec(bytes@),
{
    let mut res = String::new();
    let n = bytes.len();
    let mut i: usize = 0;
    while i < n
        invariant
            n == bytes@.len(),
            i <= n,
            res@.len() == 2 * i,
            forall|k: int| 0 <= k < 2 * i ==> res@[k] == hex_char_at(bytes@, k),
        decreases n - i,
    {
        let b = bytes[i];
        let hi = nibble_char(b / 16);
        let lo = nibble_char(b % 16);
        string_push(&mut res, hi);
        string_push(&mut res, lo);
        proof {
            assert(forall|k: int| 0 <= k < 2 * i + 2 ==> res@[k] == hex_char_at(bytes@, k)) by {
                assert forall|k: int| 0 <= k < 2 * i + 2 implies res@[k] == hex_char_at(bytes@, k) by {
                    if k == 2 * i {
                        assert(k / 2 == i as int);
                        assert(k % 2 == 0);
                    } else if k == 2 * i + 1 {
                        assert(k / 2 == i as int);
                        assert(k % 2 == 1);
                    }
                }
            }
        }
        i = i + 1;
    }
    assert(res@ =~= hex_lower_spec(bytes@));
    res
}

/// Every character of a hex text is a lowercase hex digit, and there are two per byte.
pub proof fn lemma_hex_lower_shape(bytes: Seq<u8>)
    ensures
        hex_lower_spec(bytes).len() == 2 * bytes.len(),
        forall|i: int| 0 <= i < 2 * bytes.len() ==> #[trigger] is_lower_hex_char(hex_lower_spec(bytes)[i]),
{
    assert forall|i: int| 0 <= i < 2 * bytes.len() implies #[trigger] is_lower_hex_char(hex_lower_spec(bytes)[i]) by {
        let b = bytes[i / 2];
        assert(0 <= b / 16 < 16);
        assert(0 <= b % 16 < 16);
    }
}

} // verus!
