//! SHA-256 integrity digests of model files and exports, as lowercase hex.

use vstd::prelude::*;
use sha2::Digest;
use crate::hex::{hex_lower, hex_lower_spec, is_lower_hex_char, lemma_hex_lower_shape};

verus! {

/// A SHA-256 computation fed piece by piece, e.g. while a file is read.
/// The `sha2` hasher type is an alias of nested generic wrappers, so it is
/// held here in a private field.
#[verifier::external_body]
pub struct Sha256Stream {
    hasher: sha2::Sha256,
}

/// The SHA-256 digest of `data`, as `sha2` computes it.
pub uninterp spec fn sha256_spec(data: Seq<u8>) -> Seq<u8>;

/// The bytes that the hasher inside `stream` has absorbed since it was created.
pub uninterp spec fn sha256_absorbed(stream: Sha256Stream) -> Seq<u8>;

/// `<sha2::Sha256 as Digest>::new`: a hasher that has absorbed nothing.
#[verifier::external_body]
fn sha256_new() -> (stream: Sha256Stream)
    ensures
        sha256_absorbed(stream) == Seq::<u8>::empty(),
{
    Sha256Stream { hasher: sha2::Sha256::new() }
}

/// `<sha2::Sha256 as Digest>::update`: the hasher absorbs `data` after what it held.
#[verifier::external_body]
fn sha256_update(stream: &mut Sha256Stream, data: &[u8])
    ensures
        sha256_absorbed(*final(stream)) == sha256_absorbed(*old(stream)) + data@,
{
    stream.hasher.update(data);
}

/// `<sha2::Sha256 as Digest>::finalize`: the 32-byte digest of everything absorbed.
#[verifier::external_body]
fn sha256_finalize(stream: Sha256Stream) -> (out: [u8; 32])
    ensures
        out@ == sha256_spec(sha256_absorbed(stream)),
{
    stream.hasher.finalize().into()
}

impl View for Sha256Stream {
    type V = Seq<u8>;

    /// The bytes fed so far.
    closed spec fn view(&self) -> Seq<u8> {
        sha256_absorbed(*self)
    }
}

impl Sha256Stream {
    /// A computation that has been fed nothing.
    pub fn new() -> (s: Self)
        ensures
            s@ == Seq::<u8>::empty(),
    {
        sha256_new()
    }

    /// Feeds `data` after what was fed before.
    pub fn update(&mut self, data: &[u8])
        ensures
            final(self)@ == old(self)@ + data@,
    {
        sha256_update(self, data);
    }

    /// The lowercase hex digest (64 characters) of everything fed.
    pub fn finalize_hex(self) -> (res: String)
        ensures
            res@ == hex_lower_spec(sha256_spec(self@)),
            res@.len() == 64,
            forall|i: int| 0 <= i < 64 ==> #[trigger] is_lower_hex_char(res@[i]),
    {
        let out = sha256_finalize(self);
        let res = hex_lower(&out);
        proof {
            lemma_hex_lower_shape(out@);
        }
        res
    }
}

/// The lowercase hex SHA-256 digest of `data`.
pub fn sha256_bytes(data: &[u8]) -> (res: String)
    ensures
        res@ == hex_lower_spec(sha256_spec(data@)),
        res@.len() == 64,
        forall|i: int| 0 <= i < 64 ==> #[trigger] is_lower_hex_char(res@[i]),
{
    let mut s = Sha256Stream::new();
    s.update(data);
    assert(s@ =~= data@);
    s.finalize_hex()
}

/// Feeding a stream piece by piece gives the digest of all the pieces joined
/// in order: if `fed[0]` is what a new stream holds and each `fed[i + 1]` is
/// `fed[i]` after `update(pieces[i])`, the stream finally holds
/// `pieces.flatten()`, so its `finalize_hex` is `sha256_bytes` of that.
pub proof fn lemma_fed_pieces(fed: Seq<Seq<u8>>, pieces: Seq<Seq<u8>>)
    requires
        fed.len() == pieces.len() + 1,
        fed[0] == Seq::<u8>::empty(),
        forall|i: int| 0 <= i < pieces.len() ==> #[trigger] fed[i + 1] == fed[i] + pieces[i],
    ensures
        fed.last() == pieces.flatten(),
        hex_lower_spec(sha256_spec(fed.last())) == hex_lower_spec(sha256_spec(pieces.flatten())),
    decreases pieces.len(),
{
    if pieces.len() == 0 {
        assert(fed.last() == fed[0]);
    } else {
        let n = pieces.len() - 1;
        let fed0 = fed.drop_last();
        let pieces0 = pieces.drop_last();
        assert forall|i: int| 0 <= i < pieces0.len() implies #[trigger] fed0[i + 1] == fed0[i] + pieces0[i] by {
            assert(fed[i + 1] == fed[i] + pieces[i]);
        }
        lemma_fed_pieces(fed0, pieces0);
        assert(fed[n + 1] == fed[n] + pieces[n]);
        assert(pieces0.push(pieces[n]) =~= pieces);
        pieces0.lemma_flatten_push(pieces[n]);
        assert(fed.last() =~= pieces.flatten());
    }
}

} // verus!
