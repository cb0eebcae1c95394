use vstd::prelude::*;
use crate::hex::{encode_hex, hex_lower, is_lower_hex, lemma_hex_lower_shape};

verus! {

/// An incremental SHA-1 computation, held by the `sha1` crate's hasher.
///
/// Verus does not look inside: all that is known of a hasher is what the
/// functions below say of the bytes it has absorbed.
#[verifier::external_body]
pub struct Sha1Hasher {
    inner: sha1::Sha1,
}

/// The bytes that a hasher has absorbed so far, in order.
pub uninterp spec fn absorbed(h: Sha1Hasher) -> Seq<u8>;

/// The SHA-1 digest of a byte string.
pub uninterp spec fn sha1_digest(data: Seq<u8>) -> Seq<u8>;

/// The lowercase hexadecimal text of the SHA-1 digest of `data`.
pub open spec fn sha1_hex_of(data: Seq<u8>) -> Seq<char> {
    hex_lower(sha1_digest(data))
}

/// Whether `s` has the form of a SHA-1 digest in text: forty lowercase
/// hexadecimal digits.
pub open spec fn is_sha1_text(s: Seq<char>) -> bool {
    s.len() == 40 && is_lower_hex(s)
}

/// A hasher that has absorbed nothing.
///
/// This is `Digest::new` on `sha1::Sha1`, which builds the hasher's default
/// state.
#[verifier::external_body]
pub(crate) fn hasher_new() -> (h: Sha1Hasher)
    ensures
        absorbed(h) == Seq::<u8>::empty(),
{
    Sha1Hasher { inner: <sha1::Sha1 as sha1::Digest>::new() }
}

/// Feeds `data` to the hasher.
///
/// This is `Digest::update` on `sha1::Sha1`: the hasher processes `data` after
/// all that it has processed before, so what it has absorbed grows by `data`.
#[verifier::external_body]
pub(crate) fn hasher_update(h: &mut Sha1Hasher, data: &[u8])
    ensures
        absorbed(*final(h)) == absorbed(*old(h)) + data@,
{
    sha1::Digest::update(&mut h.inner, data)
}

/// Ends the computation and hands out the digest.
///
/// This is `Digest::finalize` on `sha1::Sha1`: the result is the SHA-1 digest
/// of all that the hasher absorbed, and SHA-1 digests are twenty bytes long.
#[verifier::external_body]
pub(crate) fn hasher_finalize(h: Sha1Hasher) -> (out: Vec<u8>)
    ensures
        out@ == sha1_digest(absorbed(h)),
        out@.len() == 20,
{
    sha1::Digest::finalize(h.inner).to_vec()
}

/// The lowercase hexadecimal text of the digest of all that `h` absorbed.
pub(crate) fn finish_hex(h: Sha1Hasher) -> (text: String)
    ensures
        text@ == sha1_hex_of(absorbed(h)),
        is_sha1_text(text@),
{
    let digest = hasher_finalize(h);
    proof {
        lemma_hex_lower_shape(digest@);
    }
    encode_hex(digest.as_slice())
}

/// The lowercase hexadecimal text of the SHA-1 digest of `data`.
pub fn sha1_hex(data: &[u8]) -> (text: String)
    ensures
        text@ == sha1_hex_of(data@),
        is_sha1_text(text@),
{
    let mut h = hasher_new();
    hasher_update(&mut h, data);
    assert(absorbed(h) =~= data@);
    finish_hex(h)
}

} // verus!
