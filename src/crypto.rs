//! The digests and signature checks that the native operations hand to
//! outside crates.
use vstd::prelude::*;

verus! {

/// The Keccak-256 digest of a byte string.
pub uninterp spec fn keccak256_of(b: Seq<u8>) -> Seq<u8>;

/// The RIPEMD-160 digest of a byte string.
pub uninterp spec fn ripemd160_of(b: Seq<u8>) -> Seq<u8>;

/// The SHA-256 digest of a byte string.
pub uninterp spec fn sha2_256_of(b: Seq<u8>) -> Seq<u8>;

/// The SHA3-256 digest of a byte string.
pub uninterp spec fn sha3_256_of(b: Seq<u8>) -> Seq<u8>;

/// Whether an Ed25519 signature over a message holds under a public key:
/// `None` when the signature or the key does not parse.
pub uninterp spec fn ed25519_outcome(signature: Seq<u8>, public_key: Seq<u8>, message: Seq<u8>) -> Option<bool>;

/// Relies on `sha3::Keccak256` (`Digest::digest`): a function of the input
/// bytes, with a 32-byte output.
#[verifier::external_body]
pub(crate) fn keccak256(b: &[u8]) -> (r: Vec<u8>)
    ensures
        r@ == keccak256_of(b@),
        r@.len() == 32,
{
    <sha3::Keccak256 as sha3::Digest>::digest(b).to_vec()
}

/// Relies on `ripemd160::Ripemd160` (`Digest::digest`): a function of the
/// input bytes, with a 20-byte output.
#[verifier::external_body]
pub(crate) fn ripemd160(b: &[u8]) -> (r: Vec<u8>)
    ensures
        r@ == ripemd160_of(b@),
        r@.len() == 20,
{
    <ripemd160::Ripemd160 as ripemd160::Digest>::digest(b).to_vec()
}

/// Relies on `sha2::Sha256` (`Digest::digest`): a function of the input
/// bytes, with a 32-byte output.
#[verifier::external_body]
pub(crate) fn sha2_256(b: &[u8]) -> (r: Vec<u8>)
    ensures
        r@ == sha2_256_of(b@),
        r@.len() == 32,
{
    <sha2::Sha256 as sha2::Digest>::digest(b).to_vec()
}

/// Relies on `sha3::Sha3_256` (`Digest::digest`): a function of the input
/// bytes, with a 32-byte output.
#[verifier::external_body]
pub(crate) fn sha3_256(b: &[u8]) -> (r: Vec<u8>)
    ensures
        r@ == sha3_256_of(b@),
        r@.len() == 32,
{
    <sha3::Sha3_256 as sha3::Digest>::digest(b).to_vec()
}

/// Relies on `ed25519_dalek`: `Signature::from_slice` accepts exactly 64
/// bytes, `VerifyingKey::try_from` only 32 bytes that encode a curve point, and
/// `Verifier::verify` says whether the signature holds for the message. The
/// answer depends on the three byte strings alone.
#[verifier::external_body]
pub(crate) fn ed25519_check(signature: &[u8], public_key: &[u8], message: &[u8]) -> (r: Option<bool>)
    ensures
        r == ed25519_outcome(signature@, public_key@, message@),
        signature@.len() != 64 ==> r is None,
        public_key@.len() != 32 ==> r is None,
{
    let sig = match ed25519_dalek::Signature::from_slice(signature) {
        Ok(sig) => sig,
        Err(_) => return None,
    };
    let key = match ed25519_dalek::VerifyingKey::try_from(public_key) {
        Ok(key) => key,
        Err(_) => return None,
    };
    Some(ed25519_dalek::Verifier::verify(&key, message, &sig).is_ok())
}

} // verus!
