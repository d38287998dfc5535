use vstd::prelude::*;

use sha2::Digest;

verus! {

/// The SHA-256 digest of a byte sequence, as `sha2` computes it. The digest
/// depends on the input bytes alone; no short statement pins its value.
pub uninterp spec fn sha256_of(bytes: Seq<u8>) -> Seq<u8>;

/// Relies on sha2::Sha256::digest: one SHA-256 digest of the input, always
/// 32 bytes long. The digest is a function of the input bytes alone.
#[verifier::external_body]
pub(crate) fn sha256(data: &[u8]) -> (r: Vec<u8>)
    ensures
        r@ == sha256_of(data@),
        r@.len() == 32,
{
    sha2::Sha256::digest(data).to_vec()
}

/// Relies on actix_web::cookie::Key::generate: a fresh 64-byte master key
/// drawn from a cryptographically secure random source (it aborts only if
/// the operating system cannot supply randomness). Nothing is promised of
/// the bytes but their number.
#[verifier::external_body]
pub(crate) fn random_key_bytes() -> (r: Vec<u8>)
    ensures
        r@.len() == 64,
{
    actix_web::cookie::Key::generate().master().to_vec()
}

} // verus!
