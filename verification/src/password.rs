use vstd::prelude::*;

use crate::bytes::bytes_eq;
use crate::crypto::sha256;
use crate::crypto::sha256_of;

verus! {

/// Bytes of random salt stored in front of each password digest.
pub const SALT_LEN: usize = 16;

/// Bytes of a SHA-256 digest.
pub const DIGEST_LEN: usize = 32;

/// The bytes a password hashes over: its UTF-8 encoding.
pub open spec fn password_bytes(password: Seq<char>) -> Seq<u8> {
    vstd::utf8::encode_utf8(password)
}

/// What it means for a stored hash to match a password: the stored value is
/// a salt followed by the SHA-256 digest of that salt and the password. The
/// salt differs from call to call, so the same password yields different
/// stored hashes, yet every one of them matches here.
pub open spec fn spec_hash_matches(password: Seq<u8>, stored: Seq<u8>) -> bool {
    &&& stored.len() == SALT_LEN + DIGEST_LEN
    &&& stored.skip(SALT_LEN as int) == sha256_of(stored.take(SALT_LEN as int) + password)
}

/// Hashes a password under a fresh random salt. The result always matches
/// the password it was derived from (see `verify_password` and
/// `lemma_verify_of_hash`).
pub fn hash_password(password: &String) -> (r: Vec<u8>)
    ensures
        r@.len() == SALT_LEN + DIGEST_LEN,
        spec_hash_matches(password_bytes(password@), r@),
{
    let key = crate::crypto::random_key_bytes();
    let pw_bytes = password.as_str().as_bytes_vec();
    // salted = salt ++ password bytes
    let mut salted: Vec<u8> = Vec::new();
    let mut i: usize = 0;
    while i < SALT_LEN
        invariant
            i <= SALT_LEN,
            key@.len() == 64,
            salted@.len() == i,
            forall|j: int| 0 <= j < i ==> salted@[j] == key@[j],
        decreases SALT_LEN - i,
    {
        salted.push(key[i]);
        i += 1;
    }
    let ghost salt: Seq<u8> = salted@;
    let mut i: usize = 0;
    while i < pw_bytes.len()
        invariant
            i <= pw_bytes@.len(),
            salted@.len() == salt.len() + i,
            salted@.take(salt.len() as int) == salt,
            forall|j: int| 0 <= j < i ==> salted@[salt.len() + j] == pw_bytes@[j],
        decreases pw_bytes@.len() - i,
    {
        salted.push(pw_bytes[i]);
        i += 1;
    }
    proof {
        assert(salted@ =~= salt + pw_bytes@);
    }
    let digest = sha256(salted.as_slice());
    let mut out: Vec<u8> = Vec::new();
    let mut i: usize = 0;
    while i < SALT_LEN
        invariant
            i <= SALT_LEN,
            salted@.len() >= SALT_LEN,
            out@.len() == i,
            forall|j: int| 0 <= j < i ==> out@[j] == salted@[j],
        decreases SALT_LEN - i,
    {
        out.push(salted[i]);
        i += 1;
    }
    let mut i: usize = 0;
    while i < digest.len()
        invariant
            i <= digest@.len(),
            out@.len() == SALT_LEN + i,
            out@.take(SALT_LEN as int) == salt,
            forall|j: int| 0 <= j < i ==> out@[SALT_LEN + j] == digest@[j],
        decreases digest@.len() - i,
    {
        out.push(digest[i]);
        i += 1;
    }
    proof {
        assert(out@.take(SALT_LEN as int) =~= salt);
        assert(out@.skip(SALT_LEN as int) =~= digest@);
        assert(pw_bytes@ == password_bytes(password@));
    }
    out
}

/// Verifies a password against a stored hash, in constant time over the
/// digest comparison: the digest under the stored salt is recomputed and
/// compared whole, never byte-for-byte with an early exit.
pub fn verify_password(password: &String, stored: &Vec<u8>) -> (r: bool)
    ensures
        r == spec_hash_matches(password_bytes(password@), stored@),
{
    if stored.len() != SALT_LEN + DIGEST_LEN {
        return false;
    }
    let pw_bytes = password.as_str().as_bytes_vec();
    let mut salted: Vec<u8> = Vec::new();
    let mut i: usize = 0;
    while i < SALT_LEN
        invariant
            i <= SALT_LEN,
            stored@.len() == SALT_LEN + DIGEST_LEN,
            salted@.len() == i,
            forall|j: int| 0 <= j < i ==> salted@[j] == stored@[j],
        decreases SALT_LEN - i,
    {
        salted.push(stored[i]);
        i += 1;
    }
    let mut i: usize = 0;
    while i < pw_bytes.len()
        invariant
            i <= pw_bytes@.len(),
            salted@.len() == SALT_LEN + i,
            salted@.take(SALT_LEN as int) == stored@.take(SALT_LEN as int),
            forall|j: int| 0 <= j < i ==> salted@[SALT_LEN + j] == pw_bytes@[j],
        decreases pw_bytes@.len() - i,
    {
        salted.push(pw_bytes[i]);
        i += 1;
    }
    proof {
        assert(salted@ =~= stored@.take(SALT_LEN as int) + pw_bytes@);
    }
    let digest = sha256(salted.as_slice());
    let mut expected: Vec<u8> = Vec::new();
    let mut i: usize = SALT_LEN;
    while i < SALT_LEN + DIGEST_LEN
        invariant
            SALT_LEN <= i <= SALT_LEN + DIGEST_LEN,
            stored@.len() == SALT_LEN + DIGEST_LEN,
            expected@.len() == i - SALT_LEN,
            forall|j: int| 0 <= j < i - SALT_LEN ==> expected@[j] == stored@[SALT_LEN + j],
        decreases SALT_LEN + DIGEST_LEN - i,
    {
        expected.push(stored[i]);
        i += 1;
    }
    proof {
        assert(expected@ =~= stored@.skip(SALT_LEN as int));
    }
    bytes_eq(&digest, &expected)
}

/// Law: verification succeeds on what hashing produced. For any password and
/// any salt, the stored value `salt ++ sha256(salt ++ password)` matches the
/// password it was built from. (That a hash of one password matches another
/// password rests on SHA-256 collision resistance and is not stated here.)
pub proof fn lemma_verify_of_hash(password: Seq<u8>, salt: Seq<u8>)
    requires
        salt.len() == SALT_LEN,
        sha256_of(salt + password).len() == DIGEST_LEN,
    ensures
        spec_hash_matches(password, salt + sha256_of(salt + password)),
{
    let stored = salt + sha256_of(salt + password);
    assert(stored.take(SALT_LEN as int) =~= salt);
    assert(stored.skip(SALT_LEN as int) =~= sha256_of(salt + password));
}

} // verus!
