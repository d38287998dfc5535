use vstd::prelude::*;

use crate::crypto::random_key_bytes;
use crate::crypto::sha256;
use crate::crypto::sha256_of;
use crate::errors::AuthError;
use crate::store::token_hash_taken;
use crate::store::CredentialStore;

verus! {

/// Bytes of entropy in a session token.
pub const TOKEN_LEN: usize = 64;

/// How often the generator retries on a token-hash collision before it gives
/// up with `TokenSpaceExhausted`. The bound keeps the collision-avoidance
/// loop finite.
pub const MAX_TOKEN_ATTEMPTS: usize = 5;

/// Picks from the candidate tokens the first whose SHA-256 hash no session
/// in the store carries yet; fails with `TokenSpaceExhausted` if and only if
/// every candidate collides. This is the deterministic heart of `generate`,
/// so the collision path can be exercised on chosen candidates.
pub fn select_fresh_token(store: &CredentialStore, candidates: &Vec<Vec<u8>>) -> (r: Result<
    (Vec<u8>, Vec<u8>),
    AuthError,
>)
    ensures
        match r {
            Ok((token, hash)) => {
                &&& exists|i: int|
                    0 <= i < candidates@.len() && (#[trigger] candidates@[i])@ == token@
                &&& hash@ == sha256_of(token@)
                &&& hash@.len() == 32
                &&& !token_hash_taken(store.spec_sessions(), hash@)
            },
            Err(e) => {
                &&& e == AuthError::TokenSpaceExhausted
                &&& forall|i: int|
                    0 <= i < candidates@.len() ==> token_hash_taken(
                        store.spec_sessions(),
                        sha256_of((#[trigger] candidates@[i])@),
                    )
            },
        },
{
    let mut i: usize = 0;
    while i < candidates.len()
        invariant
            i <= candidates@.len(),
            forall|j: int|
                0 <= j < i ==> token_hash_taken(
                    store.spec_sessions(),
                    sha256_of((#[trigger] candidates@[j])@),
                ),
        decreases candidates@.len() - i,
    {
        let hash = sha256(candidates[i].as_slice());
        if !store.session_token_hash_exists(&hash) {
            let token = candidates[i].clone();
            proof {
                assert(token@ == candidates@[i as int]@);
            }
            return Ok((token, hash));
        }
        i += 1;
    }
    Err(AuthError::TokenSpaceExhausted)
}

/// One fresh random token with its SHA-256 hash, for a caller that keeps its
/// session records elsewhere and runs the collision check against those.
pub fn new_token_pair() -> (r: (Vec<u8>, Vec<u8>))
    ensures
        r.0@.len() == TOKEN_LEN,
        r.1@ == sha256_of(r.0@),
        r.1@.len() == 32,
{
    let token = random_key_bytes();
    let hash = sha256(token.as_slice());
    (token, hash)
}

/// Draws up to `MAX_TOKEN_ATTEMPTS` random tokens and returns the first —
/// plaintext and hash — whose hash is absent from the store. The plaintext
/// token leaves the library exactly once, here; only its hash is meant to be
/// persisted. Whether a draw collides depends on the random source, so
/// success is not owed; `select_fresh_token` carries the exact decision.
pub fn generate(store: &CredentialStore) -> (r: Result<(Vec<u8>, Vec<u8>), AuthError>)
    ensures
        match r {
            Ok((token, hash)) => {
                &&& token@.len() == TOKEN_LEN
                &&& hash@ == sha256_of(token@)
                &&& hash@.len() == 32
                &&& !token_hash_taken(store.spec_sessions(), hash@)
            },
            Err(e) => e == AuthError::TokenSpaceExhausted,
        },
        store.spec_sessions().len() == 0 ==> r is Ok,
{
    let mut attempts: usize = 0;
    while attempts < MAX_TOKEN_ATTEMPTS
        invariant
            attempts <= MAX_TOKEN_ATTEMPTS,
            // A draw retries only on a collision, so in a store without
            // sessions the first draw already succeeded.
            attempts > 0 ==> store.spec_sessions().len() > 0,
        decreases MAX_TOKEN_ATTEMPTS - attempts,
    {
        let token = random_key_bytes();
        let hash = sha256(token.as_slice());
        if !store.session_token_hash_exists(&hash) {
            return Ok((token, hash));
        }
        attempts += 1;
    }
    Err(AuthError::TokenSpaceExhausted)
}

} // verus!
