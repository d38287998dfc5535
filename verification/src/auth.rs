use vstd::prelude::*;

use crate::clock::now_unix_seconds;
use crate::crypto::random_key_bytes;
use crate::crypto::sha256_of;
use crate::errors::AuthError;
use crate::password::hash_password;
use crate::password::password_bytes;
use crate::password::spec_hash_matches;
use crate::password::verify_password;
use crate::requests::parse_u64;
use crate::requests::spec_parse_u64;
use crate::requests::LoginData;
use crate::requests::LogoutData;
use crate::requests::RegisterData;
use crate::store::email_taken;
use crate::store::token_hash_taken;
use crate::store::user_id_taken;
use crate::store::username_taken;
use crate::store::CredentialStore;
use crate::token::select_fresh_token;
use crate::token::MAX_TOKEN_ATTEMPTS;
use crate::token::TOKEN_LEN;

verus! {

/// How long a fresh session lives, in seconds: one day, the fixed policy.
/// `login` takes the lifetime as an argument, so a deployment may configure
/// another value.
pub const DEFAULT_SESSION_LIFETIME_SECONDS: u64 = 86400;

/// A username and password pair is valid when some registered user carries
/// the username and the stored password hash matches the password.
pub open spec fn spec_credentials_valid(
    s: CredentialStore,
    username: Seq<char>,
    password: Seq<char>,
) -> bool {
    exists|i: int|
        0 <= i < s.spec_users().len() && (#[trigger] s.spec_users()[i]).username@ == username
            && spec_hash_matches(password_bytes(password), s.spec_users()[i].password_hash@)
}

/// Some candidate token's hash is absent from the store.
pub open spec fn spec_some_candidate_fresh(s: CredentialStore, candidates: Seq<Vec<u8>>) -> bool {
    exists|i: int|
        0 <= i < candidates.len() && !token_hash_taken(
            s.spec_sessions(),
            sha256_of((#[trigger] candidates[i])@),
        )
}

/// The session `session_id` exists and belongs to the user named `username`.
pub open spec fn spec_session_owned_by(
    s: CredentialStore,
    session_id: u64,
    username: Seq<char>,
) -> bool {
    exists|i: int, j: int|
        0 <= i < s.spec_sessions().len() && 0 <= j < s.spec_users().len() && (
        #[trigger] s.spec_sessions()[i]).id == session_id && (#[trigger] s.spec_users()[j]).id
            == s.spec_sessions()[i].user_id && s.spec_users()[j].username@ == username
}

/// Registers an account: username pre-check, email pre-check, password
/// hashing, insert. The store's own duplicate handling at insert time is
/// authoritative over the pre-checks, so the outcome is exactly
/// `spec_create_user_outcome`: at most one registration per username and per
/// email ever succeeds.
pub fn register(store: &mut CredentialStore, data: &RegisterData) -> (r: Result<u64, AuthError>)
    requires
        old(store).wf(),
    ensures
        final(store).wf(),
        r == old(store).spec_create_user_outcome(data.username@, data.email@),
        r is Err ==> *final(store) == *old(store),
        r is Ok ==> ({
            &&& r->Ok_0 == old(store).spec_next_user_id()
            &&& r->Ok_0 > 0
            &&& final(store).spec_users().len() == old(store).spec_users().len() + 1
            &&& forall|i: int|
                0 <= i < old(store).spec_users().len() ==> final(store).spec_users()[i] == old(
                    store,
                ).spec_users()[i]
            &&& ({
                let user = final(store).spec_users().last();
                &&& user.id == r->Ok_0
                &&& user.username@ == data.username@
                &&& user.email@ == data.email@
                &&& user.birthdate@ == data.birthdate@
                &&& user.firstname@ == data.firstname@
                &&& user.lastname@ == data.lastname@
                &&& spec_hash_matches(password_bytes(data.password@), user.password_hash@)
            })
            &&& username_taken(final(store).spec_users(), data.username@)
            &&& email_taken(final(store).spec_users(), data.email@)
            &&& final(store).spec_sessions() == old(store).spec_sessions()
            &&& final(store).spec_next_user_id() == old(store).spec_next_user_id() + 1
            &&& final(store).spec_next_session_id() == old(store).spec_next_session_id()
        }),
{
    if store.username_exists(&data.username) {
        return Err(AuthError::DuplicateUsername);
    }
    if store.email_exists(&data.email) {
        return Err(AuthError::DuplicateEmail);
    }
    let password_hash = hash_password(&data.password);
    let r = store.create_user(
        data.username.clone(),
        password_hash,
        data.email.clone(),
        data.birthdate.clone(),
        data.firstname.clone(),
        data.lastname.clone(),
    );
    proof {
        if r is Ok {
            let n = old(store).spec_users().len() as int;
            assert(store.spec_users()[n].username@ == data.username@);
            assert(store.spec_users()[n].email@ == data.email@);
        }
    }
    r
}

/// Law: once a username is taken — as it is after any successful
/// registration with it — every further registration attempt with that
/// username is rejected with `DuplicateUsername`, whatever its email. So of
/// all registration attempts with one username, at most one succeeds.
pub proof fn lemma_duplicate_username_rejected(
    s: CredentialStore,
    username: Seq<char>,
    email: Seq<char>,
)
    requires
        username_taken(s.spec_users(), username),
    ensures
        s.spec_create_user_outcome(username, email) == Err::<u64, AuthError>(
            AuthError::DuplicateUsername,
        ),
{
}

/// Law: once an email is taken — as it is after any successful registration
/// with it — no further registration attempt with that email succeeds; when
/// its username is fresh, the attempt is rejected with `DuplicateEmail`
/// (when the username is taken too, `DuplicateUsername` wins).
pub proof fn lemma_duplicate_email_rejected(
    s: CredentialStore,
    username: Seq<char>,
    email: Seq<char>,
)
    requires
        email_taken(s.spec_users(), email),
    ensures
        !(s.spec_create_user_outcome(username, email) is Ok),
        !username_taken(s.spec_users(), username) ==> s.spec_create_user_outcome(username, email)
            == Err::<u64, AuthError>(AuthError::DuplicateEmail),
{
}

/// Law: the account a successful registration appends — its username, and a
/// password hash matching the submitted password (see `register`) — makes
/// exactly those credentials valid for login.
pub proof fn lemma_registered_credentials_are_valid(
    s: CredentialStore,
    username: Seq<char>,
    password: Seq<char>,
)
    requires
        s.spec_users().len() > 0,
        s.spec_users().last().username@ == username,
        spec_hash_matches(password_bytes(password), s.spec_users().last().password_hash@),
    ensures
        spec_credentials_valid(s, username, password),
{
    assert(0 <= s.spec_users().len() - 1 < s.spec_users().len());
}

/// Logs a user in against chosen candidate tokens: the deterministic core of
/// `login`. The credential check gates everything: a missing user and a
/// wrong password are both `InvalidCredentials`, indistinguishable to the
/// caller, and `UserNotFound` never escapes. It succeeds exactly when the
/// credentials are valid, some candidate's hash is fresh, the expiry fits in
/// the clock's width and the session id space is not exhausted; the session
/// it issues expires exactly `lifetime` seconds after `now`.
pub fn login_with_candidates(
    store: &mut CredentialStore,
    data: &LoginData,
    now: u64,
    lifetime: u64,
    candidates: &Vec<Vec<u8>>,
) -> (r: Result<(u64, Vec<u8>), AuthError>)
    requires
        old(store).wf(),
        lifetime >= 1,
    ensures
        final(store).wf(),
        final(store).spec_users() == old(store).spec_users(),
        final(store).spec_next_user_id() == old(store).spec_next_user_id(),
        r is Err ==> *final(store) == *old(store),
        r != Err::<(u64, Vec<u8>), AuthError>(AuthError::UserNotFound),
        (r == Err::<(u64, Vec<u8>), AuthError>(AuthError::InvalidCredentials)) <==> !spec_credentials_valid(
            *old(store),
            data.username@,
            data.password@,
        ),
        (r == Err::<(u64, Vec<u8>), AuthError>(AuthError::TokenSpaceExhausted)) <==> (
        spec_credentials_valid(*old(store), data.username@, data.password@)
            && !spec_some_candidate_fresh(*old(store), candidates@)),
        (r == Err::<(u64, Vec<u8>), AuthError>(AuthError::Unknown)) <==> (spec_credentials_valid(
            *old(store),
            data.username@,
            data.password@,
        ) && spec_some_candidate_fresh(*old(store), candidates@) && now + lifetime > u64::MAX),
        (r == Err::<(u64, Vec<u8>), AuthError>(AuthError::PersistenceFailure)) <==> (
        spec_credentials_valid(*old(store), data.username@, data.password@)
            && spec_some_candidate_fresh(*old(store), candidates@) && now + lifetime <= u64::MAX
            && old(store).spec_next_session_id() == u64::MAX),
        r is Err ==> (r->Err_0 == AuthError::InvalidCredentials || r->Err_0
            == AuthError::TokenSpaceExhausted || r->Err_0 == AuthError::Unknown || r->Err_0
            == AuthError::PersistenceFailure),
        r is Ok ==> ({
            &&& spec_credentials_valid(*old(store), data.username@, data.password@)
            &&& r->Ok_0.0 == old(store).spec_next_session_id()
            &&& final(store).spec_next_session_id() == old(store).spec_next_session_id() + 1
            &&& exists|i: int|
                0 <= i < candidates@.len() && (#[trigger] candidates@[i])@ == r->Ok_0.1@
            &&& !token_hash_taken(old(store).spec_sessions(), sha256_of(r->Ok_0.1@))
            &&& final(store).spec_sessions().len() == old(store).spec_sessions().len() + 1
            &&& forall|i: int|
                0 <= i < old(store).spec_sessions().len() ==> final(store).spec_sessions()[i]
                    == old(store).spec_sessions()[i]
            &&& ({
                let session = final(store).spec_sessions().last();
                &&& session.id == r->Ok_0.0
                &&& session.token_hash@ == sha256_of(r->Ok_0.1@)
                &&& session.token_hash@.len() == 32
                &&& session.created_at == now
                &&& session.expires_at == now + lifetime
                &&& !session.revoked
                &&& exists|i: int|
                    0 <= i < old(store).spec_users().len() && (#[trigger] old(
                        store,
                    ).spec_users()[i]).username@ == data.username@ && old(
                        store,
                    ).spec_users()[i].id == session.user_id
            })
        }),
{
    let user_index = match find_valid_user(store, data) {
        Some(i) => i,
        None => {
            return Err(AuthError::InvalidCredentials);
        },
    };
    let user_id = store.user_at(user_index).id;
    proof {
        assert(user_id_taken(store.spec_users(), user_id));
    }
    let (token, token_hash) = match select_fresh_token(store, candidates) {
        Ok(pair) => pair,
        Err(_) => {
            proof {
                assert(!spec_some_candidate_fresh(*store, candidates@));
            }
            return Err(AuthError::TokenSpaceExhausted);
        },
    };
    proof {
        assert(spec_some_candidate_fresh(*store, candidates@));
    }
    let expires_at = match now.checked_add(lifetime) {
        Some(t) => t,
        None => {
            return Err(AuthError::Unknown);
        },
    };
    let result = store.create_session(user_id, token_hash, now, expires_at);
    match result {
        Ok(session_id) => Ok((session_id, token)),
        Err(e) => {
            proof {
                assert(e == AuthError::PersistenceFailure);
            }
            Err(e)
        },
    }
}

/// The index of the user whose username and password both check out, if any;
/// the password comparison runs for a present username whatever its result.
fn find_valid_user(store: &CredentialStore, data: &LoginData) -> (r: Option<usize>)
    ensures
        match r {
            Some(i) => i < store.spec_users().len() && store.spec_users()[i as int].username@
                == data.username@ && spec_hash_matches(
                password_bytes(data.password@),
                store.spec_users()[i as int].password_hash@,
            ),
            None => !spec_credentials_valid(*store, data.username@, data.password@),
        },
        r is Some ==> spec_credentials_valid(*store, data.username@, data.password@),
{
    let n = store.num_users();
    let mut i: usize = 0;
    while i < n
        invariant
            n == store.spec_users().len(),
            i <= n,
            forall|j: int|
                0 <= j < i ==> !((#[trigger] store.spec_users()[j]).username@ == data.username@
                    && spec_hash_matches(
                    password_bytes(data.password@),
                    store.spec_users()[j].password_hash@,
                )),
        decreases n - i,
    {
        let user = store.user_at(i);
        if user.username == data.username {
            if verify_password(&data.password, &user.password_hash) {
                return Some(i);
            }
        }
        i += 1;
    }
    None
}

/// Logs a user in: credential check, fresh token under the bounded collision
/// retry, expiry `lifetime` seconds after the clock reading taken at entry,
/// session insert. Which tokens are drawn and what the clock reads depend on
/// the machine, so this states what holds of every outcome;
/// `login_with_candidates` carries the exact decision. `InvalidCredentials`
/// is returned if and only if the credentials are bad — never `UserNotFound`.
pub fn login(store: &mut CredentialStore, data: &LoginData, lifetime: u64) -> (r: Result<
    (u64, Vec<u8>),
    AuthError,
>)
    requires
        old(store).wf(),
        lifetime >= 1,
    ensures
        final(store).wf(),
        final(store).spec_users() == old(store).spec_users(),
        final(store).spec_next_user_id() == old(store).spec_next_user_id(),
        r is Err ==> *final(store) == *old(store),
        r != Err::<(u64, Vec<u8>), AuthError>(AuthError::UserNotFound),
        r is Err ==> (r->Err_0 == AuthError::InvalidCredentials || r->Err_0
            == AuthError::TokenSpaceExhausted || r->Err_0 == AuthError::Unknown || r->Err_0
            == AuthError::PersistenceFailure),
        (r == Err::<(u64, Vec<u8>), AuthError>(AuthError::InvalidCredentials)) <==> !spec_credentials_valid(
            *old(store),
            data.username@,
            data.password@,
        ),
        (spec_credentials_valid(*old(store), data.username@, data.password@) && old(
            store,
        ).spec_sessions().len() == 0 && lifetime <= 0x8000000000000000 && old(
            store,
        ).spec_next_session_id() < u64::MAX) ==> r is Ok,
        r is Ok ==> ({
            &&& spec_credentials_valid(*old(store), data.username@, data.password@)
            &&& r->Ok_0.0 == old(store).spec_next_session_id()
            &&& final(store).spec_next_session_id() == old(store).spec_next_session_id() + 1
            &&& r->Ok_0.1@.len() == TOKEN_LEN
            &&& !token_hash_taken(old(store).spec_sessions(), sha256_of(r->Ok_0.1@))
            &&& final(store).spec_sessions().len() == old(store).spec_sessions().len() + 1
            &&& forall|i: int|
                0 <= i < old(store).spec_sessions().len() ==> final(store).spec_sessions()[i]
                    == old(store).spec_sessions()[i]
            &&& ({
                let session = final(store).spec_sessions().last();
                &&& session.id == r->Ok_0.0
                &&& session.token_hash@ == sha256_of(r->Ok_0.1@)
                &&& session.token_hash@ != r->Ok_0.1@
                &&& session.created_at < session.expires_at
                &&& session.expires_at == session.created_at + lifetime
                &&& !session.revoked
                &&& exists|i: int|
                    0 <= i < old(store).spec_users().len() && (#[trigger] old(
                        store,
                    ).spec_users()[i]).username@ == data.username@ && old(
                        store,
                    ).spec_users()[i].id == session.user_id
            })
        }),
{
    let timestamp = now_unix_seconds();
    let now: u64 = if timestamp < 0 {
        0
    } else {
        timestamp as u64
    };
    let mut candidates: Vec<Vec<u8>> = Vec::new();
    let mut attempts: usize = 0;
    while attempts < MAX_TOKEN_ATTEMPTS
        invariant
            attempts <= MAX_TOKEN_ATTEMPTS,
            candidates@.len() == attempts,
            forall|i: int| 0 <= i < attempts ==> (#[trigger] candidates@[i])@.len() == TOKEN_LEN,
        decreases MAX_TOKEN_ATTEMPTS - attempts,
    {
        candidates.push(random_key_bytes());
        attempts += 1;
    }
    let r = login_with_candidates(store, data, now, lifetime, &candidates);
    proof {
        if r is Ok {
            let token_view = r->Ok_0.1@;
            let i = choose|i: int|
                0 <= i < candidates@.len() && (#[trigger] candidates@[i])@ == token_view;
            assert(candidates@[i]@.len() == TOKEN_LEN);
        }
        if old(store).spec_sessions().len() == 0 {
            // In an empty store no hash is taken, so the first candidate is fresh.
            assert(!token_hash_taken(
                old(store).spec_sessions(),
                sha256_of(candidates@[0]@),
            ));
            assert(spec_some_candidate_fresh(*old(store), candidates@));
        }
        assert(now <= 0x7fffffffffffffffu64);
    }
    r
}

/// Revokes a session: the session must exist and belong to the named user,
/// else the caller learns only `InvalidCredentials`. Revocation is terminal;
/// nothing else in the store changes.
pub fn logout(store: &mut CredentialStore, session_id: u64, username: &String) -> (r: Result<
    (),
    AuthError,
>)
    requires
        old(store).wf(),
    ensures
        final(store).wf(),
        final(store).spec_users() == old(store).spec_users(),
        final(store).spec_next_user_id() == old(store).spec_next_user_id(),
        final(store).spec_next_session_id() == old(store).spec_next_session_id(),
        r is Ok <==> spec_session_owned_by(*old(store), session_id, username@),
        r is Err ==> r->Err_0 == AuthError::InvalidCredentials && *final(store) == *old(store),
        r is Ok ==> ({
            &&& final(store).spec_sessions().len() == old(store).spec_sessions().len()
            &&& forall|i: int|
                0 <= i < old(store).spec_sessions().len() ==> {
                    let before = old(store).spec_sessions()[i];
                    let after = #[trigger] final(store).spec_sessions()[i];
                    after.id == before.id && after.user_id == before.user_id && after.token_hash@
                        == before.token_hash@ && after.created_at == before.created_at
                        && after.expires_at == before.expires_at && after.revoked == (
                    before.revoked || before.id == session_id)
                }
        }),
{
    let user_id = match store.find_user_id_by_username(username) {
        Ok(id) => id,
        Err(_) => {
            proof {
                assert(!spec_session_owned_by(*store, session_id, username@));
            }
            return Err(AuthError::InvalidCredentials);
        },
    };
    let n = store.num_sessions();
    let mut i: usize = 0;
    while i < n
        invariant
            old(store).wf(),
            *store == *old(store),
            n == store.spec_sessions().len(),
            i <= n,
            forall|j: int| 0 <= j < i ==> (#[trigger] store.spec_sessions()[j]).id != session_id,
            exists|k: int|
                0 <= k < store.spec_users().len() && (#[trigger] store.spec_users()[k]).id
                    == user_id && store.spec_users()[k].username@ == username@,
        decreases n - i,
    {
        let session_matches = store.session_at(i).id == session_id;
        if session_matches {
            let owner_matches = store.session_at(i).user_id == user_id;
            if owner_matches {
                let found = store.revoke_session(session_id);
                proof {
                    assert(found);
                }
                return Ok(());
            } else {
                proof {
                    lemma_not_owned(*store, session_id, username@, i as int, user_id);
                }
                return Err(AuthError::InvalidCredentials);
            }
        }
        i += 1;
    }
    proof {
        assert(!spec_session_owned_by(*store, session_id, username@));
    }
    Err(AuthError::InvalidCredentials)
}

/// Revokes the session a logout request names. The request carries the
/// session id as transport text: it must read as a decimal number and the
/// session must belong to the named user, else the caller learns only
/// `InvalidCredentials`.
pub fn logout_request(store: &mut CredentialStore, data: &LogoutData) -> (r: Result<
    (),
    AuthError,
>)
    requires
        old(store).wf(),
    ensures
        final(store).wf(),
        final(store).spec_users() == old(store).spec_users(),
        final(store).spec_next_user_id() == old(store).spec_next_user_id(),
        final(store).spec_next_session_id() == old(store).spec_next_session_id(),
        r is Ok <==> (spec_parse_u64(data.session_id@) is Some && spec_session_owned_by(
            *old(store),
            spec_parse_u64(data.session_id@)->0,
            data.username@,
        )),
        r is Err ==> r->Err_0 == AuthError::InvalidCredentials && *final(store) == *old(store),
        r is Ok ==> ({
            let session_id = spec_parse_u64(data.session_id@)->0;
            &&& final(store).spec_sessions().len() == old(store).spec_sessions().len()
            &&& forall|i: int|
                0 <= i < old(store).spec_sessions().len() ==> {
                    let before = old(store).spec_sessions()[i];
                    let after = #[trigger] final(store).spec_sessions()[i];
                    after.id == before.id && after.user_id == before.user_id && after.token_hash@
                        == before.token_hash@ && after.created_at == before.created_at
                        && after.expires_at == before.expires_at && after.revoked == (
                    before.revoked || before.id == session_id)
                }
        }),
{
    let session_id = match parse_u64(&data.session_id) {
        Some(id) => id,
        None => {
            return Err(AuthError::InvalidCredentials);
        },
    };
    logout(store, session_id, &data.username)
}

/// When the session with `session_id` sits at index `at` and belongs to a
/// user other than the one named, the session is not owned by that name:
/// session ids and usernames are unique in a well-formed store.
proof fn lemma_not_owned(
    s: CredentialStore,
    session_id: u64,
    username: Seq<char>,
    at: int,
    user_id: u64,
)
    requires
        s.wf(),
        0 <= at < s.spec_sessions().len(),
        s.spec_sessions()[at].id == session_id,
        s.spec_sessions()[at].user_id != user_id,
        exists|k: int|
            0 <= k < s.spec_users().len() && (#[trigger] s.spec_users()[k]).id == user_id
                && s.spec_users()[k].username@ == username,
    ensures
        !spec_session_owned_by(s, session_id, username),
{
    if spec_session_owned_by(s, session_id, username) {
        let (i, j) = choose|i: int, j: int|
            0 <= i < s.spec_sessions().len() && 0 <= j < s.spec_users().len() && (
            #[trigger] s.spec_sessions()[i]).id == session_id && (#[trigger] s.spec_users()[j]).id
                == s.spec_sessions()[i].user_id && s.spec_users()[j].username@ == username;
        let k = choose|k: int|
            0 <= k < s.spec_users().len() && (#[trigger] s.spec_users()[k]).id == user_id
                && s.spec_users()[k].username@ == username;
        assert(i == at || s.spec_sessions()[i].id != s.spec_sessions()[at].id);
        assert(i == at);
        assert(j == k || s.spec_users()[j].username@ != s.spec_users()[k].username@);
        assert(j == k);
    }
}

} // verus!
