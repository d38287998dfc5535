use vstd::prelude::*;

use crate::bytes::bytes_eq;
use crate::errors::AuthError;

verus! {

/// A registered account. Once created a user is immutable in this subsystem;
/// `password_hash` is derived from the password (see `password`), never the
/// password itself.
pub struct User {
    pub id: u64,
    pub username: String,
    pub email: String,
    pub password_hash: Vec<u8>,
    pub birthdate: String,
    pub firstname: String,
    pub lastname: String,
}

/// One issued session. Only the hash of the session token is kept; the
/// plaintext token goes to the caller exactly once and is never persisted.
pub struct Session {
    pub id: u64,
    pub user_id: u64,
    pub token_hash: Vec<u8>,
    pub created_at: u64,
    pub expires_at: u64,
    pub revoked: bool,
}

/// The lifecycle of a session: `Active` from creation until `expires_at`,
/// `Expired` once the current time reaches `expires_at`, `Revoked` after an
/// explicit logout. `Revoked` is terminal.
#[derive(Clone, Copy, Debug, PartialEq, Eq, Structural)]
pub enum SessionState {
    Active,
    Expired,
    Revoked,
}

pub open spec fn spec_session_state(s: Session, now: u64) -> SessionState {
    if s.revoked {
        SessionState::Revoked
    } else if now >= s.expires_at {
        SessionState::Expired
    } else {
        SessionState::Active
    }
}

pub fn session_state(s: &Session, now: u64) -> (r: SessionState)
    ensures
        r == spec_session_state(*s, now),
{
    if s.revoked {
        SessionState::Revoked
    } else if now >= s.expires_at {
        SessionState::Expired
    } else {
        SessionState::Active
    }
}

/// Once a session has left `Active` — by revocation or by the passage of
/// time — no later reading of the clock sees it `Active` again.
pub proof fn lemma_no_return_to_active(s: Session, t1: u64, t2: u64)
    requires
        t1 <= t2,
        spec_session_state(s, t1) != SessionState::Active,
    ensures
        spec_session_state(s, t2) != SessionState::Active,
{
}

pub open spec fn username_taken(users: Seq<User>, username: Seq<char>) -> bool {
    exists|i: int| 0 <= i < users.len() && (#[trigger] users[i]).username@ == username
}

pub open spec fn email_taken(users: Seq<User>, email: Seq<char>) -> bool {
    exists|i: int| 0 <= i < users.len() && (#[trigger] users[i]).email@ == email
}

pub open spec fn user_id_taken(users: Seq<User>, id: u64) -> bool {
    exists|i: int| 0 <= i < users.len() && (#[trigger] users[i]).id == id
}

pub open spec fn token_hash_taken(sessions: Seq<Session>, hash: Seq<u8>) -> bool {
    exists|i: int| 0 <= i < sessions.len() && (#[trigger] sessions[i]).token_hash@ == hash
}

pub open spec fn session_id_taken(sessions: Seq<Session>, id: u64) -> bool {
    exists|i: int| 0 <= i < sessions.len() && (#[trigger] sessions[i]).id == id
}

pub open spec fn usernames_unique(users: Seq<User>) -> bool {
    forall|i: int, j: int|
        0 <= i < j < users.len() ==> (#[trigger] users[i]).username@ != (
        #[trigger] users[j]).username@
}

pub open spec fn emails_unique(users: Seq<User>) -> bool {
    forall|i: int, j: int|
        0 <= i < j < users.len() ==> (#[trigger] users[i]).email@ != (#[trigger] users[j]).email@
}

pub open spec fn user_ids_unique(users: Seq<User>) -> bool {
    forall|i: int, j: int|
        0 <= i < j < users.len() ==> (#[trigger] users[i]).id != (#[trigger] users[j]).id
}

pub open spec fn session_ids_unique(sessions: Seq<Session>) -> bool {
    forall|i: int, j: int|
        0 <= i < j < sessions.len() ==> (#[trigger] sessions[i]).id != (#[trigger] sessions[j]).id
}

pub open spec fn token_hashes_unique(sessions: Seq<Session>) -> bool {
    forall|i: int, j: int|
        0 <= i < j < sessions.len() ==> (#[trigger] sessions[i]).token_hash@ != (
        #[trigger] sessions[j]).token_hash@
}

/// In-memory credential store: the persistence abstraction of the subsystem.
/// It owns the uniqueness constraints — usernames, emails, user ids, session
/// ids and session token hashes — and its insert operations are authoritative
/// over any pre-check a caller may have made. Usernames and emails are
/// compared case-sensitively, as exact character sequences.
pub struct CredentialStore {
    users: Vec<User>,
    sessions: Vec<Session>,
    next_user_id: u64,
    next_session_id: u64,
}

impl CredentialStore {
    pub closed spec fn spec_users(&self) -> Seq<User> {
        self.users@
    }

    pub closed spec fn spec_sessions(&self) -> Seq<Session> {
        self.sessions@
    }

    /// The id the next created user will get.
    pub closed spec fn spec_next_user_id(&self) -> u64 {
        self.next_user_id
    }

    /// The id the next created session will get.
    pub closed spec fn spec_next_session_id(&self) -> u64 {
        self.next_session_id
    }

    /// The store's invariant: ids are positive, below their counters and
    /// unique; usernames, emails and token hashes are unique; every session
    /// belongs to an existing user and expires strictly after its creation.
    pub open spec fn wf(&self) -> bool {
        &&& 0 < self.spec_next_user_id()
        &&& 0 < self.spec_next_session_id()
        &&& forall|i: int|
            0 <= i < self.spec_users().len() ==> 0 < (#[trigger] self.spec_users()[i]).id
                < self.spec_next_user_id()
        &&& usernames_unique(self.spec_users())
        &&& emails_unique(self.spec_users())
        &&& user_ids_unique(self.spec_users())
        &&& forall|i: int|
            0 <= i < self.spec_sessions().len() ==> 0 < (#[trigger] self.spec_sessions()[i]).id
                < self.spec_next_session_id()
        &&& session_ids_unique(self.spec_sessions())
        &&& token_hashes_unique(self.spec_sessions())
        &&& forall|i: int|
            0 <= i < self.spec_sessions().len() ==> user_id_taken(
                self.spec_users(),
                (#[trigger] self.spec_sessions()[i]).user_id,
            )
        &&& forall|i: int|
            0 <= i < self.spec_sessions().len() ==> (#[trigger] self.spec_sessions()[i]).created_at
                < self.spec_sessions()[i].expires_at
    }

    /// An empty store.
    pub fn new() -> (s: Self)
        ensures
            s.wf(),
            s.spec_users().len() == 0,
            s.spec_sessions().len() == 0,
            s.spec_next_user_id() == 1,
            s.spec_next_session_id() == 1,
    {
        CredentialStore { users: Vec::new(), sessions: Vec::new(), next_user_id: 1, next_session_id: 1 }
    }

    pub fn num_users(&self) -> (n: usize)
        ensures
            n == self.spec_users().len(),
    {
        self.users.len()
    }

    pub fn num_sessions(&self) -> (n: usize)
        ensures
            n == self.spec_sessions().len(),
    {
        self.sessions.len()
    }

    pub fn user_at(&self, i: usize) -> (u: &User)
        requires
            i < self.spec_users().len(),
        ensures
            *u == self.spec_users()[i as int],
    {
        &self.users[i]
    }

    pub fn session_at(&self, i: usize) -> (s: &Session)
        requires
            i < self.spec_sessions().len(),
        ensures
            *s == self.spec_sessions()[i as int],
    {
        &self.sessions[i]
    }

    /// The uniqueness pre-check on usernames.
    pub fn username_exists(&self, username: &String) -> (r: bool)
        ensures
            r == username_taken(self.spec_users(), username@),
    {
        let mut i: usize = 0;
        while i < self.users.len()
            invariant
                i <= self.users@.len(),
                forall|j: int| 0 <= j < i ==> (#[trigger] self.users@[j]).username@ != username@,
            decreases self.users@.len() - i,
        {
            if self.users[i].username == *username {
                return true;
            }
            i += 1;
        }
        false
    }

    /// The uniqueness pre-check on emails.
    pub fn email_exists(&self, email: &String) -> (r: bool)
        ensures
            r == email_taken(self.spec_users(), email@),
    {
        let mut i: usize = 0;
        while i < self.users.len()
            invariant
                i <= self.users@.len(),
                forall|j: int| 0 <= j < i ==> (#[trigger] self.users@[j]).email@ != email@,
            decreases self.users@.len() - i,
        {
            if self.users[i].email == *email {
                return true;
            }
            i += 1;
        }
        false
    }

    /// Whether some session — active, expired or revoked — already carries
    /// this token hash.
    pub fn session_token_hash_exists(&self, hash: &Vec<u8>) -> (r: bool)
        ensures
            r == token_hash_taken(self.spec_sessions(), hash@),
    {
        let mut i: usize = 0;
        while i < self.sessions.len()
            invariant
                i <= self.sessions@.len(),
                forall|j: int| 0 <= j < i ==> (#[trigger] self.sessions@[j]).token_hash@ != hash@,
            decreases self.sessions@.len() - i,
        {
            if bytes_eq(&self.sessions[i].token_hash, hash) {
                return true;
            }
            i += 1;
        }
        false
    }

    /// The index of the user carrying this username, if any.
    fn find_user_index(&self, username: &String) -> (r: Option<usize>)
        ensures
            match r {
                Some(i) => i < self.spec_users().len() && self.spec_users()[i as int].username@
                    == username@,
                None => !username_taken(self.spec_users(), username@),
            },
    {
        let mut i: usize = 0;
        while i < self.users.len()
            invariant
                i <= self.users@.len(),
                forall|j: int| 0 <= j < i ==> (#[trigger] self.users@[j]).username@ != username@,
            decreases self.users@.len() - i,
        {
            if self.users[i].username == *username {
                return Some(i);
            }
            i += 1;
        }
        None
    }

    /// Looks a user up by username; fails with `UserNotFound` if absent. A
    /// login path must not surface that error (see `auth::login`).
    pub fn find_user_id_by_username(&self, username: &String) -> (r: Result<u64, AuthError>)
        ensures
            match r {
                Ok(id) => exists|i: int|
                    0 <= i < self.spec_users().len() && (#[trigger] self.spec_users()[i]).username@
                        == username@ && self.spec_users()[i].id == id,
                Err(e) => e == AuthError::UserNotFound && !username_taken(
                    self.spec_users(),
                    username@,
                ),
            },
    {
        match self.find_user_index(username) {
            Some(i) => Ok(self.users[i].id),
            None => Err(AuthError::UserNotFound),
        }
    }

    /// What `create_user` decides on a given store: the pre-existing
    /// username wins over the pre-existing email, and an exhausted id space
    /// is a persistence failure.
    pub open spec fn spec_create_user_outcome(
        self,
        username: Seq<char>,
        email: Seq<char>,
    ) -> Result<u64, AuthError> {
        if username_taken(self.spec_users(), username) {
            Err(AuthError::DuplicateUsername)
        } else if email_taken(self.spec_users(), email) {
            Err(AuthError::DuplicateEmail)
        } else if self.spec_next_user_id() == u64::MAX {
            Err(AuthError::PersistenceFailure)
        } else {
            Ok(self.spec_next_user_id())
        }
    }

    /// Inserts a user. The duplicate checks here are authoritative: even a
    /// caller that skipped the pre-checks gets the corresponding `Duplicate*`
    /// error, never a corrupted store.
    pub fn create_user(
        &mut self,
        username: String,
        password_hash: Vec<u8>,
        email: String,
        birthdate: String,
        firstname: String,
        lastname: String,
    ) -> (r: Result<u64, AuthError>)
        requires
            old(self).wf(),
        ensures
            final(self).wf(),
            r == old(self).spec_create_user_outcome(username@, email@),
            r is Err ==> *final(self) == *old(self),
            r is Ok ==> final(self).spec_users() == old(self).spec_users().push(
                (User {
                    id: old(self).spec_next_user_id(),
                    username,
                    email,
                    password_hash,
                    birthdate,
                    firstname,
                    lastname,
                }),
            ),
            r is Ok ==> final(self).spec_sessions() == old(self).spec_sessions()
                && final(self).spec_next_user_id() == old(self).spec_next_user_id() + 1
                && final(self).spec_next_session_id() == old(self).spec_next_session_id(),
            r is Ok ==> r->Ok_0 == old(self).spec_next_user_id() && r->Ok_0 > 0,
    {
        if self.username_exists(&username) {
            return Err(AuthError::DuplicateUsername);
        }
        if self.email_exists(&email) {
            return Err(AuthError::DuplicateEmail);
        }
        if self.next_user_id == u64::MAX {
            return Err(AuthError::PersistenceFailure);
        }
        let id = self.next_user_id;
        let user = User { id, username, email, password_hash, birthdate, firstname, lastname };
        self.users.push(user);
        self.next_user_id = id + 1;
        proof {
            assert(self.spec_users().take(old(self).spec_users().len() as int) =~= old(
                self,
            ).spec_users());
            lemma_push_user_preserves_wf(*old(self), *self);
        }
        Ok(id)
    }

    /// What `create_session` decides: the user must exist, the token hash
    /// must be fresh, and the id space must not be exhausted.
    pub open spec fn spec_create_session_outcome(self, user_id: u64, token_hash: Seq<u8>) -> Result<
        u64,
        AuthError,
    > {
        if !user_id_taken(self.spec_users(), user_id) {
            Err(AuthError::UserNotFound)
        } else if token_hash_taken(self.spec_sessions(), token_hash) {
            Err(AuthError::PersistenceFailure)
        } else if self.spec_next_session_id() == u64::MAX {
            Err(AuthError::PersistenceFailure)
        } else {
            Ok(self.spec_next_session_id())
        }
    }

    /// Inserts a session for an existing user. The token-hash uniqueness
    /// check here is authoritative over the generator's pre-check.
    pub fn create_session(
        &mut self,
        user_id: u64,
        token_hash: Vec<u8>,
        created_at: u64,
        expires_at: u64,
    ) -> (r: Result<u64, AuthError>)
        requires
            old(self).wf(),
            created_at < expires_at,
        ensures
            final(self).wf(),
            r == old(self).spec_create_session_outcome(user_id, token_hash@),
            r is Err ==> *final(self) == *old(self),
            r is Ok ==> final(self).spec_sessions() == old(self).spec_sessions().push(
                (Session {
                    id: old(self).spec_next_session_id(),
                    user_id,
                    token_hash,
                    created_at,
                    expires_at,
                    revoked: false,
                }),
            ),
            r is Ok ==> final(self).spec_users() == old(self).spec_users()
                && final(self).spec_next_user_id() == old(self).spec_next_user_id()
                && final(self).spec_next_session_id() == old(self).spec_next_session_id() + 1,
            r is Ok ==> r->Ok_0 == old(self).spec_next_session_id() && r->Ok_0 > 0,
    {
        let mut user_found = false;
        let mut i: usize = 0;
        while i < self.users.len()
            invariant
                i <= self.users@.len(),
                user_found <==> exists|j: int|
                    0 <= j < i && (#[trigger] self.users@[j]).id == user_id,
            decreases self.users@.len() - i,
        {
            if self.users[i].id == user_id {
                user_found = true;
            }
            i += 1;
        }
        if !user_found {
            return Err(AuthError::UserNotFound);
        }
        if self.session_token_hash_exists(&token_hash) {
            return Err(AuthError::PersistenceFailure);
        }
        if self.next_session_id == u64::MAX {
            return Err(AuthError::PersistenceFailure);
        }
        let id = self.next_session_id;
        let session = Session { id, user_id, token_hash, created_at, expires_at, revoked: false };
        self.sessions.push(session);
        self.next_session_id = id + 1;
        proof {
            assert(self.spec_sessions().take(old(self).spec_sessions().len() as int) =~= old(
                self,
            ).spec_sessions());
            lemma_push_session_preserves_wf(*old(self), *self);
        }
        Ok(id)
    }

    /// Revokes the session with this id, if it exists; revocation is
    /// terminal and touches nothing else in the store.
    pub fn revoke_session(&mut self, session_id: u64) -> (found: bool)
        requires
            old(self).wf(),
        ensures
            final(self).wf(),
            found == session_id_taken(old(self).spec_sessions(), session_id),
            final(self).spec_users() == old(self).spec_users(),
            final(self).spec_next_user_id() == old(self).spec_next_user_id(),
            final(self).spec_next_session_id() == old(self).spec_next_session_id(),
            final(self).spec_sessions().len() == old(self).spec_sessions().len(),
            forall|i: int|
                0 <= i < old(self).spec_sessions().len() ==> {
                    let before = old(self).spec_sessions()[i];
                    let after = #[trigger] final(self).spec_sessions()[i];
                    after.id == before.id && after.user_id == before.user_id && after.token_hash@
                        == before.token_hash@ && after.created_at == before.created_at
                        && after.expires_at == before.expires_at && after.revoked == (before.revoked
                        || before.id == session_id)
                },
    {
        let mut i: usize = 0;
        while i < self.sessions.len()
            invariant
                old(self).wf(),
                i <= self.sessions@.len(),
                *self == *old(self),
                forall|j: int| 0 <= j < i ==> (#[trigger] self.sessions@[j]).id != session_id,
            decreases self.sessions@.len() - i,
        {
            if self.sessions[i].id == session_id {
                let mut session = self.sessions.remove(i);
                session.revoked = true;
                self.sessions.insert(i, session);
                proof {
                    assert(forall|k: int|
                        0 <= k < old(self).spec_sessions().len() && k != i
                            ==> #[trigger] self.spec_sessions()[k] == old(self).spec_sessions()[k]);
                    lemma_revoke_preserves_wf(*old(self), *self, i as int);
                }
                return true;
            }
            i += 1;
        }
        false
    }
}

/// Pushing a user whose username, email and id are fresh, with the id taken
/// from the counter, keeps the store well-formed.
proof fn lemma_push_user_preserves_wf(before: CredentialStore, after: CredentialStore)
    requires
        before.wf(),
        after.spec_users().len() == before.spec_users().len() + 1,
        after.spec_users().take(before.spec_users().len() as int) == before.spec_users(),
        after.spec_users().last().id == before.spec_next_user_id(),
        !username_taken(before.spec_users(), after.spec_users().last().username@),
        !email_taken(before.spec_users(), after.spec_users().last().email@),
        before.spec_next_user_id() < u64::MAX,
        after.spec_next_user_id() == before.spec_next_user_id() + 1,
        after.spec_sessions() == before.spec_sessions(),
        after.spec_next_session_id() == before.spec_next_session_id(),
    ensures
        after.wf(),
{
    let n = before.spec_users().len() as int;
    assert forall|i: int| 0 <= i < n implies after.spec_users()[i] == before.spec_users()[i] by {
        assert(after.spec_users().take(n)[i] == after.spec_users()[i]);
    }
    assert forall|i: int|
        0 <= i < after.spec_sessions().len() implies user_id_taken(
        after.spec_users(),
        (#[trigger] after.spec_sessions()[i]).user_id,
    ) by {
        let j = choose|j: int|
            0 <= j < before.spec_users().len() && (#[trigger] before.spec_users()[j]).id
                == before.spec_sessions()[i].user_id;
        assert(after.spec_users()[j].id == after.spec_sessions()[i].user_id);
    }
}

/// Pushing a session with a fresh id and a fresh token hash, owned by an
/// existing user and expiring after its creation, keeps the store
/// well-formed.
proof fn lemma_push_session_preserves_wf(before: CredentialStore, after: CredentialStore)
    requires
        before.wf(),
        after.spec_sessions().len() == before.spec_sessions().len() + 1,
        after.spec_sessions().take(before.spec_sessions().len() as int) == before.spec_sessions(),
        after.spec_sessions().last().id == before.spec_next_session_id(),
        !token_hash_taken(before.spec_sessions(), after.spec_sessions().last().token_hash@),
        user_id_taken(before.spec_users(), after.spec_sessions().last().user_id),
        after.spec_sessions().last().created_at < after.spec_sessions().last().expires_at,
        before.spec_next_session_id() < u64::MAX,
        after.spec_next_session_id() == before.spec_next_session_id() + 1,
        after.spec_users() == before.spec_users(),
        after.spec_next_user_id() == before.spec_next_user_id(),
    ensures
        after.wf(),
{
    let n = before.spec_sessions().len() as int;
    assert forall|i: int|
        0 <= i < n implies after.spec_sessions()[i] == before.spec_sessions()[i] by {
        assert(after.spec_sessions().take(n)[i] == after.spec_sessions()[i]);
    }
}

/// Setting the `revoked` flag of one session keeps the store well-formed.
proof fn lemma_revoke_preserves_wf(before: CredentialStore, after: CredentialStore, at: int)
    requires
        before.wf(),
        0 <= at < before.spec_sessions().len(),
        after.spec_sessions().len() == before.spec_sessions().len(),
        forall|i: int|
            0 <= i < before.spec_sessions().len() && i != at
                ==> #[trigger] after.spec_sessions()[i] == before.spec_sessions()[i],
        after.spec_sessions()[at].id == before.spec_sessions()[at].id,
        after.spec_sessions()[at].user_id == before.spec_sessions()[at].user_id,
        after.spec_sessions()[at].token_hash@ == before.spec_sessions()[at].token_hash@,
        after.spec_sessions()[at].created_at == before.spec_sessions()[at].created_at,
        after.spec_sessions()[at].expires_at == before.spec_sessions()[at].expires_at,
        after.spec_users() == before.spec_users(),
        after.spec_next_user_id() == before.spec_next_user_id(),
        after.spec_next_session_id() == before.spec_next_session_id(),
    ensures
        after.wf(),
{
    assert forall|i: int, j: int|
        0 <= i < j < after.spec_sessions().len() implies (#[trigger] after.spec_sessions()[i]).token_hash@
        != (#[trigger] after.spec_sessions()[j]).token_hash@ by {
        assert(before.spec_sessions()[i].token_hash@ != before.spec_sessions()[j].token_hash@);
    }
}

/// No two sessions ever carry the same token hash: a collision between an
/// expired or revoked session and a new one can therefore never be mistaken
/// for validity.
pub proof fn lemma_session_token_hashes_distinct(s: CredentialStore, i: int, j: int)
    requires
        s.wf(),
        0 <= i < s.spec_sessions().len(),
        0 <= j < s.spec_sessions().len(),
        i != j,
    ensures
        s.spec_sessions()[i].token_hash@ != s.spec_sessions()[j].token_hash@,
{
}

/// Every session expires strictly after its creation time.
pub proof fn lemma_session_expires_after_creation(s: CredentialStore, i: int)
    requires
        s.wf(),
        0 <= i < s.spec_sessions().len(),
    ensures
        s.spec_sessions()[i].created_at < s.spec_sessions()[i].expires_at,
{
}

} // verus!
