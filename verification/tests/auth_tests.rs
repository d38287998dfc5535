use auth_service::auth::login;
use auth_service::auth::login_with_candidates;
use auth_service::auth::logout;
use auth_service::auth::register;
use auth_service::auth::DEFAULT_SESSION_LIFETIME_SECONDS;
use auth_service::errors::AuthError;
use auth_service::requests::LoginData;
use auth_service::requests::RegisterData;
use auth_service::store::CredentialStore;
use auth_service::store::session_state;
use auth_service::store::SessionState;

fn register_data(username: &str, password: &str, email: &str) -> RegisterData {
    RegisterData {
        username: username.to_string(),
        password: password.to_string(),
        email: email.to_string(),
        birthdate: "2000-01-01".to_string(),
        firstname: "Ada".to_string(),
        lastname: "Lovelace".to_string(),
    }
}

fn login_data(username: &str, password: &str) -> LoginData {
    LoginData { username: username.to_string(), password: password.to_string() }
}

#[test]
fn register_assigns_positive_ids_in_order() {
    let mut store = CredentialStore::new();
    let first = register(&mut store, &register_data("alice", "pw1", "a@x.com"));
    let second = register(&mut store, &register_data("bob", "pw2", "b@x.com"));
    assert_eq!(first, Ok(1));
    assert_eq!(second, Ok(2));
    assert_eq!(store.num_users(), 2);
    assert!(store.username_exists(&"alice".to_string()));
    assert!(store.email_exists(&"b@x.com".to_string()));
}

#[test]
fn duplicate_username_rejected() {
    let mut store = CredentialStore::new();
    assert!(register(&mut store, &register_data("alice", "pw1", "a@x.com")).is_ok());
    let again = register(&mut store, &register_data("alice", "pw9", "other@x.com"));
    assert_eq!(again, Err(AuthError::DuplicateUsername));
    assert_eq!(store.num_users(), 1);
}

#[test]
fn duplicate_email_rejected() {
    let mut store = CredentialStore::new();
    assert!(register(&mut store, &register_data("alice", "pw1", "a@x.com")).is_ok());
    let again = register(&mut store, &register_data("bob", "pw2", "a@x.com"));
    assert_eq!(again, Err(AuthError::DuplicateEmail));
    assert_eq!(store.num_users(), 1);
}

#[test]
fn duplicate_username_wins_over_duplicate_email() {
    let mut store = CredentialStore::new();
    assert!(register(&mut store, &register_data("alice", "pw1", "a@x.com")).is_ok());
    let again = register(&mut store, &register_data("alice", "pw2", "a@x.com"));
    assert_eq!(again, Err(AuthError::DuplicateUsername));
}

#[test]
fn password_hash_verifies_and_rejects() {
    let pw = "correct horse battery staple".to_string();
    let other = "Tr0ub4dor&3".to_string();
    let stored = auth_service::password::hash_password(&pw);
    assert_eq!(stored.len(), auth_service::password::SALT_LEN + auth_service::password::DIGEST_LEN);
    assert!(auth_service::password::verify_password(&pw, &stored));
    assert!(!auth_service::password::verify_password(&other, &stored));
    assert!(!auth_service::password::verify_password(&pw, &Vec::new()));
}

#[test]
fn same_password_hashes_differently_but_both_verify() {
    let pw = "pw1".to_string();
    let first = auth_service::password::hash_password(&pw);
    let second = auth_service::password::hash_password(&pw);
    // The random salts differ, so the stored values differ ...
    assert_ne!(first, second);
    // ... yet both match the password.
    assert!(auth_service::password::verify_password(&pw, &first));
    assert!(auth_service::password::verify_password(&pw, &second));
}

#[test]
fn sha256_of_known_vector_via_token_selection() {
    let store = CredentialStore::new();
    let candidates = vec![b"abc".to_vec()];
    let (token, hash) =
        auth_service::token::select_fresh_token(&store, &candidates).expect("no collision");
    assert_eq!(token, b"abc".to_vec());
    let expected: Vec<u8> = vec![
        0xba, 0x78, 0x16, 0xbf, 0x8f, 0x01, 0xcf, 0xea, 0x41, 0x41, 0x40, 0xde, 0x5d, 0xae, 0x22,
        0x23, 0xb0, 0x03, 0x61, 0xa3, 0x96, 0x17, 0x7a, 0x9c, 0xb4, 0x10, 0xff, 0x61, 0xf2, 0x00,
        0x15, 0xad,
    ];
    assert_eq!(hash, expected);
}

#[test]
fn token_generation_is_fresh_and_unpredictable() {
    let store = CredentialStore::new();
    let (token_a, hash_a) = auth_service::token::generate(&store).expect("generate");
    let (token_b, hash_b) = auth_service::token::generate(&store).expect("generate");
    assert_eq!(token_a.len(), auth_service::token::TOKEN_LEN);
    assert_eq!(hash_a.len(), 32);
    assert_ne!(token_a, hash_a);
    // Two 512-bit random draws never coincide in practice.
    assert_ne!(token_a, token_b);
    assert_ne!(hash_a, hash_b);
}

#[test]
fn token_collision_forces_retry_and_bound() {
    let mut store = CredentialStore::new();
    assert!(register(&mut store, &register_data("alice", "pw1", "a@x.com")).is_ok());
    // Insert a session whose token hash collides with the first candidate.
    let t1 = b"first-token".to_vec();
    let t2 = b"second-token".to_vec();
    let login_result = login_with_candidates(
        &mut store,
        &login_data("alice", "pw1"),
        1_000,
        DEFAULT_SESSION_LIFETIME_SECONDS,
        &vec![t1.clone()],
    );
    assert!(login_result.is_ok());
    // The colliding candidate alone is now exhausted ...
    let exhausted = auth_service::token::select_fresh_token(&store, &vec![t1.clone()]);
    assert_eq!(exhausted.unwrap_err(), AuthError::TokenSpaceExhausted);
    // ... and with a second candidate the retry path picks the fresh one.
    let (token, _hash) =
        auth_service::token::select_fresh_token(&store, &vec![t1.clone(), t2.clone()])
            .expect("second candidate is fresh");
    assert_eq!(token, t2);
    // A login offered only colliding candidates reports the bounded give-up.
    let stuck = login_with_candidates(
        &mut store,
        &login_data("alice", "pw1"),
        2_000,
        DEFAULT_SESSION_LIFETIME_SECONDS,
        &vec![t1.clone()],
    );
    assert_eq!(stuck.unwrap_err(), AuthError::TokenSpaceExhausted);
}

#[test]
fn session_expiry_equals_creation_plus_lifetime() {
    let mut store = CredentialStore::new();
    assert!(register(&mut store, &register_data("alice", "pw1", "a@x.com")).is_ok());
    let now: u64 = 1_700_000_000;
    let lifetime: u64 = 7_200;
    let (session_id, _token) = login_with_candidates(
        &mut store,
        &login_data("alice", "pw1"),
        now,
        lifetime,
        &vec![b"tok".to_vec()],
    )
    .expect("login");
    assert_eq!(store.num_sessions(), 1);
    let session = store.session_at(0);
    assert_eq!(session.id, session_id);
    assert_eq!(session.created_at, now);
    assert_eq!(session.expires_at, now + lifetime);
    assert!(session.expires_at > session.created_at);
}

#[test]
fn login_with_wrong_password_is_invalid_credentials() {
    let mut store = CredentialStore::new();
    assert!(register(&mut store, &register_data("alice", "pw1", "a@x.com")).is_ok());
    let wrong = login(&mut store, &login_data("alice", "wrong"), DEFAULT_SESSION_LIFETIME_SECONDS);
    assert_eq!(wrong.unwrap_err(), AuthError::InvalidCredentials);
    let missing = login(&mut store, &login_data("nobody", "pw1"), DEFAULT_SESSION_LIFETIME_SECONDS);
    // A missing username reads exactly like a wrong password.
    assert_eq!(missing.unwrap_err(), AuthError::InvalidCredentials);
    assert_eq!(store.num_sessions(), 0);
}

#[test]
fn register_login_scenario() {
    let mut store = CredentialStore::new();
    let created = register(&mut store, &register_data("alice", "pw1", "a@x.com"));
    let id = created.expect("registration succeeds");
    assert!(id > 0);
    let again = register(&mut store, &register_data("alice", "pw1", "second@x.com"));
    assert_eq!(again, Err(AuthError::DuplicateUsername));
    let wrong = login(&mut store, &login_data("alice", "wrong"), DEFAULT_SESSION_LIFETIME_SECONDS);
    assert_eq!(wrong.unwrap_err(), AuthError::InvalidCredentials);
    let (session_id, token) =
        login(&mut store, &login_data("alice", "pw1"), DEFAULT_SESSION_LIFETIME_SECONDS)
            .expect("login succeeds");
    assert!(!token.is_empty());
    assert_eq!(store.num_sessions(), 1);
    let session = store.session_at(0);
    assert_eq!(session.id, session_id);
    assert_eq!(session.user_id, id);
    // The plaintext token is not what the store keeps.
    assert_ne!(token, session.token_hash);
    assert_eq!(session.expires_at, session.created_at + DEFAULT_SESSION_LIFETIME_SECONDS);
    // The clock reading is a real one.
    assert!(session.created_at > 1_600_000_000);
}

#[test]
fn logout_revokes_and_checks_ownership() {
    let mut store = CredentialStore::new();
    assert!(register(&mut store, &register_data("alice", "pw1", "a@x.com")).is_ok());
    assert!(register(&mut store, &register_data("bob", "pw2", "b@x.com")).is_ok());
    let (session_id, _token) =
        login(&mut store, &login_data("alice", "pw1"), DEFAULT_SESSION_LIFETIME_SECONDS)
            .expect("login");
    // Bob may not revoke Alice's session.
    let foreign = logout(&mut store, session_id, &"bob".to_string());
    assert_eq!(foreign.unwrap_err(), AuthError::InvalidCredentials);
    assert!(!store.session_at(0).revoked);
    // An unknown session id is rejected the same way.
    let unknown = logout(&mut store, session_id + 17, &"alice".to_string());
    assert_eq!(unknown.unwrap_err(), AuthError::InvalidCredentials);
    // The owner succeeds, and revocation is terminal.
    assert!(logout(&mut store, session_id, &"alice".to_string()).is_ok());
    assert!(store.session_at(0).revoked);
    assert!(logout(&mut store, session_id, &"alice".to_string()).is_ok());
    assert!(store.session_at(0).revoked);
}

#[test]
fn session_states_follow_the_clock() {
    let mut store = CredentialStore::new();
    assert!(register(&mut store, &register_data("alice", "pw1", "a@x.com")).is_ok());
    let now: u64 = 5_000;
    let lifetime: u64 = 100;
    let (session_id, _token) = login_with_candidates(
        &mut store,
        &login_data("alice", "pw1"),
        now,
        lifetime,
        &vec![b"tok".to_vec()],
    )
    .expect("login");
    assert_eq!(session_state(store.session_at(0), now), SessionState::Active);
    assert_eq!(session_state(store.session_at(0), now + 99), SessionState::Active);
    assert_eq!(session_state(store.session_at(0), now + 100), SessionState::Expired);
    assert_eq!(session_state(store.session_at(0), now + 5_000), SessionState::Expired);
    assert!(logout(&mut store, session_id, &"alice".to_string()).is_ok());
    // Revoked wherever the clock stands, and never active again.
    assert_eq!(session_state(store.session_at(0), now), SessionState::Revoked);
    assert_eq!(session_state(store.session_at(0), now + 5_000), SessionState::Revoked);
}

#[test]
fn find_user_id_by_username_reports_user_not_found() {
    let mut store = CredentialStore::new();
    assert!(register(&mut store, &register_data("alice", "pw1", "a@x.com")).is_ok());
    assert_eq!(store.find_user_id_by_username(&"alice".to_string()), Ok(1));
    assert_eq!(
        store.find_user_id_by_username(&"bob".to_string()),
        Err(AuthError::UserNotFound)
    );
}

#[test]
fn stored_user_never_holds_the_password() {
    let mut store = CredentialStore::new();
    assert!(register(&mut store, &register_data("alice", "pw1", "a@x.com")).is_ok());
    let user = store.user_at(0);
    assert_eq!(user.username, "alice".to_string());
    assert_eq!(user.email, "a@x.com".to_string());
    assert_ne!(user.password_hash, b"pw1".to_vec());
    assert!(auth_service::password::verify_password(&"pw1".to_string(), &user.password_hash));
}

#[test]
fn bytes_eq_matches_plain_equality() {
    assert!(auth_service::bytes::bytes_eq(&vec![1, 2, 3], &vec![1, 2, 3]));
    assert!(!auth_service::bytes::bytes_eq(&vec![1, 2, 3], &vec![1, 2, 4]));
    assert!(!auth_service::bytes::bytes_eq(&vec![1, 2, 3], &vec![1, 2]));
    assert!(auth_service::bytes::bytes_eq(&Vec::new(), &Vec::new()));
}
