use auth_service::auth::login;
use auth_service::auth::logout_request;
use auth_service::auth::register;
use auth_service::auth::DEFAULT_SESSION_LIFETIME_SECONDS;
use auth_service::errors::AuthError;
use auth_service::requests::parse_u64;
use auth_service::requests::LoginData;
use auth_service::requests::LogoutData;
use auth_service::requests::RegisterData;
use auth_service::store::CredentialStore;

#[test]
fn parse_u64_reads_decimal_numbers() {
    assert_eq!(parse_u64(&"0".to_string()), Some(0));
    assert_eq!(parse_u64(&"1".to_string()), Some(1));
    assert_eq!(parse_u64(&"42".to_string()), Some(42));
    assert_eq!(parse_u64(&"007".to_string()), Some(7));
    assert_eq!(parse_u64(&"18446744073709551615".to_string()), Some(u64::MAX));
}

#[test]
fn parse_u64_rejects_everything_else() {
    assert_eq!(parse_u64(&"".to_string()), None);
    assert_eq!(parse_u64(&"-1".to_string()), None);
    assert_eq!(parse_u64(&"12a".to_string()), None);
    assert_eq!(parse_u64(&" 12".to_string()), None);
    assert_eq!(parse_u64(&"1.5".to_string()), None);
    // One past u64::MAX overflows.
    assert_eq!(parse_u64(&"18446744073709551616".to_string()), None);
    assert_eq!(parse_u64(&"99999999999999999999999".to_string()), None);
}

#[test]
fn logout_request_parses_and_revokes() {
    let mut store = CredentialStore::new();
    let data = RegisterData {
        username: "alice".to_string(),
        password: "pw1".to_string(),
        email: "a@x.com".to_string(),
        birthdate: "2000-01-01".to_string(),
        firstname: "Ada".to_string(),
        lastname: "Lovelace".to_string(),
    };
    assert!(register(&mut store, &data).is_ok());
    let credentials = LoginData { username: "alice".to_string(), password: "pw1".to_string() };
    let (session_id, _token) =
        login(&mut store, &credentials, DEFAULT_SESSION_LIFETIME_SECONDS).expect("login");
    let bad_number = LogoutData { session_id: "12a".to_string(), username: "alice".to_string() };
    assert_eq!(logout_request(&mut store, &bad_number), Err(AuthError::InvalidCredentials));
    assert!(!store.session_at(0).revoked);
    let good = LogoutData { session_id: session_id.to_string(), username: "alice".to_string() };
    assert_eq!(logout_request(&mut store, &good), Ok(()));
    assert!(store.session_at(0).revoked);
}
