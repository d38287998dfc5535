use vstd::prelude::*;

verus! {

/// Error taxonomy of the authentication subsystem.
///
/// `UserNotFound` is internal: a login response maps it to
/// `InvalidCredentials` so that a caller cannot probe which usernames exist.
/// `Unknown` is reserved for unexpected storage outcomes.
#[derive(Clone, Copy, Debug, PartialEq, Eq, Structural)]
pub enum AuthError {
    DuplicateUsername,
    DuplicateEmail,
    InvalidCredentials,
    UserNotFound,
    TokenSpaceExhausted,
    PersistenceFailure,
    Unknown,
}

/// Transport-facing error, as surfaced to HTTP handlers. Raw storage errors
/// never reach this type: `persistence_error_of` maps the taxonomy above to
/// it, and `status_code` fixes the HTTP status each variant carries.
#[derive(Clone, Copy, Debug, PartialEq, Eq, Structural)]
pub enum PersistenceError {
    UsernameAlreadyTaken,
    EmailAlreadyTaken,
    WrongCredentials,
    StorageFailure,
    Unknown,
}

impl PersistenceError {
    /// The HTTP status of each variant: conflicts are 409, bad credentials
    /// 401, everything internal 500.
    pub open spec fn spec_status_code(self) -> u16 {
        match self {
            PersistenceError::UsernameAlreadyTaken => 409,
            PersistenceError::EmailAlreadyTaken => 409,
            PersistenceError::WrongCredentials => 401,
            PersistenceError::StorageFailure => 500,
            PersistenceError::Unknown => 500,
        }
    }

    pub fn status_code(&self) -> (code: u16)
        ensures
            code == self.spec_status_code(),
    {
        match self {
            PersistenceError::UsernameAlreadyTaken | PersistenceError::EmailAlreadyTaken => 409,
            PersistenceError::WrongCredentials => 401,
            _ => 500,
        }
    }
}

/// How each `AuthError` is shown to a caller. `UserNotFound` deliberately
/// maps to `WrongCredentials`, indistinguishable from a bad password.
pub open spec fn spec_persistence_error_of(e: AuthError) -> PersistenceError {
    match e {
        AuthError::DuplicateUsername => PersistenceError::UsernameAlreadyTaken,
        AuthError::DuplicateEmail => PersistenceError::EmailAlreadyTaken,
        AuthError::InvalidCredentials => PersistenceError::WrongCredentials,
        AuthError::UserNotFound => PersistenceError::WrongCredentials,
        AuthError::TokenSpaceExhausted => PersistenceError::StorageFailure,
        AuthError::PersistenceFailure => PersistenceError::StorageFailure,
        AuthError::Unknown => PersistenceError::Unknown,
    }
}

pub fn persistence_error_of(e: AuthError) -> (r: PersistenceError)
    ensures
        r == spec_persistence_error_of(e),
{
    match e {
        AuthError::DuplicateUsername => PersistenceError::UsernameAlreadyTaken,
        AuthError::DuplicateEmail => PersistenceError::EmailAlreadyTaken,
        AuthError::InvalidCredentials => PersistenceError::WrongCredentials,
        AuthError::UserNotFound => PersistenceError::WrongCredentials,
        AuthError::TokenSpaceExhausted => PersistenceError::StorageFailure,
        AuthError::PersistenceFailure => PersistenceError::StorageFailure,
        AuthError::Unknown => PersistenceError::Unknown,
    }
}

} // verus!
