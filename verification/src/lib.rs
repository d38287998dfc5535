//! Account and session authentication core.
//!
//! The library creates accounts, verifies credentials, and issues session
//! tokens. `store` holds the credential records and enforces the uniqueness
//! invariants (usernames, emails, session token hashes); `password` hashes
//! and verifies passwords; `token` draws session tokens and avoids hash
//! collisions with a bounded retry; `auth` orchestrates registration, login
//! and logout on top of the three. Transport wiring (HTTP handlers, the
//! database connection) lives outside the library and hands it plain values.

pub mod auth;
pub mod bytes;
pub mod clock;
pub mod crypto;
pub mod errors;
pub mod password;
pub mod requests;
pub mod store;
pub mod token;
