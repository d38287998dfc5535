use vstd::prelude::*;

verus! {

/// Relies on chrono::Utc::now: the current time; `timestamp` counts its
/// seconds since the Unix epoch. Nothing is promised of the value: callers
/// state what holds of every reading. It aborts on a machine whose system
/// clock stands before the Unix epoch.
#[verifier::external_body]
pub(crate) fn now_unix_seconds() -> i64 {
    chrono::Utc::now().timestamp()
}

} // verus!
