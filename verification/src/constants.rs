use vstd::prelude::*;

verus! {

/// Least time, in milliseconds, that a failed password check takes before it is answered.
pub const FIXED_TIMESTAMP_DELAY_MILLIS: u64 = 500;

/// Lifetime, in seconds, of a login token made without "remember me" (five minutes).
pub const TOKEN_EXPIRATION_BASE_SECS: i64 = 300;

/// Lifetime, in seconds, of a login token made with "remember me" (fifteen days).
pub const TOKEN_EXPIRATION_LONG_SECS: i64 = 1_296_000;

} // verus!
