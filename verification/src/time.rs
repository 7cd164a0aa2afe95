use vstd::prelude::*;

use crate::constants::{TOKEN_EXPIRATION_BASE_SECS, TOKEN_EXPIRATION_LONG_SECS};

verus! {

/// A UTC instant: whole seconds since the Unix epoch and the nanoseconds past them.
#[derive(Clone, Copy, PartialEq, Eq, Structural, Debug)]
pub struct Timestamp {
    pub secs: i64,
    pub nanos: u32,
}

/// Upper bound on the seconds of any instant that `chrono` can represent
/// (its last year is 262142).
pub const CLOCK_SECS_BOUND: i64 = 10_000_000_000_000;

/// The current time, read with `chrono::Utc::now()`.
///
/// `Utc::now` takes the system time since the Unix epoch (it panics before
/// the epoch) and builds a `DateTime` from it (it panics outside `chrono`'s
/// range), so the seconds are between zero and the end of that range and the
/// nanoseconds are those of a `Duration`. What instant it is, nothing states.
#[verifier::external_body]
fn utc_now() -> (r: Timestamp)
    ensures
        0 <= r.secs <= CLOCK_SECS_BOUND,
        r.nanos < 1_000_000_000,
{
    let now = chrono::Utc::now();
    Timestamp { secs: now.timestamp(), nanos: now.timestamp_subsec_nanos() }
}

/// How long a login token lives, in seconds.
pub open spec fn token_lifetime_secs(remember: bool) -> i64 {
    if remember {
        TOKEN_EXPIRATION_LONG_SECS
    } else {
        TOKEN_EXPIRATION_BASE_SECS
    }
}

/// The expiration of a login token made at `now`.
pub fn expiration_from(now: Timestamp, remember: bool) -> (r: Timestamp)
    requires
        now.secs <= i64::MAX - TOKEN_EXPIRATION_LONG_SECS,
    ensures
        r.secs == now.secs + token_lifetime_secs(remember),
        r.nanos == now.nanos,
        r == expiration_from_spec(now, remember),
{
    let lifetime = if remember {
        TOKEN_EXPIRATION_LONG_SECS
    } else {
        TOKEN_EXPIRATION_BASE_SECS
    };
    Timestamp { secs: now.secs + lifetime, nanos: now.nanos }
}

/// The expiration of a login token made now: the current time plus the
/// token's lifetime.
pub fn token_expiration(remember: bool) -> (r: Timestamp)
    ensures
        exists|now: Timestamp|
            0 <= now.secs <= CLOCK_SECS_BOUND && now.nanos < 1_000_000_000 && r
                == expiration_from_spec(now, remember),
{
    let now = utc_now();
    let r = expiration_from(now, remember);
    assert(r == expiration_from_spec(now, remember));
    r
}

/// What `expiration_from` gives.
pub open spec fn expiration_from_spec(now: Timestamp, remember: bool) -> Timestamp {
    Timestamp { secs: (now.secs + token_lifetime_secs(remember)) as i64, nanos: now.nanos }
}

} // verus!
