//! The rules the store applies to sign-in codes, rate limits, users and sessions.
//!
//! Times are instants in UTC, as whole seconds since the Unix epoch and the nanoseconds
//! past them.
use vstd::prelude::*;

verus! {

/// Token expiry: 15 minutes
pub const TOKEN_EXPIRY_MINUTES: i64 = 15;

/// Rate limit: 3 tokens per hour per email
pub const RATE_LIMIT_COUNT: i64 = 3;

/// The window, in hours, over which the rate limit counts tokens.
pub const RATE_LIMIT_HOURS: i64 = 1;

/// The largest number of whole seconds a time delta can span either way.
pub const MAX_DELTA_SECS: i64 = 9_223_372_036_854_775;

/// An instant: seconds since the Unix epoch and the nanoseconds past them.
#[derive(Clone, Copy, Debug, PartialEq, Eq, Structural)]
pub struct Timestamp {
    pub secs: i64,
    pub nanos: u32,
}

/// `t` moved by `delta` whole seconds.
pub open spec fn shifted(t: Timestamp, delta: int) -> Timestamp {
    Timestamp { secs: (t.secs + delta) as i64, nanos: t.nanos }
}

/// Start of the window in which unused codes count against the rate limit: an hour ago.
pub fn rate_limit_window_start(now: Timestamp) -> (since: Timestamp)
    requires
        now.secs >= i64::MIN + RATE_LIMIT_HOURS * 3600,
    ensures
        since == shifted(now, -(RATE_LIMIT_HOURS * 3600)),
{
    Timestamp { secs: now.secs - RATE_LIMIT_HOURS * 60 * 60, nanos: now.nanos }
}

/// When a code issued at `now` stops being accepted: 15 minutes later.
pub fn token_expires_at(now: Timestamp) -> (expires_at: Timestamp)
    requires
        now.secs <= i64::MAX - TOKEN_EXPIRY_MINUTES * 60,
    ensures
        expires_at == shifted(now, TOKEN_EXPIRY_MINUTES * 60),
{
    Timestamp { secs: now.secs + TOKEN_EXPIRY_MINUTES * 60, nanos: now.nanos }
}

/// When a session opened at `now` for `max_age_days` days ends.
pub fn session_expires_at(now: Timestamp, max_age_days: i64) -> (expires_at: Timestamp)
    requires
        -MAX_DELTA_SECS <= max_age_days * 86400 <= MAX_DELTA_SECS,
        i64::MIN <= now.secs + max_age_days * 86400 <= i64::MAX,
    ensures
        expires_at == shifted(now, max_age_days * 86400),
{
    Timestamp { secs: now.secs + max_age_days * 86400, nanos: now.nanos }
}

/// Whether another code may be issued, given how many unused codes were issued to the
/// address within the window.
pub fn within_rate_limit(count: i64) -> (allowed: bool)
    ensures
        allowed == (count < RATE_LIMIT_COUNT),
{
    count < RATE_LIMIT_COUNT
}

/// Whether the owner of an address still has to set a name, given the user's row (its name
/// column) if there is one: a new address (no row) or an existing user without a name does;
/// a user with a name does not.
pub fn needs_name(row: Option<Option<String>>) -> (r: bool)
    ensures
        r == !(row matches Some(Some(_))),
{
    match row {
        Some(Some(_)) => false,
        _ => true,
    }
}

} // verus!
