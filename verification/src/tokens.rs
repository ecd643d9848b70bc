//! Signed tokens: the key they are signed with, the clock, and the claims
//! of a freshly issued token, which is valid for 24 hours.
use vstd::prelude::*;
use crate::models::{Claims, ClaimsView};

verus! {

/// The key that tokens are signed and checked with (HMAC-SHA256).
pub const TOKEN_SECRET: &'static str = "my_secret_key";

/// How long an issued token stays valid, in hours.
pub const TOKEN_HOURS: i64 = 24;

/// The first instant that chrono represents, as a Unix timestamp:
/// -262143-01-01T00:00:00 UTC.
pub open spec fn chrono_first() -> int {
    -8_334_601_228_800
}

/// The last whole second that chrono represents, as a Unix timestamp:
/// 262142-12-31T23:59:59 UTC.
pub open spec fn chrono_last() -> int {
    8_210_266_876_799
}

/// Timestamps (seconds since the Unix epoch) of instants that chrono
/// represents.
pub open spec fn in_chrono_range(ts: int) -> bool {
    chrono_first() <= ts <= chrono_last()
}

/// `chrono::Utc::now()`, as a Unix timestamp in whole seconds
/// (`DateTime::timestamp`). The time is read from the machine's clock;
/// chrono reads it as the time elapsed since the Unix epoch and builds a
/// `DateTime` from it, so it is never negative and lies within chrono's
/// range.
#[verifier::external_body]
fn unix_now() -> (now: i64)
    ensures
        0 <= now <= chrono_last(),
{
    chrono::Utc::now().timestamp()
}

/// The instant `hours` hours after `ts`, when both lie in chrono's range.
pub open spec fn later_by(ts: int, hours: int) -> Option<int> {
    if in_chrono_range(ts) && in_chrono_range(ts + hours * 3600) {
        Some(ts + hours * 3600)
    } else {
        None
    }
}

/// chrono's `checked_add_signed(TimeDelta::hours(hours))` on the instant
/// `ts` (built with `DateTime::from_timestamp(ts, 0)` and read back with
/// `timestamp()`): `from_timestamp` gives `None` exactly outside chrono's
/// range, and `checked_add_signed` gives `None` exactly when the sum leaves
/// it.
#[verifier::external_body]
fn checked_add_hours(ts: i64, hours: i64) -> (res: Option<i64>)
    requires
        0 <= hours <= 1_000_000,
    ensures
        match res {
            Some(t) => later_by(ts as int, hours as int) == Some(t as int),
            None => later_by(ts as int, hours as int) is None,
        },
{
    match chrono::DateTime::from_timestamp(ts, 0) {
        Some(t) => match t.checked_add_signed(chrono::TimeDelta::hours(hours)) {
            Some(later) => Some(later.timestamp()),
            None => None,
        },
        None => None,
    }
}

/// The claims of a token for `sub` issued at time `now`: `sub`, and the
/// expiry `TOKEN_HOURS` hours later; `None` when either instant is outside
/// chrono's range.
pub open spec fn issued_claims(sub: Seq<char>, now: i64) -> Option<ClaimsView> {
    match later_by(now as int, TOKEN_HOURS as int) {
        Some(expiry) => Some(ClaimsView { sub, exp: expiry as usize }),
        None => None,
    }
}

/// Optional claims as plain values.
pub open spec fn opt_claims_view(claims: Option<Claims>) -> Option<ClaimsView> {
    match claims {
        Some(c) => Some(c@),
        None => None,
    }
}

/// The claims of a token for `sub` issued at time `now` (a Unix timestamp):
/// it names `sub` and expires 24 hours later. `None` when `now` or that
/// instant is out of chrono's range.
pub fn claims_at(sub: String, now: i64) -> (claims: Option<Claims>)
    ensures
        opt_claims_view(claims) == issued_claims(sub@, now),
{
    match checked_add_hours(now, TOKEN_HOURS) {
        Some(expiry) => Some(Claims { sub, exp: expiry as usize }),
        None => None,
    }
}

/// The current time, as a Unix timestamp in whole seconds, read from the
/// machine's clock: never before the epoch, and within chrono's range.
pub fn current_time() -> (now: i64)
    ensures
        0 <= now <= chrono_last(),
{
    unix_now()
}

} // verus!
