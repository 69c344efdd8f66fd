//! Wall-clock instants, kept as milliseconds since the Unix epoch.
use vstd::prelude::*;

verus! {

/// One second in milliseconds.
pub const SECOND_MS: i64 = 1000;

/// The window before expiry in which a credential is refreshed: five minutes.
pub const REFRESH_WINDOW_MS: i64 = 300_000;

/// How long a login session lives: seven days.
pub const SESSION_LIFETIME_MS: i64 = 604_800_000;

/// `a + b`, held at the bounds of `i64` instead of overflowing.
pub open spec fn clamp_add(a: int, b: int) -> int {
    if a + b > i64::MAX {
        i64::MAX as int
    } else if a + b < i64::MIN {
        i64::MIN as int
    } else {
        a + b
    }
}

/// Adds an offset to an instant, holding the result at the bounds of `i64`.
pub fn add_millis(at: i64, delta: i64) -> (r: i64)
    ensures
        r == clamp_add(at as int, delta as int),
{
    let sum: i128 = at as i128 + delta as i128;
    if sum > i64::MAX as i128 {
        i64::MAX
    } else if sum < i64::MIN as i128 {
        i64::MIN
    } else {
        sum as i64
    }
}

/// The current instant. Relies on `chrono::Utc::now` and
/// `DateTime::timestamp_millis`; no property of the value read is relied on.
#[verifier::external_body]
pub fn now_millis() -> (r: i64) {
    chrono::Utc::now().timestamp_millis()
}

} // verus!
