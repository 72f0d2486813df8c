//! The one place the library reads the clock.

use vstd::prelude::*;

verus! {

/// The largest magnitude a current-time Unix timestamp can have.
///
/// `chrono` limits a date to roughly 262,000 years on either side of the
/// common era, which keeps the second count well inside this bound.
pub const MAX_TIMESTAMP: i64 = 9_000_000_000_000;

/// The current Unix timestamp, in seconds.
///
/// Relies on `chrono::Utc::now` and `DateTime::timestamp`. Nothing can be
/// promised about which instant comes back; the bound below holds of every
/// outcome because `chrono` documents that a date is limited to about
/// ±262,000 years from the common era, whose second count stays far inside
/// `MAX_TIMESTAMP`.
#[verifier::external_body]
pub(crate) fn now_ts() -> (t: i64)
    ensures
        -MAX_TIMESTAMP <= t <= MAX_TIMESTAMP,
{
    chrono::Utc::now().timestamp()
}

} // verus!
