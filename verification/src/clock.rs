//! The wall clock, rendered in the store's timestamp format.

use vstd::prelude::*;

verus! {

/// Relies on chrono::Utc::now and DateTime::to_rfc3339 for the current
/// instant. The result depends on the wall clock, so nothing is stated
/// of its value.
#[verifier::external_body]
pub fn now_rfc3339() -> String {
    chrono::Utc::now().to_rfc3339()
}

/// Relies on chrono::Utc::now, TimeDelta::try_seconds and checked date
/// arithmetic for the current instant and the instant `ttl_seconds` later
/// (or the current instant again, should that span overflow the calendar).
/// Both results depend on the wall clock, so nothing is stated of them.
#[verifier::external_body]
pub fn now_and_expiry(ttl_seconds: u64) -> (String, String) {
    let now = chrono::Utc::now();
    let seconds = i64::try_from(ttl_seconds).unwrap_or(i64::MAX);
    let delta = chrono::TimeDelta::try_seconds(seconds).unwrap_or_default();
    let expiry = now.checked_add_signed(delta).unwrap_or(now);
    (now.to_rfc3339(), expiry.to_rfc3339())
}

} // verus!
