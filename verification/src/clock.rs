//! The wall clock.

use vstd::prelude::*;

verus! {

/// The current time in milliseconds since the Unix epoch, from
/// `chrono::Utc::now`. It depends on the clock; only chrono's representable
/// range (years -262143 to 262142, well within ±9·10^15 ms) is stated.
#[verifier::external_body]
pub(crate) fn now_millis() -> (t: i64)
    ensures
        -9_000_000_000_000_000 <= t <= 9_000_000_000_000_000,
{
    chrono::Utc::now().timestamp_millis()
}

} // verus!
