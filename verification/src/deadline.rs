//! Time-boxed windows: how deadlines are set and when they have passed.
//!
//! Timestamps are seconds on one monotonic clock. An operation reads the
//! clock once and hands the reading to every check it makes.

use vstd::prelude::*;

verus! {

/// Time the seller has to fund a new escrow: 15 minutes.
pub const DEPOSIT_WINDOW_SECONDS: i64 = 900;

/// Time the buyer has to acknowledge the fiat payment after funding: 30 minutes.
pub const FIAT_WINDOW_SECONDS: i64 = 1_800;

/// Time the other party has to answer a dispute: 72 hours.
pub const DISPUTE_RESPONSE_WINDOW_SECONDS: i64 = 259_200;

/// Time the arbitrator aims to decide in: 7 days. Nothing enforces it.
pub const ARBITRATION_WINDOW_SECONDS: i64 = 604_800;

/// A deadline has passed once the clock reads strictly more than it.
pub open spec fn is_expired(now: int, deadline: int) -> bool {
    now > deadline
}

/// Whether `start + window` can be kept as a timestamp.
pub open spec fn window_fits(start: int, window: int) -> bool {
    i64::MIN <= start + window <= i64::MAX
}

/// The deadline `window` seconds after `start`, or `None` when that moment
/// lies outside the range of timestamps.
pub fn deadline_after(start: i64, window: i64) -> (deadline: Option<i64>)
    ensures
        window_fits(start as int, window as int) ==> deadline == Some((start + window) as i64),
        !window_fits(start as int, window as int) ==> deadline is None,
{
    start.checked_add(window)
}

/// Whether `deadline` has passed at time `now`.
pub fn expired(now: i64, deadline: i64) -> (r: bool)
    ensures
        r == is_expired(now as int, deadline as int),
{
    now > deadline
}

} // verus!
