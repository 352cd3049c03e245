//! The wall clock.
use vstd::prelude::*;

use crate::domain::execution::MAX_INSTANT_MS;

verus! {

/// `chrono::Utc::now`, read as milliseconds since the Unix epoch
/// (`DateTime::timestamp_millis`). The contract claims only that the
/// instant is not before the epoch (`Utc::now` panics on a clock set
/// earlier) and lies within the range a UTC date-time can hold.
#[verifier::external_body]
pub(crate) fn now_ms() -> (r: i64)
    ensures
        0 <= r <= MAX_INSTANT_MS,
{
    chrono::Utc::now().timestamp_millis()
}

} // verus!
