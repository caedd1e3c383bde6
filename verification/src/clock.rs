//! Trusted boundary to the system clock.

use vstd::prelude::*;

verus! {

/// Relies on `chrono::Utc::now`: seconds since the Unix epoch as the system
/// clock reports them.  Nothing can be promised of the clock's value, so
/// every function that consumes a timestamp takes it as an argument and is
/// verified for all values.
#[verifier::external_body]
pub fn unix_timestamp_now() -> i64 {
    chrono::Utc::now().timestamp()
}

} // verus!
