//! The wall clock, read as a plain nanosecond count.

use vstd::prelude::*;

verus! {

/// Relies on `std::time::SystemTime::now`: a reading of the system clock,
/// converted to nanoseconds since the UNIX epoch (zero if the clock sits
/// before the epoch).  Nothing can be promised of the value returned.
#[verifier::external_body]
pub fn clock_now_ns() -> (r: u64) {
    match std::time::SystemTime::now().duration_since(std::time::UNIX_EPOCH) {
        Ok(d) => d.as_nanos() as u64,
        Err(_) => 0,
    }
}

} // verus!
