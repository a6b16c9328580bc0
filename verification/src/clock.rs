//! The wall clock, read at the edges of the logic.
use vstd::prelude::*;

verus! {

/// Seconds since the UNIX epoch (`SystemTime::now`); 0 if the clock stands
/// before the epoch.
#[verifier::external_body]
pub(crate) fn unix_now_secs() -> u64 {
    match std::time::SystemTime::now().duration_since(std::time::UNIX_EPOCH) {
        Ok(d) => d.as_secs(),
        Err(_) => 0,
    }
}

/// Milliseconds since the UNIX epoch (`SystemTime::now`); 0 if the clock
/// stands before the epoch.
#[verifier::external_body]
pub(crate) fn unix_now_millis() -> u128 {
    match std::time::SystemTime::now().duration_since(std::time::UNIX_EPOCH) {
        Ok(d) => d.as_millis(),
        Err(_) => 0,
    }
}

} // verus!
