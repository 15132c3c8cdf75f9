//! Time as the ledger records it.

use vstd::prelude::*;

verus! {

/// The unsigned reading of a signed unix timestamp: a moment before the epoch
/// wraps around to the far future.
pub open spec fn unix_time(timestamp: i64) -> u64 {
    if timestamp >= 0 {
        timestamp as u64
    } else {
        (timestamp + 0x1_0000_0000_0000_0000) as u64
    }
}

/// Reads a signed unix timestamp as the unsigned time that records hold.
pub fn to_unix_time(timestamp: i64) -> (r: u64)
    ensures
        r == unix_time(timestamp),
{
    let r = timestamp as u64;
    assert(r == unix_time(timestamp)) by (bit_vector)
        requires
            r == timestamp as u64,
    ;
    r
}

} // verus!
