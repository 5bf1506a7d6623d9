//! Stateless validation of poll timestamps.

use vstd::prelude::*;

verus! {

/// Upper sanity bound on accepted Unix timestamps, roughly the year 2030.
/// This is a schema-level bound on stored poll windows, not a real-time check.
pub const MAX_REASONABLE_TIMESTAMP: u64 = 1893456000;

/// A timestamp is acceptable when it is nonzero and below the sanity bound.
pub open spec fn valid_unix_timestamp(timestamp: u64) -> bool {
    0 < timestamp < MAX_REASONABLE_TIMESTAMP
}

/// Decides whether a Unix timestamp is inside the accepted sanity window.
pub fn is_valid_unix_timestamp(timestamp: u64) -> (r: bool)
    ensures
        r == valid_unix_timestamp(timestamp),
{
    timestamp > 0 && timestamp < MAX_REASONABLE_TIMESTAMP
}

} // verus!
