//! The wall clock.

use vstd::prelude::*;

verus! {

/// Reads the current time as microseconds since the Unix epoch.
///
/// Calls `chrono::Utc::now` and takes the value's `timestamp_micros`. Nothing
/// is claimed of the result. The call stops the process where the system
/// clock stands before the epoch.
#[verifier::external_body]
pub(crate) fn now_micros() -> i64 {
    chrono::Utc::now().timestamp_micros()
}

} // verus!
