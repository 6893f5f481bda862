//! The wall clock.

use vstd::prelude::*;

verus! {

/// Reads the current UTC time with `chrono::Utc::now` and converts it with
/// `chrono::DateTime::timestamp_micros` to microseconds since the Unix
/// epoch. Trusted; nothing is promised of the value. The reading fails only
/// on a machine whose clock stands before 1970.
#[verifier::external_body]
pub(crate) fn now_micros() -> i64 {
    chrono::Utc::now().timestamp_micros()
}

} // verus!
