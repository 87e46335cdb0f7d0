//! The wall clock, read through an outside crate.

use vstd::prelude::*;

verus! {

/// Relies on chrono::Local::now, read as a local naive timestamp and
/// numbered in microseconds. The clock's reading depends on the machine and
/// the moment, so nothing is promised of the value.
#[verifier::external_body]
pub(crate) fn now_timestamp_micros() -> i64 {
    chrono::Local::now().naive_local().and_utc().timestamp_micros()
}

} // verus!
