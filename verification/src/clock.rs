//! The wall clock, as records are stamped with it.

use vstd::prelude::*;

verus! {

/// Reads the clock with `std::time::SystemTime::now`, turns the instant
/// into a `chrono::DateTime<Utc>` through chrono's `From<SystemTime>`, and
/// counts the nanoseconds since the Unix epoch with
/// `DateTime::timestamp_nanos_opt`, which gives nothing for an instant whose
/// count does not fit in 64 bits. The conversion takes an instant before the
/// epoch as well as one after it; it ends the program only on an instant
/// outside the years that chrono can express, some 262,000 to either side.
/// Nothing is claimed of the reading: it is whatever the machine's clock
/// says.
#[verifier::external_body]
pub(crate) fn utc_now_nanos() -> (reading: Option<i64>) {
    chrono::DateTime::<chrono::Utc>::from(std::time::SystemTime::now()).timestamp_nanos_opt()
}

} // verus!
