//! The wall clock, by which window ids are stamped.

use vstd::prelude::*;

verus! {

/// Reads the wall clock with `std::time::SystemTime::now`, turns the reading
/// into a `chrono::DateTime<Utc>` and returns what `DateTime::timestamp`
/// makes of it: whole seconds since the start of 1970, negative where the
/// clock stands before that.
///
/// Nothing is claimed of the number: two readings may differ, and a clock
/// that was set back may give a smaller one. `chrono` takes every reading
/// that lies within the dates it can hold, some 262,000 years to either side
/// of 1970.
#[verifier::external_body]
pub(crate) fn clock_seconds() -> i64 {
    chrono::DateTime::<chrono::Utc>::from(std::time::SystemTime::now()).timestamp()
}

} // verus!
