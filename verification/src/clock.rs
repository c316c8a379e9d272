//! The wall clock.

use vstd::prelude::*;

verus! {

/// chrono's conversion of `std::time::SystemTime::now()` into a
/// `DateTime<Utc>`, followed by `DateTime::timestamp_millis`: the time of
/// the call in milliseconds since the Unix epoch, negative for a clock
/// that stands before it. Nothing is claimed of the number: the clock of
/// the machine decides it. The conversion rejects only a time outside the
/// years that chrono can name, some 262,000 either side of the epoch.
#[verifier::external_body]
pub(crate) fn current_millis() -> i64 {
    chrono::DateTime::<chrono::Utc>::from(std::time::SystemTime::now()).timestamp_millis()
}

} // verus!
