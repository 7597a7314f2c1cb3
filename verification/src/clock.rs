//! Trusted access to the wall clock.
//!
//! Nothing is assumed of the values: every caller states what it guarantees
//! (such as monotone metadata timestamps) for any reading whatsoever.

use vstd::prelude::*;

verus! {

/// Relies on chrono::Utc::now / timestamp_millis: the current wall-clock
/// time in milliseconds since the epoch. No property of the reading is
/// assumed.
#[verifier::external_body]
pub(crate) fn now_timestamp_millis() -> i64 {
    chrono::Utc::now().timestamp_millis()
}

/// Relies on chrono::Local::now and its formatter: the current local time
/// of day as `HH:MM:SS`. No property of the text is assumed.
#[verifier::external_body]
pub(crate) fn local_time_hms() -> String {
    chrono::Local::now().format("%H:%M:%S").to_string()
}

} // verus!
