//! Instants in time.
//!
//! The core never does calendar arithmetic; it only compares instants, so it
//! carries them as milliseconds since the Unix epoch.

use vstd::prelude::*;

verus! {

/// An instant, as milliseconds since the Unix epoch.
pub type Timestamp = i64;

/// Relies on `chrono::Utc::now` and `DateTime::timestamp_millis` to read the
/// wall clock; nothing is promised of the result.
#[verifier::external_body]
pub fn now_millis() -> Timestamp {
    chrono::Utc::now().timestamp_millis()
}

} // verus!
