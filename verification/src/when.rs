//! When an intent could happen: a concrete window built from a start instant
//! and a duration, in milliseconds.

use vstd::prelude::*;

use crate::time::Timestamp;

verus! {

/// The magnitude of a duration in milliseconds.
pub open spec fn abs_duration(duration: int) -> int {
    if duration < 0 {
        -duration
    } else {
        duration
    }
}

/// A window in which a participant is free: a start and an end instant.
#[derive(Debug, Clone, Copy, PartialEq, Eq, Structural)]
pub struct Availability {
    pub start: Timestamp,
    pub end: Timestamp,
}

impl Availability {
    /// Builds a window from a start and a duration in milliseconds; a
    /// negative duration is treated by its magnitude, so the end never
    /// precedes the start.
    pub fn new(start: Timestamp, duration_millis: i64) -> (r: Self)
        requires
            duration_millis != i64::MIN,
            start + abs_duration(duration_millis as int) <= i64::MAX,
        ensures
            r.start == start,
            r.end == start + abs_duration(duration_millis as int),
            r.end >= r.start,
    {
        let magnitude: i64 = if duration_millis < 0 {
            -duration_millis
        } else {
            duration_millis
        };
        Availability { start, end: start + magnitude }
    }

    /// Whether two windows share at least one instant.
    pub fn overlaps_with(&self, other: &Availability) -> (r: bool)
        ensures
            r == (self.start < other.end && other.start < self.end),
    {
        self.start < other.end && other.start < self.end
    }
}

} // verus!
