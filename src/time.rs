//! Time-zone-naive calendar values, held as plain integers.

use vstd::prelude::*;

verus! {

/// A calendar date, as a day count in the proleptic Gregorian calendar
/// (0001-01-01 is day 1).
#[derive(Clone, Copy, Debug, PartialEq, Eq, Structural)]
pub struct Date {
    pub days_from_ce: i32,
}

/// A time-zone-naive instant, in whole seconds from 1970-01-01T00:00:00 in
/// the deployment's reference zone.
#[derive(Clone, Copy, Debug, PartialEq, Eq, Structural)]
pub struct Timestamp {
    pub secs: i64,
}

impl Timestamp {
    /// Whether `self` lies at or after `other`.
    pub fn at_or_after(&self, other: &Timestamp) -> (r: bool)
        ensures
            r == (self.secs >= other.secs),
    {
        self.secs >= other.secs
    }
}

} // verus!
