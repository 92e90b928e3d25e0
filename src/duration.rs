//! Spans of time with millisecond resolution.
use vstd::prelude::*;

verus! {

/// A span of time, counted in whole milliseconds.
#[derive(Clone, Copy, Debug, PartialEq, Eq, Structural, Hash, Default)]
pub struct Duration {
    pub millis: u64,
}

impl Duration {
    pub fn from_millis(millis: u64) -> (d: Duration)
        ensures
            d.millis == millis,
    {
        Duration { millis }
    }

    /// Whole seconds; the span must fit in milliseconds.
    pub fn from_secs(secs: u64) -> (d: Duration)
        requires
            secs * 1000 <= u64::MAX,
        ensures
            d.millis == secs * 1000,
    {
        Duration { millis: secs * 1000 }
    }

    pub fn as_millis(&self) -> (r: u64)
        ensures
            r == self.millis,
    {
        self.millis
    }

    pub fn is_zero(&self) -> (r: bool)
        ensures
            r == (self.millis == 0),
    {
        self.millis == 0
    }
}

} // verus!
