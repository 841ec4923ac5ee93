//! A periodic timer's setting.
use vstd::prelude::*;
use core::time::Duration;

verus! {

/// A timer that fires every `interval`.
pub struct GrassTimer {
    interval: Duration,
}

impl GrassTimer {
    pub closed spec fn period(&self) -> Duration {
        self.interval
    }

    /// A timer firing every `interval`.
    pub fn new(interval: Duration) -> (r: Self)
        ensures
            r.period() == interval,
    {
        GrassTimer { interval }
    }

    /// The time between two firings.
    pub fn interval(&self) -> (r: Duration)
        ensures
            r == self.period(),
    {
        self.interval
    }
}

} // verus!
