use vstd::prelude::*;

verus! {

/// A span of monotonic time, counted in nanoseconds.
#[derive(Clone, Copy, Debug, PartialEq, Eq, Structural)]
pub struct Duration {
    pub nanos: u64,
}

impl Duration {
    pub fn from_nanos(nanos: u64) -> (r: Duration)
        ensures
            r.nanos == nanos,
    {
        Duration { nanos }
    }
}

/// A point on the monotonic clock, counted in nanoseconds from the clock's
/// origin.
#[derive(Clone, Copy, Debug, PartialEq, Eq, Structural)]
pub struct Instant {
    pub nanos: u64,
}

impl Instant {
    pub fn from_nanos(nanos: u64) -> (r: Instant)
        ensures
            r.nanos == nanos,
    {
        Instant { nanos }
    }

    /// The time that has passed since `earlier`, or `None` when `self`
    /// precedes it.
    pub fn checked_duration_since(&self, earlier: Instant) -> (r: Option<Duration>)
        ensures
            self.nanos >= earlier.nanos ==> r == Some(Duration { nanos: (self.nanos
                - earlier.nanos) as u64 }),
            self.nanos < earlier.nanos ==> r is None,
    {
        if self.nanos >= earlier.nanos {
            Some(Duration { nanos: self.nanos - earlier.nanos })
        } else {
            None
        }
    }
}

/// The monotonic clock source the deadline interests sample. The concrete
/// source is outside this core; every implementation fixes, per instance, the
/// reading given at each sampling precision, and readings never regress
/// because an instance is immutable while a wait round holds it.
pub trait WasiMonotonicClock {
    /// The reading this clock gives when sampled at `precision`.
    spec fn spec_now(&self, precision: Duration) -> Instant;

    /// Samples the clock, coalesced to `precision`.
    fn now(&self, precision: Duration) -> (t: Instant)
        ensures
            t == self.spec_now(precision),
    ;
}

/// A clock pinned to one reading, whatever precision is asked: what a paused
/// scheduler or a test sees.
pub struct FixedClock {
    pub time: Instant,
}

impl WasiMonotonicClock for FixedClock {
    open spec fn spec_now(&self, precision: Duration) -> Instant {
        self.time
    }

    fn now(&self, precision: Duration) -> (t: Instant) {
        self.time
    }
}

/// A clock that coalesces its reading to the asked precision: the reading is
/// rounded down to a whole number of precision units, so a finer or coarser
/// precision argument is observable in the sample.
pub struct CoarseClock {
    pub time: Instant,
}

impl WasiMonotonicClock for CoarseClock {
    open spec fn spec_now(&self, precision: Duration) -> Instant {
        if precision.nanos == 0 {
            self.time
        } else {
            Instant { nanos: ((self.time.nanos / precision.nanos) * precision.nanos) as u64 }
        }
    }

    fn now(&self, precision: Duration) -> (t: Instant) {
        if precision.nanos == 0 {
            self.time
        } else {
            proof {
                assert((self.time.nanos / precision.nanos) * precision.nanos
                    <= self.time.nanos) by (nonlinear_arith)
                    requires
                        precision.nanos > 0,
                ;
            }
            Instant { nanos: (self.time.nanos / precision.nanos) * precision.nanos }
        }
    }
}

} // verus!
