//! The number of measurements an accumulator has taken in.

use vstd::prelude::*;

verus! {

/// The divisor that turns running sums over `n` measurements into averages:
/// none for an empty accumulator, whose statistics are undefined, and `n`
/// itself otherwise.
pub open spec fn divisor_of(n: nat) -> Option<nat> {
    if n == 0 {
        None
    } else {
        Some(n)
    }
}

/// Counts the measurements fed to an accumulator.
///
/// Its view is the number of measurements recorded since it was created.
pub struct MeasurementCount {
    count: u64,
}

impl View for MeasurementCount {
    type V = nat;

    closed spec fn view(&self) -> nat {
        self.count as nat
    }
}

impl MeasurementCount {
    /// The largest number of measurements that can be counted.
    pub open spec fn limit() -> nat {
        u64::MAX as nat
    }

    /// A count of no measurements.
    pub fn new() -> (fresh: Self)
        ensures
            fresh@ == 0,
    {
        MeasurementCount { count: 0 }
    }

    /// Records one more measurement.
    pub fn add_measurement(&mut self)
        requires
            old(self)@ < Self::limit(),
        ensures
            final(self)@ == old(self)@ + 1,
    {
        self.count = self.count + 1;
    }

    /// The number of measurements recorded so far.
    pub fn count(&self) -> (n: u64)
        ensures
            n as nat == self@,
    {
        self.count
    }

    /// Whether another measurement can still be recorded.
    pub fn has_room(&self) -> (room: bool)
        ensures
            room == (self@ < Self::limit()),
    {
        self.count < u64::MAX
    }

    /// The divisor for the averages of the running sums, or `None` while no
    /// measurement has been recorded and every statistic is undefined.
    ///
    /// The answer depends on the number of recorded measurements alone, so
    /// asking again without recording in between gives the same answer.
    pub fn divisor(&self) -> (d: Option<u64>)
        ensures
            d is Some <==> self@ > 0,
            d matches Some(n) ==> n as nat == self@,
            divisor_of(self@) == match d {
                Some(n) => Some(n as nat),
                None => None::<nat>,
            },
    {
        if self.count == 0 {
            None
        } else {
            Some(self.count)
        }
    }
}

impl Default for MeasurementCount {
    /// A count of no measurements, as `new` gives.
    fn default() -> (fresh: Self)
        ensures
            fresh@ == 0,
    {
        MeasurementCount::new()
    }
}

} // verus!
