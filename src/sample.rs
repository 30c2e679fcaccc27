use vstd::prelude::*;

verus! {

/// One validated observation relating monotonic time to UTC, all in nanoseconds.
#[derive(Clone, Copy, Debug, PartialEq, Eq, Structural)]
pub struct Sample {
    /// The UTC at the instant of the observation.
    pub utc: i64,
    /// The monotonic time at the instant of the observation.
    pub monotonic: i64,
    /// The standard deviation of the UTC error.
    pub std_dev: i64,
}

impl Sample {
    /// Creates a sample.
    pub fn new(utc: i64, monotonic: i64, std_dev: i64) -> (r: Sample)
        ensures
            r.utc == utc,
            r.monotonic == monotonic,
            r.std_dev == std_dev,
    {
        Sample { utc, monotonic, std_dev }
    }
}

/// The UTC minus monotonic offset that a sample observes.
pub open spec fn sample_offset(s: Sample) -> int {
    s.utc - s.monotonic
}

} // verus!
