use vstd::prelude::*;
use crate::estimator::{abs, saturate};

verus! {

/// What the exposed clock reports of itself, in nanoseconds: its backstop and the point
/// of its mapping from monotonic time (`reference_offset`) to UTC (`synthetic_offset`).
#[derive(Clone, Copy, Debug, PartialEq, Eq, Structural)]
pub struct ClockDetails {
    pub backstop: i64,
    pub reference_offset: i64,
    pub synthetic_offset: i64,
}

/// Whether a clock with these details has been started: a clock still at its backstop
/// has not.
pub open spec fn is_started(d: ClockDetails) -> bool {
    d.backstop != d.synthetic_offset
}

/// The UTC minus monotonic offset installed in a clock with these details.
pub open spec fn installed_offset(d: ClockDetails) -> int {
    saturate(d.synthetic_offset - d.reference_offset)
}

impl ClockDetails {
    /// Whether the clock has been started.
    pub fn clock_started(&self) -> (r: bool)
        ensures
            r == is_started(*self),
    {
        self.backstop != self.synthetic_offset
    }

    /// The offset between UTC and monotonic time that the clock applies.
    pub fn clock_offset(&self) -> (r: i64)
        ensures
            r == installed_offset(*self),
    {
        crate::estimator::saturate_i128(self.synthetic_offset as i128 - self.reference_offset as i128)
    }
}

/// Whether the magnitude of `value` is below the magnitude of `bound`.
pub fn within_bound(value: i64, bound: i64) -> (r: bool)
    ensures
        r == (abs(value as int) < abs(bound as int)),
{
    let v = value as i128;
    let b = bound as i128;
    let v_abs = if v < 0 { -v } else { v };
    let b_abs = if b < 0 { -b } else { b };
    v_abs < b_abs
}

/// A userspace UTC clock: it reports its backstop until it is first set, and from then on
/// runs at the rate of monotonic time from the last value it was set to.
pub struct UtcClock {
    details: ClockDetails,
    running: bool,
}

/// The UTC a clock with these details reads at monotonic time `monotonic`.
pub open spec fn reading(d: ClockDetails, running: bool, monotonic: int) -> int {
    if running { saturate(d.synthetic_offset + (monotonic - d.reference_offset)) } else { d.backstop as int }
}

impl UtcClock {
    /// The clock's details.
    pub closed spec fn spec_details(&self) -> ClockDetails {
        self.details
    }

    /// Whether the clock has been set since it was created.
    pub closed spec fn spec_running(&self) -> bool {
        self.running
    }

    /// Creates a clock that has not been set, with the given backstop.
    pub fn new(backstop: i64) -> (r: UtcClock)
        ensures
            r.spec_details() == (ClockDetails { backstop, reference_offset: 0, synthetic_offset: backstop }),
            !r.spec_running(),
    {
        UtcClock {
            details: ClockDetails { backstop, reference_offset: 0, synthetic_offset: backstop },
            running: false,
        }
    }

    /// The clock's details.
    pub fn details(&self) -> (r: ClockDetails)
        ensures
            r == self.spec_details(),
    {
        self.details
    }

    /// Sets the clock to read `value` at monotonic time `monotonic`.
    pub fn update(&mut self, monotonic: i64, value: i64)
        ensures
            final(self).spec_details() == (ClockDetails {
                backstop: old(self).spec_details().backstop,
                reference_offset: monotonic,
                synthetic_offset: value,
            }),
            final(self).spec_running(),
    {
        self.details = ClockDetails {
            backstop: self.details.backstop,
            reference_offset: monotonic,
            synthetic_offset: value,
        };
        self.running = true;
    }

    /// The UTC the clock reads at monotonic time `monotonic`.
    pub fn read(&self, monotonic: i64) -> (r: i64)
        ensures
            r == reading(self.spec_details(), self.spec_running(), monotonic as int),
    {
        if self.running {
            crate::estimator::saturate_i128(
                self.details.synthetic_offset as i128 + (monotonic as i128 - self.details.reference_offset as i128),
            )
        } else {
            self.details.backstop
        }
    }
}

/// Between updates a running clock never reads an earlier UTC at a later monotonic time.
pub proof fn lemma_reading_never_decreases(d: ClockDetails, t1: int, t2: int)
    requires
        t1 <= t2,
    ensures
        reading(d, true, t1) <= reading(d, true, t2),
{
}

} // verus!
