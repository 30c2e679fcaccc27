use vstd::prelude::*;
use crate::enums::{
    ClockCorrectionStrategy, ClockUpdateReason, InitialClockState, InitializeRtcOutcome, Role,
    SampleValidationError, StartClockSource, Status, TimeSourceError, Track, WriteRtcOutcome,
};

verus! {

/// An event of note, recorded to a diagnostics sink. Times and durations are in nanoseconds.
#[allow(inconsistent_fields)]
#[derive(Clone, Copy, Debug, PartialEq, Eq, Structural)]
pub enum Event {
    /// The service started, finding the exposed clock in the given state.
    Initialized { clock_state: InitialClockState },
    /// The network became available.
    NetworkAvailable,
    /// The real time clock was read, giving the time if the read succeeded.
    InitializeRtc { outcome: InitializeRtcOutcome, time: Option<i64> },
    /// A time source reported a change of status.
    TimeSourceStatus { role: Role, status: Status },
    /// A time source failed and is restarted.
    TimeSourceFailed { role: Role, error: TimeSourceError },
    /// A sample from a time source was rejected.
    SampleRejected { role: Role, error: SampleValidationError },
    /// The estimate of a track was updated from a sample.
    EstimateUpdated { track: Track, offset: i64, sqrt_covariance: i64 },
    /// A correction of the exposed clock was decided.
    ClockCorrection { track: Track, correction: i64, strategy: ClockCorrectionStrategy },
    /// The real time clock was written.
    WriteRtc { outcome: WriteRtcOutcome },
    /// The exposed clock was started.
    StartClock { track: Track, source: StartClockSource },
    /// The exposed clock was changed after it had been started.
    UpdateClock { track: Track, reason: ClockUpdateReason },
}

} // verus!
