use vstd::prelude::*;

verus! {

/// One of the two independently maintained estimation pipelines.
#[derive(Clone, Copy, Debug, PartialEq, Eq, Structural)]
pub enum Track {
    /// The trusted estimate that drives the exposed clock, the RTC and notification.
    Primary,
    /// A parallel estimate kept for comparison and diagnostics only.
    Monitor,
}

/// The identity of the external time source that produced a sample.
#[derive(Clone, Copy, Debug, PartialEq, Eq, Structural)]
pub enum Role {
    Primary,
    Monitor,
}

impl Track {
    /// The track that consumes samples from a source of the given role.
    pub fn from_role(role: Role) -> (r: Track)
        ensures
            r == track_of(role),
    {
        match role {
            Role::Primary => Track::Primary,
            Role::Monitor => Track::Monitor,
        }
    }
}

/// The one-to-one correspondence between roles and tracks.
pub open spec fn track_of(role: Role) -> Track {
    match role {
        Role::Primary => Track::Primary,
        Role::Monitor => Track::Monitor,
    }
}

/// How a detected mismatch between the exposed clock and the estimate is resolved.
#[derive(Clone, Copy, Debug, PartialEq, Eq, Structural)]
pub enum ClockCorrectionStrategy {
    /// The mismatch is below the update threshold: the clock is left alone.
    NotRequired,
    /// The clock is set to the estimate immediately.
    Step,
    /// Reserved for a gradual correction policy; never chosen at present.
    NominalRateSlew,
}

/// Why the exposed clock was changed after it had been started.
#[derive(Clone, Copy, Debug, PartialEq, Eq, Structural)]
pub enum ClockUpdateReason {
    TimeStep,
}

/// What the exposed clock was started from.
#[derive(Clone, Copy, Debug, PartialEq, Eq, Structural)]
pub enum StartClockSource {
    /// The battery-backed real time clock.
    Rtc,
    /// An external time source of the given role.
    External(Role),
}

/// The result of writing the real time clock.
#[derive(Clone, Copy, Debug, PartialEq, Eq, Structural)]
pub enum WriteRtcOutcome {
    Failed,
    Succeeded,
}

/// The result of reading the real time clock at initialization.
#[derive(Clone, Copy, Debug, PartialEq, Eq, Structural)]
pub enum InitializeRtcOutcome {
    NoDevices,
    MultipleDevices,
    ConnectionFailed,
    ReadFailed,
    InvalidBeforeBackstop,
    Succeeded,
}

/// Whether the exposed clock had already been started when the service initialized.
#[derive(Clone, Copy, Debug, PartialEq, Eq, Structural)]
pub enum InitialClockState {
    NotSet,
    PreviouslySet,
}

/// Why a sample from a time source was rejected.
#[derive(Clone, Copy, Debug, PartialEq, Eq, Structural)]
pub enum SampleValidationError {
    /// The sample's monotonic time lies after the time it was received.
    MonotonicInFuture,
    /// The sample's monotonic time is not after the last accepted sample's.
    MonotonicTooOld,
    /// The sample's UTC lies before the backstop.
    BeforeBackstop,
}

/// Why a time source had to be restarted.
#[derive(Clone, Copy, Debug, PartialEq, Eq, Structural)]
pub enum TimeSourceError {
    LaunchFailed,
    StreamFailed,
    CallFailed,
    SampleTimeOut,
}

/// The health a time source reports of itself.
#[derive(Clone, Copy, Debug, PartialEq, Eq, Structural)]
pub enum Status {
    Initializing,
    Healthy,
    UnknownUnhealthy,
    Network,
    Hardware,
    Protocol,
    Resource,
}

/// The provenance of the UTC on the exposed clock, as announced to watchers.
#[derive(Clone, Copy, Debug, PartialEq, Eq, Structural)]
pub enum UtcSource {
    Backstop,
    Rtc,
    External,
}

} // verus!
