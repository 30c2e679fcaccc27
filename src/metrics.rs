use vstd::prelude::*;
use crate::diagnostics::Event;
use crate::enums::{
    ClockCorrectionStrategy, InitialClockState, InitializeRtcOutcome, Role, SampleValidationError,
    StartClockSource, TimeSourceError, Track, WriteRtcOutcome,
};

verus! {

/// The experiment a metrics log is attributed to.
#[derive(Clone, Copy, Debug, PartialEq, Eq, Structural)]
pub enum Experiment {
    /// No experiment.
    Control,
    A,
    B,
}

/// The track dimension of a metric.
#[derive(Clone, Copy, Debug, PartialEq, Eq, Structural)]
pub enum TrackDimension {
    Primary,
    Monitor,
}

/// The role dimension of a metric.
#[derive(Clone, Copy, Debug, PartialEq, Eq, Structural)]
pub enum RoleDimension {
    Primary,
    Monitor,
}

/// The sign of a clock correction.
#[derive(Clone, Copy, Debug, PartialEq, Eq, Structural)]
pub enum Direction {
    Positive,
    Negative,
}

/// The lifecycle events of the time service.
#[derive(Clone, Copy, Debug, PartialEq, Eq, Structural)]
pub enum LifecycleEvent {
    InitializedBeforeUtcStart,
    InitializedAfterUtcStart,
    StartedUtcFromRtc,
    StartedUtcFromTimeSource,
}

/// The events of the real time clock.
#[derive(Clone, Copy, Debug, PartialEq, Eq, Structural)]
pub enum RtcEvent {
    NoDevices,
    MultipleDevices,
    ConnectionFailed,
    ReadFailed,
    ReadInvalidBeforeBackstop,
    ReadSucceeded,
    WriteFailed,
    WriteSucceeded,
}

/// The events of a time source.
#[derive(Clone, Copy, Debug, PartialEq, Eq, Structural)]
pub enum TimeSourceEvent {
    RestartedLaunchFailed,
    RestartedStreamFailed,
    RestartedCallFailed,
    RestartedSampleTimeOut,
    SampleRejectedMonotonicInFuture,
    SampleRejectedMonotonicTooOld,
    SampleRejectedBeforeBackstop,
}

/// The events of an estimation track.
#[derive(Clone, Copy, Debug, PartialEq, Eq, Structural)]
pub enum TrackEvent {
    EstimatedOffsetUpdated,
    CorrectionNotRequired,
    CorrectionByStep,
    CorrectionByNominalRateSlew,
}

/// One log to the metrics service.
#[allow(inconsistent_fields)]
#[derive(Clone, Copy, Debug, PartialEq, Eq, Structural)]
pub enum MetricLog {
    /// An occurrence of a lifecycle event.
    Lifecycle(LifecycleEvent),
    /// An occurrence of a real time clock event.
    RealTimeClock(RtcEvent),
    /// A count of time source events.
    TimeSourceCount { event: TimeSourceEvent, role: RoleDimension, experiment: Experiment, count: i64 },
    /// A count of track events.
    TrackCount { event: TrackEvent, track: TrackDimension, experiment: Experiment, count: i64 },
    /// The standard deviation of a track's estimate, in microseconds.
    SqrtCovariance { track: TrackDimension, experiment: Experiment, micros: i64 },
    /// The magnitude of a clock correction, in microseconds.
    ClockCorrection { direction: Direction, track: TrackDimension, experiment: Experiment, micros: i64 },
}

pub open spec fn track_dimension(t: Track) -> TrackDimension {
    match t {
        Track::Primary => TrackDimension::Primary,
        Track::Monitor => TrackDimension::Monitor,
    }
}

pub open spec fn role_dimension(r: Role) -> RoleDimension {
    match r {
        Role::Primary => RoleDimension::Primary,
        Role::Monitor => RoleDimension::Monitor,
    }
}

pub open spec fn initialize_rtc_event(o: InitializeRtcOutcome) -> RtcEvent {
    match o {
        InitializeRtcOutcome::NoDevices => RtcEvent::NoDevices,
        InitializeRtcOutcome::MultipleDevices => RtcEvent::MultipleDevices,
        InitializeRtcOutcome::ConnectionFailed => RtcEvent::ConnectionFailed,
        InitializeRtcOutcome::ReadFailed => RtcEvent::ReadFailed,
        InitializeRtcOutcome::InvalidBeforeBackstop => RtcEvent::ReadInvalidBeforeBackstop,
        InitializeRtcOutcome::Succeeded => RtcEvent::ReadSucceeded,
    }
}

pub open spec fn write_rtc_event(o: WriteRtcOutcome) -> RtcEvent {
    match o {
        WriteRtcOutcome::Failed => RtcEvent::WriteFailed,
        WriteRtcOutcome::Succeeded => RtcEvent::WriteSucceeded,
    }
}

pub open spec fn failure_event(e: TimeSourceError) -> TimeSourceEvent {
    match e {
        TimeSourceError::LaunchFailed => TimeSourceEvent::RestartedLaunchFailed,
        TimeSourceError::StreamFailed => TimeSourceEvent::RestartedStreamFailed,
        TimeSourceError::CallFailed => TimeSourceEvent::RestartedCallFailed,
        TimeSourceError::SampleTimeOut => TimeSourceEvent::RestartedSampleTimeOut,
    }
}

pub open spec fn rejection_event(e: SampleValidationError) -> TimeSourceEvent {
    match e {
        SampleValidationError::MonotonicInFuture => TimeSourceEvent::SampleRejectedMonotonicInFuture,
        SampleValidationError::MonotonicTooOld => TimeSourceEvent::SampleRejectedMonotonicTooOld,
        SampleValidationError::BeforeBackstop => TimeSourceEvent::SampleRejectedBeforeBackstop,
    }
}

pub open spec fn strategy_event(s: ClockCorrectionStrategy) -> TrackEvent {
    match s {
        ClockCorrectionStrategy::NotRequired => TrackEvent::CorrectionNotRequired,
        ClockCorrectionStrategy::Step => TrackEvent::CorrectionByStep,
        ClockCorrectionStrategy::NominalRateSlew => TrackEvent::CorrectionByNominalRateSlew,
    }
}

/// Whole microseconds in `nanos` nanoseconds, rounded toward zero.
pub open spec fn micros_of(nanos: int) -> int {
    if nanos >= 0 { nanos / 1000 } else { -((-nanos) / 1000) }
}

/// The metrics logs that record `event`, attributed to `experiment`. Events that carry no
/// metric, and the start of a clock other than the primary, log nothing.
pub open spec fn metric_logs_of(event: Event, experiment: Experiment) -> Seq<MetricLog> {
    match event {
        Event::Initialized { clock_state } => seq![MetricLog::Lifecycle(
            match clock_state {
                InitialClockState::NotSet => LifecycleEvent::InitializedBeforeUtcStart,
                InitialClockState::PreviouslySet => LifecycleEvent::InitializedAfterUtcStart,
            },
        )],
        Event::NetworkAvailable => Seq::empty(),
        Event::InitializeRtc { outcome, .. } => seq![MetricLog::RealTimeClock(initialize_rtc_event(outcome))],
        Event::TimeSourceStatus { .. } => Seq::empty(),
        Event::TimeSourceFailed { role, error } => seq![MetricLog::TimeSourceCount {
            event: failure_event(error),
            role: role_dimension(role),
            experiment,
            count: 1,
        }],
        Event::SampleRejected { role, error } => seq![MetricLog::TimeSourceCount {
            event: rejection_event(error),
            role: role_dimension(role),
            experiment,
            count: 1,
        }],
        Event::EstimateUpdated { track, sqrt_covariance, .. } => seq![
            MetricLog::TrackCount {
                event: TrackEvent::EstimatedOffsetUpdated,
                track: track_dimension(track),
                experiment,
                count: 1,
            },
            MetricLog::SqrtCovariance {
                track: track_dimension(track),
                experiment,
                micros: micros_of(sqrt_covariance as int) as i64,
            },
        ],
        Event::ClockCorrection { track, correction, strategy } => seq![
            MetricLog::TrackCount {
                event: strategy_event(strategy),
                track: track_dimension(track),
                experiment,
                count: 1,
            },
            MetricLog::ClockCorrection {
                direction: if correction >= 0 { Direction::Positive } else { Direction::Negative },
                track: track_dimension(track),
                experiment,
                micros: crate::estimator::abs(micros_of(correction as int)) as i64,
            },
        ],
        Event::WriteRtc { outcome } => seq![MetricLog::RealTimeClock(write_rtc_event(outcome))],
        Event::StartClock { track, source } => if track == Track::Primary {
            seq![MetricLog::Lifecycle(
                match source {
                    StartClockSource::Rtc => LifecycleEvent::StartedUtcFromRtc,
                    StartClockSource::External(_) => LifecycleEvent::StartedUtcFromTimeSource,
                },
            )]
        } else {
            Seq::empty()
        },
        Event::UpdateClock { .. } => Seq::empty(),
    }
}

fn track_dimension_of(t: Track) -> (r: TrackDimension)
    ensures
        r == track_dimension(t),
{
    match t {
        Track::Primary => TrackDimension::Primary,
        Track::Monitor => TrackDimension::Monitor,
    }
}

fn role_dimension_of(r: Role) -> (d: RoleDimension)
    ensures
        d == role_dimension(r),
{
    match r {
        Role::Primary => RoleDimension::Primary,
        Role::Monitor => RoleDimension::Monitor,
    }
}

/// Whole microseconds in `nanos` nanoseconds, rounded toward zero.
fn into_micros(nanos: i64) -> (r: i64)
    ensures
        r == micros_of(nanos as int),
{
    if nanos >= 0 { nanos / 1000 } else { -((-(nanos as i128)) / 1000) as i64 }
}

/// The logs to the metrics service that record a diagnostics event.
pub fn metric_logs(event: Event, experiment: Experiment) -> (r: Vec<MetricLog>)
    ensures
        r@ == metric_logs_of(event, experiment),
{
    let mut logs: Vec<MetricLog> = Vec::new();
    match event {
        Event::Initialized { clock_state } => {
            let e = match clock_state {
                InitialClockState::NotSet => LifecycleEvent::InitializedBeforeUtcStart,
                InitialClockState::PreviouslySet => LifecycleEvent::InitializedAfterUtcStart,
            };
            logs.push(MetricLog::Lifecycle(e));
        },
        Event::NetworkAvailable => {},
        Event::InitializeRtc { outcome, .. } => {
            let e = match outcome {
                InitializeRtcOutcome::NoDevices => RtcEvent::NoDevices,
                InitializeRtcOutcome::MultipleDevices => RtcEvent::MultipleDevices,
                InitializeRtcOutcome::ConnectionFailed => RtcEvent::ConnectionFailed,
                InitializeRtcOutcome::ReadFailed => RtcEvent::ReadFailed,
                InitializeRtcOutcome::InvalidBeforeBackstop => RtcEvent::ReadInvalidBeforeBackstop,
                InitializeRtcOutcome::Succeeded => RtcEvent::ReadSucceeded,
            };
            logs.push(MetricLog::RealTimeClock(e));
        },
        Event::TimeSourceStatus { .. } => {},
        Event::TimeSourceFailed { role, error } => {
            let e = match error {
                TimeSourceError::LaunchFailed => TimeSourceEvent::RestartedLaunchFailed,
                TimeSourceError::StreamFailed => TimeSourceEvent::RestartedStreamFailed,
                TimeSourceError::CallFailed => TimeSourceEvent::RestartedCallFailed,
                TimeSourceError::SampleTimeOut => TimeSourceEvent::RestartedSampleTimeOut,
            };
            logs.push(
                MetricLog::TimeSourceCount { event: e, role: role_dimension_of(role), experiment, count: 1 },
            );
        },
        Event::SampleRejected { role, error } => {
            let e = match error {
                SampleValidationError::MonotonicInFuture => TimeSourceEvent::SampleRejectedMonotonicInFuture,
                SampleValidationError::MonotonicTooOld => TimeSourceEvent::SampleRejectedMonotonicTooOld,
                SampleValidationError::BeforeBackstop => TimeSourceEvent::SampleRejectedBeforeBackstop,
            };
            logs.push(
                MetricLog::TimeSourceCount { event: e, role: role_dimension_of(role), experiment, count: 1 },
            );
        },
        Event::EstimateUpdated { track, sqrt_covariance, .. } => {
            let t = track_dimension_of(track);
            logs.push(
                MetricLog::TrackCount { event: TrackEvent::EstimatedOffsetUpdated, track: t, experiment, count: 1 },
            );
            logs.push(MetricLog::SqrtCovariance { track: t, experiment, micros: into_micros(sqrt_covariance) });
        },
        Event::ClockCorrection { track, correction, strategy } => {
            let t = track_dimension_of(track);
            let e = match strategy {
                ClockCorrectionStrategy::NotRequired => TrackEvent::CorrectionNotRequired,
                ClockCorrectionStrategy::Step => TrackEvent::CorrectionByStep,
                ClockCorrectionStrategy::NominalRateSlew => TrackEvent::CorrectionByNominalRateSlew,
            };
            let direction = if correction >= 0 { Direction::Positive } else { Direction::Negative };
            let micros = into_micros(correction);
            let magnitude = if micros < 0 { -micros } else { micros };
            logs.push(MetricLog::TrackCount { event: e, track: t, experiment, count: 1 });
            logs.push(MetricLog::ClockCorrection { direction, track: t, experiment, micros: magnitude });
        },
        Event::WriteRtc { outcome } => {
            let e = match outcome {
                WriteRtcOutcome::Failed => RtcEvent::WriteFailed,
                WriteRtcOutcome::Succeeded => RtcEvent::WriteSucceeded,
            };
            logs.push(MetricLog::RealTimeClock(e));
        },
        Event::StartClock { track, source } => {
            if track == Track::Primary {
                let e = match source {
                    StartClockSource::Rtc => LifecycleEvent::StartedUtcFromRtc,
                    StartClockSource::External(_) => LifecycleEvent::StartedUtcFromTimeSource,
                };
                logs.push(MetricLog::Lifecycle(e));
            }
        },
        Event::UpdateClock { .. } => {},
    }
    proof {
        assert(logs@ =~= metric_logs_of(event, experiment));
    }
    logs
}

} // verus!
