use timekeeper::diagnostics::Event;
use timekeeper::enums::{
    ClockCorrectionStrategy, ClockUpdateReason, InitialClockState, InitializeRtcOutcome, Role,
    SampleValidationError, StartClockSource, Status, TimeSourceError, Track, WriteRtcOutcome,
};
use timekeeper::metrics::{
    metric_logs, Direction, Experiment, LifecycleEvent, MetricLog, RoleDimension, RtcEvent,
    TimeSourceEvent, TrackDimension, TrackEvent,
};

const TEST_EXPERIMENT: Experiment = Experiment::B;

#[test]
fn record_initialization_events() {
    assert_eq!(
        metric_logs(Event::Initialized { clock_state: InitialClockState::NotSet }, TEST_EXPERIMENT),
        vec![MetricLog::Lifecycle(LifecycleEvent::InitializedBeforeUtcStart)]
    );
    assert_eq!(metric_logs(Event::NetworkAvailable, TEST_EXPERIMENT), vec![]);
}

#[test]
fn record_clock_events() {
    let monitor = Event::StartClock {
        track: Track::Monitor,
        source: StartClockSource::External(Role::Monitor),
    };
    assert_eq!(metric_logs(monitor, TEST_EXPERIMENT), vec![]);
    let primary = Event::StartClock {
        track: Track::Primary,
        source: StartClockSource::External(Role::Primary),
    };
    assert_eq!(
        metric_logs(primary, TEST_EXPERIMENT),
        vec![MetricLog::Lifecycle(LifecycleEvent::StartedUtcFromTimeSource)]
    );
    let update = Event::UpdateClock { track: Track::Primary, reason: ClockUpdateReason::TimeStep };
    assert_eq!(metric_logs(update, TEST_EXPERIMENT), vec![]);
}

#[test]
fn record_rtc_events() {
    let read = Event::InitializeRtc { outcome: InitializeRtcOutcome::Succeeded, time: None };
    assert_eq!(
        metric_logs(read, TEST_EXPERIMENT),
        vec![MetricLog::RealTimeClock(RtcEvent::ReadSucceeded)]
    );
    let write = Event::WriteRtc { outcome: WriteRtcOutcome::Failed };
    assert_eq!(
        metric_logs(write, TEST_EXPERIMENT),
        vec![MetricLog::RealTimeClock(RtcEvent::WriteFailed)]
    );
}

#[test]
fn record_time_source_events() {
    let rejected = Event::SampleRejected {
        role: Role::Primary,
        error: SampleValidationError::MonotonicTooOld,
    };
    assert_eq!(
        metric_logs(rejected, TEST_EXPERIMENT),
        vec![MetricLog::TimeSourceCount {
            event: TimeSourceEvent::SampleRejectedMonotonicTooOld,
            role: RoleDimension::Primary,
            experiment: TEST_EXPERIMENT,
            count: 1,
        }]
    );
    let failed = Event::TimeSourceFailed { role: Role::Monitor, error: TimeSourceError::CallFailed };
    assert_eq!(
        metric_logs(failed, TEST_EXPERIMENT),
        vec![MetricLog::TimeSourceCount {
            event: TimeSourceEvent::RestartedCallFailed,
            role: RoleDimension::Monitor,
            experiment: TEST_EXPERIMENT,
            count: 1,
        }]
    );
    let status = Event::TimeSourceStatus { role: Role::Primary, status: Status::Healthy };
    assert_eq!(metric_logs(status, TEST_EXPERIMENT), vec![]);
}

#[test]
fn record_time_track_events() {
    let estimate = Event::EstimateUpdated {
        track: Track::Primary,
        offset: 333_000_000_000,
        sqrt_covariance: 55_555_000,
    };
    assert_eq!(
        metric_logs(estimate, TEST_EXPERIMENT),
        vec![
            MetricLog::TrackCount {
                event: TrackEvent::EstimatedOffsetUpdated,
                track: TrackDimension::Primary,
                experiment: TEST_EXPERIMENT,
                count: 1,
            },
            MetricLog::SqrtCovariance {
                track: TrackDimension::Primary,
                experiment: TEST_EXPERIMENT,
                micros: 55555,
            },
        ]
    );
    let correction = Event::ClockCorrection {
        track: Track::Monitor,
        correction: -777_000,
        strategy: ClockCorrectionStrategy::NominalRateSlew,
    };
    assert_eq!(
        metric_logs(correction, TEST_EXPERIMENT),
        vec![
            MetricLog::TrackCount {
                event: TrackEvent::CorrectionByNominalRateSlew,
                track: TrackDimension::Monitor,
                experiment: TEST_EXPERIMENT,
                count: 1,
            },
            MetricLog::ClockCorrection {
                direction: Direction::Negative,
                track: TrackDimension::Monitor,
                experiment: TEST_EXPERIMENT,
                micros: 777,
            },
        ]
    );
}

#[test]
fn correction_micros_round_toward_zero() {
    let correction = Event::ClockCorrection {
        track: Track::Primary,
        correction: -1_999,
        strategy: ClockCorrectionStrategy::Step,
    };
    assert_eq!(
        metric_logs(correction, Experiment::Control)[1],
        MetricLog::ClockCorrection {
            direction: Direction::Negative,
            track: TrackDimension::Primary,
            experiment: Experiment::Control,
            micros: 1,
        }
    );
    let zero = Event::ClockCorrection {
        track: Track::Primary,
        correction: 0,
        strategy: ClockCorrectionStrategy::NotRequired,
    };
    assert_eq!(
        metric_logs(zero, Experiment::A)[0],
        MetricLog::TrackCount {
            event: TrackEvent::CorrectionNotRequired,
            track: TrackDimension::Primary,
            experiment: Experiment::A,
            count: 1,
        }
    );
}
