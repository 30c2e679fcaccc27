use vstd::prelude::*;
use crate::clock::{installed_offset, within_bound, ClockDetails};
use crate::diagnostics::Event;
use crate::enums::{
    ClockCorrectionStrategy, ClockUpdateReason, Role, StartClockSource, Track, UtcSource,
    WriteRtcOutcome,
};
use crate::estimator::{
    abs, estimate_event, estimate_utc, initial_filter, saturate, saturate_i128, updated_filter,
    Estimator, FilterModel,
};
use crate::sample::Sample;

verus! {

/// The smallest mismatch, in nanoseconds, between the exposed clock and the estimate that
/// leads to a clock update: 1 ms.
pub const CLOCK_UPDATE_THRESHOLD: i64 = 1_000_000;

/// One step of work that an iteration of the clock manager asks its owner to perform,
/// in order.
#[derive(Clone, Copy, Debug, PartialEq, Eq, Structural)]
pub enum Action {
    /// Set the exposed clock to the monotonic time now plus `offset` nanoseconds.
    SetClock { offset: i64 },
    /// Record a diagnostics event.
    Record(Event),
    /// Write `utc` to the real time clock, best effort, and record the outcome.
    WriteRtc { utc: i64 },
    /// Announce the provenance of the exposed clock's UTC to watchers.
    Notify(UtcSource),
}

/// The abstract state of a clock manager.
pub struct ManagerModel {
    pub track: Track,
    pub role: Role,
    /// The filter of the track's estimator, once the first sample has arrived.
    pub estimator: Option<FilterModel>,
    /// Whether the exposed clock is running (has been started).
    pub clock_started: bool,
    pub has_rtc: bool,
    pub has_notifier: bool,
}

/// The filter after a sample: seeded by it if there was none, else updated with it.
pub open spec fn next_filter(estimator: Option<FilterModel>, sample: Sample) -> FilterModel {
    match estimator {
        Some(f) => updated_filter(f, sample),
        None => initial_filter(sample),
    }
}

/// The UTC minus monotonic offset the estimate `f` asks for at `reference_monotonic`.
pub open spec fn desired_offset(f: FilterModel, reference_monotonic: int) -> int {
    saturate(estimate_utc(f, reference_monotonic) - reference_monotonic)
}

/// How a mismatch of `correction` nanoseconds is resolved.
pub open spec fn correction_strategy(correction: int) -> ClockCorrectionStrategy {
    if abs(correction) < CLOCK_UPDATE_THRESHOLD {
        ClockCorrectionStrategy::NotRequired
    } else {
        ClockCorrectionStrategy::Step
    }
}

/// The actions that start or correct the exposed clock toward the estimate `f`.
pub open spec fn clock_actions(
    m: ManagerModel,
    f: FilterModel,
    reference_monotonic: int,
    details: ClockDetails,
) -> Seq<Action> {
    let desired = desired_offset(f, reference_monotonic);
    if !m.clock_started {
        seq![
            Action::SetClock { offset: desired as i64 },
            Action::Record(Event::StartClock { track: m.track, source: StartClockSource::External(m.role) }),
        ]
    } else {
        let correction = saturate(desired - installed_offset(details));
        let strategy = correction_strategy(correction);
        let record = Action::Record(
            Event::ClockCorrection { track: m.track, correction: correction as i64, strategy },
        );
        if strategy == ClockCorrectionStrategy::NotRequired {
            seq![record]
        } else {
            seq![
                record,
                Action::SetClock { offset: desired as i64 },
                Action::Record(Event::UpdateClock { track: m.track, reason: ClockUpdateReason::TimeStep }),
            ]
        }
    }
}

/// The actions of one iteration: report the new estimate, start or correct the clock, write
/// the real time clock if there is one, and notify if there is a notifier.
pub open spec fn iteration_actions(
    m: ManagerModel,
    sample: Sample,
    reference_monotonic: int,
    details: ClockDetails,
) -> Seq<Action> {
    let f = next_filter(m.estimator, sample);
    let rtc = if m.has_rtc {
        seq![Action::WriteRtc { utc: estimate_utc(f, reference_monotonic) as i64 }]
    } else {
        Seq::empty()
    };
    let notify = if m.has_notifier { seq![Action::Notify(UtcSource::External)] } else { Seq::empty() };
    seq![Action::Record(estimate_event(m.track, f))] + clock_actions(m, f, reference_monotonic, details)
        + rtc + notify
}

/// The state after an iteration: the estimator holds the sample and the clock runs.
pub open spec fn next_model(m: ManagerModel, sample: Sample) -> ManagerModel {
    ManagerModel { estimator: Some(next_filter(m.estimator, sample)), clock_started: true, ..m }
}

/// Maintains the exposed clock of one track from the samples of its time source.
pub struct ClockManager {
    track: Track,
    role: Role,
    estimator: Option<Estimator>,
    clock_started: bool,
    has_rtc: bool,
    has_notifier: bool,
}

impl View for ClockManager {
    type V = ManagerModel;

    closed spec fn view(&self) -> ManagerModel {
        ManagerModel {
            track: self.track,
            role: self.role,
            estimator: match self.estimator {
                Some(e) => Some(e@.filter),
                None => None,
            },
            clock_started: self.clock_started,
            has_rtc: self.has_rtc,
            has_notifier: self.has_notifier,
        }
    }
}

impl ClockManager {
    /// Creates the manager of `track`, fed by the time source of `role`, for a clock with
    /// the given details. Only the primary track writes the real time clock and notifies
    /// watchers, and only where it has them.
    pub fn new(
        track: Track,
        role: Role,
        details: &ClockDetails,
        rtc: bool,
        notifier: bool,
    ) -> (r: ClockManager)
        ensures
            r@ == (ManagerModel {
                track,
                role,
                estimator: None,
                clock_started: crate::clock::is_started(*details),
                has_rtc: rtc && track == Track::Primary,
                has_notifier: notifier && track == Track::Primary,
            }),
    {
        let primary = match track {
            Track::Primary => true,
            Track::Monitor => false,
        };
        ClockManager {
            track,
            role,
            estimator: None,
            clock_started: details.clock_started(),
            has_rtc: rtc && primary,
            has_notifier: notifier && primary,
        }
    }

    /// Processes one sample at monotonic time `reference_monotonic`, with the exposed clock
    /// in the state `details` describes, and returns the actions to perform in order.
    pub fn handle_sample(
        &mut self,
        sample: Sample,
        reference_monotonic: i64,
        details: &ClockDetails,
    ) -> (r: Vec<Action>)
        ensures
            final(self)@ == next_model(old(self)@, sample),
            r@ == iteration_actions(old(self)@, sample, reference_monotonic as int, *details),
    {
        let ghost m = self@;
        let estimator = match self.estimator.take() {
            Some(mut e) => {
                e.update(sample);
                e
            },
            None => Estimator::new(self.track, sample),
        };
        let ghost f = next_filter(m.estimator, sample);
        assert(estimator@.filter == f);

        let mut actions: Vec<Action> = Vec::new();
        actions.push(
            Action::Record(
                Event::EstimateUpdated {
                    track: self.track,
                    offset: estimator.offset(),
                    sqrt_covariance: estimator.sqrt_covariance(),
                },
            ),
        );

        let estimate = estimator.estimate(reference_monotonic);
        let desired = saturate_i128(estimate as i128 - reference_monotonic as i128);
        if !self.clock_started {
            actions.push(Action::SetClock { offset: desired });
            actions.push(
                Action::Record(
                    Event::StartClock { track: self.track, source: StartClockSource::External(self.role) },
                ),
            );
        } else {
            let correction = saturate_i128(desired as i128 - details.clock_offset() as i128);
            if within_bound(correction, CLOCK_UPDATE_THRESHOLD) {
                actions.push(
                    Action::Record(
                        Event::ClockCorrection {
                            track: self.track,
                            correction,
                            strategy: ClockCorrectionStrategy::NotRequired,
                        },
                    ),
                );
            } else {
                actions.push(
                    Action::Record(
                        Event::ClockCorrection {
                            track: self.track,
                            correction,
                            strategy: ClockCorrectionStrategy::Step,
                        },
                    ),
                );
                actions.push(Action::SetClock { offset: desired });
                actions.push(
                    Action::Record(
                        Event::UpdateClock { track: self.track, reason: ClockUpdateReason::TimeStep },
                    ),
                );
            }
        }
        let ghost after_clock = actions@;
        assert(after_clock =~= seq![Action::Record(estimate_event(m.track, f))] + clock_actions(
            m,
            f,
            reference_monotonic as int,
            *details,
        ));

        if self.has_rtc {
            actions.push(Action::WriteRtc { utc: estimate });
        }
        if self.has_notifier {
            actions.push(Action::Notify(UtcSource::External));
        }
        self.estimator = Some(estimator);
        self.clock_started = true;
        assert(actions@ =~= iteration_actions(m, sample, reference_monotonic as int, *details));
        actions
    }

    /// The event that records the outcome of a real time clock write.
    pub fn write_rtc_event(succeeded: bool) -> (r: Event)
        ensures
            r == (Event::WriteRtc {
                outcome: if succeeded { WriteRtcOutcome::Succeeded } else { WriteRtcOutcome::Failed },
            }),
    {
        Event::WriteRtc {
            outcome: if succeeded { WriteRtcOutcome::Succeeded } else { WriteRtcOutcome::Failed },
        }
    }
}

/// Whether an action records an estimate update.
pub open spec fn reports_estimate(a: Action) -> bool {
    match a {
        Action::Record(Event::EstimateUpdated { .. }) => true,
        _ => false,
    }
}

/// Whether an action records the start or the correction of the exposed clock.
pub open spec fn reports_clock_decision(a: Action) -> bool {
    match a {
        Action::Record(Event::StartClock { .. }) => true,
        Action::Record(Event::ClockCorrection { .. }) => true,
        _ => false,
    }
}

/// Whether an action sets the exposed clock.
pub open spec fn sets_clock(a: Action) -> bool {
    match a {
        Action::SetClock { .. } => true,
        _ => false,
    }
}

/// The mismatch a running clock with these details has with the estimate `f`.
pub open spec fn clock_correction(f: FilterModel, reference_monotonic: int, details: ClockDetails) -> int {
    saturate(desired_offset(f, reference_monotonic) - installed_offset(details))
}

/// After the first sample, the clock is started at exactly the offset the sample declares:
/// set at any monotonic time `t` within the window `[before, after]` of the iteration, it
/// reads a UTC within `[before, after]` plus that offset.
pub proof fn lemma_first_sample_starts_clock(
    m: ManagerModel,
    sample: Sample,
    reference_monotonic: int,
    details: ClockDetails,
    before: int,
    after: int,
)
    requires
        m.estimator is None,
        !m.clock_started,
        i64::MIN <= crate::sample::sample_offset(sample) <= i64::MAX,
        i64::MIN <= reference_monotonic + crate::sample::sample_offset(sample) <= i64::MAX,
    ensures
        iteration_actions(m, sample, reference_monotonic, details)[1] == (Action::SetClock {
            offset: crate::sample::sample_offset(sample) as i64,
        }),
        forall|t: int|
            before <= t <= after ==> before + crate::sample::sample_offset(sample) <= #[trigger] (t
                + crate::sample::sample_offset(sample)) <= after + crate::sample::sample_offset(sample),
{
}

/// Once the clock runs, an iteration never makes it read an earlier UTC at a later monotonic
/// time, except through a step correction of negative sign, which it records.
pub proof fn lemma_no_silent_regression(
    m: ManagerModel,
    sample: Sample,
    reference_monotonic: int,
    details: ClockDetails,
    t1: int,
    t2: int,
)
    requires
        m.clock_started,
        t1 <= t2,
    ensures
        ({
            let f = next_filter(m.estimator, sample);
            let c = clock_correction(f, reference_monotonic, details);
            let acts = iteration_actions(m, sample, reference_monotonic, details);
            let offset_after = if correction_strategy(c) == ClockCorrectionStrategy::Step {
                desired_offset(f, reference_monotonic)
            } else {
                installed_offset(details)
            };
            t2 + offset_after < t1 + installed_offset(details) ==> {
                &&& c < 0
                &&& acts[1] == Action::Record(Event::ClockCorrection {
                    track: m.track,
                    correction: c as i64,
                    strategy: ClockCorrectionStrategy::Step,
                })
                &&& acts[2] == Action::SetClock { offset: offset_after as i64 }
            }
        }),
{
}

/// A running clock is left alone exactly when its mismatch with the estimate is below the
/// threshold, and the mismatch is recorded either way.
pub proof fn lemma_threshold_idempotence(
    m: ManagerModel,
    sample: Sample,
    reference_monotonic: int,
    details: ClockDetails,
)
    requires
        m.clock_started,
    ensures
        ({
            let f = next_filter(m.estimator, sample);
            let c = clock_correction(f, reference_monotonic, details);
            let acts = iteration_actions(m, sample, reference_monotonic, details);
            &&& acts[1] == Action::Record(Event::ClockCorrection {
                track: m.track,
                correction: c as i64,
                strategy: correction_strategy(c),
            })
            &&& (forall|i: int| 0 <= i < acts.len() ==> !sets_clock(#[trigger] acts[i]))
                <==> abs(c) < CLOCK_UPDATE_THRESHOLD
        }),
{
    let f = next_filter(m.estimator, sample);
    let c = clock_correction(f, reference_monotonic, details);
    let acts = iteration_actions(m, sample, reference_monotonic, details);
    if abs(c) >= CLOCK_UPDATE_THRESHOLD {
        assert(sets_clock(acts[2]));
    } else {
        assert forall|i: int| 0 <= i < acts.len() implies !sets_clock(#[trigger] acts[i]) by {
            if i >= 2 {
                assert(!sets_clock(acts[i]));
            }
        }
    }
}

/// Every iteration records exactly one estimate update, first, before the event that
/// records the start or correction of the clock.
pub proof fn lemma_estimate_reported_first(
    m: ManagerModel,
    sample: Sample,
    reference_monotonic: int,
    details: ClockDetails,
)
    ensures
        ({
            let acts = iteration_actions(m, sample, reference_monotonic, details);
            &&& acts[0] == Action::Record(estimate_event(m.track, next_filter(m.estimator, sample)))
            &&& forall|i: int| 1 <= i < acts.len() ==> !reports_estimate(#[trigger] acts[i])
            &&& exists|j: int| 1 <= j < acts.len() && reports_clock_decision(#[trigger] acts[j])
        }),
{
    let acts = iteration_actions(m, sample, reference_monotonic, details);
    if m.clock_started {
        assert(reports_clock_decision(acts[1]));
    } else {
        assert(reports_clock_decision(acts[2]));
    }
}

/// The write of the real time clock comes after the clock has been started or corrected,
/// and the notification after it is fixed before its outcome is known: a failed write
/// changes neither.
pub proof fn lemma_rtc_isolation(
    m: ManagerModel,
    sample: Sample,
    reference_monotonic: int,
    details: ClockDetails,
)
    requires
        m.has_rtc,
    ensures
        ({
            let f = next_filter(m.estimator, sample);
            let acts = iteration_actions(m, sample, reference_monotonic, details);
            let k = if m.has_notifier { acts.len() - 2 } else { acts.len() - 1 };
            &&& acts[k] == Action::WriteRtc { utc: estimate_utc(f, reference_monotonic) as i64 }
            &&& exists|j: int| 1 <= j < k && reports_clock_decision(#[trigger] acts[j])
            &&& m.has_notifier ==> acts[k + 1] == Action::Notify(UtcSource::External)
        }),
{
    let acts = iteration_actions(m, sample, reference_monotonic, details);
    if m.clock_started {
        assert(reports_clock_decision(acts[1]));
    } else {
        assert(reports_clock_decision(acts[2]));
    }
}

} // verus!
