use vstd::prelude::*;
use crate::diagnostics::Event;
use crate::enums::{Role, SampleValidationError, Status, TimeSourceError};
use crate::sample::Sample;

verus! {

/// What a time source hands its manager.
#[derive(Clone, Copy, Debug, PartialEq, Eq, Structural)]
pub enum SourceEvent {
    /// The source reports a change of its health.
    StatusChange(Status),
    /// The source reports an observation.
    Sample(Sample),
}

/// The verdict on a sample received at monotonic time `now`, after the last accepted sample
/// at monotonic time `last`, by a manager with the given backstop.
pub open spec fn validation(
    sample: Sample,
    backstop: int,
    last: Option<i64>,
    now: int,
) -> Result<(), SampleValidationError> {
    if sample.utc < backstop {
        Err(SampleValidationError::BeforeBackstop)
    } else if sample.monotonic > now {
        Err(SampleValidationError::MonotonicInFuture)
    } else if last is Some && sample.monotonic <= last->Some_0 {
        Err(SampleValidationError::MonotonicTooOld)
    } else {
        Ok(())
    }
}

/// Validates the observations of one time source into samples, and reports on the source.
pub struct TimeSourceManager {
    role: Role,
    backstop: i64,
    last_accepted: Option<i64>,
}

/// The abstract state of a time source manager.
pub struct SourceModel {
    pub role: Role,
    pub backstop: i64,
    /// The monotonic time of the last accepted sample.
    pub last_accepted: Option<i64>,
}

impl View for TimeSourceManager {
    type V = SourceModel;

    closed spec fn view(&self) -> SourceModel {
        SourceModel { role: self.role, backstop: self.backstop, last_accepted: self.last_accepted }
    }
}

impl TimeSourceManager {
    /// Creates the manager of the source of `role`; no sample before `backstop` is accepted.
    pub fn new(backstop: i64, role: Role) -> (r: TimeSourceManager)
        ensures
            r@ == (SourceModel { role, backstop, last_accepted: None }),
    {
        TimeSourceManager { role, backstop, last_accepted: None }
    }

    /// The role of the managed source.
    pub fn role(&self) -> (r: Role)
        ensures
            r == self@.role,
    {
        self.role
    }

    /// Checks a sample received at monotonic time `now` without accepting it.
    pub fn validate_sample(&self, sample: &Sample, now: i64) -> (r: Result<(), SampleValidationError>)
        ensures
            r == validation(*sample, self@.backstop as int, self@.last_accepted, now as int),
    {
        if sample.utc < self.backstop {
            Err(SampleValidationError::BeforeBackstop)
        } else if sample.monotonic > now {
            Err(SampleValidationError::MonotonicInFuture)
        } else {
            match self.last_accepted {
                Some(last) => {
                    if sample.monotonic <= last {
                        Err(SampleValidationError::MonotonicTooOld)
                    } else {
                        Ok(())
                    }
                },
                None => Ok(()),
            }
        }
    }

    /// Handles an event of the source received at monotonic time `now`. A valid sample is
    /// accepted and returned; a status change or a rejected sample yields the event to record.
    pub fn handle_event(&mut self, event: SourceEvent, now: i64) -> (r: (Option<Sample>, Option<Event>))
        ensures
            final(self)@.role == old(self)@.role,
            final(self)@.backstop == old(self)@.backstop,
            match event {
                SourceEvent::StatusChange(status) => {
                    &&& r == (None::<Sample>, Some(Event::TimeSourceStatus { role: old(self)@.role, status }))
                    &&& final(self)@ == old(self)@
                },
                SourceEvent::Sample(s) => match validation(
                    s,
                    old(self)@.backstop as int,
                    old(self)@.last_accepted,
                    now as int,
                ) {
                    Ok(()) => {
                        &&& r == (Some(s), None::<Event>)
                        &&& final(self)@.last_accepted == Some(s.monotonic)
                    },
                    Err(error) => {
                        &&& r == (None::<Sample>, Some(Event::SampleRejected { role: old(self)@.role, error }))
                        &&& final(self)@ == old(self)@
                    },
                },
            },
    {
        match event {
            SourceEvent::StatusChange(status) => {
                (None, Some(Event::TimeSourceStatus { role: self.role, status }))
            },
            SourceEvent::Sample(s) => match self.validate_sample(&s, now) {
                Ok(()) => {
                    self.last_accepted = Some(s.monotonic);
                    (Some(s), None)
                },
                Err(error) => (None, Some(Event::SampleRejected { role: self.role, error })),
            },
        }
    }

    /// The event that records a failure of the source, which is then restarted.
    pub fn failure_event(&self, error: TimeSourceError) -> (r: Event)
        ensures
            r == (Event::TimeSourceFailed { role: self@.role, error }),
    {
        Event::TimeSourceFailed { role: self.role, error }
    }
}

/// Accepted samples have strictly increasing monotonic times: a sample accepted after another
/// lies later on the monotonic axis.
pub proof fn lemma_accepted_samples_increase(
    m: SourceModel,
    s: Sample,
    now: int,
)
    requires
        validation(s, m.backstop as int, m.last_accepted, now) is Ok,
    ensures
        s.utc >= m.backstop,
        s.monotonic <= now,
        m.last_accepted is Some ==> m.last_accepted->Some_0 < s.monotonic,
{
}

} // verus!
