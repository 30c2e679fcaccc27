use timekeeper::diagnostics::Event;
use timekeeper::enums::{Role, SampleValidationError, Status, TimeSourceError, Track, UtcSource};
use timekeeper::notifier::Notifier;
use timekeeper::sample::Sample;
use timekeeper::time_source_manager::{SourceEvent, TimeSourceManager};

const BACKSTOP: i64 = 1_000_000;

#[test]
fn status_changes_are_reported() {
    let mut manager = TimeSourceManager::new(BACKSTOP, Role::Monitor);
    assert_eq!(
        manager.handle_event(SourceEvent::StatusChange(Status::Network), 10),
        (None, Some(Event::TimeSourceStatus { role: Role::Monitor, status: Status::Network }))
    );
}

#[test]
fn samples_are_validated() {
    let mut manager = TimeSourceManager::new(BACKSTOP, Role::Primary);
    let rejected = |error| Some(Event::SampleRejected { role: Role::Primary, error });

    let before_backstop = Sample::new(BACKSTOP - 1, 50, 1);
    assert_eq!(
        manager.handle_event(SourceEvent::Sample(before_backstop), 100),
        (None, rejected(SampleValidationError::BeforeBackstop))
    );
    let in_future = Sample::new(BACKSTOP, 101, 1);
    assert_eq!(
        manager.handle_event(SourceEvent::Sample(in_future), 100),
        (None, rejected(SampleValidationError::MonotonicInFuture))
    );
    let good = Sample::new(BACKSTOP, 100, 1);
    assert_eq!(manager.handle_event(SourceEvent::Sample(good), 100), (Some(good), None));
    let same_time = Sample::new(BACKSTOP + 5, 100, 1);
    assert_eq!(
        manager.handle_event(SourceEvent::Sample(same_time), 200),
        (None, rejected(SampleValidationError::MonotonicTooOld))
    );
    let later = Sample::new(BACKSTOP + 5, 101, 1);
    assert_eq!(manager.validate_sample(&later, 200), Ok(()));
    assert_eq!(manager.handle_event(SourceEvent::Sample(later), 200), (Some(later), None));
}

#[test]
fn failures_are_reported_with_role() {
    let manager = TimeSourceManager::new(BACKSTOP, Role::Monitor);
    assert_eq!(manager.role(), Role::Monitor);
    assert_eq!(
        manager.failure_event(TimeSourceError::CallFailed),
        Event::TimeSourceFailed { role: Role::Monitor, error: TimeSourceError::CallFailed }
    );
    assert_eq!(Track::from_role(Role::Monitor), Track::Monitor);
    assert_eq!(Track::from_role(Role::Primary), Track::Primary);
}

#[test]
fn watchers_see_each_change_once() {
    let mut notifier = Notifier::new(UtcSource::Backstop);
    assert_eq!(notifier.watch(None), Some(UtcSource::Backstop));
    notifier.set_source(UtcSource::External);
    assert_eq!(notifier.watch(Some(UtcSource::Backstop)), Some(UtcSource::External));
    notifier.set_source(UtcSource::External);
    assert_eq!(notifier.watch(Some(UtcSource::External)), None);
}
