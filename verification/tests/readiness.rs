use wasi_tokio::error::Error;
use wasi_tokio::kind::Kind;
use wasi_tokio::resource::{RegisterOutcome, Resource, Verdict};
use wasi_tokio::Direction;

#[test]
fn denied_registration_counts_as_ready() {
    // A reactor that rejects the handle's kind with a permission-class
    // error makes the wait succeed at once, with nothing registered.
    let mut f = Resource::from_handle(Kind::RegularFile, 3);
    assert!(f.needs_registration(Direction::Read));
    let v = f.apply_register_outcome(Direction::Read, RegisterOutcome::PermissionDenied);
    assert_eq!(v, Verdict::Ready);
    assert_eq!(f.registration_count(), 0);
    assert!(f.needs_registration(Direction::Read));
}

#[test]
fn other_registration_failures_surface_unchanged() {
    let mut f = Resource::from_handle(Kind::RegularFile, 3);
    let v = f.apply_register_outcome(Direction::Write, RegisterOutcome::Failed(22));
    assert_eq!(v, Verdict::Fail(Error::Io(22)));
    assert_eq!(f.registration_count(), 0);
}

#[test]
fn wait_suspends_resolves_and_suspends_again() {
    let mut s = Resource::from_handle(Kind::StreamSocket, 5);

    // First wait: register, then suspend, because no data is ready.
    assert!(s.needs_registration(Direction::Read));
    let v = s.apply_register_outcome(Direction::Read, RegisterOutcome::Registered);
    assert_eq!(v, Verdict::Suspend);
    assert!(!s.try_complete_wait(Direction::Read));

    // The peer writes; the reactor signals; the wait resolves.
    s.note_reactor_event(Direction::Read);
    assert!(s.try_complete_wait(Direction::Read));

    // The next wait reuses the registration but must suspend again: the
    // completed wait cleared the readiness flag rather than leaving it
    // stale.
    assert!(!s.needs_registration(Direction::Read));
    assert!(!s.try_complete_wait(Direction::Read));
}

#[test]
fn directions_are_independent() {
    let mut s = Resource::from_handle(Kind::StreamSocket, 5);
    let v = s.apply_register_outcome(Direction::Write, RegisterOutcome::Registered);
    assert_eq!(v, Verdict::Suspend);
    assert!(s.needs_registration(Direction::Read));
    assert!(!s.needs_registration(Direction::Write));
    s.note_reactor_event(Direction::Write);
    assert!(s.try_complete_wait(Direction::Write));
}

#[test]
fn cancelled_wait_releases_its_registration() {
    let mut s = Resource::from_handle(Kind::StreamSocket, 5);
    s.apply_register_outcome(Direction::Read, RegisterOutcome::Registered);
    assert_eq!(s.registration_count(), 1);
    s.cancel_wait(Direction::Read);
    assert_eq!(s.registration_count(), 0);
    assert!(s.needs_registration(Direction::Read));
}

#[test]
fn dropping_restores_the_registration_baseline() {
    let mut s = Resource::from_handle(Kind::StreamSocket, 5);
    let baseline = s.registration_count();
    assert_eq!(baseline, 0);

    s.apply_register_outcome(Direction::Read, RegisterOutcome::Registered);
    s.apply_register_outcome(Direction::Write, RegisterOutcome::Registered);
    assert_eq!(s.registration_count(), 2);

    // Dropping the resource mid-wait tears every registration down; the
    // tracked count returns to the pre-wait baseline and the resource
    // itself is uncorrupted.
    s.release_registrations();
    assert_eq!(s.registration_count(), baseline);
    assert_eq!(s.kind(), Kind::StreamSocket);
    assert_eq!(s.raw_handle(), 5);
}
