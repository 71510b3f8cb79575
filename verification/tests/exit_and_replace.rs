//! The child-exit watcher's one-shot state machine, and the replaceable
//! container.

use unblocked::event::EventDesc;
use unblocked::replaceable::Replaceable;
use unblocked::watcher::{ChildEvent, ChildExitWatcher, WatchError, PTY_CHILD_EVENT_TOKEN};

#[test]
fn rejected_wait_registration_is_an_error() {
    let r = ChildExitWatcher::new(PTY_CHILD_EVENT_TOKEN, false);
    assert!(matches!(r, Err(WatchError::WaitRejected)));
}

#[test]
fn exit_fires_one_event_and_one_packet() {
    // Register a watcher under event token 42, then let the child exit.
    let mut w = ChildExitWatcher::new(42, true).unwrap();
    assert_eq!(w.try_recv(), None);
    let packet = w.on_wait_callback(false);
    // Exactly one packet, bearing the reserved token, readable.
    let packet = packet.unwrap();
    assert_eq!(packet.event, EventDesc::readable(42));
    // Exactly one `Exited` event on the channel.
    assert_eq!(w.try_recv(), Some(ChildEvent::Exited));
    assert_eq!(w.try_recv(), None);
}

#[test]
fn second_firing_yields_nothing() {
    let mut w = ChildExitWatcher::new(1, true).unwrap();
    assert!(w.on_wait_callback(false).is_some());
    // A second kill attempt never yields a second event.
    assert_eq!(w.on_wait_callback(false), None);
    assert_eq!(w.try_recv(), Some(ChildEvent::Exited));
    assert_eq!(w.try_recv(), None);
}

#[test]
fn timed_out_callback_does_nothing() {
    let mut w = ChildExitWatcher::new(1, true).unwrap();
    assert_eq!(w.on_wait_callback(true), None);
    assert_eq!(w.try_recv(), None);
    // The wait is still armed: a genuine firing still goes through.
    assert!(w.on_wait_callback(false).is_some());
}

#[test]
fn teardown_releases_the_registration() {
    let mut w = ChildExitWatcher::new(1, true).unwrap();
    assert!(!w.is_unregistered());
    w.unregister();
    assert!(w.is_unregistered());
    // A late callback after teardown queues nothing.
    assert_eq!(w.on_wait_callback(false), None);
    assert_eq!(w.try_recv(), None);
}

#[test]
fn queued_event_survives_teardown() {
    let mut w = ChildExitWatcher::new(1, true).unwrap();
    assert!(w.on_wait_callback(false).is_some());
    w.unregister();
    assert_eq!(w.try_recv(), Some(ChildEvent::Exited));
}

#[test]
fn replaceable_replaces_in_place() {
    let mut r = Replaceable::new(5u32);
    assert_eq!(*r.get(), 5);
    r.replace_with(|x| x + 1);
    assert_eq!(*r.get(), 6);
    *r.get_mut() = 9;
    assert_eq!(*r.get(), 9);
}
