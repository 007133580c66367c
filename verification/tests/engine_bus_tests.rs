use fnord_status::bus::EventBus;
use fnord_status::engine::{StateEngine, TransitionPlan};
use fnord_status::presence::{APIEvent, PresenceState, StateRecord};

#[test]
fn planning_the_current_state_is_a_noop() {
    let engine = StateEngine::new(StateRecord { state: PresenceState::Open, last_changed: 7 });
    assert_eq!(engine.plan_transition(PresenceState::Open, 9), TransitionPlan::NoOp);
}

#[test]
fn planning_a_change_names_the_record_to_persist_and_the_event() {
    let engine = StateEngine::new(StateRecord { state: PresenceState::Closed, last_changed: 7 });
    let plan = engine.plan_transition(PresenceState::OpenIntern, 9);
    assert_eq!(
        plan,
        TransitionPlan::Commit {
            record: StateRecord { state: PresenceState::OpenIntern, last_changed: 9 },
            event: APIEvent::OpenIntern,
        }
    );
}

#[test]
fn committing_flips_the_record_and_returns_the_event() {
    let mut engine =
        StateEngine::new(StateRecord { state: PresenceState::Closed, last_changed: 7 });
    let event = engine.commit_transition(PresenceState::Open, 9);
    assert_eq!(event, APIEvent::Open);
    assert_eq!(engine.current(), StateRecord { state: PresenceState::Open, last_changed: 9 });
}

#[test]
fn every_subscriber_gets_a_published_event_once() {
    let mut bus = EventBus::new();
    let a = bus.subscribe();
    let b = bus.subscribe();
    assert_eq!(bus.subscriber_count(), 2);
    bus.publish(APIEvent::Open);
    assert_eq!(bus.recv(a), Some(APIEvent::Open));
    assert_eq!(bus.recv(b), Some(APIEvent::Open));
    assert_eq!(bus.recv(a), None);
    assert_eq!(bus.recv(b), None);
}

#[test]
fn publishing_replaces_an_unconsumed_event() {
    let mut bus = EventBus::new();
    let a = bus.subscribe();
    bus.publish(APIEvent::Open);
    bus.publish(APIEvent::Close);
    // The slot held the pending Open; it was replaced, never queued.
    assert_eq!(bus.recv(a), Some(APIEvent::Close));
    assert_eq!(bus.recv(a), None);
}

#[test]
fn a_late_subscriber_sees_nothing_from_before() {
    let mut bus = EventBus::new();
    let a = bus.subscribe();
    bus.publish(APIEvent::Open);
    let b = bus.subscribe();
    assert_eq!(bus.recv(b), None);
    assert_eq!(bus.recv(a), Some(APIEvent::Open));
}
