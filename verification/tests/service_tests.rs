use fnord_status::engine::TransitionOutcome;
use fnord_status::presence::{APIEvent, PresenceState, StateRecord};
use fnord_status::service::PresenceService;

fn closed_at_epoch() -> PresenceService {
    PresenceService::new(StateRecord { state: PresenceState::Closed, last_changed: 0 })
}

#[test]
fn scenario_intern_then_open_then_noop() {
    // Initial state Closed at timestamp 0.
    let (tx, mut rx) = tokio::sync::broadcast::channel::<APIEvent>(1);
    let mut service = closed_at_epoch();
    let sub = service.subscribe();

    // open_intern: state becomes OpenIntern, the event is emitted, the
    // record is updated.
    let outcome = service.request_transition(&tx, PresenceState::OpenIntern, 5, true);
    assert_eq!(outcome, TransitionOutcome::Committed(APIEvent::OpenIntern));
    assert_eq!(service.record().state, PresenceState::OpenIntern);
    assert_eq!(service.record().last_changed, 5);
    assert_eq!(service.recv_event(sub), Some(APIEvent::OpenIntern));
    assert_eq!(rx.try_recv(), Ok(APIEvent::OpenIntern));

    // open: state becomes Open, the event is emitted.
    let outcome = service.request_transition(&tx, PresenceState::Open, 9, true);
    assert_eq!(outcome, TransitionOutcome::Committed(APIEvent::Open));
    assert_eq!(service.record().state, PresenceState::Open);
    assert_eq!(service.record().last_changed, 9);
    assert_eq!(service.recv_event(sub), Some(APIEvent::Open));
    assert_eq!(rx.try_recv(), Ok(APIEvent::Open));

    // open again: no state change, no event, the no-op outcome.
    let outcome = service.request_transition(&tx, PresenceState::Open, 14, true);
    assert_eq!(outcome, TransitionOutcome::AlreadyInState);
    assert_eq!(service.record().state, PresenceState::Open);
    assert_eq!(service.record().last_changed, 9);
    assert_eq!(service.recv_event(sub), None);
    assert!(rx.try_recv().is_err());
}

#[test]
fn the_persisted_record_always_matches_the_visible_one() {
    let (tx, _rx) = tokio::sync::broadcast::channel::<APIEvent>(1);
    let mut service = closed_at_epoch();
    assert_eq!(service.persisted_record(), service.record());
    service.request_transition(&tx, PresenceState::Open, 4, true);
    assert_eq!(service.persisted_record(), service.record());
    service.request_transition(&tx, PresenceState::Open, 5, true);
    assert_eq!(service.persisted_record(), service.record());
    service.request_transition(&tx, PresenceState::Closed, 6, false);
    assert_eq!(service.persisted_record(), service.record());
    assert_eq!(
        service.record(),
        StateRecord { state: PresenceState::Open, last_changed: 4 }
    );
}

#[test]
fn requesting_the_current_state_changes_nothing() {
    let (tx, mut rx) = tokio::sync::broadcast::channel::<APIEvent>(1);
    let mut service = closed_at_epoch();
    let sub = service.subscribe();
    let outcome = service.request_transition(&tx, PresenceState::Closed, 100, true);
    assert_eq!(outcome, TransitionOutcome::AlreadyInState);
    assert_eq!(service.record().state, PresenceState::Closed);
    assert_eq!(service.record().last_changed, 0);
    assert_eq!(service.recv_event(sub), None);
    assert!(rx.try_recv().is_err());
}

#[test]
fn open_close_yields_exactly_two_events_to_a_prompt_subscriber() {
    let (tx, _rx) = tokio::sync::broadcast::channel::<APIEvent>(1);
    let mut service = closed_at_epoch();
    let sub = service.subscribe();
    service.request_transition(&tx, PresenceState::Open, 1, true);
    assert_eq!(service.recv_event(sub), Some(APIEvent::Open));
    service.request_transition(&tx, PresenceState::Closed, 2, true);
    assert_eq!(service.recv_event(sub), Some(APIEvent::Close));
    assert_eq!(service.recv_event(sub), None);
}

#[test]
fn a_lagging_subscriber_sees_only_the_latest_event() {
    let (tx, _rx) = tokio::sync::broadcast::channel::<APIEvent>(1);
    let mut service = closed_at_epoch();
    let sub = service.subscribe();
    // The subscriber sleeps through two transitions; the first event is
    // replaced, not queued.
    service.request_transition(&tx, PresenceState::Open, 1, true);
    service.request_transition(&tx, PresenceState::Closed, 2, true);
    assert_eq!(service.recv_event(sub), Some(APIEvent::Close));
    assert_eq!(service.recv_event(sub), None);
    // What it did observe matches the current persisted state.
    assert_eq!(service.record().state, PresenceState::Closed);
}

#[test]
fn racing_requests_commit_once_and_noop_once() {
    let (tx, mut rx) = tokio::sync::broadcast::channel::<APIEvent>(1);
    let mut service = closed_at_epoch();
    let sub = service.subscribe();
    // Two requests for the same target, linearized by the engine's lock.
    let first = service.request_transition(&tx, PresenceState::Open, 3, true);
    let second = service.request_transition(&tx, PresenceState::Open, 4, true);
    assert_eq!(first, TransitionOutcome::Committed(APIEvent::Open));
    assert_eq!(second, TransitionOutcome::AlreadyInState);
    assert_eq!(service.record().last_changed, 3);
    // Exactly one event came out, on the model bus and on the live channel.
    assert_eq!(service.recv_event(sub), Some(APIEvent::Open));
    assert_eq!(service.recv_event(sub), None);
    assert_eq!(rx.try_recv(), Ok(APIEvent::Open));
    assert!(rx.try_recv().is_err());
}

#[test]
fn a_failed_durable_write_is_fatal_and_leaves_no_trace() {
    let (tx, mut rx) = tokio::sync::broadcast::channel::<APIEvent>(1);
    let mut service = closed_at_epoch();
    let sub = service.subscribe();
    let outcome = service.request_transition(&tx, PresenceState::Open, 8, false);
    assert_eq!(outcome, TransitionOutcome::PersistenceFailed);
    assert_eq!(service.record().state, PresenceState::Closed);
    assert_eq!(service.record().last_changed, 0);
    assert_eq!(service.recv_event(sub), None);
    assert!(rx.try_recv().is_err());
}

#[test]
fn the_live_channel_replaces_a_pending_event_for_a_laggard() {
    let (tx, mut rx) = tokio::sync::broadcast::channel::<APIEvent>(1);
    let mut service = closed_at_epoch();
    // Capacity one: the second commit displaces the unconsumed first event.
    service.request_transition(&tx, PresenceState::Open, 1, true);
    service.request_transition(&tx, PresenceState::Closed, 2, true);
    // The laggard is told it missed something, then gets the latest event.
    assert!(rx.try_recv().is_err());
    assert_eq!(rx.try_recv(), Ok(APIEvent::Close));
}
