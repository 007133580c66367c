//! The presence service: the state engine, the durable record, and the
//! fan-out bus composed into one exclusively-owned object, driven one
//! request at a time under the caller's lock.
//!
//! Each transition request runs the whole read-validate-persist-flip-publish
//! sequence: the caller performs the durable write of the planned record
//! between planning and commit and reports whether it succeeded, so the
//! persisted record is never behind a visible state. Publishing is best
//! effort and never fails a request that has already committed.

use vstd::prelude::*;

use crate::bus::EventBus;
use crate::engine::{spec_plan, StateEngine, TransitionOutcome, TransitionPlan};
use crate::presence::{
    spec_event_for, spec_state_of_event, APIEvent, PresenceState, StateRecord,
};
use crate::publish::send_event;
use tokio::sync::broadcast::Sender;

verus! {

/// The service's whole observable state: the in-memory record, the durable
/// record, and each subscriber's pending event.
#[verifier::ext_equal]
pub struct ServiceView {
    pub record: StateRecord,
    pub persisted: StateRecord,
    pub slots: Seq<Option<APIEvent>>,
}

impl ServiceView {
    /// What always holds of a service: the durable record agrees with the
    /// in-memory one, and any event still pending on the bus announces
    /// exactly the current state, so a lagging subscriber is never misled.
    pub open spec fn wf(self) -> bool {
        &&& self.persisted == self.record
        &&& forall|i: int|
            0 <= i < self.slots.len() ==> ((#[trigger] self.slots[i]) matches Some(e)
                ==> e == spec_event_for(self.record.state))
    }
}

/// What one transition request does to the service: a request for the
/// current state changes nothing; otherwise, if the durable write succeeded,
/// both records move to the requested state stamped `now` and every
/// subscriber's slot is replaced by the matching event; if the write failed,
/// nothing changes.
pub open spec fn spec_transition(
    v: ServiceView,
    target: PresenceState,
    now: u64,
    persist_ok: bool,
) -> ServiceView {
    if target == v.record.state {
        v
    } else if persist_ok {
        let record = StateRecord { state: target, last_changed: now };
        ServiceView {
            record,
            persisted: record,
            slots: Seq::new(v.slots.len(), |i: int| Some(spec_event_for(target))),
        }
    } else {
        v
    }
}

/// How the request is reported: distinctly for the no-op, the committed
/// change, and the fatal persistence failure.
pub open spec fn spec_outcome(
    v: ServiceView,
    target: PresenceState,
    persist_ok: bool,
) -> TransitionOutcome {
    if target == v.record.state {
        TransitionOutcome::AlreadyInState
    } else if persist_ok {
        TransitionOutcome::Committed(spec_event_for(target))
    } else {
        TransitionOutcome::PersistenceFailed
    }
}

/// What one receive does: it takes the subscriber's pending event, if any.
pub open spec fn spec_recv(v: ServiceView, i: int) -> (ServiceView, Option<APIEvent>) {
    (ServiceView { slots: v.slots.update(i, None), ..v }, v.slots[i])
}

/// The composed service. Constructed once at process start from the record
/// read back from durable storage.
pub struct PresenceService {
    engine: StateEngine,
    persisted: StateRecord,
    bus: EventBus,
}

impl View for PresenceService {
    type V = ServiceView;

    closed spec fn view(&self) -> ServiceView {
        ServiceView {
            record: self.engine.record,
            persisted: self.persisted,
            slots: self.bus@,
        }
    }
}

impl PresenceService {
    /// A service warm-started from the persisted record, with no
    /// subscribers yet.
    pub fn new(record: StateRecord) -> (service: PresenceService)
        ensures
            service@ == (ServiceView {
                record,
                persisted: record,
                slots: Seq::<Option<APIEvent>>::empty(),
            }),
            service@.wf(),
    {
        PresenceService { engine: StateEngine::new(record), persisted: record, bus: EventBus::new() }
    }

    /// The current authoritative record, e.g. for rendering the public
    /// status document.
    pub fn record(&self) -> (record: StateRecord)
        ensures
            record == self@.record,
    {
        self.engine.current()
    }

    /// The record the model sink holds durably; after any request it equals
    /// the in-memory record.
    pub fn persisted_record(&self) -> (record: StateRecord)
        ensures
            record == self@.persisted,
    {
        self.persisted
    }

    /// The record the caller must write durably before reporting a commit.
    pub fn plan_transition(&self, target: PresenceState, now: u64) -> (plan: TransitionPlan)
        ensures
            plan == spec_plan(self@.record, target, now),
    {
        self.engine.plan_transition(target, now)
    }

    /// Registers a model subscriber and returns its handle.
    pub fn subscribe(&mut self) -> (id: usize)
        ensures
            final(self)@.record == old(self)@.record,
            final(self)@.persisted == old(self)@.persisted,
            final(self)@.slots == old(self)@.slots.push(None),
            id == old(self)@.slots.len(),
            old(self)@.wf() ==> final(self)@.wf(),
    {
        self.bus.subscribe()
    }

    /// Runs one whole transition request; see [`spec_transition`] and
    /// [`spec_outcome`]. The caller has already attempted the durable write
    /// of the planned record and passes its result as `persist_ok`; a failed
    /// write fails the request and leaves every record untouched. On a
    /// commit, the event is also sent on the live broadcast channel `tx`,
    /// fire-and-forget: a publish that finds no subscribers never fails the
    /// already durable transition.
    pub fn request_transition(
        &mut self,
        tx: &Sender<APIEvent>,
        target: PresenceState,
        now: u64,
        persist_ok: bool,
    ) -> (outcome: TransitionOutcome)
        requires
            now >= old(self)@.record.last_changed,
        ensures
            final(self)@ == spec_transition(old(self)@, target, now, persist_ok),
            outcome == spec_outcome(old(self)@, target, persist_ok),
            old(self)@.wf() ==> final(self)@.wf(),
    {
        let plan = self.engine.plan_transition(target, now);
        match plan {
            TransitionPlan::NoOp => TransitionOutcome::AlreadyInState,
            TransitionPlan::Commit { record, event } => {
                if persist_ok {
                    self.persisted = record;
                    let _ = self.engine.commit_transition(target, now);
                    self.bus.publish(event);
                    let _ = send_event(tx, event);
                    proof {
                        assert(self@.slots =~= spec_transition(
                            old(self)@,
                            target,
                            now,
                            persist_ok,
                        ).slots);
                        assert(self@ =~= spec_transition(old(self)@, target, now, persist_ok));
                    }
                    TransitionOutcome::Committed(event)
                } else {
                    TransitionOutcome::PersistenceFailed
                }
            },
        }
    }

    /// Takes the event pending for a subscriber, if any; see [`spec_recv`].
    pub fn recv_event(&mut self, id: usize) -> (event: Option<APIEvent>)
        requires
            id < old(self)@.slots.len(),
        ensures
            final(self)@ == spec_recv(old(self)@, id as int).0,
            event == spec_recv(old(self)@, id as int).1,
            old(self)@.wf() ==> final(self)@.wf(),
    {
        let event = self.bus.recv(id);
        proof {
            assert(self@ =~= spec_recv(old(self)@, id as int).0);
        }
        event
    }
}

/// Durability precedes visibility: after any transition request, committed
/// or not, the persisted record equals the in-memory record.
pub proof fn lemma_durable_matches_memory(
    v: ServiceView,
    target: PresenceState,
    now: u64,
    persist_ok: bool,
)
    requires
        v.wf(),
    ensures
        spec_transition(v, target, now, persist_ok).persisted == spec_transition(
            v,
            target,
            now,
            persist_ok,
        ).record,
{
}

/// A transition request keeps the service well-formed.
pub proof fn lemma_transition_preserves_wf(
    v: ServiceView,
    target: PresenceState,
    now: u64,
    persist_ok: bool,
)
    requires
        v.wf(),
    ensures
        spec_transition(v, target, now, persist_ok).wf(),
{
}

/// Requesting the state already current is idempotent: the record, its
/// timestamp, the persisted record and every subscriber's pending slot are
/// all unchanged, no event is emitted, and the caller is told so.
pub proof fn lemma_current_state_request_is_noop(v: ServiceView, now: u64, persist_ok: bool)
    ensures
        spec_transition(v, v.record.state, now, persist_ok) == v,
        spec_outcome(v, v.record.state, persist_ok) == TransitionOutcome::AlreadyInState,
{
}

/// The record's timestamp never decreases, and it moves exactly when the
/// state does: an unchanged state keeps its timestamp, a changed state is
/// stamped `now`.
pub proof fn lemma_last_changed_monotonic(
    v: ServiceView,
    target: PresenceState,
    now: u64,
    persist_ok: bool,
)
    requires
        now >= v.record.last_changed,
    ensures
        spec_transition(v, target, now, persist_ok).record.last_changed >= v.record.last_changed,
        spec_transition(v, target, now, persist_ok).record.state != v.record.state
            ==> spec_transition(v, target, now, persist_ok).record.last_changed == now,
        spec_transition(v, target, now, persist_ok).record.state == v.record.state
            ==> spec_transition(v, target, now, persist_ok).record.last_changed
            == v.record.last_changed,
{
}

/// A `Closed` to `Open` to `Closed` run yields exactly two events to a
/// subscriber that consumes after each commit: `Open`, then `Close`, then
/// nothing.
pub proof fn lemma_open_close_two_events(v: ServiceView, i: int, n1: u64, n2: u64)
    requires
        v.wf(),
        v.record.state == PresenceState::Closed,
        0 <= i < v.slots.len(),
    ensures
        ({
            let v1 = spec_transition(v, PresenceState::Open, n1, true);
            let (v2, e1) = spec_recv(v1, i);
            let v3 = spec_transition(v2, PresenceState::Closed, n2, true);
            let (v4, e2) = spec_recv(v3, i);
            &&& e1 == Some(APIEvent::Open)
            &&& e2 == Some(APIEvent::Close)
            &&& spec_recv(v4, i).1 == None::<APIEvent>
        }),
{
}

/// A subscriber that lags never observes a state inconsistent with the
/// persisted record at the time it next checks: whatever event is pending
/// for it announces exactly the state both records hold now.
pub proof fn lemma_lagged_observation_consistent(v: ServiceView, i: int)
    requires
        v.wf(),
        0 <= i < v.slots.len(),
    ensures
        (match spec_recv(v, i).1 {
            Some(e) => spec_state_of_event(e) == v.persisted.state && v.persisted == v.record,
            None => true,
        }),
{
}

/// Two racing requests for the same target, linearized by the engine's
/// lock, produce exactly one flip and one event: whichever runs second is a
/// no-op that changes nothing.
pub proof fn lemma_racing_requests_one_flip(
    v: ServiceView,
    target: PresenceState,
    n1: u64,
    n2: u64,
)
    requires
        v.wf(),
        target != v.record.state,
    ensures
        ({
            let v1 = spec_transition(v, target, n1, true);
            &&& spec_outcome(v, target, true) == TransitionOutcome::Committed(
                spec_event_for(target),
            )
            &&& spec_outcome(v1, target, true) == TransitionOutcome::AlreadyInState
            &&& spec_transition(v1, target, n2, true) == v1
        }),
{
}

} // verus!
