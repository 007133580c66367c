//! The authoritative state engine: it decides which transitions are legal,
//! plans the record to persist, and flips the in-memory state only after the
//! caller has committed that record durably.
//!
//! The protocol per request is plan, persist, commit: `plan_transition` says
//! whether anything is to change and, if so, which record must be made
//! durable; the caller writes that record; `commit_transition` then makes
//! the change visible. A request for the state already current is a no-op,
//! reported distinctly from success, and a failed durable write leaves the
//! engine untouched.

use vstd::prelude::*;

use crate::presence::{spec_event_for, event_for, APIEvent, PresenceState, StateRecord};

verus! {

/// What the engine decides to do about one transition request.
#[derive(Clone, Copy, Debug, PartialEq, Eq, Structural)]
pub enum TransitionPlan {
    /// The requested state is already current: nothing to persist, no event.
    NoOp,
    /// The record to make durable before the flip, and the event to publish
    /// after it.
    Commit { record: StateRecord, event: APIEvent },
}

/// How one transition request ended.
#[derive(Clone, Copy, Debug, PartialEq, Eq, Structural)]
pub enum TransitionOutcome {
    /// The state changed; the carried event was published.
    Committed(APIEvent),
    /// The requested state was already current; nothing changed.
    AlreadyInState,
    /// The durable write failed; the request failed and nothing changed.
    PersistenceFailed,
}

/// The engine's decision for a request: a request for the current state is a
/// no-op; any other request moves to the requested state, stamped `now`.
pub open spec fn spec_plan(current: StateRecord, target: PresenceState, now: u64) -> TransitionPlan {
    if target == current.state {
        TransitionPlan::NoOp
    } else {
        TransitionPlan::Commit {
            record: StateRecord { state: target, last_changed: now },
            event: spec_event_for(target),
        }
    }
}

/// Holds the authoritative record. Exclusive ownership is the caller's duty:
/// the engine is to be driven under one lock, one request at a time.
pub struct StateEngine {
    pub record: StateRecord,
}

impl StateEngine {
    /// An engine seeded with the record read back from durable storage.
    pub fn new(record: StateRecord) -> (engine: StateEngine)
        ensures
            engine.record == record,
    {
        StateEngine { record }
    }

    /// The current authoritative record.
    pub fn current(&self) -> (record: StateRecord)
        ensures
            record == self.record,
    {
        self.record
    }

    /// Decides a request without changing anything; see [`spec_plan`].
    pub fn plan_transition(&self, target: PresenceState, now: u64) -> (plan: TransitionPlan)
        ensures
            plan == spec_plan(self.record, target, now),
    {
        if self.record.state == target {
            TransitionPlan::NoOp
        } else {
            TransitionPlan::Commit {
                record: StateRecord { state: target, last_changed: now },
                event: event_for(target),
            }
        }
    }

    /// Flips the in-memory record to the planned one, to be called only once
    /// the same record has been made durable. Returns the event to publish.
    pub fn commit_transition(&mut self, target: PresenceState, now: u64) -> (event: APIEvent)
        requires
            old(self).record.state != target,
            now >= old(self).record.last_changed,
        ensures
            final(self).record == (StateRecord { state: target, last_changed: now }),
            event == spec_event_for(target),
    {
        self.record = StateRecord { state: target, last_changed: now };
        event_for(target)
    }
}

} // verus!
