//! The presence data model: the authoritative state of the space, the
//! record that is persisted for it, and the events that announce a change.

use vstd::prelude::*;

verus! {

/// Whether the space is closed, open to members only, or open to the public.
///
/// Exactly one value is authoritative at any instant.
#[derive(Clone, Copy, Debug, PartialEq, Eq, Structural)]
pub enum PresenceState {
    Closed,
    OpenIntern,
    Open,
}

/// One event per committed state transition, named after the state entered.
#[derive(Clone, Copy, Debug, PartialEq, Eq, Structural)]
pub enum APIEvent {
    Open,
    OpenIntern,
    Close,
}

/// The authoritative record: the current state and the Unix timestamp
/// (in seconds) of the moment it last changed.
#[derive(Clone, Copy, Debug, PartialEq, Eq, Structural)]
pub struct StateRecord {
    pub state: PresenceState,
    pub last_changed: u64,
}

/// The event that announces a transition into `state`.
pub open spec fn spec_event_for(state: PresenceState) -> APIEvent {
    match state {
        PresenceState::Closed => APIEvent::Close,
        PresenceState::OpenIntern => APIEvent::OpenIntern,
        PresenceState::Open => APIEvent::Open,
    }
}

/// The state a subscriber infers from an event: the inverse of
/// [`spec_event_for`].
pub open spec fn spec_state_of_event(event: APIEvent) -> PresenceState {
    match event {
        APIEvent::Close => PresenceState::Closed,
        APIEvent::OpenIntern => PresenceState::OpenIntern,
        APIEvent::Open => PresenceState::Open,
    }
}

/// The event announcing a transition into `state`.
pub fn event_for(state: PresenceState) -> (e: APIEvent)
    ensures
        e == spec_event_for(state),
{
    match state {
        PresenceState::Closed => APIEvent::Close,
        PresenceState::OpenIntern => APIEvent::OpenIntern,
        PresenceState::Open => APIEvent::Open,
    }
}

/// The state a subscriber infers from an event; see [`spec_state_of_event`].
pub fn state_of_event(event: APIEvent) -> (state: PresenceState)
    ensures
        state == spec_state_of_event(event),
{
    match event {
        APIEvent::Close => PresenceState::Closed,
        APIEvent::OpenIntern => PresenceState::OpenIntern,
        APIEvent::Open => PresenceState::Open,
    }
}

/// The stable numeric encoding of a state, as stored in the persisted record.
pub open spec fn spec_state_code(state: PresenceState) -> u64 {
    match state {
        PresenceState::Closed => 0,
        PresenceState::OpenIntern => 1,
        PresenceState::Open => 2,
    }
}

/// Encodes a state for the persisted record: `Closed` is 0, `OpenIntern` is
/// 1, `Open` is 2.
pub fn state_code(state: PresenceState) -> (code: u64)
    ensures
        code == spec_state_code(state),
{
    match state {
        PresenceState::Closed => 0,
        PresenceState::OpenIntern => 1,
        PresenceState::Open => 2,
    }
}

/// The state denoted by a persisted code. Codes beyond the largest encoding
/// are structurally unreachable; they are read as `Open` so that a later
/// legal request is never refused on account of a corrupted record, which is
/// exactly how every transition request treats such a code.
pub open spec fn spec_state_from_code(code: u64) -> PresenceState {
    if code == 0 {
        PresenceState::Closed
    } else if code == 1 {
        PresenceState::OpenIntern
    } else {
        PresenceState::Open
    }
}

/// Decodes a persisted state code; see [`spec_state_from_code`].
pub fn state_from_code(code: u64) -> (state: PresenceState)
    ensures
        state == spec_state_from_code(code),
{
    if code == 0 {
        PresenceState::Closed
    } else if code == 1 {
        PresenceState::OpenIntern
    } else {
        PresenceState::Open
    }
}

impl StateRecord {
    /// Rebuilds the record a warm restart starts from. A missing state code
    /// or timestamp falls back to 0: state `Closed`, changed at the epoch.
    pub fn from_persisted(code: Option<u64>, last_changed: Option<u64>) -> (r: StateRecord)
        ensures
            r.state == spec_state_from_code(match code {
                Some(c) => c,
                None => 0,
            }),
            r.last_changed == (match last_changed {
                Some(t) => t,
                None => 0,
            }),
    {
        let c: u64 = match code {
            Some(c) => c,
            None => 0,
        };
        let t: u64 = match last_changed {
            Some(t) => t,
            None => 0,
        };
        StateRecord { state: state_from_code(c), last_changed: t }
    }
}

/// The open-to-the-public flag the machine-readable status document shows:
/// set exactly when the state is `Open`.
pub fn public_open_flag(state: PresenceState) -> (open: bool)
    ensures
        open == (state == PresenceState::Open),
{
    match state {
        PresenceState::Open => true,
        _ => false,
    }
}

/// Encoding and decoding of a state are mutually inverse, and the
/// event emitted for a transition into a state names that state.
pub proof fn lemma_state_code_round_trip(state: PresenceState)
    ensures
        spec_state_from_code(spec_state_code(state)) == state,
        spec_state_of_event(spec_event_for(state)) == state,
{
}

} // verus!
