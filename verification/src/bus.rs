//! The fan-out event bus, modelled exactly: a lossy multicast with one
//! pending slot per subscriber. Publishing replaces whatever a slow
//! subscriber has not yet consumed, so a publisher is never blocked and a
//! lagging subscriber observes a gap, never a backlog.

use vstd::prelude::*;

use crate::presence::APIEvent;

verus! {

/// One pending-event slot per subscriber. `None` means nothing is pending:
/// the subscriber has consumed the latest event, or nothing has been
/// published since it subscribed.
pub struct EventBus {
    slots: Vec<Option<APIEvent>>,
}

impl View for EventBus {
    type V = Seq<Option<APIEvent>>;

    closed spec fn view(&self) -> Seq<Option<APIEvent>> {
        self.slots@
    }
}

impl EventBus {
    /// A bus with no subscribers yet.
    pub fn new() -> (bus: EventBus)
        ensures
            bus@ == Seq::<Option<APIEvent>>::empty(),
    {
        EventBus { slots: Vec::new() }
    }

    /// How many subscribers the bus fans out to.
    pub fn subscriber_count(&self) -> (count: usize)
        ensures
            count == self@.len(),
    {
        self.slots.len()
    }

    /// Registers a subscriber and returns its handle. A new subscriber sees
    /// only events published after this call.
    pub fn subscribe(&mut self) -> (id: usize)
        ensures
            final(self)@ == old(self)@.push(None),
            id == old(self)@.len(),
    {
        let id = self.slots.len();
        self.slots.push(None);
        id
    }

    /// Delivers an event to every subscriber, silently replacing any event a
    /// subscriber had not yet consumed: best effort, never blocking.
    pub fn publish(&mut self, event: APIEvent)
        ensures
            final(self)@.len() == old(self)@.len(),
            forall|i: int| 0 <= i < final(self)@.len() ==> final(self)@[i] == Some(event),
    {
        let n = self.slots.len();
        let mut i: usize = 0;
        while i < n
            invariant
                n == self.slots@.len(),
                i <= n,
                forall|j: int| 0 <= j < i ==> self.slots@[j] == Some(event),
            decreases n - i,
        {
            self.slots[i] = Some(event);
            i = i + 1;
        }
    }

    /// Takes the event pending for a subscriber, if any. Each subscriber
    /// observes the events it does receive in publication order, since a
    /// slot only ever holds the latest one.
    pub fn recv(&mut self, id: usize) -> (event: Option<APIEvent>)
        requires
            id < old(self)@.len(),
        ensures
            event == old(self)@[id as int],
            final(self)@ == old(self)@.update(id as int, None),
    {
        let event = self.slots[id];
        self.slots[id] = None;
        event
    }
}

} // verus!
