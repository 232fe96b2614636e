//! Fan-out of node events to independent subscribers.  Each subscriber owns
//! a FIFO queue; emitting appends one copy of the event to every open queue,
//! so a subscriber sees exactly the events emitted after it subscribed, in
//! emission order.  The host wraps the bus in its own lock and adds the
//! blocking wait; every step here is a plain, atomic transition.

use vstd::prelude::*;

use crate::types::EventModel;
use crate::types::NodeEvent;
use crate::types::clone_event;
use crate::types::event_model;

verus! {

struct BusSubscriber {
    open: bool,
    queue: Vec<NodeEvent>,
}

/// The fan-out: one queue per subscriber, identified by the index returned
/// from `subscribe`.
pub struct EventBus {
    subs: Vec<BusSubscriber>,
}

impl EventBus {
    /// How many subscribers the bus has seen, open or closed.
    pub closed spec fn sub_count(&self) -> nat {
        self.subs@.len()
    }

    /// Whether a subscriber still receives events.
    pub closed spec fn is_open(&self, id: int) -> bool {
        self.subs@[id].open
    }

    /// The models of the events a subscriber has not yet drained, oldest
    /// first.
    pub closed spec fn queue(&self, id: int) -> Seq<EventModel> {
        self.subs@[id].queue@.map_values(|e: NodeEvent| event_model(e))
    }

    /// A bus with no subscribers.
    pub fn new() -> (r: EventBus)
        ensures
            r.sub_count() == 0,
    {
        EventBus { subs: Vec::new() }
    }

    /// Register a new subscriber.  Its queue starts empty: events emitted
    /// before this call are never delivered to it.
    pub fn subscribe(&mut self) -> (id: usize)
        ensures
            id == old(self).sub_count(),
            final(self).sub_count() == old(self).sub_count() + 1,
            final(self).queue(id as int) == Seq::<EventModel>::empty(),
            final(self).is_open(id as int),
            forall|j: int| 0 <= j < id ==> final(self).queue(j) == old(self).queue(j),
            forall|j: int| 0 <= j < id ==> final(self).is_open(j) == old(self).is_open(j),
    {
        let id = self.subs.len();
        self.subs.push(BusSubscriber { open: true, queue: Vec::new() });
        proof {
            assert(self.subs@[id as int].queue@.map_values(|e: NodeEvent| event_model(e))
                =~= Seq::<EventModel>::empty());
        }
        id
    }

    /// Deliver one event: appended to every open queue, closed queues left
    /// alone.  Order per subscriber is therefore emission order.
    pub fn emit(&mut self, event: NodeEvent)
        ensures
            final(self).sub_count() == old(self).sub_count(),
            forall|j: int|
                0 <= j < final(self).sub_count() && old(self).is_open(j) ==> final(self).queue(j)
                    == old(self).queue(j).push(event_model(event)),
            forall|j: int|
                0 <= j < final(self).sub_count() && !old(self).is_open(j) ==> final(self).queue(j)
                    == old(self).queue(j),
            forall|j: int|
                0 <= j < final(self).sub_count() ==> final(self).is_open(j) == old(self).is_open(
                    j,
                ),
    {
        let n = self.subs.len();
        let mut k: usize = 0;
        while k < n
            invariant
                0 <= k <= n,
                n == self.subs@.len(),
                self.sub_count() == old(self).sub_count(),
                forall|j: int|
                    0 <= j < k && old(self).is_open(j) ==> self.queue(j) == old(self).queue(
                        j,
                    ).push(event_model(event)),
                forall|j: int| k <= j < n ==> self.queue(j) == old(self).queue(j),
                forall|j: int|
                    0 <= j < k && !old(self).is_open(j) ==> self.queue(j) == old(self).queue(j),
                forall|j: int| 0 <= j < n ==> self.is_open(j) == old(self).is_open(j),
            decreases n - k,
        {
            if self.subs[k].open {
                let ghost before = self.subs@[k as int].queue@;
                let copy = clone_event(&event);
                let sub = &mut self.subs[k];
                sub.queue.push(copy);
                proof {
                    assert(self.subs@[k as int].queue@ =~= before.push(
                        self.subs@[k as int].queue@.last(),
                    ));
                    assert(self.queue(k as int) =~= old(self).queue(k as int).push(
                        event_model(event),
                    ));
                }
            }
            k = k + 1;
        }
    }

    /// Stop delivering to a subscriber; its buffered events stay.
    pub fn close(&mut self, id: usize)
        requires
            id < old(self).sub_count(),
        ensures
            final(self).sub_count() == old(self).sub_count(),
            !final(self).is_open(id as int),
            forall|j: int|
                0 <= j < final(self).sub_count() ==> final(self).queue(j) == old(self).queue(j),
            forall|j: int|
                0 <= j < final(self).sub_count() && j != id ==> final(self).is_open(j) == old(
                    self,
                ).is_open(j),
    {
        let sub = &mut self.subs[id];
        sub.open = false;
    }

    /// Take the oldest undrained event of a subscriber, if any.  This never
    /// waits: an empty queue answers `None` at once.
    pub fn poll(&mut self, id: usize) -> (r: Option<NodeEvent>)
        requires
            id < old(self).sub_count(),
        ensures
            final(self).sub_count() == old(self).sub_count(),
            old(self).queue(id as int).len() == 0 ==> r is None && final(self).queue(id as int)
                == old(self).queue(id as int),
            old(self).queue(id as int).len() > 0 ==> r is Some && event_model(r->0) == old(
                self,
            ).queue(id as int)[0] && final(self).queue(id as int) == old(self).queue(
                id as int,
            ).drop_first(),
            forall|j: int|
                0 <= j < final(self).sub_count() && j != id ==> final(self).queue(j) == old(
                    self,
                ).queue(j),
            forall|j: int|
                0 <= j < final(self).sub_count() ==> final(self).is_open(j) == old(self).is_open(
                    j,
                ),
    {
        let sub = &mut self.subs[id];
        if sub.queue.len() == 0 {
            return None;
        }
        let ghost before = sub.queue@;
        let first = sub.queue.remove(0);
        proof {
            assert(sub.queue@ =~= before.drop_first());
            assert(self.queue(id as int) =~= old(self).queue(id as int).drop_first());
        }
        Some(first)
    }
}

/// After a subscribe, a run of emissions reaches that subscriber whole and
/// in order: its queue is exactly the emitted models, oldest first, and no
/// event emitted before the subscribe appears.
pub proof fn lemma_bus_delivery_order(
    bus0: EventBus,
    bus1: EventBus,
    bus2: EventBus,
    id: int,
    e1: NodeEvent,
    e2: NodeEvent,
)
    requires
        0 <= id < bus0.sub_count(),
        bus0.queue(id) == Seq::<EventModel>::empty(),
        bus0.is_open(id),
        bus1.sub_count() == bus0.sub_count(),
        bus1.queue(id) == bus0.queue(id).push(event_model(e1)),
        bus1.is_open(id) == bus0.is_open(id),
        bus2.sub_count() == bus1.sub_count(),
        bus2.queue(id) == bus1.queue(id).push(event_model(e2)),
    ensures
        bus2.queue(id) == seq![event_model(e1), event_model(e2)],
{
    assert(bus2.queue(id) =~= seq![event_model(e1), event_model(e2)]);
}

/// A host-facing cursor over one bus subscriber, with a local closed flag:
/// once closed, it hands out nothing, though the queue may still buffer.
pub struct EventSubscription {
    id: usize,
    closed: bool,
}

impl EventSubscription {
    /// The subscriber this cursor drains.
    pub closed spec fn sub_id(&self) -> int {
        self.id as int
    }

    /// Whether the cursor was closed.
    pub closed spec fn is_closed(&self) -> bool {
        self.closed
    }

    /// A cursor over a fresh subscriber of the bus.
    pub fn new(bus: &mut EventBus) -> (r: EventSubscription)
        ensures
            final(bus).sub_count() == old(bus).sub_count() + 1,
            r.sub_id() == old(bus).sub_count(),
            !r.is_closed(),
            final(bus).queue(r.sub_id()) == Seq::<EventModel>::empty(),
            final(bus).is_open(r.sub_id()),
            forall|j: int| 0 <= j < r.sub_id() ==> final(bus).queue(j) == old(bus).queue(j),
            forall|j: int| 0 <= j < r.sub_id() ==> final(bus).is_open(j) == old(bus).is_open(j),
    {
        let id = bus.subscribe();
        EventSubscription { id, closed: false }
    }

    /// One poll of the cursor.  A closed cursor answers `None`; otherwise
    /// the oldest buffered event is handed out, and `None` when none is
    /// buffered.  This never waits, whatever the timeout: the host repeats
    /// the call until its deadline when asked to block.
    pub fn next(&self, bus: &mut EventBus, timeout_ms: u32) -> (r: Option<NodeEvent>)
        requires
            self.sub_id() < old(bus).sub_count(),
        ensures
            final(bus).sub_count() == old(bus).sub_count(),
            self.is_closed() ==> r is None && final(bus).queue(self.sub_id()) == old(bus).queue(
                self.sub_id(),
            ),
            !self.is_closed() && old(bus).queue(self.sub_id()).len() == 0 ==> r is None && final(bus).queue(self.sub_id()) == old(bus).queue(self.sub_id()),
            !self.is_closed() && old(bus).queue(self.sub_id()).len() > 0 ==> r is Some
                && event_model(r->0) == old(bus).queue(self.sub_id())[0] && final(bus).queue(
                self.sub_id(),
            ) == old(bus).queue(self.sub_id()).drop_first(),
            forall|j: int|
                0 <= j < final(bus).sub_count() && j != self.sub_id() ==> final(bus).queue(j)
                    == old(bus).queue(j),
            forall|j: int|
                0 <= j < final(bus).sub_count() ==> final(bus).is_open(j) == old(bus).is_open(j),
    {
        let _ = timeout_ms;
        if self.closed {
            return None;
        }
        bus.poll(self.id)
    }

    /// Close the cursor: later calls to `next` answer `None`.
    pub fn close(&mut self, bus: &mut EventBus)
        requires
            old(self).sub_id() < old(bus).sub_count(),
        ensures
            final(self).is_closed(),
            final(self).sub_id() == old(self).sub_id(),
            final(bus).sub_count() == old(bus).sub_count(),
            !final(bus).is_open(final(self).sub_id()),
            forall|j: int|
                0 <= j < final(bus).sub_count() ==> final(bus).queue(j) == old(bus).queue(j),
            forall|j: int|
                0 <= j < final(bus).sub_count() && j != final(self).sub_id() ==> final(bus).is_open(j) == old(bus).is_open(j),
    {
        self.closed = true;
        bus.close(self.id);
    }
}

} // verus!
