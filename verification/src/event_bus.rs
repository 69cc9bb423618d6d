//! A lossy broadcast buffer: the actor's fan-out to any number of
//! independent listeners.
//!
//! The bus keeps the last `capacity` events of everything ever emitted.
//! Every listener is a cursor into that emission history.  Emitting never
//! waits for a listener: a listener that falls behind the buffer does not
//! slow the emitter down, it observes a gap indicator ([`PollOutcome::Lagged`])
//! the next time it polls.  Delivery is deliberately at-most-once and
//! best-effort.

use vstd::prelude::*;
use crate::event::{PeerEvent, PeerEventView};

verus! {

/// What one poll of a listener yields: the next event, a gap indicator
/// counting how many events the listener missed, or nothing yet.
#[derive(Debug, PartialEq, Eq)]
pub enum PollOutcome {
    Event(PeerEvent),
    Lagged(u64),
    Empty,
}

/// The broadcast buffer.  `history` is the ghost record of everything
/// ever emitted; the buffer itself holds only its last `capacity`
/// entries.
pub struct PeerEventBus {
    events: Vec<PeerEvent>,
    total: u64,
    capacity: usize,
    history: Ghost<Seq<PeerEventView>>,
}

/// An independent cursor into the bus's emission history: the index of
/// the next event this listener has not yet seen.
pub struct PeerEventListener {
    pub cursor: u64,
}

impl PeerEventBus {
    /// Everything ever emitted on this bus, oldest first.
    pub closed spec fn history(&self) -> Seq<PeerEventView> {
        self.history@
    }

    /// How many events the buffer can hold before the oldest are dropped.
    pub closed spec fn spec_capacity(&self) -> int {
        self.capacity as int
    }

    /// How many events are still buffered.
    pub closed spec fn buffered(&self) -> int {
        self.events@.len() as int
    }

    /// The index of the oldest event still buffered: everything before it
    /// is gone for listeners that have not read it yet.
    pub open spec fn start(&self) -> int {
        self.history().len() - self.buffered()
    }

    /// The buffer holds exactly the last `min(emitted, capacity)` events
    /// of the history.
    pub closed spec fn wf(&self) -> bool {
        &&& self.capacity > 0
        &&& self.total as int == self.history@.len()
        &&& self.events@.len() == if self.total as int <= self.capacity as int {
            self.total as int
        } else {
            self.capacity as int
        }
        &&& forall|i: int|
            0 <= i < self.events@.len() ==> self.events@[i]@ == self.history@[self.start() + i]
    }

    /// A fresh bus with the default buffer of one hundred events.
    pub fn new() -> (r: PeerEventBus)
        ensures
            r.wf(),
            r.history() == Seq::<PeerEventView>::empty(),
            r.spec_capacity() == 100,
    {
        PeerEventBus { events: Vec::new(), total: 0, capacity: 100, history: Ghost(Seq::empty()) }
    }

    /// A fresh bus whose buffer holds `capacity` events.
    pub fn with_capacity(capacity: usize) -> (r: PeerEventBus)
        requires
            capacity > 0,
        ensures
            r.wf(),
            r.history() == Seq::<PeerEventView>::empty(),
            r.spec_capacity() == capacity,
    {
        PeerEventBus { events: Vec::new(), total: 0, capacity, history: Ghost(Seq::empty()) }
    }

    /// Announce an event.  Emission never fails and never waits: no
    /// listener appears in this contract, so no listener can hold the
    /// emitter up.  The only premise is the machine limit on the emission
    /// counter.
    pub fn emit(&mut self, event: PeerEvent)
        requires
            old(self).wf(),
            old(self).history().len() < u64::MAX,
        ensures
            final(self).wf(),
            final(self).history() == old(self).history().push(event@),
            final(self).spec_capacity() == old(self).spec_capacity(),
    {
        let ghost ev = event@;
        if self.events.len() == self.capacity {
            self.events.remove(0);
        }
        self.events.push(event);
        self.total = self.total + 1;
        self.history = Ghost(self.history@.push(ev));
    }

    /// A new listener, positioned at the end of the history: it will
    /// observe only events emitted after this call.
    pub fn subscribe(&self) -> (l: PeerEventListener)
        requires
            self.wf(),
        ensures
            l.cursor as int == self.history().len(),
    {
        PeerEventListener { cursor: self.total }
    }

    /// One read by `l`: [`poll_spec`] says exactly what comes out and
    /// where the cursor moves.  The cursor never moves backwards, so an
    /// event, once seen or skipped, is never delivered to `l` again.
    pub fn poll(&self, l: &mut PeerEventListener) -> (r: PollOutcome)
        requires
            self.wf(),
            old(l).cursor as int <= self.history().len(),
        ensures
            poll_spec(self, *old(l), *final(l), r),
            old(l).cursor <= final(l).cursor,
            final(l).cursor as int <= self.history().len(),
    {
        if l.cursor >= self.total {
            return PollOutcome::Empty;
        }
        let buffered = self.events.len() as u64;
        let start = self.total - buffered;
        if l.cursor < start {
            let missed = start - l.cursor;
            l.cursor = start;
            return PollOutcome::Lagged(missed);
        }
        let idx = (l.cursor - start) as usize;
        let e = self.events[idx].clone();
        l.cursor = l.cursor + 1;
        PollOutcome::Event(e)
    }
}

/// The relation [`PeerEventBus::poll`] establishes between the listener
/// before the call, the listener after it, and the outcome:
/// a cursor at the end of the history reads nothing; a cursor that fell
/// behind the buffer jumps forward and reports how many events it missed;
/// any other cursor reads the event at its own index and advances one
/// step.
pub open spec fn poll_spec(
    bus: &PeerEventBus,
    before: PeerEventListener,
    after: PeerEventListener,
    r: PollOutcome,
) -> bool {
    let h = bus.history();
    let c = before.cursor as int;
    if c >= h.len() {
        r is Empty && after.cursor == before.cursor
    } else if c < bus.start() {
        &&& r == PollOutcome::Lagged((bus.start() - c) as u64)
        &&& after.cursor as int == bus.start()
    } else {
        &&& r matches PollOutcome::Event(e) && e@ == h[c]
        &&& after.cursor == before.cursor + 1
    }
}

/// A listener observes no event from before its creation.  If a
/// listener's cursor is at or past `k` — as it is from the start for a
/// listener created when `k` events had been emitted, by the contract of
/// [`PeerEventBus::subscribe`] — then after any poll it still is, and an
/// event the poll hands out sits at an index at or past `k`.
pub proof fn lemma_no_replay(
    bus: &PeerEventBus,
    before: PeerEventListener,
    after: PeerEventListener,
    r: PollOutcome,
    k: int,
)
    requires
        bus.wf(),
        poll_spec(bus, before, after, r),
        k <= before.cursor as int,
        before.cursor as int <= bus.history().len(),
    ensures
        k <= after.cursor as int,
        r matches PollOutcome::Event(e) ==> exists|i: int|
            k <= i < bus.history().len() && e@ == bus.history()[i],
{
    match r {
        PollOutcome::Event(e) => {
            assert(e@ == bus.history()[before.cursor as int]);
        },
        _ => {},
    }
}

/// A listener that fell behind the buffer observes a gap indicator, not
/// an event and not a wait: one poll reports exactly how many events were
/// missed and repositions the listener at the oldest event still
/// buffered.
pub proof fn lemma_lagging_listener_observes_gap(
    bus: &PeerEventBus,
    before: PeerEventListener,
    after: PeerEventListener,
    r: PollOutcome,
)
    requires
        bus.wf(),
        poll_spec(bus, before, after, r),
        (before.cursor as int) < bus.start(),
    ensures
        r == PollOutcome::Lagged((bus.start() - before.cursor as int) as u64),
        after.cursor as int == bus.start(),
{
}

} // verus!
