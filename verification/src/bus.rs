//! The event bus: bounded publish/subscribe with an explicit lag signal.
//!
//! Every published event enters one shared log; each subscriber holds a
//! cursor into it.  The bus keeps only the last `capacity` events, so
//! publishing never blocks and never fails: a subscriber that falls behind
//! by more than the capacity misses the oldest unconsumed events and is told
//! so by an explicit `Lagged` outcome carrying the exact count, rather than
//! losing data silently.  Waking sleeping subscribers is the caller's
//! concern; the bus itself is the pure core.

use vstd::prelude::*;
use crate::data::{event_equiv, Event};

verus! {

/// What one receive attempt yields.
pub enum RecvOutcome {
    /// The next event, in publish order.
    Received(Event),
    /// The subscriber fell behind: this many events were missed; the cursor
    /// now stands at the oldest event still held.
    Lagged(u64),
    /// Nothing new; the subscriber is caught up.
    Empty,
}

/// The bus: the retained tail of the event log.
pub struct Bus {
    /// The retained events: positions `first_seq ..` of the log.
    pub buf: Vec<Event>,
    /// The log position of `buf[0]`.
    pub first_seq: u64,
    /// How many events are retained at most.
    pub capacity: usize,
    /// The whole log of published events.
    pub history: Ghost<Seq<Event>>,
}

impl Bus {
    /// The retained slice is exactly the tail of the log, and the log still
    /// has room for a sequence number.
    pub open spec fn wf(self) -> bool {
        &&& self.capacity >= 1
        &&& self.buf@.len() <= self.capacity
        &&& self.history@.len() == self.first_seq + self.buf@.len()
        &&& self.history@.len() <= u64::MAX
        &&& forall|i: int| 0 <= i < self.buf@.len() ==> self.buf@[i] == self.history@[self.first_seq + i]
    }

    pub fn new(capacity: usize) -> (r: Bus)
        requires
            capacity >= 1,
        ensures
            r.wf(),
            r.history@ == Seq::<Event>::empty(),
            r.capacity == capacity,
    {
        let r = Bus { buf: Vec::new(), first_seq: 0, capacity, history: Ghost(Seq::empty()) };
        proof {
            assert(r.buf@ =~= Seq::<Event>::empty());
        }
        r
    }

    /// Publishes one event: it is appended to the log, and the oldest
    /// retained event is dropped if the bus is full.  Publishing never
    /// blocks and never fails, whatever the subscribers do.
    pub fn publish(&mut self, ev: Event)
        requires
            old(self).wf(),
            old(self).history@.len() < u64::MAX,
        ensures
            final(self).wf(),
            final(self).history@ == old(self).history@.push(ev),
            final(self).capacity == old(self).capacity,
            final(self).first_seq == if old(self).buf@.len() == old(self).capacity {
                old(self).first_seq + 1
            } else {
                old(self).first_seq as int
            },
    {
        if self.buf.len() == self.capacity {
            self.buf.remove(0);
            self.first_seq = self.first_seq + 1;
        }
        self.buf.push(ev);
        proof {
            self.history@ = self.history@.push(ev);
        }
    }

    /// A new subscriber's cursor: it sees only events published from now on.
    pub fn subscribe(&self) -> (cursor: u64)
        requires
            self.wf(),
        ensures
            cursor == self.history@.len(),
    {
        self.first_seq + (self.buf.len() as u64)
    }

    /// One receive attempt for the subscriber holding `cursor`.  Events come
    /// in publish order; a subscriber that fell behind the retained tail is
    /// told exactly how many events it missed and resumes at the oldest
    /// retained one.
    pub fn recv(&self, cursor: &mut u64) -> (r: RecvOutcome)
        requires
            self.wf(),
            *old(cursor) <= self.history@.len(),
        ensures
            *final(cursor) <= self.history@.len(),
            *old(cursor) < self.first_seq ==> {
                &&& r matches RecvOutcome::Lagged(missed) && missed == self.first_seq - *old(cursor)
                &&& *final(cursor) == self.first_seq
            },
            self.first_seq <= *old(cursor) < self.history@.len() ==> {
                &&& r matches RecvOutcome::Received(ev) && event_equiv(ev, self.history@[*old(cursor) as int])
                &&& *final(cursor) == *old(cursor) + 1
            },
            *old(cursor) == self.history@.len() ==> r is Empty && *final(cursor) == *old(cursor),
    {
        if *cursor < self.first_seq {
            let missed = self.first_seq - *cursor;
            *cursor = self.first_seq;
            RecvOutcome::Lagged(missed)
        } else {
            let pos = *cursor - self.first_seq;
            if (pos as usize) < self.buf.len() {
                let ev = self.buf[pos as usize].clone();
                *cursor = *cursor + 1;
                RecvOutcome::Received(ev)
            } else {
                RecvOutcome::Empty
            }
        }
    }
}

} // verus!
