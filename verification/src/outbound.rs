//! The single-in-flight outbound command queue.
//!
//! The device tolerates at most one unacknowledged command frame.  The
//! session therefore holds a FIFO queue and an awaiting-reply flag:
//! `enqueue` writes a frame only when the queue is empty and the flag is
//! clear (and then sets the flag); after every processed notification the
//! queue head, if any, is written (the flag stays set), and with an empty
//! queue the flag clears.

use vstd::prelude::*;
use std::collections::VecDeque;

verus! {

/// The FIFO of encoded frames not yet written, plus the awaiting-reply flag.
pub struct OutboundQueue {
    pub queue: VecDeque<Vec<u8>>,
    pub waiting: bool,
}

/// The queued frames as byte sequences.
pub open spec fn frames_of(q: Seq<Vec<u8>>) -> Seq<Seq<u8>> {
    q.map_values(|v: Vec<u8>| v@)
}

/// One step of the flow-control machine: what `enqueue` does to the queue
/// contents, the flag, and the wire (the `Option` is the frame written, if
/// any).
pub open spec fn enqueue_step(queue: Seq<Seq<u8>>, waiting: bool, frame: Seq<u8>) -> (Seq<Seq<u8>>, bool, Option<Seq<u8>>) {
    if queue.len() == 0 && !waiting {
        (queue, true, Some(frame))
    } else {
        (queue.push(frame), waiting, None)
    }
}

/// One step of the flow-control machine: what processing a notification does.
pub open spec fn notify_step(queue: Seq<Seq<u8>>, waiting: bool) -> (Seq<Seq<u8>>, bool, Option<Seq<u8>>) {
    if queue.len() > 0 {
        (queue.drop_first(), true, Some(queue[0]))
    } else {
        (queue, false, None)
    }
}

impl OutboundQueue {
    pub open spec fn frames(self) -> Seq<Seq<u8>> {
        frames_of(self.queue@)
    }

    pub fn new() -> (r: Self)
        ensures
            r.frames() == Seq::<Seq<u8>>::empty(),
            !r.waiting,
    {
        let r = OutboundQueue { queue: VecDeque::new(), waiting: false };
        proof {
            assert(r.frames() =~= Seq::<Seq<u8>>::empty());
        }
        r
    }

    /// Accepts one frame for sending.  The returned frame, if any, is the one
    /// the caller must write now; `enqueue` never asks for a write while an
    /// earlier frame awaits its reply.
    pub fn enqueue(&mut self, frame: Vec<u8>) -> (write: Option<Vec<u8>>)
        ensures
            ({
                let (q2, w2, wr) = enqueue_step(old(self).frames(), old(self).waiting, frame@);
                &&& final(self).frames() == q2
                &&& final(self).waiting == w2
                &&& match (write, wr) {
                    (Some(a), Some(b)) => a@ == b,
                    (None, None) => true,
                    _ => false,
                }
            }),
    {
        if self.queue.len() == 0 && !self.waiting {
            self.waiting = true;
            Some(frame)
        } else {
            let ghost before = self.frames();
            self.queue.push_back(frame);
            proof {
                assert(self.frames() =~= before.push(frame@));
            }
            None
        }
    }

    /// Called after one inbound notification has been fully processed: hands
    /// back the queue head to write, or clears the awaiting-reply flag when
    /// nothing is pending.
    pub fn after_notification(&mut self) -> (write: Option<Vec<u8>>)
        ensures
            ({
                let (q2, w2, wr) = notify_step(old(self).frames(), old(self).waiting);
                &&& final(self).frames() == q2
                &&& final(self).waiting == w2
                &&& match (write, wr) {
                    (Some(a), Some(b)) => a@ == b,
                    (None, None) => true,
                    _ => false,
                }
            }),
    {
        let ghost before = self.frames();
        match self.queue.pop_front() {
            Some(frame) => {
                self.waiting = true;
                proof {
                    assert(self.frames() =~= before.drop_first());
                }
                Some(frame)
            }
            None => {
                self.waiting = false;
                None
            }
        }
    }
}

// ---------------------------------------------------------------------------
// Enqueueing a run of frames
// ---------------------------------------------------------------------------

/// An optional written frame, as the run of zero or one frames it put on the
/// wire.
pub open spec fn opt_seq(wr: Option<Seq<u8>>) -> Seq<Seq<u8>> {
    match wr {
        Some(b) => seq![b],
        None => Seq::empty(),
    }
}

/// Folds `enqueue_step` over a run of frames, collecting the frames that go
/// to the wire.
pub open spec fn enqueue_all(queue: Seq<Seq<u8>>, waiting: bool, frames: Seq<Seq<u8>>) -> (Seq<Seq<u8>>, bool, Seq<Seq<u8>>)
    decreases frames.len(),
{
    if frames.len() == 0 {
        (queue, waiting, Seq::empty())
    } else {
        let (q1, w1, wr) = enqueue_step(queue, waiting, frames[0]);
        let (q2, w2, rest) = enqueue_all(q1, w1, frames.drop_first());
        (q2, w2, opt_seq(wr) + rest)
    }
}

/// Unfolds the fold for a single frame.
pub proof fn lemma_enqueue_all_one(queue: Seq<Seq<u8>>, waiting: bool, f: Seq<u8>)
    ensures
        ({
            let (q2, w2, wr) = enqueue_step(queue, waiting, f);
            enqueue_all(queue, waiting, seq![f]) == (q2, w2, opt_seq(wr))
        }),
{
    let fs = seq![f];
    assert(fs[0] == f);
    assert(fs.drop_first() =~= Seq::<Seq<u8>>::empty());
    let (q2, w2, wr) = enqueue_step(queue, waiting, f);
    assert(enqueue_all(q2, w2, fs.drop_first()) == (q2, w2, Seq::<Seq<u8>>::empty()));
    assert(enqueue_all(queue, waiting, fs).2 =~= opt_seq(wr));
    assert(enqueue_all(queue, waiting, fs).0 == q2);
    assert(enqueue_all(queue, waiting, fs).1 == w2);
}

/// Unfolds the fold for a pair of frames.
pub proof fn lemma_enqueue_all_two(queue: Seq<Seq<u8>>, waiting: bool, f1: Seq<u8>, f2: Seq<u8>)
    ensures
        ({
            let (q1, w1, wr1) = enqueue_step(queue, waiting, f1);
            let (q2, w2, wr2) = enqueue_step(q1, w1, f2);
            enqueue_all(queue, waiting, seq![f1, f2]) == (q2, w2, opt_seq(wr1) + opt_seq(wr2))
        }),
{
    let fs = seq![f1, f2];
    assert(fs.drop_first() =~= seq![f2]);
    let (q1, w1, wr1) = enqueue_step(queue, waiting, f1);
    lemma_enqueue_all_one(q1, w1, f2);
}

/// Enqueueing while a reply is awaited writes nothing and leaves the flag
/// set.
pub proof fn lemma_enqueue_all_waiting(queue: Seq<Seq<u8>>, frames: Seq<Seq<u8>>)
    ensures
        enqueue_all(queue, true, frames).1 == true,
        enqueue_all(queue, true, frames).2 == Seq::<Seq<u8>>::empty(),
    decreases frames.len(),
{
    if frames.len() > 0 {
        lemma_enqueue_all_waiting(queue.push(frames[0]), frames.drop_first());
        assert(Seq::<Seq<u8>>::empty() + Seq::<Seq<u8>>::empty() =~= Seq::<Seq<u8>>::empty());
    }
}

/// However many frames one cause hands in at once, at most one of them goes
/// to the wire.
pub proof fn lemma_enqueue_all_write_bound(queue: Seq<Seq<u8>>, waiting: bool, frames: Seq<Seq<u8>>)
    ensures
        enqueue_all(queue, waiting, frames).2.len() <= 1,
    decreases frames.len(),
{
    if frames.len() > 0 {
        let (q1, w1, wr) = enqueue_step(queue, waiting, frames[0]);
        if wr is Some {
            lemma_enqueue_all_waiting(q1, frames.drop_first());
        } else {
            lemma_enqueue_all_write_bound(q1, w1, frames.drop_first());
        }
    }
}

/// Splitting a run of frames splits the fold.
pub proof fn lemma_enqueue_all_append(queue: Seq<Seq<u8>>, waiting: bool, fs1: Seq<Seq<u8>>, fs2: Seq<Seq<u8>>)
    ensures
        ({
            let (q1, w1, ws1) = enqueue_all(queue, waiting, fs1);
            let (q2, w2, ws2) = enqueue_all(q1, w1, fs2);
            enqueue_all(queue, waiting, fs1 + fs2) == (q2, w2, ws1 + ws2)
        }),
    decreases fs1.len(),
{
    let (q1, w1, ws1) = enqueue_all(queue, waiting, fs1);
    let (q2, w2, ws2) = enqueue_all(q1, w1, fs2);
    if fs1.len() == 0 {
        assert(fs1 + fs2 =~= fs2);
        assert(Seq::<Seq<u8>>::empty() + ws2 =~= ws2);
    } else {
        let (qa, wa, wr) = enqueue_step(queue, waiting, fs1[0]);
        assert((fs1 + fs2).drop_first() =~= fs1.drop_first() + fs2);
        lemma_enqueue_all_append(qa, wa, fs1.drop_first(), fs2);
        let head = opt_seq(wr);
        let (qb, wb, wsb) = enqueue_all(qa, wa, fs1.drop_first());
        assert(head + (wsb + ws2) =~= (head + wsb) + ws2);
    }
}

// ---------------------------------------------------------------------------
// Law: at most one frame in flight
// ---------------------------------------------------------------------------

/// One operation against the queue: a frame handed in, or a notification
/// fully processed.
pub enum FlowOp {
    Enqueue(Seq<u8>),
    Notify,
}

/// The machine state the flow-control law folds over: queue contents, the
/// awaiting-reply flag, and how many frames went to the wire since the last
/// processed notification.
pub struct FlowTrace {
    pub queue: Seq<Seq<u8>>,
    pub waiting: bool,
    pub writes_since_notify: nat,
}

/// The initial flow-control state.
pub open spec fn flow_init() -> FlowTrace {
    FlowTrace { queue: Seq::empty(), waiting: false, writes_since_notify: 0 }
}

/// Applies one operation to the flow-control state.  A processed notification
/// starts a new between-notifications interval, whose write count begins with
/// the write that the notification itself may trigger.
pub open spec fn flow_apply(t: FlowTrace, op: FlowOp) -> FlowTrace {
    match op {
        FlowOp::Enqueue(frame) => {
            let (q2, w2, wr) = enqueue_step(t.queue, t.waiting, frame);
            FlowTrace {
                queue: q2,
                waiting: w2,
                writes_since_notify: t.writes_since_notify + if wr is Some { 1nat } else { 0nat },
            }
        }
        FlowOp::Notify => {
            let (q2, w2, wr) = notify_step(t.queue, t.waiting);
            FlowTrace {
                queue: q2,
                waiting: w2,
                writes_since_notify: if wr is Some { 1nat } else { 0nat },
            }
        }
    }
}

/// The flow-control state after a sequence of operations.
pub open spec fn flow_fold(ops: Seq<FlowOp>) -> FlowTrace
    decreases ops.len(),
{
    if ops.len() == 0 {
        flow_init()
    } else {
        flow_apply(flow_fold(ops.drop_last()), ops.last())
    }
}

/// The invariant behind the law: a write is only ever in flight while the
/// flag is set, and never more than one per interval.
pub open spec fn flow_ok(t: FlowTrace) -> bool {
    &&& t.writes_since_notify <= 1
    &&& t.writes_since_notify == 1 ==> t.waiting
}

/// Law: for every sequence of enqueue calls interleaved with notification
/// arrivals, at most one frame goes to the wire before the next notification
/// is processed.
pub proof fn lemma_single_in_flight(ops: Seq<FlowOp>)
    ensures
        flow_ok(flow_fold(ops)),
    decreases ops.len(),
{
    if ops.len() > 0 {
        lemma_single_in_flight(ops.drop_last());
    }
}

} // verus!
