//! Bounded outbound queue.
//!
//! Every producer of a session — its handlers and its own control logic —
//! enqueues raw payloads here instead of touching the transport; the
//! session's single drain loop takes them out from the front and writes
//! them.  The queue is bounded for backpressure: a full queue makes the
//! producer wait (the caller retries once room frees up) rather than drop
//! or fail.  Each connection cycle opens a fresh generation, and a sender
//! handle from an earlier cycle is refused, so a payload can never be
//! swallowed silently by a queue whose session is gone.

use vstd::prelude::*;

use crate::errors::SessionError;

verus! {

/// What became of an attempted enqueue.
#[derive(Clone, Copy, Debug, PartialEq, Eq, Structural)]
pub enum EnqueueResult {
    /// The payload sits at the back of the queue.
    Enqueued,
    /// The queue is at capacity; the producer must wait for the drain
    /// loop to make room and try again.
    Full,
    /// The queue is closed, or the sender handle is from an earlier
    /// connection cycle; the payload was refused.
    Closed,
}

impl EnqueueResult {
    /// The error a producer is told about, if any: a refused enqueue is
    /// the queue-closed failure.  A full queue is not an error — the
    /// producer waits — and a successful enqueue reports nothing.
    pub fn error(&self) -> (r: Option<SessionError>)
        ensures
            r == Some(SessionError::QueueClosed) <==> *self == EnqueueResult::Closed,
            r is None <==> *self != EnqueueResult::Closed,
    {
        match self {
            EnqueueResult::Closed => Some(SessionError::QueueClosed),
            _ => None,
        }
    }
}

/// Producer-side capability for one connection cycle of the queue.
#[derive(Clone, Copy, Debug, PartialEq, Eq, Structural)]
pub struct SenderHandle {
    pub generation: u64,
}

/// Multi-producer, single-consumer bounded queue of outbound payloads,
/// front at index zero.
pub struct OutboundQueue {
    pub items: Vec<Vec<u8>>,
    pub capacity: usize,
    pub open: bool,
    pub generation: u64,
}

impl View for OutboundQueue {
    type V = Seq<Seq<u8>>;

    open spec fn view(&self) -> Seq<Seq<u8>> {
        Seq::new(self.items@.len(), |i: int| self.items@[i]@)
    }
}

impl OutboundQueue {
    /// A queue is well formed when it never holds more than its capacity
    /// and has room for at least one payload.
    pub open spec fn wf(&self) -> bool {
        &&& self.capacity >= 1
        &&& self.items@.len() <= self.capacity
    }

    /// Creates an empty, open queue at generation zero.
    pub fn new(capacity: usize) -> (q: OutboundQueue)
        requires
            capacity >= 1,
        ensures
            q.wf(),
            q@ == Seq::<Seq<u8>>::empty(),
            q.capacity == capacity,
            q.open,
            q.generation == 0,
    {
        let q = OutboundQueue { items: Vec::new(), capacity, open: true, generation: 0 };
        proof {
            assert(q@ =~= Seq::<Seq<u8>>::empty());
        }
        q
    }

    /// Hands out the producer capability for the current cycle.
    pub fn sender(&self) -> (s: SenderHandle)
        ensures
            s.generation == self.generation,
    {
        SenderHandle { generation: self.generation }
    }

    /// Opens the next connection cycle: pending payloads survive, but
    /// producers need a fresh sender handle from now on.
    pub fn reopen(&mut self)
        requires
            old(self).generation < u64::MAX,
        ensures
            *final(self) == (OutboundQueue {
                open: true,
                generation: (old(self).generation + 1) as u64,
                ..*old(self)
            }),
            final(self)@ == old(self)@,
    {
        self.open = true;
        self.generation = self.generation + 1;
    }

    /// Closes the queue; from here on every enqueue is refused.
    pub fn close(&mut self)
        ensures
            *final(self) == (OutboundQueue { open: false, ..*old(self) }),
            final(self)@ == old(self)@,
    {
        self.open = false;
    }

    /// Tries to put `msg` at the back of the queue on behalf of the
    /// producer holding `sender`.  Refused outright when the queue is
    /// closed or the handle is stale; asks the producer to wait when the
    /// queue is at capacity; otherwise the payload is appended and every
    /// earlier payload keeps its place.
    pub fn try_enqueue(&mut self, sender: &SenderHandle, msg: Vec<u8>) -> (r: EnqueueResult)
        ensures
            r == EnqueueResult::Closed <==> (!old(self).open || sender.generation != old(
                self,
            ).generation),
            r == EnqueueResult::Full <==> (old(self).open && sender.generation == old(
                self,
            ).generation && old(self)@.len() >= old(self).capacity),
            r == EnqueueResult::Enqueued <==> (old(self).open && sender.generation == old(
                self,
            ).generation && old(self)@.len() < old(self).capacity),
            r == EnqueueResult::Enqueued ==> final(self)@ == old(self)@.push(msg@),
            r != EnqueueResult::Enqueued ==> final(self)@ == old(self)@,
            final(self).open == old(self).open,
            final(self).capacity == old(self).capacity,
            final(self).generation == old(self).generation,
            old(self).wf() ==> final(self).wf(),
    {
        if !self.open || sender.generation != self.generation {
            return EnqueueResult::Closed;
        }
        if self.items.len() >= self.capacity {
            return EnqueueResult::Full;
        }
        let ghost msgv = msg@;
        self.items.push(msg);
        proof {
            assert(self@ =~= old(self)@.push(msgv));
        }
        EnqueueResult::Enqueued
    }

    /// Takes the payload at the front of the queue, if any; everything
    /// behind it moves up one place, in order.
    pub fn dequeue(&mut self) -> (r: Option<Vec<u8>>)
        ensures
            old(self)@.len() == 0 ==> r is None && final(self)@ == old(self)@,
            old(self)@.len() > 0 ==> r is Some && r->Some_0@ == old(self)@[0] && final(self)@ == old(
                self,
            )@.drop_first(),
            final(self).open == old(self).open,
            final(self).capacity == old(self).capacity,
            final(self).generation == old(self).generation,
            old(self).wf() ==> final(self).wf(),
    {
        if self.items.len() == 0 {
            return None;
        }
        let front = self.items.remove(0);
        proof {
            assert(self@ =~= old(self)@.drop_first());
        }
        Some(front)
    }

    /// Number of payloads waiting to be drained.
    pub fn len(&self) -> (n: usize)
        ensures
            n == self@.len(),
    {
        self.items.len()
    }

    /// Whether the current cycle still accepts payloads.
    pub fn is_open(&self) -> (b: bool)
        ensures
            b == self.open,
    {
        self.open
    }
}

/// The pending sequence after enqueueing `msgs` one by one at the back.
pub open spec fn after_enqueues(q: Seq<Seq<u8>>, msgs: Seq<Seq<u8>>) -> Seq<Seq<u8>>
    decreases msgs.len(),
{
    if msgs.len() == 0 {
        q
    } else {
        after_enqueues(q.push(msgs[0]), msgs.drop_first())
    }
}

/// Order law of the outbound path: payloads enqueued one after another
/// line up behind what was already pending, in exactly their enqueue
/// order.  Since `dequeue` always takes index zero, the transport
/// observes the payloads of a producer in the order that producer
/// enqueued them.
pub proof fn lemma_outbound_order(q: Seq<Seq<u8>>, msgs: Seq<Seq<u8>>)
    ensures
        after_enqueues(q, msgs) == q + msgs,
    decreases msgs.len(),
{
    if msgs.len() == 0 {
        assert(q + msgs =~= q);
    } else {
        lemma_outbound_order(q.push(msgs[0]), msgs.drop_first());
        assert(q.push(msgs[0]) + msgs.drop_first() =~= q + msgs);
    }
}

} // verus!
