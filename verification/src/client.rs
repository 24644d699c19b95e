//! The session: one logical connection coordinating concurrent receive,
//! send and cancel activity over a single framed transport.
//!
//! The transport and the event loop live outside: they open the socket,
//! await frames, timer ticks, queue items and the cancellation signal,
//! and call the step methods here with whatever arrived first.  Every
//! decision — what a frame means, when the session counts as connected,
//! what stops it, what is sent next — is taken here, under contract.
//!
//! The lifecycle is `Disconnected -> Handshaking -> Connected ->
//! Disconnected`.  The greeting exchange is strict: the peer that
//! accepted the transport sends its greeting at once, and the connecting
//! peer waits for that greeting before it admits any application
//! traffic.  Once connected, the first of the four concurrent activities
//! to finish — receive, cancellation wait, outbound drain, heartbeat —
//! tears the whole session down: the phase leaves `Connected`, and since
//! every step method requires a live phase, no loop can take another
//! step afterwards.  Teardown always flips the shared state back to
//! disconnected, closes the queue, and consumes any pending wake-up.
//! The registry and the queue survive for a later reconnect, which opens
//! a fresh queue cycle and rebinds every handler's sender.

use vstd::prelude::*;

use crate::codec::{spec_encode_hello, Hello, HelloView};
use crate::errors::SessionError;
use crate::queue::{OutboundQueue, SenderHandle};
use crate::registry::{any_accepts, first_match, DispatchRegistry, RpcCaller};
use crate::status::{spec_request_disconnect, VolatileStatus};
use crate::OUTBOUND_CAPACITY;

verus! {

/// Where a session stands in its lifecycle.
#[derive(Clone, Copy, Debug, PartialEq, Eq, Structural)]
pub enum Phase {
    /// No transport is bound.
    Disconnected,
    /// A transport is being established and greeted.
    Handshaking,
    /// The greeting exchange is done; dispatch and send are active.
    Connected,
}

/// One inbound frame, as the transport hands it over.
#[derive(Debug, PartialEq, Eq)]
pub enum FrameIn {
    /// A binary frame: the payloads this session dispatches.
    Binary(Vec<u8>),
    /// A text frame, carried as its UTF-8 bytes; accepted but only
    /// logged, never dispatched.
    Text(Vec<u8>),
    /// The peer closed the conversation.
    Close,
    Ping,
    Pong,
    /// A frame with nothing in it.
    Empty,
}

/// What a handshake step decided.
#[derive(Debug, PartialEq, Eq)]
pub enum HandshakeStep {
    /// The peer's greeting arrived; the session is now connected.
    Established(Hello),
    /// Not application traffic yet; keep waiting for the greeting.
    Waiting,
    /// The greeting exchange failed; the attempt is aborted and the
    /// session never counted as connected.
    Aborted(SessionError),
}

/// What a receive step decided.
#[derive(Debug, PartialEq, Eq)]
pub enum RecvStep {
    /// Keep receiving.  Carries whether some handler claimed the
    /// payload; an unclaimed payload is dropped and is not an error.
    Continue(bool),
    /// The conversation ended normally; the session tore down.
    Stopped,
}

/// One session over one framed transport.  The transport halves stay
/// with the event loop outside; the session holds everything it decides
/// with: its phase, the dispatch registry, the outbound queue and the
/// shared state record.
pub struct Client<H: RpcCaller> {
    /// Address this session connects to.
    pub url: String,
    /// Lifecycle phase.
    pub phase: Phase,
    /// Ordered handlers for the message families this session serves.
    pub registry: DispatchRegistry<H>,
    /// Bounded queue every outbound producer shares.
    pub queue: OutboundQueue,
    /// State shared with the session's owner.
    pub status: VolatileStatus,
}

/// A torn-down session: out of `Connected`, shared state reads
/// disconnected, any pending wake-up consumed, the queue closed.  The
/// registry and the queue's contents survive for a reconnect.
pub open spec fn spec_teardown<H: RpcCaller>(c: Client<H>) -> Client<H> {
    Client {
        phase: Phase::Disconnected,
        status: VolatileStatus { connected: false, cancel_pending: false, ..c.status },
        queue: OutboundQueue { open: false, ..c.queue },
        ..c
    }
}

impl<H: RpcCaller> Client<H> {
    /// A session is well formed when its queue is, when the shared
    /// connected flag reads true exactly in the `Connected` phase, and
    /// when a wake-up can only be pending while connected.
    pub open spec fn wf(&self) -> bool {
        &&& self.queue.wf()
        &&& (self.status.connected <==> self.phase is Connected)
        &&& (self.status.cancel_pending ==> self.status.connected)
    }

    /// A fresh session bound to `url`: disconnected, no handlers yet,
    /// an empty open queue, clean shared state.
    pub fn new(url: String) -> (c: Client<H>)
        ensures
            c.wf(),
            c.url == url,
            c.phase is Disconnected,
            c.registry.handlers@ == Seq::<H>::empty(),
            c.queue@ == Seq::<Seq<u8>>::empty(),
            c.queue.capacity == OUTBOUND_CAPACITY,
            c.queue.open,
            c.queue.generation == 0,
            !c.status.connected,
            !c.status.cancel_pending,
    {
        Client {
            url,
            phase: Phase::Disconnected,
            registry: DispatchRegistry::new(),
            queue: OutboundQueue::new(OUTBOUND_CAPACITY),
            status: VolatileStatus::new(),
        }
    }

    /// Registers a handler: binds the queue's current producer
    /// capability to it and appends it to the registry, behind every
    /// handler registered earlier.
    pub fn add_service(&mut self, caller: H)
        ensures
            final(self).registry.handlers@.len() == old(self).registry.handlers@.len() + 1,
            forall|j: int|
                0 <= j < old(self).registry.handlers@.len() ==> final(self).registry.handlers@[j]
                    == old(self).registry.handlers@[j],
            ({
                let added = final(self).registry.handlers@.last();
                &&& added.sender_spec() == Some(
                    SenderHandle { generation: old(self).queue.generation },
                )
                &&& forall|b: Seq<u8>| added.accepts(b) == caller.accepts(b)
            }),
            final(self).url == old(self).url,
            final(self).phase == old(self).phase,
            final(self).queue == old(self).queue,
            final(self).status == old(self).status,
            old(self).wf() ==> final(self).wf(),
    {
        let s = self.queue.sender();
        let mut c = caller;
        c.set_sender(s);
        self.registry.register(c);
    }

    /// Starts a connection attempt: moves to `Handshaking`, opens the
    /// next queue cycle and rebinds every handler's sender to it, so no
    /// handler keeps a stale handle from an earlier cycle.  The event
    /// loop then establishes the transport and reports back.
    pub fn begin_connect(&mut self)
        requires
            old(self).wf(),
            old(self).phase is Disconnected,
            old(self).queue.generation < u64::MAX,
        ensures
            final(self).wf(),
            final(self).phase is Handshaking,
            final(self).url == old(self).url,
            final(self).status == old(self).status,
            !final(self).status.connected,
            final(self).queue.open,
            final(self).queue.generation == old(self).queue.generation + 1,
            final(self).queue@ == old(self).queue@,
            final(self).queue.capacity == old(self).queue.capacity,
            final(self).registry.handlers@.len() == old(self).registry.handlers@.len(),
            forall|j: int|
                0 <= j < final(self).registry.handlers@.len()
                    ==> final(self).registry.handlers@[j].sender_spec() == Some(
                    SenderHandle { generation: final(self).queue.generation },
                ),
            forall|j: int, b: Seq<u8>|
                0 <= j < final(self).registry.handlers@.len()
                    ==> final(self).registry.handlers@[j].accepts(b) == old(
                    self,
                ).registry.handlers@[j].accepts(b),
    {
        self.phase = Phase::Handshaking;
        self.queue.reopen();
        let s = self.queue.sender();
        let n = self.registry.handlers.len();
        let mut j: usize = 0;
        while j < n
            invariant
                n == self.registry.handlers@.len(),
                j <= n,
                self.registry.handlers@.len() == old(self).registry.handlers@.len(),
                self.phase is Handshaking,
                self.url == old(self).url,
                self.status == old(self).status,
                self.queue == (OutboundQueue {
                    open: true,
                    generation: (old(self).queue.generation + 1) as u64,
                    ..old(self).queue
                }),
                s.generation == self.queue.generation,
                forall|k: int|
                    0 <= k < j ==> self.registry.handlers@[k].sender_spec() == Some(s),
                forall|k: int, b: Seq<u8>|
                    0 <= k < j ==> self.registry.handlers@[k].accepts(b) == old(
                        self,
                    ).registry.handlers@[k].accepts(b),
                forall|k: int|
                    j <= k < n ==> self.registry.handlers@[k] == old(self).registry.handlers@[k],
            decreases n - j,
        {
            let h = &mut self.registry.handlers[j];
            h.set_sender(s);
            j = j + 1;
        }
    }

    /// The transport could not be established: the attempt is over and
    /// the caller is told why.  The session never counted as connected.
    pub fn on_connect_failed(&mut self) -> (e: SessionError)
        requires
            old(self).wf(),
            old(self).phase is Handshaking,
        ensures
            final(self).wf(),
            *final(self) == spec_teardown(*old(self)),
            e == SessionError::ConnectionError,
    {
        self.teardown();
        SessionError::ConnectionError
    }

    /// The greeting exchange failed — it could not be built, sent, or
    /// awaited: the attempt is aborted without ever connecting.
    pub fn on_handshake_failed(&mut self) -> (e: SessionError)
        requires
            old(self).wf(),
            old(self).phase is Handshaking,
        ensures
            final(self).wf(),
            *final(self) == spec_teardown(*old(self)),
            e == SessionError::HandshakeError,
    {
        self.teardown();
        SessionError::HandshakeError
    }

    /// Connecting role: a frame arrived while waiting for the peer's
    /// greeting.  The first binary frame must be the greeting — then the
    /// session is connected and application traffic may flow.  Anything
    /// binary that is not a greeting, or a close, aborts the handshake;
    /// text and ping/pong frames just keep the wait going.
    pub fn on_handshake_frame(&mut self, frame: FrameIn) -> (r: HandshakeStep)
        requires
            old(self).wf(),
            old(self).phase is Handshaking,
        ensures
            final(self).wf(),
            final(self).url == old(self).url,
            match frame {
                FrameIn::Binary(b) => {
                    if exists|h: HelloView| spec_encode_hello(h) == b@ {
                        &&& (r matches HandshakeStep::Established(g) && spec_encode_hello(g@)
                            == b@)
                        &&& final(self).phase is Connected
                        &&& final(self).status == (VolatileStatus {
                            connected: true,
                            ..old(self).status
                        })
                        &&& final(self).queue == old(self).queue
                        &&& final(self).registry.handlers@ == old(self).registry.handlers@
                    } else {
                        &&& r == HandshakeStep::Aborted(SessionError::HandshakeError)
                        &&& *final(self) == spec_teardown(*old(self))
                    }
                },
                FrameIn::Close => r == HandshakeStep::Aborted(SessionError::HandshakeError)
                    && *final(self) == spec_teardown(*old(self)),
                _ => r == HandshakeStep::Waiting && *final(self) == *old(self),
            },
    {
        match frame {
            FrameIn::Binary(b) => {
                match crate::codec::decode_hello(b.as_slice()) {
                    Some(g) => {
                        self.phase = Phase::Connected;
                        self.status.connected = true;
                        HandshakeStep::Established(g)
                    },
                    None => {
                        self.teardown();
                        HandshakeStep::Aborted(SessionError::HandshakeError)
                    },
                }
            },
            FrameIn::Close => {
                self.teardown();
                HandshakeStep::Aborted(SessionError::HandshakeError)
            },
            _ => HandshakeStep::Waiting,
        }
    }

    /// Accepting role: this peer's greeting went out on the fresh
    /// transport, which completes its side of the handshake; dispatch
    /// and send are active from here.
    pub fn on_greeting_sent(&mut self)
        requires
            old(self).wf(),
            old(self).phase is Handshaking,
        ensures
            final(self).wf(),
            final(self).phase is Connected,
            final(self).status == (VolatileStatus { connected: true, ..old(self).status }),
            final(self).url == old(self).url,
            final(self).queue == old(self).queue,
            final(self).registry.handlers@ == old(self).registry.handlers@,
    {
        self.phase = Phase::Connected;
        self.status.connected = true;
    }

    /// A connected session received a frame.  Binary payloads are routed
    /// through the registry — first claiming handler wins, an unclaimed
    /// payload is dropped without ending anything; text is only noted;
    /// close, ping, pong and empty frames end the conversation normally.
    pub fn on_frame(&mut self, frame: FrameIn) -> (r: RecvStep)
        requires
            old(self).wf(),
            old(self).phase is Connected,
        ensures
            final(self).wf(),
            final(self).url == old(self).url,
            final(self).registry.handlers@.len() == old(self).registry.handlers@.len(),
            match frame {
                FrameIn::Binary(b) => {
                    &&& r == RecvStep::Continue(any_accepts(old(self).registry.handlers@, b@))
                    &&& final(self).phase is Connected
                    &&& final(self).status == old(self).status
                    &&& final(self).queue == old(self).queue
                    &&& forall|j: int|
                        0 <= j < old(self).registry.handlers@.len() && j != first_match(
                            old(self).registry.handlers@,
                            b@,
                        ) ==> final(self).registry.handlers@[j] == old(self).registry.handlers@[j]
                    &&& (!any_accepts(old(self).registry.handlers@, b@)
                        ==> final(self).registry.handlers@ == old(self).registry.handlers@)
                    &&& forall|j: int, p: Seq<u8>|
                        0 <= j < old(self).registry.handlers@.len()
                            ==> final(self).registry.handlers@[j].accepts(p) == old(
                            self,
                        ).registry.handlers@[j].accepts(p)
                },
                FrameIn::Text(_) => r == RecvStep::Continue(false) && *final(self) == *old(self),
                _ => r == RecvStep::Stopped && *final(self) == spec_teardown(*old(self)),
            },
    {
        match frame {
            FrameIn::Binary(b) => {
                let matched = self.registry.route(b.as_slice());
                RecvStep::Continue(matched)
            },
            FrameIn::Text(_) => RecvStep::Continue(false),
            _ => {
                self.teardown();
                RecvStep::Stopped
            },
        }
    }

    /// The inbound stream is gone — it ended, or reading failed.  Either
    /// way the receive loop ends normally and the session tears down
    /// without raising an error to its owner.
    pub fn on_receive_end(&mut self)
        requires
            old(self).wf(),
            old(self).phase is Connected,
        ensures
            final(self).wf(),
            *final(self) == spec_teardown(*old(self)),
    {
        self.teardown();
    }

    /// The cancellation wait was woken: an external caller asked this
    /// session to stop.  The session tears down cleanly — no error —
    /// and the wake-up is consumed with it.
    pub fn on_cancel(&mut self)
        requires
            old(self).wf(),
            old(self).phase is Connected,
        ensures
            final(self).wf(),
            *final(self) == spec_teardown(*old(self)),
    {
        self.teardown();
    }

    /// A transport write failed: fatal, the session tears down and the
    /// failure is surfaced to whoever ran it.
    pub fn on_send_failed(&mut self) -> (e: SessionError)
        requires
            old(self).wf(),
            old(self).phase is Connected,
        ensures
            final(self).wf(),
            *final(self) == spec_teardown(*old(self)),
            e == SessionError::SendError,
    {
        self.teardown();
        SessionError::SendError
    }

    /// Hands the drain loop the next outbound payload: always the front
    /// of the queue, so each producer's payloads reach the transport in
    /// enqueue order.  `None` means nothing is pending and the drain
    /// loop should wait.
    pub fn next_outbound(&mut self) -> (r: Option<Vec<u8>>)
        requires
            old(self).wf(),
            old(self).phase is Connected,
        ensures
            final(self).wf(),
            old(self).queue@.len() == 0 ==> r is None && final(self).queue@ == old(self).queue@,
            old(self).queue@.len() > 0 ==> r is Some && r->Some_0@ == old(self).queue@[0]
                && final(self).queue@ == old(self).queue@.drop_first(),
            final(self).queue.open == old(self).queue.open,
            final(self).queue.capacity == old(self).queue.capacity,
            final(self).queue.generation == old(self).queue.generation,
            final(self).phase == old(self).phase,
            final(self).url == old(self).url,
            final(self).status == old(self).status,
            final(self).registry.handlers@ == old(self).registry.handlers@,
    {
        self.queue.dequeue()
    }

    /// Heartbeat tick: a periodic wake with nothing to do yet.  It is
    /// the extension point for keep-alive logic and changes nothing.
    pub fn on_tick(&mut self)
        requires
            old(self).wf(),
            old(self).phase is Connected,
        ensures
            *final(self) == *old(self),
    {
    }

    /// Whether this session is currently connected.
    pub fn is_connected(&self) -> (b: bool)
        ensures
            b == self.status.connected,
    {
        self.status.is_connected()
    }

    fn teardown(&mut self)
        ensures
            *final(self) == spec_teardown(*old(self)),
    {
        self.phase = Phase::Disconnected;
        self.status.connected = false;
        self.status.cancel_pending = false;
        self.queue.close();
    }
}

/// Teardown is total and non-destructive: whatever ended the session —
/// a close frame, a cancellation, a transport failure, a failed write —
/// the state afterwards reads disconnected with no wake-up pending, the
/// queue refuses producers, and yet the registry and the queued payloads
/// are exactly as they were, ready for a reconnect attempt.
pub proof fn lemma_teardown_stops_and_preserves<H: RpcCaller>(c: Client<H>)
    requires
        c.wf(),
    ensures
        ({
            let t = spec_teardown(c);
            &&& t.wf()
            &&& t.phase is Disconnected
            &&& !t.status.connected
            &&& !t.status.cancel_pending
            &&& !t.queue.open
            &&& t.registry == c.registry
            &&& t.queue@ == c.queue@
            &&& t.url == c.url
        }),
{
}

/// The cancellation path stops everything.  A disconnect request on a
/// connected session's shared state is delivered as the pending wake-up;
/// the session's cancellation step then tears down: the state reads
/// disconnected, the wake-up is consumed, the queue is closed, and the
/// phase leaves `Connected` — so the receive, drain, cancellation and
/// heartbeat steps, all of which require a connected phase, can never
/// run again on this session until a fresh connect.
pub proof fn lemma_disconnect_stops_session<H: RpcCaller>(c: Client<H>)
    requires
        c.wf(),
        c.status.connected,
    ensures
        ({
            let requested = Client { status: spec_request_disconnect(c.status), ..c };
            let stopped = spec_teardown(requested);
            &&& requested.status.cancel_pending
            &&& requested.phase is Connected
            &&& !stopped.status.connected
            &&& !stopped.status.cancel_pending
            &&& stopped.phase is Disconnected
            &&& !stopped.queue.open
            &&& stopped.wf()
        }),
{
}

} // verus!
