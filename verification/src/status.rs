//! Shared session state.
//!
//! The one record a session shares with its owner: whether the session
//! is currently connected, and the cancellation signal the owner pulls
//! to tear the session down from outside.  Everything else in it is
//! owner-side bookkeeping the console reads and writes between frames.
//! The record is reached through accessor methods; during any state
//! transition there is a single writer.

use vstd::prelude::*;

verus! {

/// What the console is currently showing.
#[derive(Clone, Copy, Debug, PartialEq, Eq, Structural)]
pub enum Mode {
    Monitor,
    Console,
}

impl Mode {
    /// Display name of the mode.
    pub fn text(&self) -> (s: String)
        ensures
            match self {
                Mode::Monitor => s@ == "Monitor"@,
                Mode::Console => s@ == "Console"@,
            },
    {
        match self {
            Mode::Monitor => "Monitor".to_owned(),
            Mode::Console => "Console".to_owned(),
        }
    }
}

/// Shared, concurrently read session state record.
pub struct VolatileStatus {
    /// True exactly between a successful handshake and the first
    /// terminating event of that connection's loops.
    pub connected: bool,
    /// A pending wake-up for the session's cancellation wait.  It is not
    /// a durable flag: it can only be pending while a session is
    /// connected and waiting, and teardown consumes it.
    pub cancel_pending: bool,
    /// Name being edited in the console.
    pub edit_ctx_name: String,
    /// Current console mode.
    pub mode: Mode,
    /// Whether the server should pause its yields.
    pub pause_server_yields: bool,
    /// Known context names, without duplicates.
    pub context_names: Vec<String>,
    /// The selected context, if any.
    pub current_context_name: Option<String>,
}

/// The state after a disconnect request: delivered as a pending wake-up
/// when a session is connected to receive it, and a no-op otherwise —
/// cancelling nothing changes nothing, now or for any later connect.
pub open spec fn spec_request_disconnect(s: VolatileStatus) -> VolatileStatus {
    if s.connected {
        VolatileStatus { cancel_pending: true, ..s }
    } else {
        s
    }
}

impl VolatileStatus {
    /// Fresh state: disconnected, no pending cancellation, console mode.
    pub fn new() -> (s: VolatileStatus)
        ensures
            !s.connected,
            !s.cancel_pending,
            s.mode == Mode::Console,
            s.edit_ctx_name@ == Seq::<char>::empty(),
            !s.pause_server_yields,
            s.context_names@ == Seq::<String>::empty(),
            s.current_context_name is None,
    {
        let s = VolatileStatus {
            connected: false,
            cancel_pending: false,
            edit_ctx_name: String::new(),
            mode: Mode::Console,
            pause_server_yields: false,
            context_names: Vec::new(),
            current_context_name: None,
        };
        proof {
            assert(s.context_names@ =~= Seq::<String>::empty());
        }
        s
    }

    /// Whether a session is currently connected on this state.
    pub fn is_connected(&self) -> (b: bool)
        ensures
            b == self.connected,
    {
        self.connected
    }

    /// Pulls the cancellation signal.  Wakes the connected session's
    /// cancellation wait; with no session connected there is no waiter,
    /// and the call has no effect at all — not now and not on a future
    /// connect.
    pub fn request_disconnect(&mut self)
        ensures
            *final(self) == spec_request_disconnect(*old(self)),
    {
        if self.connected {
            self.cancel_pending = true;
        }
    }
}

impl Default for VolatileStatus {
    /// Same as `VolatileStatus::new`.
    fn default() -> (s: VolatileStatus)
        ensures
            !s.connected,
            !s.cancel_pending,
            s.mode == Mode::Console,
            s.edit_ctx_name@ == Seq::<char>::empty(),
            !s.pause_server_yields,
            s.context_names@ == Seq::<String>::empty(),
            s.current_context_name is None,
    {
        VolatileStatus::new()
    }
}

/// Cancelling a session that is not connected is a no-op: the state is
/// untouched, so nothing about a later connect can be affected.
pub proof fn lemma_cancel_when_disconnected_noop(s: VolatileStatus)
    requires
        !s.connected,
    ensures
        spec_request_disconnect(s) == s,
{
}

} // verus!
