//! A bidirectional, cancellable message-multiplexing session core.
//!
//! One persistent framed transport carries several independent message
//! families at once.  The pieces here are the ones with real protocol
//! state: the session lifecycle (handshake, concurrent receive / send /
//! cancel steps, teardown), the ordered dispatch registry that routes each
//! inbound payload to the first handler that claims it, the bounded
//! outbound queue every producer shares, and the greeting codec the two
//! peers exchange on connect.  The transport itself (a WebSocket or any
//! other framed stream) and the event loop that drives the session are
//! external collaborators: they feed frames and events in and perform the
//! actions the session decides on.

pub mod client;
pub mod codec;
pub mod errors;
pub mod host;
pub mod queue;
pub mod registry;
pub mod rpc;
pub mod server;
pub mod status;

use vstd::prelude::*;

verus! {

/// Capacity of the outbound queue a fresh session starts with.
pub const OUTBOUND_CAPACITY: usize = 32;

} // verus!
