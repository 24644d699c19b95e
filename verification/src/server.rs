//! Accepting-peer frame handling.
//!
//! The accepting peer greets first — its event loop builds the greeting
//! with `encode_hello` and sends it as soon as the transport is up —
//! and then reads frames.  Unlike the generic dispatch path, this peer's
//! hello loop is strict about payloads: a binary frame that is not a
//! well-formed, populated service envelope is fatal, because the stream
//! has no recovery point after a malformed frame.

use vstd::prelude::*;

use crate::client::FrameIn;
use crate::codec::{
    decode_hello_service, spec_encode_service, HelloServiceView, Service, ServiceView,
};
use crate::errors::SessionError;

verus! {

/// What the accepting peer does with one inbound frame.
#[derive(Debug, PartialEq, Eq)]
pub enum ServerStep {
    /// Close, ping, pong or empty frame: the conversation is over,
    /// normally.
    Stop,
    /// Text frame: noted in the log, nothing else.
    Skip,
    /// The payload is no populated service record: fail fast.
    Reject(SessionError),
    /// A well-formed record to act on.
    Note(Service),
}

/// Decides one frame for the accepting peer's hello loop: control frames
/// end the conversation normally, text is only noted, and a binary frame
/// yields its record exactly when it is the wire form of a populated
/// service envelope — anything else is a decode fault that ends the
/// session.
pub fn server_frame_step(frame: FrameIn) -> (r: ServerStep)
    ensures
        match frame {
            FrameIn::Binary(b) => match r {
                ServerStep::Note(s) => spec_encode_service(
                    HelloServiceView { service: Some(s@) },
                ) == b@,
                ServerStep::Reject(e) => e == SessionError::DecodeError && forall|sv: ServiceView|
                    spec_encode_service(HelloServiceView { service: Some(sv) }) != b@,
                _ => false,
            },
            FrameIn::Text(_) => r == ServerStep::Skip,
            _ => r == ServerStep::Stop,
        },
{
    match frame {
        FrameIn::Binary(b) => {
            match decode_hello_service(b.as_slice()) {
                Some(m) => {
                    match m.service {
                        Some(svc) => ServerStep::Note(svc),
                        None => {
                            proof {
                                assert forall|sv: ServiceView|
                                    spec_encode_service(HelloServiceView { service: Some(sv) })
                                        != b@ by {
                                    let mv = HelloServiceView { service: Some(sv) };
                                    crate::codec::lemma_service_encoding_parse(
                                        spec_encode_service(mv),
                                        mv,
                                    );
                                }
                            }
                            ServerStep::Reject(SessionError::DecodeError)
                        },
                    }
                },
                None => ServerStep::Reject(SessionError::DecodeError),
            }
        },
        FrameIn::Text(_) => ServerStep::Skip,
        _ => ServerStep::Stop,
    }
}

} // verus!
