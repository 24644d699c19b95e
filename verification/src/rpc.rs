//! The example handler family: the hello exchange.
//!
//! `HelloRpc` claims every payload that is a well-formed service
//! envelope, keeps the most recent record it claimed, and can produce a
//! reply payload for the outbound queue through the sender capability it
//! was handed at registration.  It is one instance of the general
//! handler contract; other families plug into the same registry the same
//! way.

use vstd::prelude::*;

use crate::codec::{
    decode_hello_service, spec_encode_service, HelloReply, HelloReplyView, HelloService,
    HelloServiceView, Service, ServiceView,
};
use crate::queue::SenderHandle;
use crate::registry::RpcCaller;

verus! {

/// Whether `b` is the wire form of some service envelope.
pub open spec fn is_service_payload(b: Seq<u8>) -> bool {
    exists|m: HelloServiceView| spec_encode_service(m) == b
}

/// Handler for the hello message family.
pub struct HelloRpc {
    /// Producer capability bound at registration, absent before.
    pub sender: Option<SenderHandle>,
    /// How many payloads this handler has claimed (saturating).
    pub handled: u64,
    /// The most recent record this handler claimed.
    pub last: Option<HelloService>,
}

impl HelloRpc {
    /// A fresh handler with no sender bound and nothing claimed yet.
    pub fn new() -> (r: HelloRpc)
        ensures
            r.sender is None,
            r.handled == 0,
            r.last is None,
    {
        HelloRpc { sender: None, handled: 0, last: None }
    }

    /// Builds the reply payload carrying `message` and names the sender
    /// capability to enqueue it with.  Without a bound sender there is
    /// nothing to send and the call is a no-op, as before registration.
    pub fn say_hello(&self, message: Vec<u8>) -> (r: Option<(SenderHandle, Vec<u8>)>)
        ensures
            r is Some <==> self.sender is Some,
            r is Some ==> ({
                let (s, payload) = r->Some_0;
                &&& Some(s) == self.sender
                &&& payload@ == spec_encode_service(
                    HelloServiceView {
                        service: Some(
                            ServiceView::HelloReplyMsg(HelloReplyView { message: message@ }),
                        ),
                    },
                )
            }),
    {
        match &self.sender {
            None => None,
            Some(s) => {
                let reply = HelloService {
                    service: Some(Service::HelloReplyMsg(HelloReply { message })),
                };
                let payload = crate::codec::encode_hello_service(&reply);
                Some((*s, payload))
            },
        }
    }
}

impl Default for HelloRpc {
    /// Same as `HelloRpc::new`.
    fn default() -> (r: HelloRpc)
        ensures
            r.sender is None,
            r.handled == 0,
            r.last is None,
    {
        HelloRpc { sender: None, handled: 0, last: None }
    }
}

impl RpcCaller for HelloRpc {
    /// This family claims exactly the well-formed service envelopes.
    open spec fn accepts(&self, bytes: Seq<u8>) -> bool {
        is_service_payload(bytes)
    }

    open spec fn sender_spec(&self) -> Option<SenderHandle> {
        self.sender
    }

    fn set_sender(&mut self, sender: SenderHandle)
        ensures
            final(self).sender_spec() == Some(sender),
            forall|b: Seq<u8>| final(self).accepts(b) == old(self).accepts(b),
    {
        self.sender = Some(sender);
    }

    /// Claims `bytes` exactly when they decode as a service envelope;
    /// on a claim the record is kept and the claim count grows.  A
    /// payload that does not decode is declined without any effect.
    fn handle(&mut self, bytes: &[u8]) -> (matched: bool)
        ensures
            matched == old(self).accepts(bytes@),
            !matched ==> *final(self) == *old(self),
            final(self).sender_spec() == old(self).sender_spec(),
            forall|b: Seq<u8>| final(self).accepts(b) == old(self).accepts(b),
            matched ==> ({
                &&& final(self).last is Some
                &&& spec_encode_service(final(self).last->Some_0@) == bytes@
                &&& final(self).handled == if old(self).handled < u64::MAX {
                    old(self).handled + 1
                } else {
                    old(self).handled as int
                }
            }),
    {
        match decode_hello_service(bytes) {
            Some(m) => {
                proof {
                    assert(is_service_payload(bytes@)) by {
                        assert(spec_encode_service(m@) == bytes@);
                    }
                }
                if self.handled < u64::MAX {
                    self.handled = self.handled + 1;
                }
                self.last = Some(m);
                true
            },
            None => false,
        }
    }
}

} // verus!
