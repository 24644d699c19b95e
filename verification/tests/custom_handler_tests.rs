//! Tests with a handler family defined outside the library: the
//! registry's capability contract is open, so routing must work the
//! same for handlers it has never seen.

use wsmux::codec::{encode_hello_service, HelloReply, HelloService, Service};
use wsmux::queue::SenderHandle;
use wsmux::registry::{DispatchRegistry, RpcCaller};

/// A family that claims only payloads starting with its magic byte.
struct MagicHandler {
    magic: u8,
    sender: Option<SenderHandle>,
    claimed: Vec<Vec<u8>>,
}

impl MagicHandler {
    fn new(magic: u8) -> MagicHandler {
        MagicHandler { magic, sender: None, claimed: Vec::new() }
    }
}

impl RpcCaller for MagicHandler {
    // the two claim-description members are erased specification items;
    // nothing consults them at run time
    fn accepts(&self, _bytes: vstd::seq::Seq<u8>) -> bool {
        false
    }

    fn sender_spec(&self) -> Option<SenderHandle> {
        None
    }

    fn set_sender(&mut self, sender: SenderHandle) {
        self.sender = Some(sender);
    }

    fn handle(&mut self, bytes: &[u8]) -> bool {
        if bytes.first() == Some(&self.magic) {
            self.claimed.push(bytes.to_vec());
            true
        } else {
            false
        }
    }
}

#[test]
fn routing_passes_over_handlers_that_decline() {
    let mut reg: DispatchRegistry<MagicHandler> = DispatchRegistry::new();
    reg.register(MagicHandler::new(0x01));
    reg.register(MagicHandler::new(0x02));
    reg.register(MagicHandler::new(0x02));

    // declined by the first family, claimed by the second; the third,
    // which would also claim it, is never reached
    let payload = vec![0x02, 0xaa, 0xbb];
    assert!(reg.route(&payload));
    assert!(reg.handlers[0].claimed.is_empty());
    assert_eq!(reg.handlers[1].claimed, vec![payload.clone()]);
    assert!(reg.handlers[2].claimed.is_empty());
}

#[test]
fn each_family_sees_only_its_own_payloads() {
    let mut reg: DispatchRegistry<MagicHandler> = DispatchRegistry::new();
    reg.register(MagicHandler::new(0x01));
    reg.register(MagicHandler::new(0x02));

    assert!(reg.route(&[0x02, 0x10]));
    assert!(reg.route(&[0x01, 0x20]));
    assert!(reg.route(&[0x01, 0x30]));
    assert!(!reg.route(&[0x03, 0x40]));

    assert_eq!(reg.handlers[0].claimed, vec![vec![0x01, 0x20], vec![0x01, 0x30]]);
    assert_eq!(reg.handlers[1].claimed, vec![vec![0x02, 0x10]]);
}

#[test]
fn mixed_payloads_route_like_the_hello_family() {
    // a magic-byte payload and a hello envelope share the transport;
    // each reaches its own family only
    let envelope = encode_hello_service(&HelloService {
        service: Some(Service::HelloReplyMsg(HelloReply { message: b"hi".to_vec() })),
    });
    let mut reg: DispatchRegistry<MagicHandler> = DispatchRegistry::new();
    reg.register(MagicHandler::new(0x07));
    // the envelope happens to start with the record tag, not 0x07
    assert!(!reg.route(&envelope));
    assert!(reg.route(&[0x07]));
    assert_eq!(reg.handlers[0].claimed, vec![vec![0x07]]);
}
