//! Tests for the dispatch registry: first-match routing, and that a
//! payload no handler claims has no effect at all.

use wsmux::codec::{encode_hello_service, HelloReply, HelloService, Service};
use wsmux::registry::DispatchRegistry;
use wsmux::rpc::HelloRpc;

fn valid_payload(text: &str) -> Vec<u8> {
    encode_hello_service(&HelloService {
        service: Some(Service::HelloReplyMsg(HelloReply { message: text.as_bytes().to_vec() })),
    })
}

#[test]
fn first_matching_handler_wins() {
    // both handlers would claim the payload; only the first may act
    let mut reg: DispatchRegistry<HelloRpc> = DispatchRegistry::new();
    reg.register(HelloRpc::new());
    reg.register(HelloRpc::new());
    let payload = valid_payload("hi");
    assert!(reg.route(&payload));
    assert_eq!(reg.handlers[0].handled, 1);
    assert_eq!(reg.handlers[1].handled, 0);
    assert!(reg.handlers[0].last.is_some());
    assert!(reg.handlers[1].last.is_none());
}

#[test]
fn registration_order_is_dispatch_order() {
    let mut reg: DispatchRegistry<HelloRpc> = DispatchRegistry::new();
    for _ in 0..3 {
        reg.register(HelloRpc::new());
    }
    assert!(reg.route(&valid_payload("a")));
    assert!(reg.route(&valid_payload("b")));
    // every routed payload went to the front handler, never further
    assert_eq!(reg.handlers[0].handled, 2);
    assert_eq!(reg.handlers[1].handled, 0);
    assert_eq!(reg.handlers[2].handled, 0);
}

#[test]
fn unmatched_payload_has_no_effect() {
    let mut reg: DispatchRegistry<HelloRpc> = DispatchRegistry::new();
    reg.register(HelloRpc::new());
    reg.register(HelloRpc::new());
    // not a service envelope: no handler claims it
    let garbage = vec![0xff, 0x00, 0x17];
    assert!(!reg.route(&garbage));
    assert_eq!(reg.handlers[0].handled, 0);
    assert_eq!(reg.handlers[1].handled, 0);
    assert!(reg.handlers[0].last.is_none());
    assert!(reg.handlers[1].last.is_none());
}

#[test]
fn route_on_empty_registry_matches_nothing() {
    let mut reg: DispatchRegistry<HelloRpc> = DispatchRegistry::new();
    assert!(!reg.route(&valid_payload("hi")));
    assert_eq!(reg.len(), 0);
}

#[test]
fn handler_keeps_latest_claimed_record() {
    let mut reg: DispatchRegistry<HelloRpc> = DispatchRegistry::new();
    reg.register(HelloRpc::new());
    assert!(reg.route(&valid_payload("first")));
    assert!(reg.route(&valid_payload("second")));
    assert_eq!(reg.handlers[0].handled, 2);
    match &reg.handlers[0].last {
        Some(HelloService { service: Some(Service::HelloReplyMsg(r)) }) => {
            assert_eq!(r.message, b"second".to_vec());
        },
        other => panic!("unexpected record kept: {other:?}"),
    }
}
