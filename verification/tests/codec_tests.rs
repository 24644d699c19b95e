//! Tests for the wire codec: varints, the three record kinds, round
//! trips, canonicity, and agreement with an independent protobuf
//! implementation on the shared subset of the format.

use wsmux::codec::{
    decode_hello, decode_hello_service, decode_reply, decode_varint, encode_hello,
    encode_hello_service, encode_reply, encode_varint, Hello, HelloReply, HelloService, Service,
};

fn hello(from: &str, to: &str) -> Hello {
    Hello { from: from.as_bytes().to_vec(), to: to.as_bytes().to_vec() }
}

#[test]
fn varint_round_trips() {
    let values: Vec<usize> =
        vec![0, 1, 2, 127, 128, 129, 255, 256, 300, 16383, 16384, 1 << 20, usize::MAX];
    for v in values {
        let mut buf: Vec<u8> = Vec::new();
        encode_varint(&mut buf, v);
        assert_eq!(decode_varint(&buf, 0), Some((v, buf.len())));
    }
}

#[test]
fn varint_known_bytes() {
    let mut buf: Vec<u8> = Vec::new();
    encode_varint(&mut buf, 0);
    assert_eq!(buf, vec![0x00]);
    let mut buf: Vec<u8> = Vec::new();
    encode_varint(&mut buf, 127);
    assert_eq!(buf, vec![0x7f]);
    let mut buf: Vec<u8> = Vec::new();
    encode_varint(&mut buf, 128);
    assert_eq!(buf, vec![0x80, 0x01]);
    let mut buf: Vec<u8> = Vec::new();
    encode_varint(&mut buf, 300);
    assert_eq!(buf, vec![0xac, 0x02]);
}

#[test]
fn varint_matches_prost() {
    let values: Vec<usize> = vec![0, 1, 127, 128, 255, 300, 16383, 16384, 1 << 20, usize::MAX];
    for v in values {
        let mut ours: Vec<u8> = Vec::new();
        encode_varint(&mut ours, v);
        let mut theirs: Vec<u8> = Vec::new();
        prost::encoding::encode_varint(v as u64, &mut theirs);
        assert_eq!(ours, theirs, "varint encodings differ for {v}");
    }
}

#[test]
fn varint_rejects_noncanonical_and_truncated() {
    // trailing zero group: 0 must be a single byte
    assert_eq!(decode_varint(&[0x80, 0x00], 0), None);
    // truncated: continuation bit set but nothing follows
    assert_eq!(decode_varint(&[0x80], 0), None);
    // out of range start
    assert_eq!(decode_varint(&[], 0), None);
    // canonical zero is fine
    assert_eq!(decode_varint(&[0x00], 0), Some((0, 1)));
}

#[test]
fn varint_too_wide_for_usize_is_refused() {
    // nine continuation groups followed by 2 encode 1 << 64, one past
    // the widest value this platform's lengths can carry
    let mut bytes = vec![0x80u8; 9];
    bytes.push(0x02);
    assert_eq!(decode_varint(&bytes, 0), None);
}

#[test]
fn varint_decodes_mid_buffer() {
    let mut buf: Vec<u8> = vec![0xff, 0xff];
    encode_varint(&mut buf, 300);
    assert_eq!(decode_varint(&buf, 2), Some((300, buf.len())));
}

#[test]
fn hello_round_trip() {
    let h = hello("server", "127.0.0.1:60451");
    let bytes = encode_hello(&h);
    assert_eq!(decode_hello(&bytes), Some(h));
}

#[test]
fn hello_round_trip_empty_fields() {
    let h = hello("", "");
    let bytes = encode_hello(&h);
    assert_eq!(decode_hello(&bytes), Some(h));
}

#[test]
fn hello_matches_prost_field_encoding() {
    let from = "server".to_string();
    let to = "10.0.0.7:8081".to_string();
    let mut theirs: Vec<u8> = Vec::new();
    prost::encoding::string::encode(1, &from, &mut theirs);
    prost::encoding::string::encode(2, &to, &mut theirs);
    let ours = encode_hello(&hello(&from, &to));
    assert_eq!(ours, theirs);
}

#[test]
fn hello_decode_rejects_garbage() {
    assert_eq!(decode_hello(&[]), None);
    assert_eq!(decode_hello(&[0x12, 0x00]), None);
    assert_eq!(decode_hello(&[0x0a]), None);
    assert_eq!(decode_hello(&[0xff, 0xff, 0xff]), None);
}

#[test]
fn hello_decode_rejects_trailing_bytes() {
    let mut bytes = encode_hello(&hello("a", "b"));
    bytes.push(0x00);
    assert_eq!(decode_hello(&bytes), None);
}

#[test]
fn hello_decode_rejects_truncation() {
    let bytes = encode_hello(&hello("server", "client"));
    for cut in 0..bytes.len() {
        assert_eq!(decode_hello(&bytes[..cut]), None, "truncation at {cut} must not decode");
    }
}

#[test]
fn reply_round_trip() {
    let r = HelloReply { message: b"hi from wasm".to_vec() };
    let bytes = encode_reply(&r);
    assert_eq!(decode_reply(&bytes), Some(r));
}

#[test]
fn reply_decode_rejects_bad_tag() {
    let mut bytes = encode_reply(&HelloReply { message: b"x".to_vec() });
    bytes[0] = 0x12;
    assert_eq!(decode_reply(&bytes), None);
}

#[test]
fn service_empty_envelope_is_empty_payload() {
    let m = HelloService { service: None };
    let bytes = encode_hello_service(&m);
    assert_eq!(bytes, Vec::<u8>::new());
    assert_eq!(decode_hello_service(&bytes), Some(m));
}

#[test]
fn service_hello_round_trip() {
    let m = HelloService { service: Some(Service::HelloMsg(hello("server", "peer"))) };
    let bytes = encode_hello_service(&m);
    assert_eq!(decode_hello_service(&bytes), Some(m));
}

#[test]
fn service_reply_round_trip() {
    let m = HelloService {
        service: Some(Service::HelloReplyMsg(HelloReply { message: b"hi".to_vec() })),
    };
    let bytes = encode_hello_service(&m);
    assert_eq!(decode_hello_service(&bytes), Some(m));
}

#[test]
fn service_decode_rejects_malformed() {
    // unknown tag
    assert_eq!(decode_hello_service(&[0x1a, 0x00]), None);
    // declared length does not cover the payload
    assert_eq!(decode_hello_service(&[0x0a, 0x05, 0x00]), None);
    // nested record malformed
    assert_eq!(decode_hello_service(&[0x0a, 0x01, 0xff]), None);
}

#[test]
fn encodings_are_distinct() {
    let a = encode_hello_service(&HelloService {
        service: Some(Service::HelloMsg(hello("x", "y"))),
    });
    let b = encode_hello_service(&HelloService {
        service: Some(Service::HelloReplyMsg(HelloReply { message: b"x".to_vec() })),
    });
    let c = encode_hello_service(&HelloService { service: None });
    assert_ne!(a, b);
    assert_ne!(a, c);
    assert_ne!(b, c);
}
