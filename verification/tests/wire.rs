//! The wire frame codec and the identity fingerprint.

use ractor::identity::{fingerprint_bytes, identity_fingerprint};
use ractor::wire::{decode, encode, DecodeError, Message, HEADER_LEN, REPLY_FINGERPRINT};

#[test]
fn it_works() {
    assert_eq!(2 + 2, 4);
}

#[test]
fn lib_test_message() {
    let msg = Message::new(
        identity_fingerprint("builtin::string"),
        "hello world".as_bytes().to_vec(),
    );
    let bytes = encode(&msg);
    let msg_header = decode(&bytes).unwrap();
    assert_eq!(msg_header.identity_id, msg.identity_id);
    assert_eq!(msg_header.unique_id, msg.unique_id);
    assert_eq!(&msg_header.payload, "hello world".as_bytes());
}

#[test]
fn message_test_message() {
    let msg = Message::new(
        identity_fingerprint("builtin::string"),
        "hello world".as_bytes().to_vec(),
    );
    let bytes = encode(&msg);
    let msg_header = decode(&bytes).unwrap();
    assert_eq!(msg_header.identity_id, msg.identity_id);
    assert_eq!(msg_header.unique_id, msg.unique_id);
    assert_eq!(&msg_header.payload, &msg.payload);
}

#[test]
fn frame_layout_is_exact() {
    let msg = Message {
        identity_id: 0x0102030405060708,
        unique_id: 0x00000000000000000000000000000009,
        payload: vec![0xAA, 0xBB],
    };
    let bytes = encode(&msg);
    let expected: Vec<u8> = vec![
        // fingerprint, little endian
        0x08, 0x07, 0x06, 0x05, 0x04, 0x03, 0x02, 0x01,
        // correlation id, little endian
        0x09, 0x00, 0x00, 0x00, 0x00, 0x00, 0x00, 0x00, 0x00, 0x00, 0x00, 0x00, 0x00, 0x00,
        0x00, 0x00,
        // payload length, little endian
        0x02, 0x00, 0x00, 0x00, 0x00, 0x00, 0x00, 0x00,
        // payload
        0xAA, 0xBB,
    ];
    assert_eq!(bytes, expected);
}

#[test]
fn round_trip_preserves_every_field() {
    let msg = Message {
        identity_id: u64::MAX,
        unique_id: u128::MAX,
        payload: (0u8..=255).collect(),
    };
    let back = decode(&encode(&msg)).unwrap();
    assert_eq!(back.identity_id, msg.identity_id);
    assert_eq!(back.unique_id, msg.unique_id);
    assert_eq!(back.payload, msg.payload);
}

#[test]
fn empty_payload_round_trips() {
    let msg = Message { identity_id: 1, unique_id: 2, payload: Vec::new() };
    let bytes = encode(&msg);
    assert_eq!(bytes.len(), HEADER_LEN);
    let back = decode(&bytes).unwrap();
    assert_eq!(back.identity_id, 1);
    assert_eq!(back.unique_id, 2);
    assert!(back.payload.is_empty());
}

#[test]
fn truncated_bytes_are_rejected() {
    assert!(matches!(decode(&[]), Err(DecodeError::Truncated)));
    assert!(matches!(decode(&[0u8; 31]), Err(DecodeError::Truncated)));
}

#[test]
fn lying_length_field_is_rejected() {
    let msg = Message { identity_id: 1, unique_id: 2, payload: vec![1, 2, 3] };
    let mut bytes = encode(&msg);
    // Chop one payload byte off: the length field now lies.
    bytes.pop();
    assert!(matches!(decode(&bytes), Err(DecodeError::LengthMismatch)));
    // Extra trailing bytes lie the other way.
    let mut bytes = encode(&msg);
    bytes.push(0);
    assert!(matches!(decode(&bytes), Err(DecodeError::LengthMismatch)));
}

#[test]
fn reply_reuses_correlation_id_under_reply_fingerprint() {
    let request = Message::new(identity_fingerprint("test::echo"), vec![1, 2, 3]);
    let reply = request.reply(vec![7]);
    assert_eq!(reply.identity_id, REPLY_FINGERPRINT);
    assert_eq!(reply.unique_id, request.unique_id);
    assert_eq!(reply.payload, vec![7]);
    assert!(reply.is_reply());
    assert!(!request.is_reply());
}

#[test]
fn fresh_requests_draw_distinct_correlation_ids() {
    let a = Message::new(1, Vec::new());
    let b = Message::new(1, Vec::new());
    assert_ne!(a.unique_id, b.unique_id);
}

#[test]
fn fingerprint_matches_published_test_vectors() {
    // FNV-1a, 64 bit.
    assert_eq!(fingerprint_bytes(b""), 0xcbf29ce484222325);
    assert_eq!(fingerprint_bytes(b"a"), 0xaf63dc4c8601ec8c);
    assert_eq!(fingerprint_bytes(b"foobar"), 0x85944171f73967e8);
    assert_eq!(identity_fingerprint("foobar"), 0x85944171f73967e8);
}

#[test]
fn equal_identities_share_a_fingerprint() {
    // Two distinct types declaring the same identity string are routed
    // identically: the fingerprint depends on the identity alone.
    let first = identity_fingerprint(&String::from("test::echo"));
    let second = identity_fingerprint("test::echo");
    assert_eq!(first, second);
    assert_ne!(identity_fingerprint("test::echo"), identity_fingerprint("test::other"));
}
