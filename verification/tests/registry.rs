//! The message registry and the server's routing decision.

use ractor::dispatch::{route, RouteDecision};
use ractor::identity::identity_fingerprint;
use ractor::registry::{MessageRegister, RegisterError};
use ractor::wire::{encode, Message, REPLY_FINGERPRINT};

#[test]
fn register_then_lookup() {
    let mut reg: MessageRegister<&'static str> = MessageRegister::new();
    let fp = identity_fingerprint("test::echo");
    assert!(reg.register(fp, "echo handler").is_ok());
    assert_eq!(reg.len(), 1);
    assert!(reg.contains(fp));
    assert_eq!(reg.lookup(fp), Some(&"echo handler"));
    assert_eq!(reg.lookup(fp.wrapping_add(1)), None);
}

#[test]
fn reregistering_overwrites_the_prior_handler() {
    let mut reg: MessageRegister<u32> = MessageRegister::new();
    assert!(reg.register(42, 1).is_ok());
    assert!(reg.register(42, 2).is_ok());
    assert_eq!(reg.len(), 1);
    assert_eq!(reg.lookup(42), Some(&2));
}

#[test]
fn reserved_fingerprint_is_refused_loudly() {
    let mut reg: MessageRegister<u32> = MessageRegister::new();
    assert_eq!(
        reg.register(REPLY_FINGERPRINT, 7),
        Err(RegisterError::ReservedFingerprint)
    );
    assert_eq!(reg.len(), 0);
    assert!(!reg.contains(REPLY_FINGERPRINT));
}

#[test]
fn registered_frame_is_dispatched_with_its_correlation_id() {
    let mut reg: MessageRegister<&'static str> = MessageRegister::new();
    let fp = identity_fingerprint("test::echo");
    reg.register(fp, "echo handler").unwrap();
    let request = Message::new(fp, vec![3, 4]);
    let expected_id = request.unique_id;
    let bytes = encode(&request);
    match route(&reg, &bytes) {
        RouteDecision::Dispatch { handler, unique_id, payload } => {
            assert_eq!(*handler, "echo handler");
            assert_eq!(unique_id, expected_id);
            assert_eq!(payload, vec![3, 4]);
        }
        _ => panic!("a registered frame must dispatch"),
    }
}

#[test]
fn unregistered_frame_is_dropped_not_fatal() {
    let reg: MessageRegister<u32> = MessageRegister::new();
    let fp = identity_fingerprint("test::unknown");
    let bytes = encode(&Message::new(fp, vec![1]));
    match route(&reg, &bytes) {
        RouteDecision::Unregistered { identity_id } => assert_eq!(identity_id, fp),
        _ => panic!("an unknown fingerprint must be dropped, nothing more"),
    }
}

#[test]
fn malformed_frame_is_dropped_not_fatal() {
    let reg: MessageRegister<u32> = MessageRegister::new();
    match route(&reg, &[1, 2, 3]) {
        RouteDecision::Malformed(_) => {}
        _ => panic!("garbage bytes must be dropped, nothing more"),
    }
}

#[test]
fn replies_never_dispatch() {
    // A reply frame carries the reserved fingerprint; since registration
    // under it is refused, a reply echoed back at a server can only be
    // dropped, never dispatched.
    let mut reg: MessageRegister<u32> = MessageRegister::new();
    let fp = identity_fingerprint("test::echo");
    reg.register(fp, 5).unwrap();
    let reply = Message::new(fp, vec![9]).reply(vec![10]);
    let bytes = encode(&reply);
    match route(&reg, &bytes) {
        RouteDecision::Unregistered { identity_id } => {
            assert_eq!(identity_id, REPLY_FINGERPRINT)
        }
        _ => panic!("a reply must never reach a handler"),
    }
}
