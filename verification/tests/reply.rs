//! The reply path of the remote protocol: what the server answers for
//! each handler outcome, and how the client resolves it.

use ractor::dispatch::{resolve_reply, respond, ServerAnswer};
use ractor::error::RpcError;
use ractor::wire::{decode_outcome, encode_outcome, ReplyOutcome, REPLY_FINGERPRINT};

#[test]
fn success_travels_back_decodably() {
    match respond(9, Ok(vec![7, 8])) {
        ServerAnswer::Reply(m) => {
            assert_eq!(m.identity_id, REPLY_FINGERPRINT);
            assert_eq!(m.unique_id, 9);
            assert_eq!(resolve_reply(m.payload), Ok(vec![7, 8]));
        }
        ServerAnswer::Drop => panic!("a successful outcome must be answered"),
    }
}

#[test]
fn forward_failure_is_reported_not_fatal() {
    match respond(5, Err(RpcError::ForwardToLocal)) {
        ServerAnswer::Reply(m) => {
            assert_eq!(m.identity_id, REPLY_FINGERPRINT);
            assert_eq!(m.unique_id, 5);
            assert_eq!(resolve_reply(m.payload), Err(RpcError::ForwardToLocal));
        }
        ServerAnswer::Drop => panic!("an unreachable mailbox must be reported back"),
    }
}

#[test]
fn handler_panic_is_reported_not_fatal() {
    match respond(6, Err(RpcError::HandlerPanic)) {
        ServerAnswer::Reply(m) => {
            assert_eq!(m.unique_id, 6);
            assert_eq!(resolve_reply(m.payload), Err(RpcError::HandlerPanic));
        }
        ServerAnswer::Drop => panic!("a dead actor must be reported back"),
    }
}

#[test]
fn unencodable_outcome_is_dropped() {
    // An output the collaborator format could not re-encode is dropped
    // like any malformed frame: no reply, the connection lives on.
    assert!(matches!(
        respond(7, Err(RpcError::PayloadCodec)),
        ServerAnswer::Drop
    ));
}

#[test]
fn outcome_codec_round_trips() {
    match decode_outcome(&encode_outcome(ReplyOutcome::Output(vec![1, 2, 3]))) {
        Some(ReplyOutcome::Output(bytes)) => assert_eq!(bytes, vec![1, 2, 3]),
        _ => panic!("an encoded output must decode back"),
    }
    match decode_outcome(&encode_outcome(ReplyOutcome::Output(Vec::new()))) {
        Some(ReplyOutcome::Output(bytes)) => assert!(bytes.is_empty()),
        _ => panic!("an empty output must decode back"),
    }
    assert!(matches!(
        decode_outcome(&encode_outcome(ReplyOutcome::ForwardToLocal)),
        Some(ReplyOutcome::ForwardToLocal)
    ));
    assert!(matches!(
        decode_outcome(&encode_outcome(ReplyOutcome::HandlerPanic)),
        Some(ReplyOutcome::HandlerPanic)
    ));
}

#[test]
fn garbage_outcome_resolves_as_codec_failure() {
    // Once a correlation id was matched its caller must resolve: bytes
    // that are no outcome resolve as a payload-codec failure.
    assert_eq!(resolve_reply(Vec::new()), Err(RpcError::PayloadCodec));
    assert_eq!(resolve_reply(vec![9, 9]), Err(RpcError::PayloadCodec));
    // A failure tag followed by trailing bytes is no outcome either.
    assert_eq!(resolve_reply(vec![1, 0]), Err(RpcError::PayloadCodec));
}
