//! The routing decisions of the remote protocol.
//!
//! The server reads frames off a connection and must decide, for each:
//! drop it (not a frame, or an unregistered fingerprint — logged, never
//! fatal to the connection) or hand its payload to the registered handler
//! and answer with a reply frame under the same correlation id.  The
//! client reads reply frames and must decide: drop (not a frame, or an
//! unknown correlation id — stale, duplicate or forged) or complete the
//! caller waiting under that id.  Both decisions are made here, on plain
//! bytes and the verified tables; the surrounding loops only perform
//! what was decided.

use vstd::prelude::*;
use crate::error::RpcError;
use crate::pending::PendingTable;
use crate::registry::MessageRegister;
use crate::wire::{
    decode, decode_outcome, encode_outcome, spec_decode, spec_decode_error, spec_decode_outcome,
    spec_encode_outcome, DecodeError, Message, ReplyOutcome, ReplyOutcomeView, REPLY_FINGERPRINT,
};

verus! {

/// What the server does with one incoming frame.
pub enum RouteDecision<'a, V> {
    /// Not a frame: dropped, the connection lives on.
    Malformed(DecodeError),
    /// No handler under this fingerprint: dropped, the connection lives
    /// on — a peer may know message types this process does not.
    Unregistered { identity_id: u64 },
    /// Hand the payload to this handler; the reply travels back under
    /// the same correlation id.
    Dispatch { handler: &'a V, unique_id: u128, payload: Vec<u8> },
}

/// Decides what to do with one frame arriving at the server: decode it,
/// look its fingerprint up, and either hand the payload to the registered
/// handler or say exactly why the frame is dropped.
pub fn route<'a, V>(registry: &'a MessageRegister<V>, bytes: &[u8]) -> (r: RouteDecision<'a, V>)
    ensures
        match spec_decode(bytes@) {
            Option::None => r matches RouteDecision::Malformed(e) && e == spec_decode_error(
                bytes@,
            ),
            Option::Some(m) => {
                if registry@.contains_key(m.identity_id) {
                    r matches RouteDecision::Dispatch { handler, unique_id, payload }
                        && *handler == registry@[m.identity_id] && unique_id == m.unique_id
                        && payload@ == m.payload
                } else {
                    (r matches RouteDecision::Unregistered { identity_id } && identity_id
                        == m.identity_id)
                }
            },
        },
{
    match decode(bytes) {
        Err(e) => RouteDecision::Malformed(e),
        Ok(msg) => match registry.lookup(msg.identity_id) {
            None => RouteDecision::Unregistered { identity_id: msg.identity_id },
            Some(handler) => RouteDecision::Dispatch {
                handler,
                unique_id: msg.unique_id,
                payload: msg.payload,
            },
        },
    }
}

/// What the server sends back for one dispatched request.
pub enum ServerAnswer {
    /// Write this reply frame on the connection the request came in on.
    Reply(Message),
    /// Send nothing; the connection lives on and the next frame is read.
    Drop,
}

/// Decides the server's answer to a dispatched request, given the
/// handler's outcome.  Success and the two local failure points —
/// unreachable mailbox, dead actor — travel back as a decodable payload
/// under the reply sentinel and the request's correlation id, instead of
/// tearing the connection down.  An outcome the collaborator format
/// could not handle is dropped like any malformed frame.
pub fn respond(unique_id: u128, outcome: Result<Vec<u8>, RpcError>) -> (r: ServerAnswer)
    ensures
        match outcome {
            Ok(bytes) => r matches ServerAnswer::Reply(m) && m.identity_id == REPLY_FINGERPRINT
                && m.unique_id == unique_id && m@.payload == spec_encode_outcome(
                ReplyOutcomeView::Output(bytes@),
            ),
            Err(RpcError::ForwardToLocal) => r matches ServerAnswer::Reply(m) && m.identity_id
                == REPLY_FINGERPRINT && m.unique_id == unique_id && m@.payload
                == spec_encode_outcome(ReplyOutcomeView::ForwardToLocal),
            Err(RpcError::HandlerPanic) => r matches ServerAnswer::Reply(m) && m.identity_id
                == REPLY_FINGERPRINT && m.unique_id == unique_id && m@.payload
                == spec_encode_outcome(ReplyOutcomeView::HandlerPanic),
            Err(_) => r is Drop,
        },
{
    match outcome {
        Ok(bytes) => ServerAnswer::Reply(
            Message {
                identity_id: REPLY_FINGERPRINT,
                unique_id,
                payload: encode_outcome(ReplyOutcome::Output(bytes)),
            },
        ),
        Err(RpcError::ForwardToLocal) => ServerAnswer::Reply(
            Message {
                identity_id: REPLY_FINGERPRINT,
                unique_id,
                payload: encode_outcome(ReplyOutcome::ForwardToLocal),
            },
        ),
        Err(RpcError::HandlerPanic) => ServerAnswer::Reply(
            Message {
                identity_id: REPLY_FINGERPRINT,
                unique_id,
                payload: encode_outcome(ReplyOutcome::HandlerPanic),
            },
        ),
        Err(_) => ServerAnswer::Drop,
    }
}

/// Resolves a reply's payload on the client side: the handler's output,
/// or the failure the server reported.  Bytes that are no outcome
/// resolve as a payload-codec failure, so a caller whose correlation id
/// was already matched is never left waiting forever.
pub fn resolve_reply(payload: Vec<u8>) -> (r: Result<Vec<u8>, RpcError>)
    ensures
        match spec_decode_outcome(payload@) {
            Some(ReplyOutcomeView::Output(bytes)) => r matches Ok(b) && b@ == bytes,
            Some(ReplyOutcomeView::ForwardToLocal) => r == Err::<Vec<u8>, RpcError>(
                RpcError::ForwardToLocal,
            ),
            Some(ReplyOutcomeView::HandlerPanic) => r == Err::<Vec<u8>, RpcError>(
                RpcError::HandlerPanic,
            ),
            None => r == Err::<Vec<u8>, RpcError>(RpcError::PayloadCodec),
        },
{
    match decode_outcome(payload.as_slice()) {
        Some(ReplyOutcome::Output(bytes)) => Ok(bytes),
        Some(ReplyOutcome::ForwardToLocal) => Err(RpcError::ForwardToLocal),
        Some(ReplyOutcome::HandlerPanic) => Err(RpcError::HandlerPanic),
        None => Err(RpcError::PayloadCodec),
    }
}

/// What the client does with one incoming frame.
pub enum ReplyDecision<V> {
    /// Not a frame: dropped, the read loop lives on.
    Malformed(DecodeError),
    /// No request in flight under this correlation id — the reply is
    /// stale, duplicated or forged: dropped, never fatal.
    Unknown { unique_id: u128 },
    /// Complete the caller waiting in this slot with the payload.
    Complete { slot: V, payload: Vec<u8> },
}

/// Decides what to do with one frame arriving at the client: decode it
/// and match it against the pending-reply table purely by correlation id.
/// A matched entry leaves the table as it is handed out, so the same
/// correlation id can complete a caller at most once.
pub fn match_reply<V>(table: &mut PendingTable<V>, bytes: &[u8]) -> (r: ReplyDecision<V>)
    ensures
        match spec_decode(bytes@) {
            Option::None => r matches ReplyDecision::Malformed(e) && e == spec_decode_error(
                bytes@,
            ) && final(table)@ == old(table)@,
            Option::Some(m) => {
                if old(table)@.contains_key(m.unique_id) {
                    r matches ReplyDecision::Complete { slot, payload } && slot == old(
                        table,
                    )@[m.unique_id] && payload@ == m.payload && final(table)@ == old(
                        table,
                    )@.remove(m.unique_id)
                } else {
                    (r matches ReplyDecision::Unknown { unique_id } && unique_id == m.unique_id
                        && final(table)@ == old(table)@)
                }
            },
        },
{
    let ghost t0 = table@;
    match decode(bytes) {
        Err(e) => ReplyDecision::Malformed(e),
        Ok(msg) => match table.take(msg.unique_id) {
            None => {
                proof {
                    assert(t0.remove(msg.unique_id) =~= t0);
                }
                ReplyDecision::Unknown { unique_id: msg.unique_id }
            },
            Some(slot) => ReplyDecision::Complete { slot, payload: msg.payload },
        },
    }
}

} // verus!
