//! The wire message: the unit exchanged over the network transport, and
//! its frame codec.
//!
//! A frame is laid out as fixed-width little-endian integers followed by
//! the raw payload: 8 bytes of type fingerprint, 16 bytes of correlation
//! id, 8 bytes of payload length, then the payload itself.  The payload's
//! own encoding is the collaborator serialization format's business; this
//! layer only frames and checks bytes.
//!
//! Encoding and decoding are exact inverses, proved in
//! [`lemma_frame_round_trip`].

use vstd::prelude::*;
use vstd::bytes::*;
use vstd::slice::{slice_subrange, slice_to_vec};

verus! {

/// The number of bytes before the payload: fingerprint, correlation id,
/// payload length.
pub const HEADER_LEN: usize = 32;

/// The reserved fingerprint carried by reply frames.  A reply is matched
/// to its request by correlation id alone and is never looked up in the
/// registry, so no message type may register under this value.
pub const REPLY_FINGERPRINT: u64 = 0;

/// A unit exchanged over the network: a type fingerprint that routes the
/// frame to the right local mailbox, a correlation id that matches an
/// asynchronous reply back to its request, and the opaque payload bytes.
#[derive(Clone, Debug)]
pub struct Message {
    /// The receiving type's stable fingerprint; [`REPLY_FINGERPRINT`] in
    /// a reply.
    pub identity_id: u64,
    /// Fresh per request; a reply carries its request's value.
    pub unique_id: u128,
    /// The serialized message, opaque to this layer.
    pub payload: Vec<u8>,
}

/// The mathematical value of a wire message.
pub struct MessageView {
    pub identity_id: u64,
    pub unique_id: u128,
    pub payload: Seq<u8>,
}

impl View for Message {
    type V = MessageView;

    open spec fn view(&self) -> MessageView {
        MessageView {
            identity_id: self.identity_id,
            unique_id: self.unique_id,
            payload: self.payload@,
        }
    }
}

/// The frame encoding of a wire message.
pub open spec fn spec_encode(m: MessageView) -> Seq<u8> {
    spec_u64_to_le_bytes(m.identity_id) + spec_u128_to_le_bytes(m.unique_id)
        + spec_u64_to_le_bytes(m.payload.len() as u64) + m.payload
}

/// True of the byte strings that are a frame: long enough for the header,
/// with a payload length field that matches exactly the bytes that follow.
pub open spec fn spec_well_formed(b: Seq<u8>) -> bool {
    b.len() >= HEADER_LEN && spec_u64_from_le_bytes(b.subrange(24, 32)) == b.len() - HEADER_LEN
}

/// The frame decoding: the message a well-formed byte string carries.
pub open spec fn spec_decode(b: Seq<u8>) -> Option<MessageView> {
    if spec_well_formed(b) {
        Some(
            MessageView {
                identity_id: spec_u64_from_le_bytes(b.subrange(0, 8)),
                unique_id: spec_u128_from_le_bytes(b.subrange(8, 24)),
                payload: b.skip(HEADER_LEN as int),
            },
        )
    } else {
        None
    }
}

/// Why a byte string was rejected by [`decode`].
#[derive(Clone, Copy, Debug, PartialEq, Eq, Structural)]
pub enum DecodeError {
    /// Shorter than the fixed header.
    Truncated,
    /// The payload length field disagrees with the bytes that follow.
    LengthMismatch,
}

/// The rejection a byte string that is no frame gets from the decoder.
pub open spec fn spec_decode_error(b: Seq<u8>) -> DecodeError {
    if b.len() < HEADER_LEN {
        DecodeError::Truncated
    } else {
        DecodeError::LengthMismatch
    }
}

/// The tag opening a reply payload that carries the handler's output.
pub const OUTCOME_OUTPUT: u8 = 0;

/// The tag of a reply payload reporting that the local mailbox was
/// unreachable.
pub const OUTCOME_FORWARD_TO_LOCAL: u8 = 1;

/// The tag of a reply payload reporting that the local actor died while
/// handling the request.
pub const OUTCOME_HANDLER_PANIC: u8 = 2;

/// A dispatched request's outcome as it travels back in a reply's
/// payload: the handler's re-encoded output, or one of the two local
/// failure points, reported back decodably instead of tearing the
/// connection down.
#[derive(Debug)]
pub enum ReplyOutcome {
    /// The handler's output bytes.
    Output(Vec<u8>),
    /// The local mailbox was closed or unreachable.
    ForwardToLocal,
    /// The local actor died while handling the request.
    HandlerPanic,
}

/// The mathematical value of a reply outcome.
pub enum ReplyOutcomeView {
    Output(Seq<u8>),
    ForwardToLocal,
    HandlerPanic,
}

impl View for ReplyOutcome {
    type V = ReplyOutcomeView;

    open spec fn view(&self) -> ReplyOutcomeView {
        match self {
            ReplyOutcome::Output(bytes) => ReplyOutcomeView::Output(bytes@),
            ReplyOutcome::ForwardToLocal => ReplyOutcomeView::ForwardToLocal,
            ReplyOutcome::HandlerPanic => ReplyOutcomeView::HandlerPanic,
        }
    }
}

/// The payload encoding of a reply outcome: one tag byte, then for a
/// success the output bytes as they are.
pub open spec fn spec_encode_outcome(o: ReplyOutcomeView) -> Seq<u8> {
    match o {
        ReplyOutcomeView::Output(bytes) => seq![OUTCOME_OUTPUT] + bytes,
        ReplyOutcomeView::ForwardToLocal => seq![OUTCOME_FORWARD_TO_LOCAL],
        ReplyOutcomeView::HandlerPanic => seq![OUTCOME_HANDLER_PANIC],
    }
}

/// The outcome a reply payload carries, if it carries one.
pub open spec fn spec_decode_outcome(b: Seq<u8>) -> Option<ReplyOutcomeView> {
    if b.len() >= 1 && b[0] == OUTCOME_OUTPUT {
        Some(ReplyOutcomeView::Output(b.skip(1)))
    } else if b.len() == 1 && b[0] == OUTCOME_FORWARD_TO_LOCAL {
        Some(ReplyOutcomeView::ForwardToLocal)
    } else if b.len() == 1 && b[0] == OUTCOME_HANDLER_PANIC {
        Some(ReplyOutcomeView::HandlerPanic)
    } else {
        None
    }
}

/// Encodes a reply outcome as a payload.
pub fn encode_outcome(o: ReplyOutcome) -> (r: Vec<u8>)
    ensures
        r@ == spec_encode_outcome(o@),
{
    match o {
        ReplyOutcome::Output(mut bytes) => {
            let ghost b0 = bytes@;
            let mut out: Vec<u8> = Vec::new();
            out.push(OUTCOME_OUTPUT);
            out.append(&mut bytes);
            proof {
                assert(out@ =~= seq![OUTCOME_OUTPUT] + b0);
            }
            out
        },
        ReplyOutcome::ForwardToLocal => {
            let mut out: Vec<u8> = Vec::new();
            out.push(OUTCOME_FORWARD_TO_LOCAL);
            proof {
                assert(out@ =~= seq![OUTCOME_FORWARD_TO_LOCAL]);
            }
            out
        },
        ReplyOutcome::HandlerPanic => {
            let mut out: Vec<u8> = Vec::new();
            out.push(OUTCOME_HANDLER_PANIC);
            proof {
                assert(out@ =~= seq![OUTCOME_HANDLER_PANIC]);
            }
            out
        },
    }
}

/// Decodes a reply payload back into the outcome it carries; answers
/// `None` exactly for byte strings that are no outcome.
pub fn decode_outcome(bytes: &[u8]) -> (r: Option<ReplyOutcome>)
    ensures
        match r {
            Some(o) => spec_decode_outcome(bytes@) == Some(o@),
            None => spec_decode_outcome(bytes@) is None,
        },
{
    if bytes.len() == 0 {
        return None;
    }
    let tag = bytes[0];
    if tag == OUTCOME_OUTPUT {
        let rest = slice_to_vec(slice_subrange(bytes, 1, bytes.len()));
        proof {
            assert(bytes@.subrange(1, bytes@.len() as int) =~= bytes@.skip(1));
        }
        Some(ReplyOutcome::Output(rest))
    } else if tag == OUTCOME_FORWARD_TO_LOCAL && bytes.len() == 1 {
        Some(ReplyOutcome::ForwardToLocal)
    } else if tag == OUTCOME_HANDLER_PANIC && bytes.len() == 1 {
        Some(ReplyOutcome::HandlerPanic)
    } else {
        None
    }
}

/// Round-trip identity of the outcome codec: every encoded outcome
/// decodes back to itself, so what the server reports is exactly what
/// the client resolves.
pub proof fn lemma_outcome_round_trip(o: ReplyOutcomeView)
    ensures
        spec_decode_outcome(spec_encode_outcome(o)) == Some(o),
{
    match o {
        ReplyOutcomeView::Output(bytes) => {
            assert((seq![OUTCOME_OUTPUT] + bytes).skip(1) =~= bytes);
        },
        ReplyOutcomeView::ForwardToLocal => {
        },
        ReplyOutcomeView::HandlerPanic => {
        },
    }
}

impl Message {
    /// A fresh request frame for the given type fingerprint and payload,
    /// under a newly drawn correlation id.
    pub fn new(identity_id: u64, payload: Vec<u8>) -> (r: Message)
        ensures
            r.identity_id == identity_id,
            r@.payload == payload@,
    {
        let unique_id = fresh_unique_id();
        Message { identity_id, unique_id, payload }
    }

    /// The reply frame answering this request: same correlation id, the
    /// reserved reply fingerprint, and the handler's output as payload.
    pub fn reply(&self, payload: Vec<u8>) -> (r: Message)
        ensures
            r.identity_id == REPLY_FINGERPRINT,
            r.unique_id == self.unique_id,
            r@.payload == payload@,
    {
        Message { identity_id: REPLY_FINGERPRINT, unique_id: self.unique_id, payload }
    }

    /// True of replies: frames that answer a request instead of asking
    /// for a dispatch.
    pub fn is_reply(&self) -> (r: bool)
        ensures
            r == (self.identity_id == REPLY_FINGERPRINT),
    {
        self.identity_id == REPLY_FINGERPRINT
    }
}

/// Encodes a wire message as a frame.
pub fn encode(m: &Message) -> (r: Vec<u8>)
    ensures
        r@ == spec_encode(m@),
{
    let mut out = u64_to_le_bytes(m.identity_id);
    let mut mid = u128_to_le_bytes(m.unique_id);
    out.append(&mut mid);
    let mut len_bytes = u64_to_le_bytes(m.payload.len() as u64);
    out.append(&mut len_bytes);
    let mut payload = slice_to_vec(m.payload.as_slice());
    out.append(&mut payload);
    proof {
        assert(out@ =~= spec_encode(m@));
    }
    out
}

/// Decodes a frame back into a wire message.  Succeeds exactly on
/// well-formed frames; a rejected byte string reports whether it was too
/// short for the header or carried a lying payload length.
pub fn decode(bytes: &[u8]) -> (r: Result<Message, DecodeError>)
    ensures
        match r {
            Ok(m) => spec_decode(bytes@) == Some(m@),
            Err(e) => spec_decode(bytes@) is None && e == spec_decode_error(bytes@),
        },
{
    if bytes.len() < HEADER_LEN {
        return Err(DecodeError::Truncated);
    }
    let identity_id = u64_from_le_bytes(slice_subrange(bytes, 0, 8));
    let unique_id = u128_from_le_bytes(slice_subrange(bytes, 8, 24));
    let payload_len = u64_from_le_bytes(slice_subrange(bytes, 24, 32));
    if payload_len != (bytes.len() - HEADER_LEN) as u64 {
        return Err(DecodeError::LengthMismatch);
    }
    let payload = slice_to_vec(slice_subrange(bytes, HEADER_LEN, bytes.len()));
    proof {
        assert(bytes@.subrange(HEADER_LEN as int, bytes@.len() as int) =~= bytes@.skip(
            HEADER_LEN as int,
        ));
    }
    Ok(Message { identity_id, unique_id, payload })
}

/// Round-trip identity at the frame level: every encoded message is a
/// well-formed frame, and decoding it reproduces the message exactly.
/// The payload must fit the 8-byte length field; every payload held in a
/// `Vec` does.
pub proof fn lemma_frame_round_trip(m: MessageView)
    requires
        m.payload.len() <= u64::MAX,
    ensures
        spec_decode(spec_encode(m)) == Some(m),
{
    lemma_auto_spec_u64_to_from_le_bytes();
    lemma_auto_spec_u128_to_from_le_bytes();
    let b = spec_encode(m);
    assert(b.subrange(24, 32) =~= spec_u64_to_le_bytes(m.payload.len() as u64));
    assert(spec_well_formed(b));
    assert(b.subrange(0, 8) =~= spec_u64_to_le_bytes(m.identity_id));
    assert(b.subrange(8, 24) =~= spec_u128_to_le_bytes(m.unique_id));
    assert(b.skip(HEADER_LEN as int) =~= m.payload);
}

/// Frames are unambiguous: equal frames carry equal messages.
pub proof fn lemma_frame_injective(m1: MessageView, m2: MessageView)
    requires
        m1.payload.len() <= u64::MAX,
        m2.payload.len() <= u64::MAX,
        spec_encode(m1) == spec_encode(m2),
    ensures
        m1 == m2,
{
    lemma_frame_round_trip(m1);
    lemma_frame_round_trip(m2);
}

/// Relies on uuid::Uuid::new_v4 for a freshly drawn random correlation
/// id; nothing is assumed of the value drawn.  Its only panic path is a
/// failure of the operating system's random generator — an environmental
/// failure of the machine, like running out of memory, that no input can
/// exclude.
#[verifier::external_body]
fn fresh_unique_id() -> u128 {
    uuid::Uuid::new_v4().as_u128()
}

} // verus!
