//! Errors of the mailbox send operations, and the marker for a reply that
//! was lost because the handling actor died.
//!
//! A send failure always hands the unsent message back to the caller:
//! no message is ever lost inside the runtime, the caller decides whether
//! to retry or to drop it.

use vstd::prelude::*;

verus! {

/// A blocking send failed because every receiving end of the mailbox has
/// been dropped (the actor pool is fully terminated).  The unsent message
/// is kept inside and can be taken back with [`ChannelSendError::recover`].
pub struct ChannelSendError<T>(T);

impl<T> ChannelSendError<T> {
    /// The message that could not be sent.
    pub closed spec fn message(self) -> T {
        self.0
    }

    /// Wraps an undeliverable message.  Used by the unverified channel glue
    /// to surface a disconnected mailbox to the caller.
    pub fn new(msg: T) -> (r: ChannelSendError<T>)
        ensures
            r.message() == msg,
    {
        ChannelSendError(msg)
    }

    /// Takes the unsent message back, exactly as it was handed to `send`.
    pub fn recover(self) -> (r: T)
        ensures
            r == self.message(),
    {
        self.0
    }
}

/// A non-blocking send failed.  Unlike [`ChannelSendError`] this
/// distinguishes a full mailbox (retrying later can succeed) from a
/// disconnected one (no retry can ever succeed).  Either way the unsent
/// message is kept and can be taken back with
/// [`ChannelTrySendError::recover`].
pub enum ChannelTrySendError<T> {
    /// The bounded mailbox is at capacity.
    Full(T),
    /// Every receiving end of the mailbox has been dropped.
    Disconnected(T),
}

impl<T> ChannelTrySendError<T> {
    /// The message that could not be sent, whichever way the send failed.
    pub open spec fn message(self) -> T {
        match self {
            ChannelTrySendError::Full(t) => t,
            ChannelTrySendError::Disconnected(t) => t,
        }
    }

    /// True when retrying later can succeed: the mailbox was merely full.
    pub fn is_full(&self) -> (r: bool)
        ensures
            r == (self is Full),
    {
        match self {
            ChannelTrySendError::Full(_) => true,
            ChannelTrySendError::Disconnected(_) => false,
        }
    }

    /// Takes the unsent message back, exactly as it was handed to
    /// `try_send`.
    pub fn recover(self) -> (r: T)
        ensures
            r == self.message(),
    {
        match self {
            ChannelTrySendError::Full(t) => t,
            ChannelTrySendError::Disconnected(t) => t,
        }
    }
}

/// The caller-held half of a reply channel resolved without a reply: the
/// actor handling the message died (its handler panicked, or the runner
/// was aborted) before sending one.
#[derive(Debug, PartialEq, Eq, Structural)]
pub struct HandlerPanic;

/// A failure of the remote dispatch layer.  Failures intrinsic to a
/// single message are isolated to that message; only a failed write or a
/// torn connection is fatal to that connection — and to nothing else.
#[derive(Clone, Copy, Debug, PartialEq, Eq, Structural)]
pub enum RpcError {
    /// The registry handler could not reach the local mailbox: every
    /// receiver of the target address was dropped.
    ForwardToLocal,
    /// The local actor died while handling the forwarded message.
    HandlerPanic,
    /// A payload could not be converted to or from its typed value by
    /// the collaborator serialization format.
    PayloadCodec,
    /// The transport connection failed.
    Connection,
}

/// A failure of a remote address: sending through it reached the RPC
/// layer and failed there.
#[derive(Clone, Copy, Debug, PartialEq, Eq, Structural)]
pub enum RemoteAddressError {
    /// The underlying RPC failure.
    Rpc(RpcError),
}

} // verus!
