//! The message contract: what a payload type must be to be sendable to
//! an actor, and the wrapper a handler's output travels back in.

use vstd::prelude::*;

verus! {

/// Marker capability: a type that can be packed into an envelope and
/// sent to an actor.  It constrains nothing beyond being transferable
/// between tasks; the handling actor gives each message type its
/// handler.
pub trait Message: Send {

}

/// A handler's output on its way back to the caller, through the
/// envelope's one-shot reply channel.
pub struct Response<O>(O);

impl<O> Response<O> {
    /// The wrapped output.
    pub closed spec fn value(self) -> O {
        self.0
    }

    /// Wraps a handler's output for the reply channel.
    pub fn new(value: O) -> (r: Response<O>)
        ensures
            r.value() == value,
    {
        Response(value)
    }

    /// Unwraps the output on the caller's side.
    pub fn into_inner(self) -> (r: O)
        ensures
            r == self.value(),
    {
        self.0
    }
}

} // verus!
