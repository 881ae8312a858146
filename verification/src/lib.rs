//! An actor-model concurrency runtime core: actors are independent units of
//! mutable state that communicate through asynchronous typed messages
//! delivered via bounded mailboxes, with supervised lifecycles and
//! panic-isolated fault recovery.  The same addressing abstraction is exposed
//! over a network transport: a remote process can send typed messages to a
//! local mailbox as if it were local.
//!
//! This crate holds the decision logic of that runtime, fully verified:
//! the per-actor lifecycle state machine, the wire-frame codec, the type
//! identity fingerprint, the message registry, the client's pending-reply
//! table, and the dispatch rules of the remote protocol.  The asynchronous
//! plumbing that drives these decisions (task spawning, channels, sockets)
//! lives outside the verified core and calls into it with plain values.

pub mod dispatch;
pub mod error;
pub mod executor;
pub mod identity;
pub mod lifecycle;
pub mod message;
pub mod pending;
pub mod registry;
pub mod stage;
pub mod wire;
