//! The message registry: maps a type fingerprint to the handler that
//! decodes a frame's payload, forwards it to the local address, and
//! re-encodes the reply.
//!
//! The handler itself is asynchronous plumbing and is opaque here — the
//! registry is generic in it.  What is verified is the table discipline:
//! registration is idempotent per fingerprint (re-registering overwrites
//! the prior handler), the reserved reply fingerprint is refused loudly
//! rather than silently shadowing the reply path, and lookup answers
//! exactly for the registered fingerprints.

use vstd::prelude::*;
use std::collections::HashMap;
use crate::wire::REPLY_FINGERPRINT;

verus! {

broadcast use vstd::std_specs::hash::group_hash_axioms;

/// Why a registration was refused.
#[derive(Clone, Copy, Debug, PartialEq, Eq, Structural)]
pub enum RegisterError {
    /// The fingerprint is the reserved reply sentinel: a handler under it
    /// could never be reached, since replies are never dispatched.
    ReservedFingerprint,
}

/// The dispatch table of an RPC server: one handler per registered
/// message type, keyed by the type's fingerprint.
pub struct MessageRegister<V> {
    handlers: HashMap<u64, V>,
}

impl<V> View for MessageRegister<V> {
    type V = Map<u64, V>;

    closed spec fn view(&self) -> Map<u64, V> {
        self.handlers@
    }
}

impl<V> MessageRegister<V> {
    /// An empty registry.
    pub fn new() -> (r: MessageRegister<V>)
        ensures
            r@ == Map::<u64, V>::empty(),
    {
        MessageRegister { handlers: HashMap::new() }
    }

    /// Registers a handler for a fingerprint.  Idempotent per fingerprint:
    /// a handler already registered under it is overwritten.  The reserved
    /// reply fingerprint is refused, and the registry is left untouched.
    pub fn register(&mut self, fingerprint: u64, handler: V) -> (r: Result<(), RegisterError>)
        ensures
            fingerprint != REPLY_FINGERPRINT ==> r is Ok && final(self)@ == old(self)@.insert(
                fingerprint,
                handler,
            ),
            fingerprint == REPLY_FINGERPRINT ==> r == Err::<(), RegisterError>(
                RegisterError::ReservedFingerprint,
            ) && final(self)@ == old(self)@,
    {
        if fingerprint == REPLY_FINGERPRINT {
            Err(RegisterError::ReservedFingerprint)
        } else {
            self.handlers.insert(fingerprint, handler);
            Ok(())
        }
    }

    /// The handler registered under a fingerprint, if any: answers
    /// `Some` exactly for the registered fingerprints.
    pub fn lookup(&self, fingerprint: u64) -> (r: Option<&V>)
        ensures
            match r {
                Some(v) => self@.contains_key(fingerprint) && *v == self@[fingerprint],
                None => !self@.contains_key(fingerprint),
            },
    {
        self.handlers.get(&fingerprint)
    }

    /// Whether a handler is registered under a fingerprint.
    pub fn contains(&self, fingerprint: u64) -> (r: bool)
        ensures
            r == self@.contains_key(fingerprint),
    {
        self.handlers.contains_key(&fingerprint)
    }

    /// How many message types are registered.
    pub fn len(&self) -> (r: usize)
        ensures
            r == self@.dom().len(),
    {
        self.handlers.len()
    }
}

} // verus!
