//! The stable 64-bit fingerprint of a remotely sendable message type.
//!
//! Every such type declares an identity — by convention a namespaced
//! string such as `"test::echo"` — and its fingerprint is a hash of that
//! identity, used both as the wire frame's routing field and as the
//! registry key.  Two types meant to be wire-compatible declare the same
//! identity and so carry the same fingerprint.
//!
//! The hash is the 64-bit Fowler–Noll–Vo (FNV-1a) function, computed here
//! and fully specified: the fingerprint is a pure function of the identity
//! bytes, identical in every process and on every machine, as the wire
//! protocol's routing invariant demands.

use vstd::prelude::*;
use vstd::string::StringSliceAdditionalSpecFns;

verus! {

/// The FNV-1a 64-bit offset basis: the hash of the empty byte string.
pub const FNV_OFFSET_BASIS: u64 = 0xcbf29ce484222325;

/// The FNV-1a 64-bit prime.
pub const FNV_PRIME: u64 = 0x100000001b3;

/// One FNV-1a step: fold one byte into the running hash.
pub open spec fn spec_fingerprint_step(h: u64, b: u8) -> u64 {
    (h ^ (b as u64)).wrapping_mul(FNV_PRIME)
}

/// The fingerprint of a byte string: FNV-1a folded left to right.
pub open spec fn spec_fingerprint(bytes: Seq<u8>) -> u64
    decreases bytes.len(),
{
    if bytes.len() == 0 {
        FNV_OFFSET_BASIS
    } else {
        spec_fingerprint_step(spec_fingerprint(bytes.drop_last()), bytes.last())
    }
}

/// The fingerprint of a raw byte string.
pub fn fingerprint_bytes(bytes: &[u8]) -> (r: u64)
    ensures
        r == spec_fingerprint(bytes@),
{
    let n = bytes.len();
    let mut h: u64 = FNV_OFFSET_BASIS;
    let mut i: usize = 0;
    while i < n
        invariant
            i <= n,
            n == bytes@.len(),
            h == spec_fingerprint(bytes@.take(i as int)),
        decreases n - i,
    {
        h = (h ^ (bytes[i] as u64)).wrapping_mul(FNV_PRIME);
        proof {
            assert(bytes@.take(i + 1).drop_last() =~= bytes@.take(i as int));
            assert(bytes@.take(i + 1).last() == bytes@[i as int]);
        }
        i = i + 1;
    }
    proof {
        assert(bytes@.take(n as int) =~= bytes@);
    }
    h
}

/// The fingerprint of a type's declared identity string: the hash of its
/// UTF-8 bytes.  Equal identity strings always yield equal fingerprints.
pub fn identity_fingerprint(identity: &str) -> (r: u64)
    ensures
        r == spec_fingerprint(identity.spec_bytes()),
{
    fingerprint_bytes(identity.as_bytes())
}

} // verus!
