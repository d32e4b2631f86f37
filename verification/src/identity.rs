//! Caller identities and the reserved sentinel.

use vstd::prelude::*;

verus! {

/// A caller's verifiable credential: a 256-bit account identity, held as four
/// 64-bit words. The ledger authenticates that each request really comes from
/// the identity it names; this crate only compares identities.
///
/// The all-zero identity is reserved as a sentinel. It marks an unset
/// `player2` slot before anyone has joined, and, as a resolution outcome,
/// a draw.
#[derive(Clone, Copy, Debug, PartialEq, Eq, Structural)]
pub struct Identity {
    pub w0: u64,
    pub w1: u64,
    pub w2: u64,
    pub w3: u64,
}

impl Identity {
    /// The reserved all-zero sentinel identity.
    pub open spec fn spec_unset() -> Identity {
        Identity { w0: 0, w1: 0, w2: 0, w3: 0 }
    }

    /// Returns the reserved all-zero sentinel identity.
    pub fn unset() -> (r: Identity)
        ensures
            r == Identity::spec_unset(),
    {
        Identity { w0: 0, w1: 0, w2: 0, w3: 0 }
    }

    /// True when this identity is the reserved sentinel.
    pub open spec fn spec_is_unset(&self) -> bool {
        *self == Identity::spec_unset()
    }

    /// Tests whether this identity is the reserved sentinel.
    #[verifier::when_used_as_spec(spec_is_unset)]
    pub fn is_unset(&self) -> (r: bool)
        ensures
            r == self.spec_is_unset(),
    {
        self.w0 == 0 && self.w1 == 0 && self.w2 == 0 && self.w3 == 0
    }
}

} // verus!
