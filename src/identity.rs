//! Identities of the parties: admin, registry, approvers, researchers.
use vstd::prelude::*;

verus! {

/// A 256-bit account identity (a public key), held as two 128-bit words.
#[derive(Clone, Copy, Debug, PartialEq, Eq, Structural)]
pub struct Identity {
    pub high: u128,
    pub low: u128,
}

impl Identity {
    /// Builds an identity from its two words.
    pub fn new(high: u128, low: u128) -> (r: Identity)
        ensures
            r.high == high,
            r.low == low,
    {
        Identity { high, low }
    }

    /// The all-zero identity, which stands for "unset".
    pub fn zero() -> (r: Identity)
        ensures
            r.high == 0,
            r.low == 0,
    {
        Identity { high: 0, low: 0 }
    }
}

impl Default for Identity {
    fn default() -> (r: Identity)
        ensures
            r.high == 0,
            r.low == 0,
    {
        Identity::zero()
    }
}

} // verus!
