use vstd::prelude::*;

verus! {

/// A 256-bit party or account identity, held as four 64-bit little-endian
/// words. The all-zero identity stands for "unset": a freshly created loan
/// record carries it until a borrower deposits collateral.
#[derive(Clone, Copy, Debug, PartialEq, Eq, Hash, Structural)]
pub struct Address {
    pub w0: u64,
    pub w1: u64,
    pub w2: u64,
    pub w3: u64,
}

impl Address {
    /// The all-zero ("unset") identity.
    pub open spec fn spec_zero() -> Address {
        Address { w0: 0, w1: 0, w2: 0, w3: 0 }
    }

    /// True of the all-zero identity and of no other.
    pub open spec fn is_zero(self) -> bool {
        self == Address::spec_zero()
    }

    /// Builds the all-zero identity.
    pub fn zero() -> (a: Address)
        ensures
            a == Address::spec_zero(),
    {
        Address { w0: 0, w1: 0, w2: 0, w3: 0 }
    }

    /// Builds an identity from its four words.
    pub fn new(w0: u64, w1: u64, w2: u64, w3: u64) -> (a: Address)
        ensures
            a == (Address { w0, w1, w2, w3 }),
    {
        Address { w0, w1, w2, w3 }
    }
}

impl Default for Address {
    /// The default identity is the all-zero ("unset") one.
    fn default() -> (a: Address)
        ensures
            a == Address::spec_zero(),
    {
        Address { w0: 0, w1: 0, w2: 0, w3: 0 }
    }
}

} // verus!
