use vstd::prelude::*;

verus! {

/// A 32-byte account key, held as four little-endian 64-bit words.
///
/// Records refer to one another through these keys; how a key is derived is
/// the host's business, this library only compares keys for equality.
#[derive(Clone, Copy, Debug, PartialEq, Eq, Structural)]
pub struct Address {
    pub w0: u64,
    pub w1: u64,
    pub w2: u64,
    pub w3: u64,
}

impl Address {
    /// The all-zero key, standing for "no account".
    pub open spec fn spec_zero() -> Address {
        Address { w0: 0, w1: 0, w2: 0, w3: 0 }
    }

    pub fn zero() -> (r: Address)
        ensures
            r == Address::spec_zero(),
    {
        Address { w0: 0, w1: 0, w2: 0, w3: 0 }
    }

    pub fn new(w0: u64, w1: u64, w2: u64, w3: u64) -> (r: Address)
        ensures
            r == (Address { w0, w1, w2, w3 }),
    {
        Address { w0, w1, w2, w3 }
    }

    pub fn is_zero(&self) -> (r: bool)
        ensures
            r == (*self == Address::spec_zero()),
    {
        self.w0 == 0 && self.w1 == 0 && self.w2 == 0 && self.w3 == 0
    }
}

} // verus!
