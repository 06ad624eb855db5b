//! Opaque 32-byte account addresses.
//!
//! The registry never looks inside an address; it only stores addresses and
//! compares them for equality, so four plain 64-bit words model the 32 bytes
//! exactly. The host layer packs real keys into this form.

use vstd::prelude::*;

verus! {

/// A 32-byte account address, held as four 64-bit words.
#[derive(Clone, Copy, Debug, PartialEq, Eq, Structural)]
pub struct Address {
    pub w0: u64,
    pub w1: u64,
    pub w2: u64,
    pub w3: u64,
}

impl Address {
    pub open spec fn zero_spec() -> Address {
        Address { w0: 0, w1: 0, w2: 0, w3: 0 }
    }

    /// The all-zero address, used as a placeholder where no real account
    /// was supplied.
    pub fn zero() -> (a: Address)
        ensures
            a == Address::zero_spec(),
    {
        Address { w0: 0, w1: 0, w2: 0, w3: 0 }
    }
}

} // verus!
