//! The account address model shared by every ledger in this crate.
//!
//! A host environment identifies accounts by an opaque fixed-width address.
//! The ledgers only ever compare addresses for equality and test for the
//! all-zero sentinel, so a single unsigned integer carries everything the
//! logic reads.

use vstd::prelude::*;

verus! {

/// An account address: an opaque identifier compared only for equality.
///
/// The all-zero address is a sentinel meaning "no address given".
#[derive(Debug, Clone, Copy, PartialEq, Eq, Structural)]
pub struct Address(pub u128);

impl Address {
    /// The sentinel "empty" address.
    pub fn zero() -> (a: Address)
        ensures
            a == (Address(0)),
    {
        Address(0)
    }

    /// Whether this address is the sentinel.
    pub open spec fn is_zero(self) -> bool {
        self.0 == 0
    }
}

} // verus!
