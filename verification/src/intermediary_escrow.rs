//! The intermediary escrow: a pass-through collector that unconditionally
//! accepts forwarded payments and records nothing but its admin.
//!
//! Its admin role is independent of any ledger's owner or delegate.  The
//! value itself is carried by the host; the escrow's accept entry point has
//! no business logic at all.

use vstd::prelude::*;

use crate::account::Address;

verus! {

/// The selector of the escrow's accept entry point: the ASCII bytes "coin",
/// big-endian.  Ledgers address their forwarded payments to it.
pub const RECEIVE_PAYMENT_SELECTOR: u32 = 0x636F_696E;

/// Why an operation was refused.
#[derive(Debug, Clone, Copy, PartialEq, Eq, Structural)]
pub enum Error {
    /// The caller is not the admin.
    NotAdmin,
}

/// The escrow: only its admin's address is recorded.
#[derive(Debug, Clone, Copy)]
pub struct IntermediaryEscrow {
    /// Set once at creation.
    pub admin: Address,
}

impl IntermediaryEscrow {
    /// Create an escrow with `caller` as its admin.
    pub fn new(caller: Address) -> (e: IntermediaryEscrow)
        ensures
            e == (IntermediaryEscrow { admin: caller }),
    {
        IntermediaryEscrow { admin: caller }
    }

    /// Accept an incoming payment.  The value rides with the host call; the
    /// escrow itself does nothing and changes nothing.
    pub fn receive_payment(&mut self)
        ensures
            *final(self) == *old(self),
    {
    }

    /// The admin's address.
    pub fn get_admin(&self) -> (r: Address)
        ensures
            r == self.admin,
    {
        self.admin
    }
}

} // verus!
