//! The bare pay/delegate ledger: a delegate may trigger payments, the owner
//! may replace the delegate, and nothing is counted or limited.
//!
//! Unlike the full ledger, only the delegate — not the owner — may trigger a
//! payment here.  A successful [`CardContract::pay`] authorizes the host shim
//! to move the value; the ledger itself holds no counters to commit.

use vstd::prelude::*;

use crate::account::Address;

verus! {

/// Why an operation was refused.
#[derive(Debug, Clone, Copy, PartialEq, Eq, Structural)]
pub enum Error {
    /// The caller of `pay` is not the delegate.
    NotDelegate,
    /// The caller of `set_delegate` is not the owner.
    NotOwner,
    /// Reserved for a host transfer that fails outright.  The ledger itself
    /// never returns it: the host aborts the whole operation instead.
    TransferFailed,
}

/// The bare ledger: an owner and a delegate, nothing more.
#[derive(Debug, Clone, Copy)]
pub struct CardContract {
    /// Set once at creation; the only principal allowed to change `delegate`.
    pub owner: Address,
    /// The sole principal allowed to trigger payments.
    pub delegate: Address,
}

impl CardContract {
    /// Create a ledger.  `caller` becomes the owner; `delegate` is taken as
    /// given.
    pub fn new(caller: Address, delegate: Address) -> (c: CardContract)
        ensures
            c == (CardContract { owner: caller, delegate }),
    {
        CardContract { owner: caller, delegate }
    }

    /// Authorize a payment of `amount` to `intermediary_contract`, triggered
    /// by `caller`.  Only the delegate may pay; the ledger itself never
    /// changes.  `Ok` means the host must transfer `amount` to
    /// `intermediary_contract`.
    pub fn pay(
        &mut self,
        caller: Address,
        intermediary_contract: Address,
        amount: u128,
    ) -> (r: Result<(), Error>)
        ensures
            *final(self) == *old(self),
            r == if caller == old(self).delegate {
                Ok::<(), Error>(())
            } else {
                Err::<(), Error>(Error::NotDelegate)
            },
    {
        let _ = intermediary_contract;
        let _ = amount;
        if caller != self.delegate {
            return Err(Error::NotDelegate);
        }
        Ok(())
    }

    /// Replace the delegate.  Only the owner may do so; the new delegate is
    /// accepted unconditionally.
    pub fn set_delegate(&mut self, caller: Address, new_delegate: Address) -> (r: Result<(), Error>)
        ensures
            caller == old(self).owner ==> r == Ok::<(), Error>(())
                && *final(self) == (CardContract { delegate: new_delegate, ..*old(self) }),
            caller != old(self).owner ==> r == Err::<(), Error>(Error::NotOwner)
                && *final(self) == *old(self),
    {
        if caller != self.owner {
            return Err(Error::NotOwner);
        }
        self.delegate = new_delegate;
        Ok(())
    }

    /// The delegate's address.
    pub fn get_delegate(&self) -> (r: Address)
        ensures
            r == self.delegate,
    {
        self.delegate
    }
}

} // verus!
