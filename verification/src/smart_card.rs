//! The wallet variant: an owner, a set of delegates, and a single cumulative
//! spending limit.
//!
//! The original interface of this wallet aborts — it does not return a tagged
//! error — when a caller oversteps its role or a transfer would overdraw, so
//! those calls are ruled out by precondition here: every exported operation
//! states exactly the calls it accepts.  The wallet's balance lives with the
//! host and is passed in where an operation reads it.

use vstd::prelude::*;

use crate::account::Address;

verus! {

/// The wallet: a delegate set instead of a single delegate, and one
/// cumulative limit instead of three guards.
#[derive(Debug)]
pub struct SmartWallet {
    /// The only principal allowed to manage delegates and the limit.
    pub owner: Address,
    /// Cumulative ceiling on the value transferred.
    pub spending_limit: u128,
    /// Running total of the value transferred.
    pub spent_amount: u128,
    /// The delegate set, kept as its list of members.
    pub delegates: Vec<Address>,
}

impl SmartWallet {
    /// Whether `addr` is in the delegate set.
    pub open spec fn spec_is_delegate(self, addr: Address) -> bool {
        self.delegates@.contains(addr)
    }

    /// Whether `caller` may transfer: the owner always may, a delegate too.
    pub open spec fn spec_authorized(self, caller: Address) -> bool {
        caller == self.owner || self.spec_is_delegate(caller)
    }

    /// Create a wallet for `owner` with the given limit, nothing spent and no
    /// delegates.
    pub fn new(owner: Address, spending_limit: u128) -> (w: SmartWallet)
        ensures
            w.owner == owner,
            w.spending_limit == spending_limit,
            w.spent_amount == 0,
            w.delegates@ =~= Seq::<Address>::empty(),
    {
        SmartWallet { owner, spending_limit, spent_amount: 0, delegates: Vec::new() }
    }

    /// Add `delegate` to the delegate set.  Only the owner may call; adding a
    /// member again changes nothing.
    pub fn add_delegate(&mut self, caller: Address, delegate: Address)
        requires
            caller == old(self).owner,
        ensures
            forall|a: Address|
                final(self).spec_is_delegate(a) <==> (old(self).spec_is_delegate(a) || a == delegate),
            final(self).owner == old(self).owner,
            final(self).spending_limit == old(self).spending_limit,
            final(self).spent_amount == old(self).spent_amount,
    {
        if !self.is_delegate(&delegate) {
            self.delegates.push(delegate);
            proof {
                broadcast use vstd::seq_lib::lemma_seq_contains_after_push;
            }
        }
    }

    /// Remove `delegate` from the delegate set.  Only the owner may call;
    /// removing an absent member changes nothing.
    pub fn remove_delegate(&mut self, caller: Address, delegate: Address)
        requires
            caller == old(self).owner,
        ensures
            forall|a: Address|
                final(self).spec_is_delegate(a) <==> (old(self).spec_is_delegate(a) && a != delegate),
            final(self).owner == old(self).owner,
            final(self).spending_limit == old(self).spending_limit,
            final(self).spent_amount == old(self).spent_amount,
    {
        let mut kept: Vec<Address> = Vec::new();
        let mut i: usize = 0;
        while i < self.delegates.len()
            invariant
                i <= self.delegates.len(),
                forall|a: Address|
                    kept@.contains(a) <==> (self.delegates@.take(i as int).contains(a) && a != delegate),
            decreases self.delegates.len() - i,
        {
            let member = self.delegates[i];
            if member != delegate {
                kept.push(member);
            }
            proof {
                broadcast use vstd::seq_lib::lemma_seq_contains_after_push;
                assert(self.delegates@.take(i + 1 as int)
                    =~= self.delegates@.take(i as int).push(self.delegates@[i as int]));
            }
            i = i + 1;
        }
        proof {
            assert(self.delegates@.take(self.delegates@.len() as int) =~= self.delegates@);
        }
        self.delegates = kept;
    }

    /// Whether `addr` is in the delegate set.
    fn is_delegate(&self, addr: &Address) -> (r: bool)
        ensures
            r == self.spec_is_delegate(*addr),
    {
        let mut i: usize = 0;
        while i < self.delegates.len()
            invariant
                i <= self.delegates.len(),
                forall|j: int| 0 <= j < i ==> self.delegates@[j] != *addr,
            decreases self.delegates.len() - i,
        {
            if self.delegates[i] == *addr {
                return true;
            }
            i = i + 1;
        }
        false
    }

    /// Replace the spending limit.  Only the owner may call; the new limit is
    /// taken as given, even below what is already spent.
    pub fn update_spending_limit(&mut self, caller: Address, new_limit: u128)
        requires
            caller == old(self).owner,
        ensures
            final(self).spending_limit == new_limit,
            final(self).owner == old(self).owner,
            final(self).spent_amount == old(self).spent_amount,
            final(self).delegates@ == old(self).delegates@,
    {
        self.spending_limit = new_limit;
    }

    /// Account a transfer of `amount` to `to`, triggered by `caller`, out of
    /// a wallet currently holding `balance`.  The caller must be the owner or
    /// a delegate, the balance must cover the amount, and the cumulative
    /// limit must not be overstepped; within those bounds the spent total
    /// grows by `amount` and the host must then move the value.
    pub fn transfer(&mut self, caller: Address, balance: u128, to: Address, amount: u128) -> (r: bool)
        requires
            old(self).spec_authorized(caller),
            balance >= amount,
            old(self).spent_amount + amount <= old(self).spending_limit,
        ensures
            r,
            final(self).spent_amount == old(self).spent_amount + amount,
            final(self).owner == old(self).owner,
            final(self).spending_limit == old(self).spending_limit,
            final(self).delegates@ == old(self).delegates@,
    {
        let _ = caller;
        let _ = balance;
        let _ = to;
        self.spent_amount = self.spent_amount + amount;
        true
    }

    /// The limit, the spent total, and the headroom left under the limit.
    /// Meaningless — and in the original interface aborting — once the limit
    /// has been moved below the spent total, so that case is ruled out.
    pub fn get_spending_info(&self) -> (r: (u128, u128, u128))
        requires
            self.spent_amount <= self.spending_limit,
        ensures
            r == (self.spending_limit, self.spent_amount, (self.spending_limit - self.spent_amount) as u128),
    {
        (self.spending_limit, self.spent_amount, self.spending_limit - self.spent_amount)
    }

    /// Whether `addr` is in the delegate set.
    pub fn is_delegate_address(&self, addr: Address) -> (r: bool)
        ensures
            r == self.spec_is_delegate(addr),
    {
        self.is_delegate(&addr)
    }

    /// The owner's address.
    pub fn get_owner(&self) -> (r: Address)
        ensures
            r == self.owner,
    {
        self.owner
    }
}

} // verus!
