//! The full authorization ledger: a cumulative spending cap, a per-transaction
//! limit, and a quota that resets on a rolling time window.
//!
//! Each operation takes the ambient facts of the host environment (the
//! caller's address, the current time in milliseconds) as explicit arguments
//! and returns a tagged outcome.  A successful [`CardContract::pay`] commits
//! the counters of the payment it authorizes; the host shim that actually
//! moves the value runs the whole operation all-or-nothing, so the committed
//! state is observable only when the transfer went through.

use vstd::prelude::*;

use crate::account::Address;

verus! {

/// Why an operation was refused.
#[derive(Debug, Clone, Copy, PartialEq, Eq, Structural)]
pub enum Error {
    /// The caller of `pay` is neither the delegate nor the owner.
    NotDelegate,
    /// The caller of `set_delegate` is not the owner.
    NotOwner,
    /// Reserved for a host transfer that fails outright.  The ledger itself
    /// never returns it: the host aborts the whole operation instead.
    TransferFailed,
    /// The payment would push `total_spent` above `spending_cap`.
    ExceedsSpendingCap,
    /// The payment's amount alone is above `per_tx_limit`.
    ExceedsPerTxLimit,
    /// The payment would push `quota_spent` above `quota` in this window.
    ExceedsQuota,
}

/// The authorization ledger.
///
/// All amounts share one unsigned width; additions are guarded so that no
/// committed counter ever wraps.  Times are milliseconds; the reset interval
/// is seconds.
#[derive(Debug, Clone, Copy)]
pub struct CardContract {
    /// Set once at creation; the only principal allowed to change `delegate`.
    pub owner: Address,
    /// The principal (besides the owner) allowed to trigger payments.
    pub delegate: Address,
    /// Running total of all value ever paid out; never exceeds `spending_cap`.
    pub total_spent: u128,
    /// Lifetime ceiling on the total value paid out.
    pub spending_cap: u128,
    /// Ceiling on any single payment's amount.
    pub per_tx_limit: u128,
    /// Ceiling on the value paid out within the current reset window.
    pub quota: u128,
    /// Length of the rolling window, in seconds.
    pub quota_reset_interval: u64,
    /// Running total within the current window; never exceeds `quota`.
    pub quota_spent: u128,
    /// Start of the current window, in milliseconds.
    pub last_reset: u64,
}

impl CardContract {
    /// The ledger's invariant: both running counters stay within their
    /// ceilings.  Established at creation and preserved by every operation.
    pub open spec fn wf(self) -> bool {
        &&& self.total_spent <= self.spending_cap
        &&& self.quota_spent <= self.quota
    }

    /// Whether `caller` may trigger payments.
    pub open spec fn is_authorized(self, caller: Address) -> bool {
        caller == self.delegate || caller == self.owner
    }

    /// Whether the current window has elapsed at time `now` (milliseconds):
    /// the reset interval is in seconds, so it is scaled by 1000.
    pub open spec fn window_elapsed(self, now: u64) -> bool {
        now >= self.last_reset + self.quota_reset_interval * 1000
    }

    /// The ledger after the quota-window check of `pay`: if the window has
    /// elapsed, the window counter restarts at time `now`; otherwise nothing
    /// changes.
    pub open spec fn after_window_check(self, now: u64) -> CardContract {
        if self.window_elapsed(now) {
            CardContract { quota_spent: 0, last_reset: now, ..self }
        } else {
            self
        }
    }

    /// The verdict of the three limit guards, evaluated in their fixed order:
    /// cumulative cap, then per-transaction limit, then window quota.
    /// `None` means the payment may proceed.
    pub open spec fn guard_error(self, amount: u128) -> Option<Error> {
        if self.total_spent + amount > self.spending_cap {
            Some(Error::ExceedsSpendingCap)
        } else if amount > self.per_tx_limit {
            Some(Error::ExceedsPerTxLimit)
        } else if self.quota_spent + amount > self.quota {
            Some(Error::ExceedsQuota)
        } else {
            None
        }
    }

    /// The outcome of `pay`: authentication first, then the window check,
    /// then the guards on the window-checked ledger.
    pub open spec fn pay_outcome(self, caller: Address, now: u64, amount: u128) -> Result<(), Error> {
        if !self.is_authorized(caller) {
            Err(Error::NotDelegate)
        } else {
            match self.after_window_check(now).guard_error(amount) {
                Some(e) => Err(e),
                None => Ok(()),
            }
        }
    }

    /// The ledger after `pay`.  An unauthenticated call leaves it untouched;
    /// an authenticated one keeps the window check's effect even when a guard
    /// then refuses the payment; a successful one also commits both counters.
    pub open spec fn pay_next(self, caller: Address, now: u64, amount: u128) -> CardContract {
        if !self.is_authorized(caller) {
            self
        } else {
            let mid = self.after_window_check(now);
            if mid.guard_error(amount) is None {
                CardContract {
                    total_spent: (mid.total_spent + amount) as u128,
                    quota_spent: (mid.quota_spent + amount) as u128,
                    ..mid
                }
            } else {
                mid
            }
        }
    }

    /// Create a ledger.  `caller` becomes the owner; a zero `delegate` is the
    /// sentinel for "the caller is also the delegate".  Limit values are taken
    /// as given, with no validation; both counters start at zero and the first
    /// window starts at `now`.
    pub fn new(
        caller: Address,
        now: u64,
        delegate: Address,
        spending_cap: u128,
        per_tx_limit: u128,
        quota: u128,
        quota_reset_interval: u64,
    ) -> (c: CardContract)
        ensures
            c == (CardContract {
                owner: caller,
                delegate: if delegate.is_zero() { caller } else { delegate },
                total_spent: 0,
                spending_cap,
                per_tx_limit,
                quota,
                quota_reset_interval,
                quota_spent: 0,
                last_reset: now,
            }),
            c.wf(),
    {
        let actual_delegate = if delegate == Address::zero() { caller } else { delegate };
        CardContract {
            owner: caller,
            delegate: actual_delegate,
            total_spent: 0,
            spending_cap,
            per_tx_limit,
            quota,
            quota_reset_interval,
            quota_spent: 0,
            last_reset: now,
        }
    }

    /// Authorize and account a payment of `amount` to `intermediary_contract`
    /// on behalf of the owner, at time `now` (milliseconds), triggered by
    /// `caller`.
    ///
    /// In fixed order: authenticate the caller; restart the quota window if it
    /// has elapsed (this sticks even when a later guard refuses the payment);
    /// check the cumulative cap, the per-transaction limit, and the window
    /// quota; on success commit both counters.  `Ok` means the host must then
    /// transfer `amount` to `intermediary_contract`, all-or-nothing with the
    /// commit.
    pub fn pay(
        &mut self,
        caller: Address,
        now: u64,
        intermediary_contract: Address,
        amount: u128,
    ) -> (r: Result<(), Error>)
        requires
            old(self).wf(),
        ensures
            r == old(self).pay_outcome(caller, now, amount),
            *final(self) == old(self).pay_next(caller, now, amount),
            final(self).wf(),
    {
        let _ = intermediary_contract;
        if caller != self.delegate && caller != self.owner {
            return Err(Error::NotDelegate);
        }

        // The window comparison is widened so that it never wraps: the spec
        // compares the unbounded sum.
        if (now as u128) >= (self.last_reset as u128) + (self.quota_reset_interval as u128) * 1000 {
            self.quota_spent = 0;
            self.last_reset = now;
        }

        // Each guard is phrased as a subtraction from the ceiling, which the
        // invariant keeps in range, so the comparison itself cannot wrap.
        if amount > self.spending_cap - self.total_spent {
            return Err(Error::ExceedsSpendingCap);
        }

        if amount > self.per_tx_limit {
            return Err(Error::ExceedsPerTxLimit);
        }

        if amount > self.quota - self.quota_spent {
            return Err(Error::ExceedsQuota);
        }

        self.total_spent = self.total_spent + amount;
        self.quota_spent = self.quota_spent + amount;
        Ok(())
    }

    /// Replace the delegate.  Only the owner may do so; the new delegate is
    /// accepted unconditionally, with no validation against the current
    /// delegate or the owner.
    pub fn set_delegate(&mut self, caller: Address, new_delegate: Address) -> (r: Result<(), Error>)
        ensures
            caller == old(self).owner ==> r == Ok::<(), Error>(())
                && *final(self) == (CardContract { delegate: new_delegate, ..*old(self) }),
            caller != old(self).owner ==> r == Err::<(), Error>(Error::NotOwner)
                && *final(self) == *old(self),
    {
        if caller != self.owner {
            return Err(Error::NotOwner);
        }
        self.delegate = new_delegate;
        Ok(())
    }

    /// The owner's address.
    pub fn get_owner(&self) -> (r: Address)
        ensures
            r == self.owner,
    {
        self.owner
    }

    /// The delegate's address.
    pub fn get_delegate(&self) -> (r: Address)
        ensures
            r == self.delegate,
    {
        self.delegate
    }

    /// Total value ever paid out.
    pub fn get_total_spent(&self) -> (r: u128)
        ensures
            r == self.total_spent,
    {
        self.total_spent
    }

    /// The lifetime spending ceiling.
    pub fn get_spending_cap(&self) -> (r: u128)
        ensures
            r == self.spending_cap,
    {
        self.spending_cap
    }

    /// The single-payment ceiling.
    pub fn get_per_tx_limit(&self) -> (r: u128)
        ensures
            r == self.per_tx_limit,
    {
        self.per_tx_limit
    }

    /// The per-window ceiling.
    pub fn get_quota(&self) -> (r: u128)
        ensures
            r == self.quota,
    {
        self.quota
    }

    /// The window length, in seconds.
    pub fn get_quota_reset_interval(&self) -> (r: u64)
        ensures
            r == self.quota_reset_interval,
    {
        self.quota_reset_interval
    }

    /// Value paid out within the current window.
    pub fn get_quota_spent(&self) -> (r: u128)
        ensures
            r == self.quota_spent,
    {
        self.quota_spent
    }

    /// Start of the current window, in milliseconds.
    pub fn get_last_reset(&self) -> (r: u64)
        ensures
            r == self.last_reset,
    {
        self.last_reset
    }
}

/// Whatever payment is attempted on a well-formed ledger, the ledger stays
/// well formed — `total_spent` never exceeds `spending_cap` and `quota_spent`
/// never exceeds `quota` — and `total_spent` and `last_reset` never move
/// backwards.  Together with `new` establishing `wf`, this carries the
/// invariant through every sequence of operations.
pub proof fn lemma_pay_preserves_invariant(pre: CardContract, caller: Address, now: u64, amount: u128)
    requires
        pre.wf(),
    ensures
        pre.pay_next(caller, now, amount).wf(),
        pre.pay_next(caller, now, amount).total_spent >= pre.total_spent,
        pre.pay_next(caller, now, amount).last_reset >= pre.last_reset,
        pre.pay_next(caller, now, amount).owner == pre.owner,
        pre.pay_next(caller, now, amount).delegate == pre.delegate,
{
}

/// A payment whose amount alone is above the per-transaction limit is refused
/// with `ExceedsPerTxLimit` (provided the caller is authorized and the
/// cumulative cap did not already refuse it first), and commits nothing:
/// `total_spent` is untouched in every case, and while the window has not
/// elapsed the whole ledger is exactly as it was.
pub proof fn lemma_per_tx_limit_refusal(pre: CardContract, caller: Address, now: u64, amount: u128)
    requires
        pre.wf(),
        pre.is_authorized(caller),
        pre.total_spent + amount <= pre.spending_cap,
        amount > pre.per_tx_limit,
    ensures
        pre.pay_outcome(caller, now, amount) == Err::<(), Error>(Error::ExceedsPerTxLimit),
        pre.pay_next(caller, now, amount).total_spent == pre.total_spent,
        !pre.window_elapsed(now) ==> pre.pay_next(caller, now, amount) == pre,
        pre.window_elapsed(now) ==> pre.pay_next(caller, now, amount).quota_spent == 0,
{
}

/// A payment attempted by anyone but the owner or the delegate is refused
/// with `NotDelegate` and leaves the ledger exactly as it was — the caller is
/// authenticated before anything else, so not even the quota window is
/// checked.
pub proof fn lemma_unauthorized_pay_refusal(pre: CardContract, caller: Address, now: u64, amount: u128)
    requires
        !pre.is_authorized(caller),
    ensures
        pre.pay_outcome(caller, now, amount) == Err::<(), Error>(Error::NotDelegate),
        pre.pay_next(caller, now, amount) == pre,
{
}

/// Once the reset interval has elapsed, an authenticated `pay` call restarts
/// the window whether or not the payment itself goes through: `last_reset`
/// becomes `now`, and the window counter holds exactly the new payment on
/// success and nothing on failure.
pub proof fn lemma_window_reset(pre: CardContract, caller: Address, now: u64, amount: u128)
    requires
        pre.is_authorized(caller),
        pre.window_elapsed(now),
    ensures
        pre.pay_next(caller, now, amount).last_reset == now,
        pre.pay_outcome(caller, now, amount) is Ok
            ==> pre.pay_next(caller, now, amount).quota_spent == amount,
        pre.pay_outcome(caller, now, amount) is Err
            ==> pre.pay_next(caller, now, amount).quota_spent == 0,
{
}

/// A payment goes through exactly when the caller is authorized and the
/// amount fits the headroom of all three guards, measured on the
/// window-checked ledger.  In particular an amount equal to the smallest
/// remaining headroom succeeds, and one unit more trips the corresponding
/// guard.
pub proof fn lemma_success_condition(pre: CardContract, caller: Address, now: u64, amount: u128)
    requires
        pre.wf(),
    ensures
        pre.pay_outcome(caller, now, amount) is Ok <==> {
            let mid = pre.after_window_check(now);
            &&& pre.is_authorized(caller)
            &&& mid.total_spent + amount <= mid.spending_cap
            &&& amount <= mid.per_tx_limit
            &&& mid.quota_spent + amount <= mid.quota
        },
        pre.pay_outcome(caller, now, amount) is Ok
            ==> pre.pay_next(caller, now, amount).total_spent == pre.total_spent + amount,
{
}

} // verus!
