use std::collections::HashMap;
use vstd::prelude::*;

use crate::error::SynidError;

verus! {

broadcast use vstd::std_specs::hash::group_hash_axioms;

/// Percentage of a settled payment that goes to the platform treasury.
pub const PLATFORM_FEE_PERCENT: u64 = 5;

/// The platform's cut of a settled payment: `floor(amount * 5 / 100)`.
pub open spec fn platform_fee_of(amount: int) -> int {
    amount * (PLATFORM_FEE_PERCENT as int) / 100
}

/// The owner's cut of a settled payment: whatever the platform does not take.
pub open spec fn owner_share_of(amount: int) -> int {
    amount - platform_fee_of(amount)
}

/// Spendable balances of every party, plus one pooled escrow holding.
pub struct Ledger {
    pub balances: HashMap<u64, u64>,
    pub escrow: u64,
}

/// What a credit of `amount` to `to` adds to the balance of `k`.
pub open spec fn credit_to(k: u64, to: u64, amount: int) -> int {
    if k == to { amount } else { 0 }
}

impl Ledger {
    /// The spendable balance of party `k`; a party never seen holds 0.
    pub open spec fn balance_of(&self, k: u64) -> int {
        if self.balances@.contains_key(k) { self.balances@[k] as int } else { 0 }
    }

    /// Every balance of `next` is that of `self` moved by `delta`.
    pub open spec fn moved(&self, next: &Ledger, delta: spec_fn(u64) -> int) -> bool {
        forall|k: u64| #[trigger] next.balance_of(k) == self.balance_of(k) + delta(k)
    }

    /// What settling `amount` adds to the balance of `k`.
    pub open spec fn settle_credit(k: u64, owner: u64, treasury: u64, amount: int) -> int {
        credit_to(k, owner, owner_share_of(amount)) + credit_to(k, treasury, platform_fee_of(amount))
    }

    /// An empty ledger.
    pub fn new() -> (r: Ledger)
        ensures
            r.escrow == 0,
            forall|k: u64| #[trigger] r.balance_of(k) == 0,
    {
        Ledger { balances: HashMap::new(), escrow: 0 }
    }

    /// The spendable balance of party `k`.
    pub fn balance(&self, k: u64) -> (r: u64)
        ensures
            r == self.balance_of(k),
    {
        match self.balances.get(&k) {
            Some(v) => *v,
            None => 0,
        }
    }

    fn set_balance(&mut self, k: u64, v: u64)
        ensures
            final(self).escrow == old(self).escrow,
            final(self).balance_of(k) == v,
            forall|j: u64| j != k ==> #[trigger] final(self).balance_of(j) == old(self).balance_of(j),
    {
        self.balances.insert(k, v);
    }

    /// Adds funds to the balance of `to` from outside the registry.
    pub fn deposit(&mut self, to: u64, amount: u64) -> (r: Result<(), SynidError>)
        ensures
            r is Err <==> old(self).balance_of(to) + amount > u64::MAX,
            r is Err ==> r == Err::<(), SynidError>(SynidError::Overflow) && *final(self) == *old(self),
            r is Ok ==> final(self).escrow == old(self).escrow
                && old(self).moved(final(self), |k: u64| credit_to(k, to, amount as int)),
    {
        let b = self.balance(to);
        if b > u64::MAX - amount {
            return Err(SynidError::Overflow);
        }
        self.set_balance(to, b + amount);
        Ok(())
    }

    /// Moves `amount` from the balance of `from` to the balance of `to`.
    pub fn transfer(&mut self, from: u64, to: u64, amount: u64) -> (r: Result<(), SynidError>)
        ensures
            r == Err::<(), SynidError>(SynidError::InsufficientFunds)
                <==> old(self).balance_of(from) < amount,
            r == Err::<(), SynidError>(SynidError::Overflow)
                <==> old(self).balance_of(from) >= amount && from != to
                    && old(self).balance_of(to) + amount > u64::MAX,
            r is Err ==> *final(self) == *old(self) && (r == Err::<(), SynidError>(SynidError::InsufficientFunds)
                || r == Err::<(), SynidError>(SynidError::Overflow)),
            r is Ok ==> final(self).escrow == old(self).escrow
                && old(self).moved(final(self), |k: u64| credit_to(k, to, amount as int) - credit_to(k, from, amount as int)),
    {
        let fb = self.balance(from);
        if fb < amount {
            return Err(SynidError::InsufficientFunds);
        }
        if from == to {
            return Ok(());
        }
        let tb = self.balance(to);
        if tb > u64::MAX - amount {
            return Err(SynidError::Overflow);
        }
        self.set_balance(from, fb - amount);
        self.set_balance(to, tb + amount);
        Ok(())
    }

    /// Moves `amount` from the balance of `from` into the pooled escrow.
    pub fn escrow(&mut self, from: u64, amount: u64) -> (r: Result<(), SynidError>)
        ensures
            r == Err::<(), SynidError>(SynidError::InsufficientFunds)
                <==> old(self).balance_of(from) < amount,
            r == Err::<(), SynidError>(SynidError::Overflow)
                <==> old(self).balance_of(from) >= amount && old(self).escrow + amount > u64::MAX,
            r is Err ==> *final(self) == *old(self) && (r == Err::<(), SynidError>(SynidError::InsufficientFunds)
                || r == Err::<(), SynidError>(SynidError::Overflow)),
            r is Ok ==> final(self).escrow == old(self).escrow + amount
                && old(self).moved(final(self), |k: u64| -credit_to(k, from, amount as int)),
    {
        let fb = self.balance(from);
        if fb < amount {
            return Err(SynidError::InsufficientFunds);
        }
        if self.escrow > u64::MAX - amount {
            return Err(SynidError::Overflow);
        }
        self.escrow = self.escrow + amount;
        self.set_balance(from, fb - amount);
        Ok(())
    }

    /// Whether settling `amount` keeps the balances of `owner` and
    /// `treasury` within `u64`.
    pub open spec fn settle_fits(&self, owner: u64, treasury: u64, amount: int) -> bool {
        &&& self.balance_of(owner) + Self::settle_credit(owner, owner, treasury, amount) <= u64::MAX
        &&& self.balance_of(treasury) + Self::settle_credit(treasury, owner, treasury, amount) <= u64::MAX
    }

    /// Releases `amount` from escrow: the treasury is credited the platform
    /// fee and the owner the rest. Returns `(owner_payment, platform_fee)`.
    pub fn settle(&mut self, amount: u64, owner: u64, treasury: u64) -> (r: Result<(u64, u64), SynidError>)
        ensures
            r == Err::<(u64, u64), SynidError>(SynidError::EscrowUnderflow)
                <==> old(self).escrow < amount,
            r == Err::<(u64, u64), SynidError>(SynidError::Overflow)
                <==> old(self).escrow >= amount && !old(self).settle_fits(owner, treasury, amount as int),
            r is Err ==> *final(self) == *old(self) && (r == Err::<(u64, u64), SynidError>(SynidError::EscrowUnderflow)
                || r == Err::<(u64, u64), SynidError>(SynidError::Overflow)),
            r is Ok ==> {
                &&& r->Ok_0.0 == owner_share_of(amount as int)
                &&& r->Ok_0.1 == platform_fee_of(amount as int)
                &&& final(self).escrow == old(self).escrow - amount
                &&& old(self).moved(final(self), |k: u64| Self::settle_credit(k, owner, treasury, amount as int))
            },
    {
        if self.escrow < amount {
            return Err(SynidError::EscrowUnderflow);
        }
        let fee = platform_fee(amount);
        let share = amount - fee;
        let ob = self.balance(owner);
        if ob > u64::MAX - share {
            return Err(SynidError::Overflow);
        }
        let tb = if owner == treasury { ob + share } else { self.balance(treasury) };
        if tb > u64::MAX - fee {
            return Err(SynidError::Overflow);
        }
        self.escrow = self.escrow - amount;
        self.set_balance(owner, ob + share);
        self.set_balance(treasury, tb + fee);
        Ok((share, fee))
    }

    /// Releases `amount` from escrow back to the balance of `to`, in full.
    pub fn refund(&mut self, to: u64, amount: u64) -> (r: Result<(), SynidError>)
        ensures
            r == Err::<(), SynidError>(SynidError::EscrowUnderflow) <==> old(self).escrow < amount,
            r == Err::<(), SynidError>(SynidError::Overflow)
                <==> old(self).escrow >= amount && old(self).balance_of(to) + amount > u64::MAX,
            r is Err ==> *final(self) == *old(self) && (r == Err::<(), SynidError>(SynidError::EscrowUnderflow)
                || r == Err::<(), SynidError>(SynidError::Overflow)),
            r is Ok ==> final(self).escrow == old(self).escrow - amount
                && old(self).moved(final(self), |k: u64| credit_to(k, to, amount as int)),
    {
        if self.escrow < amount {
            return Err(SynidError::EscrowUnderflow);
        }
        let b = self.balance(to);
        if b > u64::MAX - amount {
            return Err(SynidError::Overflow);
        }
        self.escrow = self.escrow - amount;
        self.set_balance(to, b + amount);
        Ok(())
    }
}

/// The platform's cut of a settled payment, computed without overflow.
pub fn platform_fee(amount: u64) -> (r: u64)
    ensures
        r == platform_fee_of(amount as int),
        r <= amount,
{
    let wide: u128 = (amount as u128) * (PLATFORM_FEE_PERCENT as u128) / 100;
    assert(wide <= amount) by (nonlinear_arith)
        requires wide == (amount as u128) * 5 / 100;
    wide as u64
}

} // verus!
