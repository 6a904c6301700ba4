//! The ledger that holds the accounts' funds, and a ledger kept in memory.

use std::collections::HashMap;
use vstd::prelude::*;

use crate::types::{AccountId, Balance, LedgerError};

verus! {

broadcast use vstd::std_specs::hash::group_hash_axioms;

/// The free balance of `who`: zero where the map holds no entry for it.
pub open spec fn free_of(balances: Map<AccountId, nat>, who: AccountId) -> nat {
    if balances.contains_key(who) {
        balances[who]
    } else {
        0
    }
}

/// The balances after `amount` has moved from `from` to `to`.
pub open spec fn moved(
    balances: Map<AccountId, nat>,
    from: AccountId,
    to: AccountId,
    amount: nat,
) -> Map<AccountId, nat> {
    if from == to || amount == 0 {
        balances
    } else {
        balances.insert(from, (free_of(balances, from) - amount) as nat).insert(
            to,
            free_of(balances, to) + amount,
        )
    }
}

/// The balances after `who` has been credited `amount` if it held nothing.
pub open spec fn topped_up(balances: Map<AccountId, nat>, who: AccountId, amount: nat) -> Map<
    AccountId,
    nat,
> {
    if free_of(balances, who) == 0 {
        balances.insert(who, amount)
    } else {
        balances
    }
}

/// The funds of an account beyond the minimum it must keep.
pub open spec fn spendable(balances: Map<AccountId, nat>, who: AccountId, minimum: nat) -> nat {
    if free_of(balances, who) > minimum {
        (free_of(balances, who) - minimum) as nat
    } else {
        0
    }
}

/// What a transfer needs from a ledger.
pub trait Currency {
    /// The free balance of each account that holds an entry.
    spec fn balances(&self) -> Map<AccountId, nat>;

    /// The least balance an account may be left with.
    spec fn existential_deposit(&self) -> nat;

    /// The free balance of `who`.
    fn free_balance(&self, who: AccountId) -> (r: Balance)
        ensures
            r as nat == free_of(self.balances(), who),
    ;

    /// The least balance an account may be left with.
    fn minimum_balance(&self) -> (r: Balance)
        ensures
            r as nat == self.existential_deposit(),
    ;

    /// Moves `amount` from `from` to `to`, never leaving `from` below the
    /// minimum balance. A refused transfer changes nothing.
    fn transfer_keep_alive(&mut self, from: AccountId, to: AccountId, amount: Balance) -> (r:
        Result<(), LedgerError>)
        ensures
            final(self).existential_deposit() == old(self).existential_deposit(),
            r is Ok && from != to ==> free_of(old(self).balances(), from) >= amount,
            r is Ok ==> final(self).balances() == moved(
                old(self).balances(),
                from,
                to,
                amount as nat,
            ),
            r is Ok && from != to && amount > 0 ==> free_of(old(self).balances(), from) - amount
                >= old(self).existential_deposit(),
            r is Err ==> final(self).balances() == old(self).balances(),
    ;

    /// Creates `amount` out of nothing for `who` if it holds nothing.
    fn deposit_if_empty(&mut self, who: AccountId, amount: Balance)
        ensures
            final(self).existential_deposit() == old(self).existential_deposit(),
            final(self).balances() == topped_up(old(self).balances(), who, amount as nat),
    ;
}

/// Whether a transfer of `amount` from `from` to `to` is refused by
/// [`Balances`], and why.
pub open spec fn transfer_refusal(
    balances: Map<AccountId, nat>,
    minimum: nat,
    from: AccountId,
    to: AccountId,
    amount: nat,
) -> Option<LedgerError> {
    if from == to || amount == 0 {
        None
    } else if free_of(balances, from) < amount {
        Some(LedgerError::InsufficientBalance)
    } else if free_of(balances, from) - amount < minimum {
        Some(LedgerError::KeepAlive)
    } else if free_of(balances, to) + amount > u128::MAX {
        Some(LedgerError::Overflow)
    } else if free_of(balances, to) + amount < minimum {
        Some(LedgerError::BelowMinimum)
    } else {
        None
    }
}

/// A ledger held in memory: one free balance per account and a minimum
/// balance that every account with funds keeps.
pub struct Balances {
    accounts: HashMap<AccountId, Balance>,
    minimum: Balance,
}

impl Balances {
    /// An empty ledger whose accounts must keep at least `minimum`.
    pub fn new(minimum: Balance) -> (r: Self)
        ensures
            r.balances() == Map::<AccountId, nat>::empty(),
            r.existential_deposit() == minimum as nat,
    {
        let r = Balances { accounts: HashMap::new(), minimum };
        assert(r.balances() =~= Map::<AccountId, nat>::empty());
        r
    }

    /// Sets the free balance of `who` to `amount`.
    pub fn set_balance(&mut self, who: AccountId, amount: Balance)
        ensures
            final(self).balances() == old(self).balances().insert(who, amount as nat),
            final(self).existential_deposit() == old(self).existential_deposit(),
    {
        self.accounts.insert(who, amount);
        assert(self.balances() =~= old(self).balances().insert(who, amount as nat));
    }
}

impl Currency for Balances {
    closed spec fn balances(&self) -> Map<AccountId, nat> {
        Map::new(|a: AccountId| self.accounts@.contains_key(a), |a: AccountId| self.accounts@[a] as nat)
    }

    closed spec fn existential_deposit(&self) -> nat {
        self.minimum as nat
    }

    fn free_balance(&self, who: AccountId) -> (r: Balance) {
        match self.accounts.get(&who) {
            Some(b) => *b,
            None => 0,
        }
    }

    fn minimum_balance(&self) -> (r: Balance) {
        self.minimum
    }

    fn transfer_keep_alive(&mut self, from: AccountId, to: AccountId, amount: Balance) -> (r:
        Result<(), LedgerError>)
        ensures
            r == match transfer_refusal(
                old(self).balances(),
                old(self).existential_deposit(),
                from,
                to,
                amount as nat,
            ) {
                Some(e) => Err::<(), LedgerError>(e),
                None => Ok(()),
            },
    {
        if from == to || amount == 0 {
            return Ok(());
        }
        let from_balance = self.free_balance(from);
        let to_balance = self.free_balance(to);
        if from_balance < amount {
            return Err(LedgerError::InsufficientBalance);
        }
        if from_balance - amount < self.minimum {
            return Err(LedgerError::KeepAlive);
        }
        if to_balance > u128::MAX - amount {
            return Err(LedgerError::Overflow);
        }
        if to_balance + amount < self.minimum {
            return Err(LedgerError::BelowMinimum);
        }
        let ghost before = self.balances();
        self.accounts.insert(from, from_balance - amount);
        self.accounts.insert(to, to_balance + amount);
        assert(self.balances() =~= moved(before, from, to, amount as nat));
        Ok(())
    }

    fn deposit_if_empty(&mut self, who: AccountId, amount: Balance) {
        if self.free_balance(who) == 0 {
            self.accounts.insert(who, amount);
            assert(self.balances() =~= topped_up(old(self).balances(), who, amount as nat));
        } else {
            assert(self.balances() =~= topped_up(old(self).balances(), who, amount as nat));
        }
    }
}

} // verus!
