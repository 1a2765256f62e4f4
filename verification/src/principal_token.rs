use vstd::prelude::*;

use crate::errors::Error;
use crate::math::{lemma_sum_bound, lemma_sum_push, lemma_sum_update, sum};

verus! {

/// The principal-claim ledger (PT): a fungible balance book whose minting
/// and burning are reserved to a single authority — the clearinghouse —
/// while holders transfer freely among themselves.
///
/// Accounts are identified by plain indices; an account the book has never
/// seen holds 0.  Amounts are signed to match the host convention, but every
/// operation rejects a negative amount, so balances stay non-negative and
/// the total supply is always the sum of the balances.
pub struct PrincipalToken {
    /// The only identity allowed to mint and burn (the clearinghouse).
    pub admin: usize,
    pub name: String,
    pub symbol: String,
    pub decimals: u32,
    /// `balances[a]` is account `a`'s holding; accounts at or beyond the
    /// vector's end hold 0.
    pub balances: Vec<i128>,
    pub total_supply: i128,
}

impl PrincipalToken {
    /// Account `a`'s balance, with the never-touched default of 0.
    pub open spec fn balance_of(&self, a: int) -> int {
        if 0 <= a < self.balances@.len() {
            self.balances@[a] as int
        } else {
            0
        }
    }

    /// Ledger well-formedness: no balance is negative, and the recorded
    /// total supply is exactly the sum of the balances (conservation).
    pub open spec fn wf(&self) -> bool {
        &&& self.total_supply as int == sum(self.balances@)
        &&& forall|i: int| 0 <= i < self.balances@.len() ==> self.balances@[i] >= 0
    }

    /// The parts of the ledger fixed at construction.
    pub open spec fn same_config(&self, other: &Self) -> bool {
        &&& self.admin == other.admin
        &&& self.name@ == other.name@
        &&& self.symbol@ == other.symbol@
        &&& self.decimals == other.decimals
    }

    pub fn new(admin: usize, name: String, symbol: String, decimals: u32) -> (r: Self)
        requires
            decimals <= 18,
        ensures
            r.wf(),
            r.admin == admin,
            r.name@ == name@,
            r.symbol@ == symbol@,
            r.decimals == decimals,
            r.total_supply == 0,
            forall|a: int| r.balance_of(a) == 0,
    {
        PrincipalToken { admin, name, symbol, decimals, balances: Vec::new(), total_supply: 0 }
    }

    /// Grows the book with zero balances until account `a` has a slot.
    /// No balance and no sum changes.
    fn ensure_account(&mut self, a: usize)
        requires
            a < usize::MAX,
        ensures
            final(self).balances@.len() > a,
            final(self).balances@.len() >= old(self).balances@.len(),
            forall|x: int| final(self).balance_of(x) == old(self).balance_of(x),
            forall|i: int|
                0 <= i < final(self).balances@.len() ==> final(self).balances@[i] == (
                if i < old(self).balances@.len() {
                    old(self).balances@[i]
                } else {
                    0
                }),
            sum(final(self).balances@) == sum(old(self).balances@),
            final(self).admin == old(self).admin,
            final(self).name@ == old(self).name@,
            final(self).symbol@ == old(self).symbol@,
            final(self).decimals == old(self).decimals,
            final(self).total_supply == old(self).total_supply,
    {
        while self.balances.len() <= a
            invariant
                a < usize::MAX,
                self.balances@.len() >= old(self).balances@.len(),
                forall|i: int|
                    0 <= i < self.balances@.len() ==> self.balances@[i] == (
                    if i < old(self).balances@.len() {
                        old(self).balances@[i]
                    } else {
                        0
                    }),
                sum(self.balances@) == sum(old(self).balances@),
                self.admin == old(self).admin,
                self.name@ == old(self).name@,
                self.symbol@ == old(self).symbol@,
                self.decimals == old(self).decimals,
                self.total_supply == old(self).total_supply,
            decreases a + 1 - self.balances.len(),
        {
            proof {
                lemma_sum_push(self.balances@, 0);
            }
            self.balances.push(0);
        }
    }

    /// Creates `amount` new units on `to`'s balance.  Reserved to the
    /// clearinghouse: any other caller is refused.
    pub fn mint(&mut self, caller: usize, to: usize, amount: i128) -> (r: Result<(), Error>)
        requires
            old(self).wf(),
            to < usize::MAX,
            caller == old(self).admin && amount >= 0 ==> old(self).total_supply + amount
                <= i128::MAX,
        ensures
            final(self).wf(),
            final(self).same_config(old(self)),
            caller != old(self).admin ==> r == Err::<(), Error>(Error::AuthorizationFailure)
                && *final(self) == *old(self),
            caller == old(self).admin && amount < 0 ==> r == Err::<(), Error>(Error::InvalidAmount)
                && *final(self) == *old(self),
            caller == old(self).admin && amount >= 0 ==> {
                &&& r == Ok::<(), Error>(())
                &&& final(self).balance_of(to as int) == old(self).balance_of(to as int) + amount
                &&& forall|x: int| x != to ==> final(self).balance_of(x) == old(self).balance_of(x)
                &&& final(self).total_supply == old(self).total_supply + amount
            },
    {
        if caller != self.admin {
            return Err(Error::AuthorizationFailure);
        }
        if amount < 0 {
            return Err(Error::InvalidAmount);
        }
        self.ensure_account(to);
        proof {
            lemma_sum_bound(self.balances@, to as int);
        }
        let ghost s0 = self.balances@;
        let b = self.balances[to];
        self.balances.set(to, b + amount);
        proof {
            lemma_sum_update(s0, to as int, (b + amount) as i128);
        }
        self.total_supply = self.total_supply + amount;
        Ok(())
    }

    /// Destroys `amount` units of `from`'s balance.  Reserved to the
    /// clearinghouse, which burns principal claims at redemption.
    pub fn burn(&mut self, caller: usize, from: usize, amount: i128) -> (r: Result<(), Error>)
        requires
            old(self).wf(),
        ensures
            final(self).wf(),
            final(self).same_config(old(self)),
            caller != old(self).admin ==> r == Err::<(), Error>(Error::AuthorizationFailure)
                && *final(self) == *old(self),
            caller == old(self).admin && amount < 0 ==> r == Err::<(), Error>(Error::InvalidAmount)
                && *final(self) == *old(self),
            caller == old(self).admin && amount >= 0 && old(self).balance_of(from as int) < amount
                ==> r == Err::<(), Error>(Error::InsufficientBalance)
                && *final(self) == *old(self),
            caller == old(self).admin && amount >= 0 && old(self).balance_of(from as int) >= amount
                ==> {
                &&& r == Ok::<(), Error>(())
                &&& final(self).balance_of(from as int) == old(self).balance_of(from as int)
                    - amount
                &&& forall|x: int|
                    x != from ==> final(self).balance_of(x) == old(self).balance_of(x)
                &&& final(self).total_supply == old(self).total_supply - amount
            },
    {
        if caller != self.admin {
            return Err(Error::AuthorizationFailure);
        }
        if amount < 0 {
            return Err(Error::InvalidAmount);
        }
        let b = self.balance(from);
        if b < amount {
            return Err(Error::InsufficientBalance);
        }
        if from < self.balances.len() {
            proof {
                lemma_sum_bound(self.balances@, from as int);
            }
            let ghost s0 = self.balances@;
            self.balances.set(from, b - amount);
            proof {
                lemma_sum_update(s0, from as int, (b - amount) as i128);
            }
        }
        self.total_supply = self.total_supply - amount;
        Ok(())
    }

    /// Moves `amount` units from `from` to `to`; only `from` itself may
    /// order it.  A transfer to oneself settles to no change.
    pub fn transfer(&mut self, caller: usize, from: usize, to: usize, amount: i128) -> (r: Result<
        (),
        Error,
    >)
        requires
            old(self).wf(),
            to < usize::MAX,
        ensures
            final(self).wf(),
            final(self).same_config(old(self)),
            final(self).total_supply == old(self).total_supply,
            caller != from ==> r == Err::<(), Error>(Error::AuthorizationFailure) && *final(self)
                == *old(self),
            caller == from && amount < 0 ==> r == Err::<(), Error>(Error::InvalidAmount)
                && *final(self) == *old(self),
            caller == from && amount >= 0 && old(self).balance_of(from as int) < amount ==> r
                == Err::<(), Error>(Error::InsufficientBalance) && *final(self) == *old(self),
            caller == from && amount >= 0 && old(self).balance_of(from as int) >= amount ==> {
                &&& r == Ok::<(), Error>(())
                &&& from != to ==> final(self).balance_of(from as int) == old(self).balance_of(
                    from as int,
                ) - amount && final(self).balance_of(to as int) == old(self).balance_of(to as int)
                    + amount
                &&& from == to ==> final(self).balance_of(from as int) == old(self).balance_of(
                    from as int,
                )
                &&& forall|x: int|
                    x != from && x != to ==> final(self).balance_of(x) == old(self).balance_of(x)
            },
    {
        if caller != from {
            return Err(Error::AuthorizationFailure);
        }
        if amount < 0 {
            return Err(Error::InvalidAmount);
        }
        let b_from = self.balance(from);
        if b_from < amount {
            return Err(Error::InsufficientBalance);
        }
        self.ensure_account(to);
        if from < self.balances.len() {
            let ghost s0 = self.balances@;
            let bf = self.balances[from];
            self.balances.set(from, bf - amount);
            proof {
                lemma_sum_update(s0, from as int, (bf - amount) as i128);
            }
        }
        proof {
            lemma_sum_bound(self.balances@, to as int);
        }
        let ghost s1 = self.balances@;
        let bt = self.balances[to];
        self.balances.set(to, bt + amount);
        proof {
            lemma_sum_update(s1, to as int, (bt + amount) as i128);
        }
        Ok(())
    }

    pub fn balance(&self, a: usize) -> (r: i128)
        ensures
            r as int == self.balance_of(a as int),
    {
        if a < self.balances.len() {
            self.balances[a]
        } else {
            0
        }
    }

    pub fn total_supply(&self) -> (r: i128)
        ensures
            r == self.total_supply,
    {
        self.total_supply
    }

    pub fn admin(&self) -> (r: usize)
        ensures
            r == self.admin,
    {
        self.admin
    }

    pub fn name(&self) -> (r: &String)
        ensures
            r@ == self.name@,
    {
        &self.name
    }

    pub fn symbol(&self) -> (r: &String)
        ensures
            r@ == self.symbol@,
    {
        &self.symbol
    }

    pub fn decimals(&self) -> (r: u32)
        ensures
            r == self.decimals,
    {
        self.decimals
    }
}

/// Conservation: in any well-formed principal ledger the recorded total
/// supply equals the sum of all account balances; every operation of the
/// ledger keeps it so.
pub proof fn lemma_supply_conservation(pt: &PrincipalToken)
    requires
        pt.wf(),
    ensures
        pt.total_supply as int == sum(pt.balances@),
{
}

} // verus!
