use vstd::prelude::*;

use crate::errors::Error;
use crate::math::{lemma_sum_bound, lemma_sum_push, lemma_sum_update, sum, RATE_SCALE};
use crate::yield_manager::YieldManager;

verus! {

/// Rejects a negative amount, as every balance-moving operation does.
pub fn check_nonnegative_amount(amount: i128) -> (r: Result<(), Error>)
    ensures
        amount >= 0 ==> r == Ok::<(), Error>(()),
        amount < 0 ==> r == Err::<(), Error>(Error::InvalidAmount),
{
    if amount < 0 {
        Err(Error::InvalidAmount)
    } else {
        Ok(())
    }
}

/// The yield owed on balance `b` for an index move from `i` up to `r`,
/// truncated toward zero: `b * (r - i) / i / RATE_SCALE`.  Truncation
/// favours the protocol; the dust stays with the clearinghouse.
pub open spec fn pending_yield(b: int, i: int, r: int) -> int {
    b * (r - i) / i / (RATE_SCALE as int)
}

/// One accrual settlement for one account, the central state-transition
/// rule of the engine.  Given the account's balance `b`, stored index `i`,
/// accrued-but-unclaimed yield `acc`, and the rate `r` being observed, it
/// yields the account's new `(index, accrued)` pair:
///
/// - an untouched account (`i == 0`) is initialized to the current rate and
///   credited nothing, whatever `r` is;
/// - an account with no balance earns nothing and its index stays put;
/// - a rate above the stored index credits the truncated yield on the move
///   and advances the index;
/// - an unchanged rate changes nothing.  A rate below the index cannot
///   occur against the clearinghouse's monotone rate, and is left
///   unapplied.
pub open spec fn accrue_step(b: int, i: int, acc: int, r: int) -> (int, int) {
    if i == 0 {
        (r, acc)
    } else if b == 0 {
        (i, acc)
    } else if r > i {
        (r, acc + pending_yield(b, i, r))
    } else {
        (i, acc)
    }
}

/// No retroactive accrual: an account's first touch initializes its index
/// and leaves its accrued yield exactly as it was — zero, for a brand-new
/// account — no matter how far the rate has already risen.
pub proof fn lemma_no_retroactive_accrual(b: int, acc: int, r: int)
    ensures
        accrue_step(b, 0, acc, r).1 == acc,
        accrue_step(b, 0, acc, r).0 == r,
{
}

/// Accrual correctness: with a positive balance, an initialized index and a
/// strictly higher rate, one settlement credits exactly the truncated
/// formula amount and moves the index to the new rate.
pub proof fn lemma_accrual_exact(b: int, i: int, acc: int, r: int)
    requires
        b > 0,
        i != 0,
        r > i,
    ensures
        accrue_step(b, i, acc, r) == (r, acc + b * (r - i) / i / (RATE_SCALE as int)),
{
}

/// Idempotence: settling twice against the same rate changes nothing the
/// second time, whatever the account's state was.
pub proof fn lemma_accrual_idempotent(b: int, i: int, acc: int, r: int)
    ensures
        ({
            let (i1, a1) = accrue_step(b, i, acc, r);
            accrue_step(b, i1, a1, r) == (i1, a1)
        }),
{
}

/// Uniformity: two accounts with equal balances and equal indexes are
/// credited equally by a settlement at the same rate, whatever each has
/// already accrued.
pub proof fn lemma_equal_positions_equal_yield(b: int, i: int, acc1: int, acc2: int, r: int)
    ensures
        accrue_step(b, i, acc1, r).0 == accrue_step(b, i, acc2, r).0,
        accrue_step(b, i, acc1, r).1 - acc1 == accrue_step(b, i, acc2, r).1 - acc2,
{
}

/// The yield-claim ledger (YT): a fungible balance book that also keeps,
/// per holder, the exchange-rate index at which the holder's yield was last
/// settled and the yield accrued but not yet paid out.  Every operation
/// that is about to change a balance first settles the affected accounts
/// against the current rate, so yield is always earned on the balance that
/// was actually held.
pub struct YieldToken {
    /// The address under which this ledger is known to the clearinghouse;
    /// claims authenticate to `distribute_yield` with it.
    pub identity: usize,
    /// The only identity allowed to mint (the clearinghouse), and the
    /// address claims are paid out through.
    pub admin: usize,
    pub name: String,
    pub symbol: String,
    pub decimals: u32,
    /// `balances[a]` is account `a`'s holding; accounts at or beyond the
    /// vector's end hold 0.
    pub balances: Vec<i128>,
    /// `user_index[a]` is the rate at which `a`'s yield was last settled;
    /// 0 is the never-touched sentinel.
    pub user_index: Vec<i128>,
    /// `accrued[a]` is `a`'s claimable, not-yet-paid yield.
    pub accrued: Vec<i128>,
    pub total_supply: i128,
}

impl YieldToken {
    pub open spec fn balance_of(&self, a: int) -> int {
        if 0 <= a < self.balances@.len() {
            self.balances@[a] as int
        } else {
            0
        }
    }

    pub open spec fn index_of(&self, a: int) -> int {
        if 0 <= a < self.user_index@.len() {
            self.user_index@[a] as int
        } else {
            0
        }
    }

    pub open spec fn accrued_of(&self, a: int) -> int {
        if 0 <= a < self.accrued@.len() {
            self.accrued@[a] as int
        } else {
            0
        }
    }

    /// Ledger well-formedness: the three books cover the same accounts,
    /// nothing in them is negative, and the recorded total supply is
    /// exactly the sum of the balances (conservation).
    pub open spec fn wf(&self) -> bool {
        &&& self.user_index@.len() == self.balances@.len()
        &&& self.accrued@.len() == self.balances@.len()
        &&& self.total_supply as int == sum(self.balances@)
        &&& forall|i: int| 0 <= i < self.balances@.len() ==> self.balances@[i] >= 0
        &&& forall|i: int| 0 <= i < self.user_index@.len() ==> self.user_index@[i] >= 0
        &&& forall|i: int| 0 <= i < self.accrued@.len() ==> self.accrued@[i] >= 0
    }

    /// The parts of the ledger fixed at construction.
    pub open spec fn same_config(&self, other: &Self) -> bool {
        &&& self.identity == other.identity
        &&& self.admin == other.admin
        &&& self.name@ == other.name@
        &&& self.symbol@ == other.symbol@
        &&& self.decimals == other.decimals
    }

    /// What a settlement of account `a` at rate `r` needs from the machine:
    /// the formula's intermediate product and the grown accumulator must
    /// fit the balance type.  Vacuous whenever the settlement would not
    /// credit anything.
    pub open spec fn accrue_ok(&self, a: int, r: int) -> bool {
        let b = self.balance_of(a);
        let i = self.index_of(a);
        (i != 0 && b != 0 && r > i) ==> b * (r - i) <= i128::MAX && self.accrued_of(a)
            + pending_yield(b, i, r) <= i128::MAX
    }

    pub fn new(identity: usize, admin: usize, name: String, symbol: String, decimals: u32) -> (r:
        Self)
        requires
            decimals <= 18,
        ensures
            r.wf(),
            r.identity == identity,
            r.admin == admin,
            r.name@ == name@,
            r.symbol@ == symbol@,
            r.decimals == decimals,
            r.total_supply == 0,
            forall|a: int| r.balance_of(a) == 0 && r.index_of(a) == 0 && r.accrued_of(a) == 0,
    {
        YieldToken {
            identity,
            admin,
            name,
            symbol,
            decimals,
            balances: Vec::new(),
            user_index: Vec::new(),
            accrued: Vec::new(),
            total_supply: 0,
        }
    }

    /// Grows the three books in step, with zeroes, until account `a` has a
    /// slot.  No account's view and no sum changes.
    fn ensure_account(&mut self, a: usize)
        requires
            old(self).wf(),
            a < usize::MAX,
        ensures
            final(self).wf(),
            final(self).same_config(old(self)),
            final(self).balances@.len() > a,
            forall|x: int| final(self).balance_of(x) == old(self).balance_of(x),
            forall|x: int| final(self).index_of(x) == old(self).index_of(x),
            forall|x: int| final(self).accrued_of(x) == old(self).accrued_of(x),
            sum(final(self).balances@) == sum(old(self).balances@),
            final(self).total_supply == old(self).total_supply,
    {
        while self.balances.len() <= a
            invariant
                self.wf(),
                a < usize::MAX,
                self.balances@.len() >= old(self).balances@.len(),
                self.same_config(old(self)),
                forall|x: int| self.balance_of(x) == old(self).balance_of(x),
                forall|x: int| self.index_of(x) == old(self).index_of(x),
                forall|x: int| self.accrued_of(x) == old(self).accrued_of(x),
                sum(self.balances@) == sum(old(self).balances@),
                self.total_supply == old(self).total_supply,
            decreases a + 1 - self.balances.len(),
        {
            proof {
                lemma_sum_push(self.balances@, 0);
            }
            self.balances.push(0);
            self.user_index.push(0);
            self.accrued.push(0);
        }
    }

    /// Settles account `user`'s yield against `current_rate`, following
    /// `accrue_step`.  Balances and the supply are untouched; no other
    /// account changes.
    fn accrue_yield(&mut self, user: usize, current_rate: i128)
        requires
            old(self).wf(),
            user < usize::MAX,
            current_rate > 0,
            old(self).accrue_ok(user as int, current_rate as int),
        ensures
            final(self).wf(),
            final(self).same_config(old(self)),
            forall|x: int| final(self).balance_of(x) == old(self).balance_of(x),
            final(self).total_supply == old(self).total_supply,
            (final(self).index_of(user as int), final(self).accrued_of(user as int))
                == accrue_step(
                old(self).balance_of(user as int),
                old(self).index_of(user as int),
                old(self).accrued_of(user as int),
                current_rate as int,
            ),
            forall|x: int|
                x != user ==> final(self).index_of(x) == old(self).index_of(x)
                    && final(self).accrued_of(x) == old(self).accrued_of(x),
    {
        self.ensure_account(user);
        let balance = self.balances[user];
        let old_index = self.user_index[user];
        if old_index == 0 {
            self.user_index.set(user, current_rate);
            return ;
        }
        if balance == 0 {
            return ;
        }
        if current_rate > old_index {
            let diff = current_rate - old_index;
            proof {
                assert(balance * diff >= 0) by (nonlinear_arith)
                    requires
                        balance >= 0,
                        diff >= 0,
                ;
            }
            let scaled = balance * diff;
            let q1 = scaled / old_index;
            let pending = q1 / RATE_SCALE;
            let current_accrued = self.accrued[user];
            self.accrued.set(user, current_accrued + pending);
            self.user_index.set(user, current_rate);
        }
    }

    /// Creates `amount` new units on `to`'s balance, settling `to`'s yield
    /// first against `exchange_rate` — the rate the clearinghouse just used
    /// for the deposit, passed along so both sides of the deposit see the
    /// same rate.  Reserved to the clearinghouse.
    pub fn mint(&mut self, caller: usize, to: usize, amount: i128, exchange_rate: i128) -> (r:
        Result<(), Error>)
        requires
            old(self).wf(),
            to < usize::MAX,
            exchange_rate > 0,
            caller == old(self).admin && amount >= 0 ==> old(self).accrue_ok(
                to as int,
                exchange_rate as int,
            ) && old(self).total_supply + amount <= i128::MAX,
        ensures
            final(self).wf(),
            final(self).same_config(old(self)),
            caller != old(self).admin ==> r == Err::<(), Error>(Error::AuthorizationFailure)
                && *final(self) == *old(self),
            caller == old(self).admin && amount < 0 ==> r == Err::<(), Error>(Error::InvalidAmount)
                && *final(self) == *old(self),
            caller == old(self).admin && amount >= 0 ==> {
                &&& r == Ok::<(), Error>(())
                &&& (final(self).index_of(to as int), final(self).accrued_of(to as int))
                    == accrue_step(
                    old(self).balance_of(to as int),
                    old(self).index_of(to as int),
                    old(self).accrued_of(to as int),
                    exchange_rate as int,
                )
                &&& final(self).balance_of(to as int) == old(self).balance_of(to as int) + amount
                &&& final(self).total_supply == old(self).total_supply + amount
                &&& forall|x: int|
                    x != to ==> final(self).balance_of(x) == old(self).balance_of(x) && final(self).index_of(x) == old(self).index_of(x) && final(self).accrued_of(x) == old(self).accrued_of(x)
            },
    {
        if caller != self.admin {
            return Err(Error::AuthorizationFailure);
        }
        if let Err(e) = check_nonnegative_amount(amount) {
            return Err(e);
        }
        self.accrue_yield(to, exchange_rate);
        proof {
            lemma_sum_bound(self.balances@, to as int);
        }
        let ghost s0 = self.balances@;
        let balance = self.balances[to];
        self.balances.set(to, balance + amount);
        proof {
            lemma_sum_update(s0, to as int, (balance + amount) as i128);
        }
        self.total_supply = self.total_supply + amount;
        Ok(())
    }

    /// Moves `amount` units from `from` to `to`; only `from` itself may
    /// order it.  Both parties' yield is settled against a freshly queried
    /// rate before balances move, so each side's yield is earned on the
    /// balance actually held.  A transfer to oneself settles yield and
    /// moves nothing.
    pub fn transfer(
        &mut self,
        mgr: &mut YieldManager,
        caller: usize,
        from: usize,
        to: usize,
        amount: i128,
        now: u64,
        quote: Option<i128>,
    ) -> (r: Result<(), Error>)
        requires
            old(self).wf(),
            old(mgr).wf(),
            from < usize::MAX,
            to < usize::MAX,
            ({
                let rate = old(mgr).rate_after_quote(quote) as int;
                caller == from && amount >= 0 && old(self).balance_of(from as int) >= amount && !old(mgr).refresh_fails(quote) ==> old(self).accrue_ok(from as int, rate) && old(self).accrue_ok(to as int, rate)
            }),
        ensures
            final(self).wf(),
            final(self).same_config(old(self)),
            final(self).total_supply == old(self).total_supply,
            final(mgr).wf(),
            final(mgr).same_config(old(mgr)),
            final(mgr).exchange_rate >= old(mgr).exchange_rate,
            old(mgr).rate_locked ==> *final(mgr) == *old(mgr),
            caller != from ==> r == Err::<(), Error>(Error::AuthorizationFailure) && *final(self)
                == *old(self) && *final(mgr) == *old(mgr),
            caller == from && amount < 0 ==> r == Err::<(), Error>(Error::InvalidAmount) && *final(self) == *old(self) && *final(mgr) == *old(mgr),
            caller == from && amount >= 0 && old(self).balance_of(from as int) < amount ==> r
                == Err::<(), Error>(Error::InsufficientBalance) && *final(self) == *old(self)
                && *final(mgr) == *old(mgr),
            caller == from && amount >= 0 && old(self).balance_of(from as int) >= amount && old(mgr).refresh_fails(quote) ==> r == Err::<(), Error>(Error::UpstreamQueryFailure) && *final(self) == *old(self) && *final(mgr) == *old(mgr),
            caller == from && amount >= 0 && old(self).balance_of(from as int) >= amount && !old(mgr).refresh_fails(quote) ==> ({
                let rate = old(mgr).rate_after_quote(quote) as int;
                let (fi, fa) = accrue_step(
                    old(self).balance_of(from as int),
                    old(self).index_of(from as int),
                    old(self).accrued_of(from as int),
                    rate,
                );
                let (ti, ta) = accrue_step(
                    old(self).balance_of(to as int),
                    old(self).index_of(to as int),
                    old(self).accrued_of(to as int),
                    rate,
                );
                &&& r == Ok::<(), Error>(())
                &&& final(mgr).exchange_rate == old(mgr).rate_after_quote(quote)
                &&& final(mgr).rate_locked == old(mgr).locked_after(now)
                &&& (final(self).index_of(from as int), final(self).accrued_of(from as int)) == (
                fi,
                fa,
                )
                &&& (final(self).index_of(to as int), final(self).accrued_of(to as int)) == (
                ti,
                ta,
                )
                &&& from != to ==> final(self).balance_of(from as int) == old(self).balance_of(
                    from as int,
                ) - amount && final(self).balance_of(to as int) == old(self).balance_of(to as int)
                    + amount
                &&& from == to ==> final(self).balance_of(from as int) == old(self).balance_of(
                    from as int,
                )
                &&& forall|x: int|
                    x != from && x != to ==> final(self).balance_of(x) == old(self).balance_of(x)
                        && final(self).index_of(x) == old(self).index_of(x) && final(self).accrued_of(x) == old(self).accrued_of(x)
            }),
    {
        if caller != from {
            return Err(Error::AuthorizationFailure);
        }
        if let Err(e) = check_nonnegative_amount(amount) {
            return Err(e);
        }
        let from_balance = self.balance(from);
        if from_balance < amount {
            return Err(Error::InsufficientBalance);
        }
        let rate = match mgr.get_exchange_rate(now, quote) {
            Ok(v) => v,
            Err(e) => {
                return Err(e);
            },
        };
        self.accrue_yield(from, rate);
        proof {
            lemma_accrual_idempotent(
                old(self).balance_of(from as int),
                old(self).index_of(from as int),
                old(self).accrued_of(from as int),
                rate as int,
            );
        }
        self.accrue_yield(to, rate);
        self.ensure_account(to);
        if from < self.balances.len() {
            let ghost s0 = self.balances@;
            let bf = self.balances[from];
            self.balances.set(from, bf - amount);
            proof {
                lemma_sum_update(s0, from as int, (bf - amount) as i128);
            }
        }
        proof {
            lemma_sum_bound(self.balances@, to as int);
        }
        let ghost s1 = self.balances@;
        let bt = self.balances[to];
        self.balances.set(to, bt + amount);
        proof {
            lemma_sum_update(s1, to as int, (bt + amount) as i128);
        }
        Ok(())
    }

    /// Destroys `amount` units of `from`'s balance, settling `from`'s yield
    /// first — yield earned up to the burn is kept, claimable as before.
    /// Only `from` itself may order it.
    pub fn burn(
        &mut self,
        mgr: &mut YieldManager,
        caller: usize,
        from: usize,
        amount: i128,
        now: u64,
        quote: Option<i128>,
    ) -> (r: Result<(), Error>)
        requires
            old(self).wf(),
            old(mgr).wf(),
            from < usize::MAX,
            ({
                let rate = old(mgr).rate_after_quote(quote) as int;
                caller == from && amount >= 0 && old(self).balance_of(from as int) >= amount && !old(mgr).refresh_fails(quote) ==> old(self).accrue_ok(from as int, rate)
            }),
        ensures
            final(self).wf(),
            final(self).same_config(old(self)),
            final(mgr).wf(),
            final(mgr).same_config(old(mgr)),
            final(mgr).exchange_rate >= old(mgr).exchange_rate,
            old(mgr).rate_locked ==> *final(mgr) == *old(mgr),
            caller != from ==> r == Err::<(), Error>(Error::AuthorizationFailure) && *final(self)
                == *old(self) && *final(mgr) == *old(mgr),
            caller == from && amount < 0 ==> r == Err::<(), Error>(Error::InvalidAmount) && *final(self) == *old(self) && *final(mgr) == *old(mgr),
            caller == from && amount >= 0 && old(self).balance_of(from as int) < amount ==> r
                == Err::<(), Error>(Error::InsufficientBalance) && *final(self) == *old(self)
                && *final(mgr) == *old(mgr),
            caller == from && amount >= 0 && old(self).balance_of(from as int) >= amount && old(mgr).refresh_fails(quote) ==> r == Err::<(), Error>(Error::UpstreamQueryFailure) && *final(self) == *old(self) && *final(mgr) == *old(mgr),
            caller == from && amount >= 0 && old(self).balance_of(from as int) >= amount && !old(mgr).refresh_fails(quote) ==> ({
                let rate = old(mgr).rate_after_quote(quote) as int;
                &&& r == Ok::<(), Error>(())
                &&& final(mgr).exchange_rate == old(mgr).rate_after_quote(quote)
                &&& final(mgr).rate_locked == old(mgr).locked_after(now)
                &&& (final(self).index_of(from as int), final(self).accrued_of(from as int))
                    == accrue_step(
                    old(self).balance_of(from as int),
                    old(self).index_of(from as int),
                    old(self).accrued_of(from as int),
                    rate,
                )
                &&& final(self).balance_of(from as int) == old(self).balance_of(from as int)
                    - amount
                &&& final(self).total_supply == old(self).total_supply - amount
                &&& forall|x: int|
                    x != from ==> final(self).balance_of(x) == old(self).balance_of(x) && final(self).index_of(x) == old(self).index_of(x) && final(self).accrued_of(x) == old(self).accrued_of(x)
            }),
    {
        if caller != from {
            return Err(Error::AuthorizationFailure);
        }
        if let Err(e) = check_nonnegative_amount(amount) {
            return Err(e);
        }
        let balance = self.balance(from);
        if balance < amount {
            return Err(Error::InsufficientBalance);
        }
        let rate = match mgr.get_exchange_rate(now, quote) {
            Ok(v) => v,
            Err(e) => {
                return Err(e);
            },
        };
        self.accrue_yield(from, rate);
        self.ensure_account(from);
        proof {
            lemma_sum_bound(self.balances@, from as int);
        }
        let ghost s0 = self.balances@;
        let bf = self.balances[from];
        self.balances.set(from, bf - amount);
        proof {
            lemma_sum_update(s0, from as int, (bf - amount) as i128);
        }
        self.total_supply = self.total_supply - amount;
        Ok(())
    }

    /// Settles `user`'s yield against a fresh rate, then pays the whole
    /// accrued amount out: the claim is zeroed first, and the clearinghouse
    /// is ordered to transfer that many underlying shares to `user` — the
    /// returned value, which the host must move.  A claim of nothing is a
    /// no-op returning 0.  Only `user` may claim for `user`.
    pub fn claim_yield(
        &mut self,
        mgr: &mut YieldManager,
        caller: usize,
        user: usize,
        now: u64,
        quote: Option<i128>,
    ) -> (r: Result<i128, Error>)
        requires
            old(self).wf(),
            old(mgr).wf(),
            old(mgr).initialized,
            old(mgr).yield_token == old(self).identity,
            user < usize::MAX,
            caller == user && !old(mgr).refresh_fails(quote) ==> old(self).accrue_ok(
                user as int,
                old(mgr).rate_after_quote(quote) as int,
            ),
        ensures
            final(self).wf(),
            final(self).same_config(old(self)),
            final(mgr).wf(),
            final(mgr).same_config(old(mgr)),
            final(mgr).exchange_rate >= old(mgr).exchange_rate,
            old(mgr).rate_locked ==> *final(mgr) == *old(mgr),
            caller != user ==> r == Err::<i128, Error>(Error::AuthorizationFailure) && *final(self)
                == *old(self) && *final(mgr) == *old(mgr),
            caller == user && old(mgr).refresh_fails(quote) ==> r == Err::<i128, Error>(
                Error::UpstreamQueryFailure,
            ) && *final(self) == *old(self) && *final(mgr) == *old(mgr),
            caller == user && !old(mgr).refresh_fails(quote) ==> ({
                let rate = old(mgr).rate_after_quote(quote) as int;
                let (i1, a1) = accrue_step(
                    old(self).balance_of(user as int),
                    old(self).index_of(user as int),
                    old(self).accrued_of(user as int),
                    rate,
                );
                &&& r == Ok::<i128, Error>(a1 as i128)
                &&& a1 >= 0
                &&& final(self).index_of(user as int) == i1
                &&& final(self).accrued_of(user as int) == 0
                &&& final(mgr).exchange_rate == old(mgr).rate_after_quote(quote)
                &&& final(mgr).rate_locked == old(mgr).locked_after(now)
                &&& forall|x: int| final(self).balance_of(x) == old(self).balance_of(x)
                &&& final(self).total_supply == old(self).total_supply
                &&& forall|x: int|
                    x != user ==> final(self).index_of(x) == old(self).index_of(x)
                        && final(self).accrued_of(x) == old(self).accrued_of(x)
            }),
    {
        if caller != user {
            return Err(Error::AuthorizationFailure);
        }
        let rate = match mgr.get_exchange_rate(now, quote) {
            Ok(v) => v,
            Err(e) => {
                return Err(e);
            },
        };
        self.accrue_yield(user, rate);
        let claimable = self.accrued_yield(user);
        if claimable == 0 {
            return Ok(0);
        }
        self.accrued.set(user, 0);
        match mgr.distribute_yield(self.identity, user, claimable, now, quote) {
            Ok(_) => Ok(claimable),
            Err(e) => Err(e),
        }
    }

    pub fn balance(&self, a: usize) -> (r: i128)
        ensures
            r as int == self.balance_of(a as int),
    {
        if a < self.balances.len() {
            self.balances[a]
        } else {
            0
        }
    }

    pub fn user_index(&self, a: usize) -> (r: i128)
        ensures
            r as int == self.index_of(a as int),
    {
        if a < self.user_index.len() {
            self.user_index[a]
        } else {
            0
        }
    }

    pub fn accrued_yield(&self, a: usize) -> (r: i128)
        ensures
            r as int == self.accrued_of(a as int),
    {
        if a < self.accrued.len() {
            self.accrued[a]
        } else {
            0
        }
    }

    pub fn total_supply(&self) -> (r: i128)
        ensures
            r == self.total_supply,
    {
        self.total_supply
    }

    pub fn admin(&self) -> (r: usize)
        ensures
            r == self.admin,
    {
        self.admin
    }

    pub fn identity(&self) -> (r: usize)
        ensures
            r == self.identity,
    {
        self.identity
    }

    pub fn name(&self) -> (r: &String)
        ensures
            r@ == self.name@,
    {
        &self.name
    }

    pub fn symbol(&self) -> (r: &String)
        ensures
            r@ == self.symbol@,
    {
        &self.symbol
    }

    pub fn decimals(&self) -> (r: u32)
        ensures
            r == self.decimals,
    {
        self.decimals
    }
}

/// Conservation: in any well-formed yield ledger the recorded total supply
/// equals the sum of all account balances; every operation of the ledger
/// keeps it so.
pub proof fn lemma_supply_conservation(yt: &YieldToken)
    requires
        yt.wf(),
    ensures
        yt.total_supply as int == sum(yt.balances@),
{
}

} // verus!
