use vstd::prelude::*;

use crate::errors::Error;
use crate::math::{lemma_sum_bound, lemma_sum_nonneg, lemma_sum_push, lemma_sum_update, sum,
    RATE_SCALE};
use vstd::arithmetic::div_mod::{lemma_div_nonincreasing, lemma_div_pos_is_pos};

verus! {

/// Virtual assets the vault starts with, so an exchange rate exists before
/// any real deposit; it is matched one-for-one by unowned initial shares.
pub const INITIAL_VIRTUAL_BALANCE: i128 = 1_000_000_000;

/// One basis point is a hundredth of a percent.
pub const BASIS_POINTS_SCALE: i128 = 10_000;

/// Truncating division — the machine's `/` — for a positive divisor.
pub open spec fn div_trunc(x: int, d: int) -> int
    recommends
        d > 0,
{
    if x >= 0 {
        x / d
    } else {
        -((-x) / d)
    }
}

pub open spec fn fits_i128(x: int) -> bool {
    i128::MIN <= x <= i128::MAX
}

/// A truncating quotient stays between zero and its dividend.
proof fn lemma_div_trunc_bounds(x: int, d: int)
    requires
        d > 0,
    ensures
        x >= 0 ==> 0 <= div_trunc(x, d) <= x,
        x < 0 ==> x <= div_trunc(x, d) <= 0,
{
    if x >= 0 {
        lemma_div_pos_is_pos(x, d);
        lemma_div_nonincreasing(x, d);
    } else {
        lemma_div_pos_is_pos(-x, d);
        lemma_div_nonincreasing(-x, d);
    }
}

/// The simulated yield on `principal` over `elapsed` seconds at
/// `rate_bps` basis points per second: `principal * rate_bps * elapsed /
/// 10_000`, truncated; 0 wherever an intermediate product does not fit the
/// balance type (the simulation's checked arithmetic gives up rather than
/// abort).  A negative rate yields negative yield.
pub open spec fn sim_yield(principal: int, rate_bps: int, elapsed: int) -> int {
    if !fits_i128(principal * rate_bps) {
        0
    } else if !fits_i128(principal * rate_bps * elapsed) {
        0
    } else {
        div_trunc(principal * rate_bps * elapsed, BASIS_POINTS_SCALE as int)
    }
}

/// A stand-in for the external yield-bearing vault, for driving the engine
/// end to end: yield is simulated by growing (or, under a negative rate,
/// shrinking) the vault's assets linearly with time, and vault shares are a
/// plain transferable ledger with an allowance surface.
///
/// The underlying asset token is external even to the mock: `asset_balance`
/// records how much of it the vault holds, and the host moves the real
/// asset alongside `deposit` and `withdraw`.
pub struct MockVault {
    /// Address of the underlying asset token.
    pub asset: usize,
    /// Basis points of yield per second; negative simulates a vault losing
    /// value (a slashing event).
    pub yield_rate_bps: i128,
    /// Underlying assets the vault holds.
    pub asset_balance: i128,
    pub total_shares: i128,
    /// When the simulated yield was last folded into the balance.
    pub last_update_time: u64,
    /// `balances[a]` is account `a`'s share holding; accounts at or beyond
    /// the vector's end hold 0.
    pub balances: Vec<i128>,
    /// `allowances[from][spender]` is what `spender` may still move out of
    /// `from`; missing entries are 0.
    pub allowances: Vec<Vec<i128>>,
}

impl MockVault {
    pub open spec fn balance_of(&self, a: int) -> int {
        if 0 <= a < self.balances@.len() {
            self.balances@[a] as int
        } else {
            0
        }
    }

    pub open spec fn allowance_of(&self, from: int, spender: int) -> int {
        if 0 <= from < self.allowances@.len() {
            let row = self.allowances@[from];
            if 0 <= spender < row@.len() {
                row@[spender] as int
            } else {
                0
            }
        } else {
            0
        }
    }

    /// Vault well-formedness: the vault holds a non-negative amount of the
    /// asset, no share balance is negative, and the outstanding shares are
    /// exactly the initial virtual shares plus every account's holding.
    pub open spec fn wf(&self) -> bool {
        &&& self.asset_balance >= 0
        &&& self.total_shares as int == INITIAL_VIRTUAL_BALANCE + sum(self.balances@)
        &&& forall|i: int| 0 <= i < self.balances@.len() ==> self.balances@[i] >= 0
    }

    /// Seconds since the last update, saturating at zero.
    pub open spec fn elapsed_since(&self, now: u64) -> int {
        if now >= self.last_update_time {
            now - self.last_update_time
        } else {
            0
        }
    }

    /// Real plus virtual assets, before simulated yield; falls back to the
    /// real balance alone where the sum does not fit.
    pub open spec fn principal_now(&self) -> int {
        if self.asset_balance + INITIAL_VIRTUAL_BALANCE <= i128::MAX {
            self.asset_balance + INITIAL_VIRTUAL_BALANCE
        } else {
            self.asset_balance as int
        }
    }

    /// Total assets as seen at time `now`: principal plus simulated yield,
    /// falling back to the principal where the sum does not fit.
    pub open spec fn total_assets_at(&self, now: u64) -> int {
        let p = self.principal_now();
        let y = sim_yield(p, self.yield_rate_bps as int, self.elapsed_since(now));
        if fits_i128(p + y) {
            p + y
        } else {
            p
        }
    }

    /// The exchange rate as seen at time `now`: total assets per share,
    /// scaled by `RATE_SCALE` and truncated, with a one-to-one fallback
    /// wherever the arithmetic has nothing sensible to say.
    pub open spec fn rate_at(&self, now: u64) -> int {
        if self.total_shares == 0 {
            RATE_SCALE as int
        } else {
            let ta = self.total_assets_at(now);
            if !fits_i128(ta * RATE_SCALE) {
                RATE_SCALE as int
            } else {
                div_trunc(ta * RATE_SCALE, self.total_shares as int)
            }
        }
    }

    /// Shares minted for a deposit of `assets`, against the assets held at
    /// the moment of the deposit (yield up to that moment already folded
    /// in): `assets * total_shares / total_assets`, truncated.
    pub open spec fn shares_for_deposit(&self, assets: int) -> int {
        if self.total_shares == 0 {
            assets
        } else if self.principal_now() == 0 {
            assets
        } else if !fits_i128(assets * self.total_shares) {
            0
        } else {
            assets * self.total_shares / self.principal_now()
        }
    }

    /// Assets returned for burning `shares` at the moment of withdrawal:
    /// `shares * total_assets / total_shares`, truncated.
    pub open spec fn assets_for_withdraw(&self, shares: int) -> int {
        if self.total_shares == 0 {
            0
        } else if !fits_i128(shares * self.principal_now()) {
            0
        } else {
            shares * self.principal_now() / (self.total_shares as int)
        }
    }

    /// Opens the vault over the given asset token, with `yield_rate_bps`
    /// basis points of simulated yield per second.
    pub fn new(asset: usize, yield_rate_bps: i128, now: u64) -> (r: Self)
        ensures
            r.wf(),
            r.asset == asset,
            r.yield_rate_bps == yield_rate_bps,
            r.asset_balance == 0,
            r.total_shares == INITIAL_VIRTUAL_BALANCE,
            r.last_update_time == now,
            forall|a: int| r.balance_of(a) == 0,
            forall|f: int, s: int| r.allowance_of(f, s) == 0,
    {
        MockVault {
            asset,
            yield_rate_bps,
            asset_balance: 0,
            total_shares: INITIAL_VIRTUAL_BALANCE,
            last_update_time: now,
            balances: Vec::new(),
            allowances: Vec::new(),
        }
    }

    fn calculate_yield(&self, now: u64, principal: i128) -> (r: i128)
        ensures
            r as int == sim_yield(
                principal as int,
                self.yield_rate_bps as int,
                self.elapsed_since(now),
            ),
    {
        let elapsed_u: u64 = if now >= self.last_update_time {
            now - self.last_update_time
        } else {
            0
        };
        let time_elapsed = elapsed_u as i128;
        match principal.checked_mul(self.yield_rate_bps) {
            Some(v) => match v.checked_mul(time_elapsed) {
                Some(w) => match w.checked_div(BASIS_POINTS_SCALE) {
                    Some(q) => q,
                    None => 0,
                },
                None => 0,
            },
            None => 0,
        }
    }

    /// Total assets at time `now`: what the vault holds, the virtual
    /// bootstrap balance, and the yield simulated since the last update.
    pub fn total_assets(&self, now: u64) -> (r: i128)
        requires
            self.wf(),
        ensures
            r as int == self.total_assets_at(now),
    {
        let principal = match self.asset_balance.checked_add(INITIAL_VIRTUAL_BALANCE) {
            Some(p) => p,
            None => self.asset_balance,
        };
        let yield_accrued = self.calculate_yield(now, principal);
        match principal.checked_add(yield_accrued) {
            Some(t) => t,
            None => principal,
        }
    }

    /// The current assets-per-share rate, scaled by `RATE_SCALE`.  This is
    /// the quote the clearinghouse's rate refresh consumes.
    pub fn exchange_rate(&self, now: u64) -> (r: i128)
        requires
            self.wf(),
        ensures
            r as int == self.rate_at(now),
    {
        if self.total_shares == 0 {
            return RATE_SCALE;
        }
        let total_assets = self.total_assets(now);
        match total_assets.checked_mul(RATE_SCALE) {
            Some(v) => {
                proof {
                    lemma_sum_nonneg(self.balances@);
                    lemma_div_trunc_bounds(v as int, self.total_shares as int);
                }
                match v.checked_div(self.total_shares) {
                    Some(q) => q,
                    None => RATE_SCALE,
                }
            },
            None => RATE_SCALE,
        }
    }

    /// Grows the share book with zero balances until account `a` has a
    /// slot.  No account's view and no sum changes.
    fn ensure_account(&mut self, a: usize)
        requires
            a < usize::MAX,
        ensures
            final(self).balances@.len() > a,
            forall|x: int| final(self).balance_of(x) == old(self).balance_of(x),
            sum(final(self).balances@) == sum(old(self).balances@),
            forall|i: int|
                0 <= i < final(self).balances@.len() ==> final(self).balances@[i] == (
                if i < old(self).balances@.len() {
                    old(self).balances@[i]
                } else {
                    0
                }),
            final(self).asset == old(self).asset,
            final(self).yield_rate_bps == old(self).yield_rate_bps,
            final(self).asset_balance == old(self).asset_balance,
            final(self).total_shares == old(self).total_shares,
            final(self).last_update_time == old(self).last_update_time,
            final(self).allowances == old(self).allowances,
    {
        while self.balances.len() <= a
            invariant
                a < usize::MAX,
                self.balances@.len() >= old(self).balances@.len(),
                forall|x: int| self.balance_of(x) == old(self).balance_of(x),
                sum(self.balances@) == sum(old(self).balances@),
                forall|i: int|
                    0 <= i < self.balances@.len() ==> self.balances@[i] == (
                    if i < old(self).balances@.len() {
                        old(self).balances@[i]
                    } else {
                        0
                    }),
                self.asset == old(self).asset,
                self.yield_rate_bps == old(self).yield_rate_bps,
                self.asset_balance == old(self).asset_balance,
                self.total_shares == old(self).total_shares,
                self.last_update_time == old(self).last_update_time,
                self.allowances == old(self).allowances,
            decreases a + 1 - self.balances.len(),
        {
            proof {
                lemma_sum_push(self.balances@, 0);
            }
            self.balances.push(0);
        }
    }

    fn convert_to_shares_now(&self, assets: i128) -> (r: i128)
        requires
            self.wf(),
            assets >= 0,
        ensures
            r as int == self.shares_for_deposit(assets as int),
            r >= 0,
    {
        if self.total_shares == 0 {
            return assets;
        }
        let principal = match self.asset_balance.checked_add(INITIAL_VIRTUAL_BALANCE) {
            Some(p) => p,
            None => self.asset_balance,
        };
        if principal == 0 {
            return assets;
        }
        match assets.checked_mul(self.total_shares) {
            Some(v) => {
                proof {
                    lemma_sum_nonneg(self.balances@);
                    lemma_div_trunc_bounds(v as int, principal as int);
                }
                match v.checked_div(principal) {
                    Some(q) => q,
                    None => 0,
                }
            },
            None => 0,
        }
    }

    fn convert_to_assets_now(&self, shares: i128) -> (r: i128)
        requires
            self.wf(),
            shares >= 0,
        ensures
            r as int == self.assets_for_withdraw(shares as int),
            r >= 0,
    {
        if self.total_shares == 0 {
            return 0;
        }
        let principal = match self.asset_balance.checked_add(INITIAL_VIRTUAL_BALANCE) {
            Some(p) => p,
            None => self.asset_balance,
        };
        match shares.checked_mul(principal) {
            Some(v) => {
                proof {
                    lemma_sum_nonneg(self.balances@);
                    lemma_div_trunc_bounds(v as int, self.total_shares as int);
                }
                match v.checked_div(self.total_shares) {
                    Some(q) => q,
                    None => 0,
                }
            },
            None => 0,
        }
    }

    /// Deposits `assets` of the underlying and mints the matching shares to
    /// `from`.  Returns the shares minted; the host moves the real asset
    /// from `from` to the vault alongside.
    pub fn deposit(&mut self, caller: usize, from: usize, assets: i128, now: u64) -> (r: Result<
        i128,
        Error,
    >)
        requires
            old(self).wf(),
            from < usize::MAX,
            ({
                let sh = old(self).shares_for_deposit(assets as int);
                caller == from && assets > 0 ==> old(self).asset_balance + assets <= i128::MAX
                    && old(self).balance_of(from as int) + sh <= i128::MAX && old(self).total_shares
                    + sh <= i128::MAX
            }),
        ensures
            final(self).wf(),
            final(self).asset == old(self).asset,
            final(self).yield_rate_bps == old(self).yield_rate_bps,
            final(self).allowances == old(self).allowances,
            caller != from ==> r == Err::<i128, Error>(Error::AuthorizationFailure) && *final(self)
                == *old(self),
            caller == from && assets <= 0 ==> r == Err::<i128, Error>(Error::InvalidAmount)
                && *final(self) == *old(self),
            caller == from && assets > 0 ==> ({
                let sh = old(self).shares_for_deposit(assets as int);
                &&& r == Ok::<i128, Error>(sh as i128)
                &&& sh >= 0
                &&& final(self).asset_balance == old(self).asset_balance + assets
                &&& final(self).balance_of(from as int) == old(self).balance_of(from as int) + sh
                &&& forall|x: int|
                    x != from ==> final(self).balance_of(x) == old(self).balance_of(x)
                &&& final(self).total_shares == old(self).total_shares + sh
                &&& final(self).last_update_time == now
            }),
    {
        if caller != from {
            return Err(Error::AuthorizationFailure);
        }
        if assets <= 0 {
            return Err(Error::InvalidAmount);
        }
        let shares = self.convert_to_shares_now(assets);
        self.last_update_time = now;
        self.asset_balance = self.asset_balance + assets;
        self.ensure_account(from);
        assert(forall|x: int| self.balance_of(x) == old(self).balance_of(x));
        proof {
            lemma_sum_bound(self.balances@, from as int);
        }
        let ghost s0 = self.balances@;
        let b = self.balances[from];
        self.balances.set(from, b + shares);
        proof {
            lemma_sum_update(s0, from as int, (b + shares) as i128);
        }
        self.total_shares = self.total_shares + shares;
        Ok(shares)
    }

    /// Burns `shares` of `to`'s holding and returns the assets they are
    /// worth; the host moves that much of the real asset from the vault to
    /// `to`.  Refused when `to` lacks the shares or the vault lacks the
    /// assets.
    pub fn withdraw(&mut self, caller: usize, to: usize, shares: i128, now: u64) -> (r: Result<
        i128,
        Error,
    >)
        requires
            old(self).wf(),
        ensures
            final(self).wf(),
            final(self).asset == old(self).asset,
            final(self).yield_rate_bps == old(self).yield_rate_bps,
            final(self).allowances == old(self).allowances,
            caller != to ==> r == Err::<i128, Error>(Error::AuthorizationFailure) && *final(self)
                == *old(self),
            caller == to && shares <= 0 ==> r == Err::<i128, Error>(Error::InvalidAmount) && *final(self) == *old(self),
            caller == to && shares > 0 && old(self).balance_of(to as int) < shares ==> r == Err::<
                i128,
                Error,
            >(Error::InsufficientBalance) && *final(self) == *old(self),
            caller == to && shares > 0 && old(self).balance_of(to as int) >= shares && old(self).assets_for_withdraw(shares as int) > old(self).asset_balance ==> r == Err::<
                i128,
                Error,
            >(Error::InsufficientBalance) && *final(self) == *old(self),
            caller == to && shares > 0 && old(self).balance_of(to as int) >= shares && old(self).assets_for_withdraw(shares as int) <= old(self).asset_balance ==> ({
                let assets = old(self).assets_for_withdraw(shares as int);
                &&& r == Ok::<i128, Error>(assets as i128)
                &&& final(self).asset_balance == old(self).asset_balance - assets
                &&& final(self).balance_of(to as int) == old(self).balance_of(to as int) - shares
                &&& forall|x: int|
                    x != to ==> final(self).balance_of(x) == old(self).balance_of(x)
                &&& final(self).total_shares == old(self).total_shares - shares
                &&& final(self).last_update_time == now
            }),
    {
        if caller != to {
            return Err(Error::AuthorizationFailure);
        }
        if shares <= 0 {
            return Err(Error::InvalidAmount);
        }
        let user_balance = self.balance(to);
        if user_balance < shares {
            return Err(Error::InsufficientBalance);
        }
        let assets = self.convert_to_assets_now(shares);
        if self.asset_balance < assets {
            return Err(Error::InsufficientBalance);
        }
        self.last_update_time = now;
        proof {
            lemma_sum_bound(self.balances@, to as int);
        }
        let ghost s0 = self.balances@;
        let b = self.balances[to];
        self.balances.set(to, b - shares);
        proof {
            lemma_sum_update(s0, to as int, (b - shares) as i128);
        }
        self.total_shares = self.total_shares - shares;
        self.asset_balance = self.asset_balance - assets;
        Ok(assets)
    }

    /// Moves `amount` shares from `from` to `to`; only `from` itself may
    /// order it.
    pub fn transfer(&mut self, caller: usize, from: usize, to: usize, amount: i128) -> (r: Result<
        (),
        Error,
    >)
        requires
            old(self).wf(),
            to < usize::MAX,
        ensures
            final(self).wf(),
            final(self).asset == old(self).asset,
            final(self).yield_rate_bps == old(self).yield_rate_bps,
            final(self).allowances == old(self).allowances,
            final(self).total_shares == old(self).total_shares,
            final(self).asset_balance == old(self).asset_balance,
            final(self).last_update_time == old(self).last_update_time,
            caller != from ==> r == Err::<(), Error>(Error::AuthorizationFailure) && *final(self)
                == *old(self),
            caller == from && amount < 0 ==> r == Err::<(), Error>(Error::InvalidAmount) && *final(self) == *old(self),
            caller == from && amount >= 0 && old(self).balance_of(from as int) < amount ==> r
                == Err::<(), Error>(Error::InsufficientBalance) && *final(self) == *old(self),
            caller == from && amount >= 0 && old(self).balance_of(from as int) >= amount ==> {
                &&& r == Ok::<(), Error>(())
                &&& from != to ==> final(self).balance_of(from as int) == old(self).balance_of(
                    from as int,
                ) - amount && final(self).balance_of(to as int) == old(self).balance_of(to as int)
                    + amount
                &&& from == to ==> final(self).balance_of(from as int) == old(self).balance_of(
                    from as int,
                )
                &&& forall|x: int|
                    x != from && x != to ==> final(self).balance_of(x) == old(self).balance_of(x)
            },
    {
        if caller != from {
            return Err(Error::AuthorizationFailure);
        }
        if amount < 0 {
            return Err(Error::InvalidAmount);
        }
        let from_balance = self.balance(from);
        if from_balance < amount {
            return Err(Error::InsufficientBalance);
        }
        self.ensure_account(to);
        if from < self.balances.len() {
            let ghost s0 = self.balances@;
            let bf = self.balances[from];
            self.balances.set(from, bf - amount);
            proof {
                lemma_sum_update(s0, from as int, (bf - amount) as i128);
            }
        }
        proof {
            lemma_sum_nonneg(self.balances@);
            lemma_sum_bound(self.balances@, to as int);
        }
        let ghost s1 = self.balances@;
        let bt = self.balances[to];
        self.balances.set(to, bt + amount);
        proof {
            lemma_sum_update(s1, to as int, (bt + amount) as i128);
        }
        Ok(())
    }

    /// Writes one allowance cell, growing the table as needed.
    fn set_allowance(&mut self, from: usize, spender: usize, amount: i128)
        requires
            from < usize::MAX,
            spender < usize::MAX,
        ensures
            final(self).allowance_of(from as int, spender as int) == amount,
            forall|f: int, s: int|
                !(f == from && s == spender) ==> final(self).allowance_of(f, s) == old(self).allowance_of(f, s),
            final(self).asset == old(self).asset,
            final(self).yield_rate_bps == old(self).yield_rate_bps,
            final(self).asset_balance == old(self).asset_balance,
            final(self).total_shares == old(self).total_shares,
            final(self).last_update_time == old(self).last_update_time,
            final(self).balances == old(self).balances,
    {
        while self.allowances.len() <= from
            invariant
                from < usize::MAX,
                self.allowances@.len() >= old(self).allowances@.len(),
                forall|f: int, s: int| self.allowance_of(f, s) == old(self).allowance_of(f, s),
                forall|i: int|
                    0 <= i < self.allowances@.len() ==> (if i < old(self).allowances@.len() {
                        self.allowances@[i] == old(self).allowances@[i]
                    } else {
                        self.allowances@[i]@.len() == 0
                    }),
                self.asset == old(self).asset,
                self.yield_rate_bps == old(self).yield_rate_bps,
                self.asset_balance == old(self).asset_balance,
                self.total_shares == old(self).total_shares,
                self.last_update_time == old(self).last_update_time,
                self.balances == old(self).balances,
            decreases from + 1 - self.allowances.len(),
        {
            self.allowances.push(Vec::new());
        }
        let ghost rows0 = self.allowances@;
        let mut row = self.allowances.remove(from);
        let ghost row0 = row@;
        while row.len() <= spender
            invariant
                spender < usize::MAX,
                row@.len() >= row0.len(),
                forall|i: int|
                    0 <= i < row@.len() ==> row@[i] == (
                    if i < row0.len() {
                        row0[i]
                    } else {
                        0
                    }),
            decreases spender + 1 - row.len(),
        {
            row.push(0);
        }
        row.set(spender, amount);
        self.allowances.insert(from, row);
        proof {
            assert(self.allowances@.remove(from as int) =~= rows0.remove(from as int));
        }
    }

    /// Grants `spender` an allowance of `amount` over `from`'s shares; only
    /// `from` itself may grant it.
    pub fn approve(&mut self, caller: usize, from: usize, spender: usize, amount: i128) -> (r:
        Result<(), Error>)
        requires
            old(self).wf(),
            from < usize::MAX,
            spender < usize::MAX,
        ensures
            final(self).wf(),
            final(self).asset == old(self).asset,
            final(self).yield_rate_bps == old(self).yield_rate_bps,
            final(self).asset_balance == old(self).asset_balance,
            final(self).total_shares == old(self).total_shares,
            final(self).last_update_time == old(self).last_update_time,
            final(self).balances == old(self).balances,
            caller != from ==> r == Err::<(), Error>(Error::AuthorizationFailure) && *final(self)
                == *old(self),
            caller == from && amount < 0 ==> r == Err::<(), Error>(Error::InvalidAmount) && *final(self) == *old(self),
            caller == from && amount >= 0 ==> {
                &&& r == Ok::<(), Error>(())
                &&& final(self).allowance_of(from as int, spender as int) == amount
                &&& forall|f: int, s: int|
                    !(f == from && s == spender) ==> final(self).allowance_of(f, s) == old(self).allowance_of(f, s)
            },
    {
        if caller != from {
            return Err(Error::AuthorizationFailure);
        }
        if amount < 0 {
            return Err(Error::InvalidAmount);
        }
        self.set_allowance(from, spender, amount);
        Ok(())
    }

    /// Moves `amount` shares out of `from` on `spender`'s authority,
    /// consuming that much of the allowance `from` granted `spender`.
    pub fn transfer_from(
        &mut self,
        caller: usize,
        spender: usize,
        from: usize,
        to: usize,
        amount: i128,
    ) -> (r: Result<(), Error>)
        requires
            old(self).wf(),
            from < usize::MAX,
            spender < usize::MAX,
            to < usize::MAX,
        ensures
            final(self).wf(),
            final(self).asset == old(self).asset,
            final(self).yield_rate_bps == old(self).yield_rate_bps,
            final(self).asset_balance == old(self).asset_balance,
            final(self).total_shares == old(self).total_shares,
            final(self).last_update_time == old(self).last_update_time,
            caller != spender ==> r == Err::<(), Error>(Error::AuthorizationFailure) && *final(self) == *old(self),
            caller == spender && amount < 0 ==> r == Err::<(), Error>(Error::InvalidAmount)
                && *final(self) == *old(self),
            caller == spender && amount >= 0 && old(self).allowance_of(from as int, spender as int)
                < amount ==> r == Err::<(), Error>(Error::InsufficientAllowance) && *final(self)
                == *old(self),
            caller == spender && amount >= 0 && old(self).allowance_of(from as int, spender as int)
                >= amount && old(self).balance_of(from as int) < amount ==> r == Err::<(), Error>(
                Error::InsufficientBalance,
            ) && *final(self) == *old(self),
            caller == spender && amount >= 0 && old(self).allowance_of(from as int, spender as int)
                >= amount && old(self).balance_of(from as int) >= amount ==> {
                &&& r == Ok::<(), Error>(())
                &&& final(self).allowance_of(from as int, spender as int) == old(self).allowance_of(
                    from as int,
                    spender as int,
                ) - amount
                &&& forall|f: int, s: int|
                    !(f == from && s == spender) ==> final(self).allowance_of(f, s) == old(self).allowance_of(f, s)
                &&& from != to ==> final(self).balance_of(from as int) == old(self).balance_of(
                    from as int,
                ) - amount && final(self).balance_of(to as int) == old(self).balance_of(to as int)
                    + amount
                &&& from == to ==> final(self).balance_of(from as int) == old(self).balance_of(
                    from as int,
                )
                &&& forall|x: int|
                    x != from && x != to ==> final(self).balance_of(x) == old(self).balance_of(x)
            },
    {
        if caller != spender {
            return Err(Error::AuthorizationFailure);
        }
        if amount < 0 {
            return Err(Error::InvalidAmount);
        }
        let allowance = self.allowance(from, spender);
        if allowance < amount {
            return Err(Error::InsufficientAllowance);
        }
        let from_balance = self.balance(from);
        if from_balance < amount {
            return Err(Error::InsufficientBalance);
        }
        self.set_allowance(from, spender, allowance - amount);
        assert(self.balances@ == old(self).balances@);
        self.ensure_account(to);
        assert(forall|x: int| self.balance_of(x) == old(self).balance_of(x));
        if from < self.balances.len() {
            let ghost s0 = self.balances@;
            let bf = self.balances[from];
            self.balances.set(from, bf - amount);
            proof {
                lemma_sum_update(s0, from as int, (bf - amount) as i128);
            }
        }
        proof {
            lemma_sum_nonneg(self.balances@);
            lemma_sum_bound(self.balances@, to as int);
        }
        let ghost s1 = self.balances@;
        let bt = self.balances[to];
        self.balances.set(to, bt + amount);
        proof {
            lemma_sum_update(s1, to as int, (bt + amount) as i128);
        }
        Ok(())
    }

    pub fn allowance(&self, from: usize, spender: usize) -> (r: i128)
        ensures
            r as int == self.allowance_of(from as int, spender as int),
    {
        if from < self.allowances.len() {
            let row = &self.allowances[from];
            if spender < row.len() {
                row[spender]
            } else {
                0
            }
        } else {
            0
        }
    }

    pub fn balance(&self, a: usize) -> (r: i128)
        ensures
            r as int == self.balance_of(a as int),
    {
        if a < self.balances.len() {
            self.balances[a]
        } else {
            0
        }
    }

    pub fn total_shares(&self) -> (r: i128)
        ensures
            r == self.total_shares,
    {
        self.total_shares
    }

    pub fn set_yield_rate(&mut self, yield_rate_bps: i128)
        ensures
            *final(self) == (MockVault { yield_rate_bps, ..*old(self) }),
    {
        self.yield_rate_bps = yield_rate_bps;
    }

    pub fn get_yield_rate(&self) -> (r: i128)
        ensures
            r == self.yield_rate_bps,
    {
        self.yield_rate_bps
    }

    /// Seconds since the simulated yield was last folded in.
    pub fn time_elapsed(&self, now: u64) -> (r: u64)
        ensures
            r as int == self.elapsed_since(now),
    {
        if now >= self.last_update_time {
            now - self.last_update_time
        } else {
            0
        }
    }

    pub fn name(&self) -> (r: String)
        ensures
            r@ == "Vault Share Token"@,
    {
        "Vault Share Token".to_owned()
    }

    pub fn symbol(&self) -> (r: String)
        ensures
            r@ == "SHARE"@,
    {
        "SHARE".to_owned()
    }

    pub fn decimals(&self) -> (r: u32)
        ensures
            r == 7,
    {
        7
    }
}

} // verus!
