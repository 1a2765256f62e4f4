use vstd::prelude::*;

use crate::errors::Error;
use crate::oracle::VaultType;
use crate::principal_token::PrincipalToken;
use crate::yield_token::{accrue_step, YieldToken};

verus! {

/// The clearinghouse of one maturity series.
///
/// It owns the series' authoritative exchange rate — a high-water mark over
/// the rates the vault reports, so a regressing vault (a slashing event)
/// never lowers it — and the maturity timestamp past which the rate freezes
/// forever.  It alone mints and burns on the two ledgers, and only the
/// yield ledger may order it to pay underlying shares out.
///
/// The vault itself is an external collaborator: every operation that
/// refreshes the rate takes `now` (the host clock) and `quote` (the vault's
/// normalized answer to a live rate query, `None` when the query failed) as
/// arguments, and a failed query aborts the operation.
pub struct YieldManager {
    /// The address under which this clearinghouse is known to the ledgers;
    /// mint and burn calls are authenticated with it.
    pub identity: usize,
    /// Identity allowed to perform privileged setup; set once.
    pub admin: usize,
    /// Address of the external yield-bearing vault.
    pub vault: usize,
    pub vault_kind: VaultType,
    /// Timestamp after which the exchange rate is frozen and principal
    /// becomes redeemable.
    pub maturity: u64,
    /// Scaled assets-per-share rate; positive, and non-decreasing for the
    /// lifetime of the series.
    pub exchange_rate: i128,
    /// Set exactly once, when a current time at or past `maturity` is first
    /// observed; from then on the rate never changes.
    pub rate_locked: bool,
    /// The two ledger addresses, set once by `set_token_contracts`.
    pub principal_token: usize,
    pub yield_token: usize,
    pub initialized: bool,
}

impl YieldManager {
    /// A usable clearinghouse always carries a positive rate, so mint and
    /// redemption arithmetic is well defined.
    pub open spec fn wf(&self) -> bool {
        self.exchange_rate > 0
    }

    /// Everything the rate refresh leaves alone.
    pub open spec fn same_config(&self, other: &Self) -> bool {
        &&& self.identity == other.identity
        &&& self.admin == other.admin
        &&& self.vault == other.vault
        &&& self.vault_kind == other.vault_kind
        &&& self.maturity == other.maturity
        &&& self.principal_token == other.principal_token
        &&& self.yield_token == other.yield_token
        &&& self.initialized == other.initialized
    }

    /// The high-water-mark rule: a fresh quote raises the stored rate only
    /// if it is higher, and a locked rate ignores quotes entirely.
    pub open spec fn rate_after(&self, q: i128) -> i128 {
        if self.rate_locked || q <= self.exchange_rate {
            self.exchange_rate
        } else {
            q
        }
    }

    /// `rate_after`, lifted to a possibly failed query.  The `None` arm is
    /// only ever reached with the rate already locked, where the refresh
    /// does not query at all.
    pub open spec fn rate_after_quote(&self, quote: Option<i128>) -> i128 {
        match quote {
            Some(q) => self.rate_after(q),
            None => self.exchange_rate,
        }
    }

    /// Whether the rate is frozen after a refresh observed at time `now`.
    pub open spec fn locked_after(&self, now: u64) -> bool {
        self.rate_locked || now >= self.maturity
    }

    /// A refresh fails exactly when it must query (rate not yet locked) and
    /// the query failed.
    pub open spec fn refresh_fails(&self, quote: Option<i128>) -> bool {
        !self.rate_locked && quote is None
    }

    /// Constructs the clearinghouse of a new series.  `initial_quote` is
    /// the vault's answer to the rate query made during construction; a
    /// failed query, or a rate that is not positive, refuses construction.
    pub fn new(
        identity: usize,
        admin: usize,
        vault: usize,
        vault_kind: VaultType,
        maturity: u64,
        initial_quote: Option<i128>,
    ) -> (r: Result<YieldManager, Error>)
        ensures
            (match initial_quote {
                Some(q) => if q > 0 {
                    r == Ok::<YieldManager, Error>(
                        YieldManager {
                            identity,
                            admin,
                            vault,
                            vault_kind,
                            maturity,
                            exchange_rate: q,
                            rate_locked: false,
                            principal_token: 0,
                            yield_token: 0,
                            initialized: false,
                        },
                    )
                } else {
                    r == Err::<YieldManager, Error>(Error::UpstreamQueryFailure)
                },
                None => r == Err::<YieldManager, Error>(Error::UpstreamQueryFailure),
            }),
            r matches Ok(m) ==> m.wf(),
    {
        match initial_quote {
            Some(q) => {
                if q > 0 {
                    Ok(
                        YieldManager {
                            identity,
                            admin,
                            vault,
                            vault_kind,
                            maturity,
                            exchange_rate: q,
                            rate_locked: false,
                            principal_token: 0,
                            yield_token: 0,
                            initialized: false,
                        },
                    )
                } else {
                    Err(Error::UpstreamQueryFailure)
                }
            },
            None => Err(Error::UpstreamQueryFailure),
        }
    }

    /// Records the two ledger addresses.  Callable once, by the admin only.
    pub fn set_token_contracts(&mut self, caller: usize, pt_addr: usize, yt_addr: usize) -> (r:
        Result<(), Error>)
        requires
            old(self).wf(),
        ensures
            final(self).wf(),
            caller != old(self).admin ==> r == Err::<(), Error>(Error::AuthorizationFailure)
                && *final(self) == *old(self),
            caller == old(self).admin && old(self).initialized ==> r == Err::<(), Error>(
                Error::AlreadyInitialized,
            ) && *final(self) == *old(self),
            caller == old(self).admin && !old(self).initialized ==> {
                &&& r == Ok::<(), Error>(())
                &&& *final(self) == YieldManager {
                    principal_token: pt_addr,
                    yield_token: yt_addr,
                    initialized: true,
                    ..*old(self)
                }
            },
    {
        if caller != self.admin {
            return Err(Error::AuthorizationFailure);
        }
        if self.initialized {
            return Err(Error::AlreadyInitialized);
        }
        self.principal_token = pt_addr;
        self.yield_token = yt_addr;
        self.initialized = true;
        Ok(())
    }

    /// The refresh run at the top of every state-mutating call: a no-op
    /// once locked; otherwise raises the rate to a higher quote (never
    /// lowers it) and, if `now` has reached maturity, locks the rate after
    /// applying that final update.
    fn refresh_rate(&mut self, now: u64, quote: Option<i128>) -> (r: Result<(), Error>)
        requires
            old(self).wf(),
        ensures
            final(self).wf(),
            final(self).same_config(old(self)),
            final(self).exchange_rate >= old(self).exchange_rate,
            old(self).rate_locked ==> *final(self) == *old(self),
            r is Err <==> old(self).refresh_fails(quote),
            r is Err ==> r == Err::<(), Error>(Error::UpstreamQueryFailure) && *final(self)
                == *old(self),
            r is Ok ==> final(self).exchange_rate == old(self).rate_after_quote(quote)
                && final(self).rate_locked == old(self).locked_after(now),
    {
        if self.rate_locked {
            return Ok(());
        }
        let new_rate = match quote {
            Some(q) => q,
            None => {
                return Err(Error::UpstreamQueryFailure);
            },
        };
        if new_rate > self.exchange_rate {
            self.exchange_rate = new_rate;
        }
        if now >= self.maturity {
            self.rate_locked = true;
        }
        Ok(())
    }

    /// Refreshes, then returns the stored rate.  A side-effecting read:
    /// every query can advance the high-water mark.
    pub fn get_exchange_rate(&mut self, now: u64, quote: Option<i128>) -> (r: Result<i128, Error>)
        requires
            old(self).wf(),
        ensures
            final(self).wf(),
            final(self).same_config(old(self)),
            final(self).exchange_rate >= old(self).exchange_rate,
            old(self).rate_locked ==> *final(self) == *old(self),
            old(self).refresh_fails(quote) ==> r == Err::<i128, Error>(Error::UpstreamQueryFailure)
                && *final(self) == *old(self),
            !old(self).refresh_fails(quote) ==> {
                &&& r == Ok::<i128, Error>(old(self).rate_after_quote(quote))
                &&& final(self).exchange_rate == old(self).rate_after_quote(quote)
                &&& final(self).rate_locked == old(self).locked_after(now)
            },
    {
        match self.refresh_rate(now, quote) {
            Ok(_) => Ok(self.exchange_rate),
            Err(e) => Err(e),
        }
    }

    pub fn get_vault(&self) -> (r: usize)
        ensures
            r == self.vault,
    {
        self.vault
    }

    pub fn get_vault_kind(&self) -> (r: VaultType)
        ensures
            r == self.vault_kind,
    {
        self.vault_kind
    }

    pub fn get_maturity(&self) -> (r: u64)
        ensures
            r == self.maturity,
    {
        self.maturity
    }

    pub fn get_principal_token(&self) -> (r: usize)
        requires
            self.initialized,
        ensures
            r == self.principal_token,
    {
        self.principal_token
    }

    pub fn get_yield_token(&self) -> (r: usize)
        requires
            self.initialized,
        ensures
            r == self.yield_token,
    {
        self.yield_token
    }

    pub fn is_initialized(&self) -> (r: bool)
        ensures
            r == self.initialized,
    {
        self.initialized
    }

    pub fn is_rate_locked(&self) -> (r: bool)
        ensures
            r == self.rate_locked,
    {
        self.rate_locked
    }

    /// Pays accrued yield out in underlying shares.  Only the yield ledger
    /// itself may order this — the sole trust edge that keeps arbitrary
    /// callers from draining accrued-but-unclaimed shares.  Returns the
    /// number of underlying shares the host must transfer from the
    /// clearinghouse to `to`; a request for a non-positive amount is a
    /// no-op.
    pub fn distribute_yield(
        &mut self,
        caller: usize,
        to: usize,
        shares_amount: i128,
        now: u64,
        quote: Option<i128>,
    ) -> (r: Result<i128, Error>)
        requires
            old(self).wf(),
            old(self).initialized,
        ensures
            final(self).wf(),
            final(self).same_config(old(self)),
            final(self).exchange_rate >= old(self).exchange_rate,
            old(self).rate_locked ==> final(self).exchange_rate == old(self).exchange_rate
                && final(self).rate_locked,
            caller != old(self).yield_token ==> r == Err::<i128, Error>(
                Error::AuthorizationFailure,
            ) && *final(self) == *old(self),
            caller == old(self).yield_token && shares_amount <= 0 ==> r == Ok::<i128, Error>(0)
                && *final(self) == *old(self),
            caller == old(self).yield_token && shares_amount > 0 && old(self).refresh_fails(quote)
                ==> r == Err::<i128, Error>(Error::UpstreamQueryFailure)
                && *final(self) == *old(self),
            caller == old(self).yield_token && shares_amount > 0 && !old(self).refresh_fails(quote)
                ==> {
                &&& r == Ok::<i128, Error>(shares_amount)
                &&& final(self).exchange_rate == old(self).rate_after_quote(quote)
                &&& final(self).rate_locked == old(self).locked_after(now)
            },
    {
        if caller != self.yield_token {
            return Err(Error::AuthorizationFailure);
        }
        if shares_amount <= 0 {
            return Ok(0);
        }
        match self.refresh_rate(now, quote) {
            Ok(_) => Ok(shares_amount),
            Err(e) => Err(e),
        }
    }

    /// Takes `shares_amount` vault shares in and mints `shares_amount`
    /// times the refreshed exchange rate of both PT and YT to `from` — the
    /// YT mint is handed the very rate just used, so both sides of the
    /// deposit see one rate.  Returns the number of vault shares the host
    /// must transfer from `from` to the clearinghouse.  Only `from` itself
    /// may deposit for `from`, and the two ledgers must answer to this
    /// clearinghouse.
    pub fn deposit(
        &mut self,
        pt: &mut PrincipalToken,
        yt: &mut YieldToken,
        caller: usize,
        from: usize,
        shares_amount: i128,
        now: u64,
        quote: Option<i128>,
    ) -> (r: Result<i128, Error>)
        requires
            old(self).wf(),
            old(self).initialized,
            old(pt).wf(),
            old(yt).wf(),
            from < usize::MAX,
            ({
                let rate = old(self).rate_after_quote(quote) as int;
                let m = shares_amount * rate;
                (caller == from && shares_amount > 0 && old(pt).admin == old(self).identity && old(yt).admin == old(self).identity && !old(self).refresh_fails(quote)) ==> {
                    &&& m <= i128::MAX
                    &&& old(pt).total_supply + m <= i128::MAX
                    &&& old(yt).total_supply + m <= i128::MAX
                    &&& old(yt).accrue_ok(from as int, rate)
                }
            }),
        ensures
            final(self).wf(),
            final(self).same_config(old(self)),
            final(self).exchange_rate >= old(self).exchange_rate,
            old(self).rate_locked ==> final(self).exchange_rate == old(self).exchange_rate
                && final(self).rate_locked,
            final(pt).wf(),
            final(pt).same_config(old(pt)),
            final(yt).wf(),
            final(yt).same_config(old(yt)),
            caller != from ==> r == Err::<i128, Error>(Error::AuthorizationFailure) && *final(self)
                == *old(self) && *final(pt) == *old(pt) && *final(yt) == *old(yt),
            caller == from && shares_amount <= 0 ==> r == Err::<i128, Error>(Error::InvalidAmount)
                && *final(self) == *old(self) && *final(pt) == *old(pt) && *final(yt) == *old(yt),
            caller == from && shares_amount > 0 && (old(pt).admin != old(self).identity || old(yt).admin != old(self).identity) ==> r == Err::<i128, Error>(Error::AuthorizationFailure)
                && *final(self) == *old(self) && *final(pt) == *old(pt) && *final(yt) == *old(yt),
            caller == from && shares_amount > 0 && old(pt).admin == old(self).identity && old(yt).admin == old(self).identity && old(self).refresh_fails(quote) ==> r == Err::<
                i128,
                Error,
            >(Error::UpstreamQueryFailure) && *final(self) == *old(self) && *final(pt) == *old(pt)
                && *final(yt) == *old(yt),
            caller == from && shares_amount > 0 && old(pt).admin == old(self).identity && old(yt).admin == old(self).identity && !old(self).refresh_fails(quote) ==> ({
                let rate = old(self).rate_after_quote(quote);
                let m = shares_amount * rate as int;
                &&& m > 0
                &&& r == Ok::<i128, Error>(m as i128)
                &&& final(self).exchange_rate == rate
                &&& final(self).rate_locked == old(self).locked_after(now)
                &&& final(pt).balance_of(from as int) == old(pt).balance_of(from as int) + m
                &&& final(pt).total_supply == old(pt).total_supply + m
                &&& forall|x: int|
                    x != from ==> final(pt).balance_of(x) == old(pt).balance_of(x)
                &&& (final(yt).index_of(from as int), final(yt).accrued_of(from as int))
                    == accrue_step(
                    old(yt).balance_of(from as int),
                    old(yt).index_of(from as int),
                    old(yt).accrued_of(from as int),
                    rate as int,
                )
                &&& final(yt).balance_of(from as int) == old(yt).balance_of(from as int) + m
                &&& final(yt).total_supply == old(yt).total_supply + m
                &&& forall|x: int|
                    x != from ==> final(yt).balance_of(x) == old(yt).balance_of(x)
                        && final(yt).index_of(x) == old(yt).index_of(x)
                        && final(yt).accrued_of(x) == old(yt).accrued_of(x)
            }),
    {
        if caller != from {
            return Err(Error::AuthorizationFailure);
        }
        if shares_amount <= 0 {
            return Err(Error::InvalidAmount);
        }
        if pt.admin() != self.identity || yt.admin() != self.identity {
            return Err(Error::AuthorizationFailure);
        }
        let exchange_rate = match self.get_exchange_rate(now, quote) {
            Ok(v) => v,
            Err(e) => {
                return Err(e);
            },
        };
        proof {
            assert(shares_amount * exchange_rate > 0) by (nonlinear_arith)
                requires
                    shares_amount > 0,
                    exchange_rate > 0,
            ;
        }
        let mint_amount = shares_amount * exchange_rate;
        match pt.mint(self.identity, from, mint_amount) {
            Ok(_) => (),
            Err(e) => {
                return Err(e);
            },
        };
        match yt.mint(self.identity, from, mint_amount, exchange_rate) {
            Ok(_) => (),
            Err(e) => {
                return Err(e);
            },
        };
        Ok(mint_amount)
    }

    /// Burns `pt_amount` of `from`'s principal claims at the frozen rate
    /// and returns the number of vault shares the host must transfer back
    /// to `from`: `pt_amount / exchange_rate`, truncated — sub-unit value
    /// stays with the clearinghouse.  Refused before maturity.
    pub fn redeem_principal(
        &self,
        pt: &mut PrincipalToken,
        caller: usize,
        from: usize,
        pt_amount: i128,
        now: u64,
    ) -> (r: Result<i128, Error>)
        requires
            self.wf(),
            self.initialized,
            old(pt).wf(),
        ensures
            final(pt).wf(),
            final(pt).same_config(old(pt)),
            caller != from ==> r == Err::<i128, Error>(Error::AuthorizationFailure) && *final(pt)
                == *old(pt),
            caller == from && pt_amount <= 0 ==> r == Err::<i128, Error>(Error::InvalidAmount)
                && *final(pt) == *old(pt),
            caller == from && pt_amount > 0 && now < self.maturity ==> r == Err::<i128, Error>(
                Error::MaturityNotReached,
            ) && *final(pt) == *old(pt),
            caller == from && pt_amount > 0 && now >= self.maturity && old(pt).admin
                != self.identity ==> r == Err::<i128, Error>(Error::AuthorizationFailure) && *final(pt) == *old(pt),
            caller == from && pt_amount > 0 && now >= self.maturity && old(pt).admin
                == self.identity && old(pt).balance_of(from as int) < pt_amount ==> r == Err::<
                i128,
                Error,
            >(Error::InsufficientBalance) && *final(pt) == *old(pt),
            caller == from && pt_amount > 0 && now >= self.maturity && old(pt).admin
                == self.identity && old(pt).balance_of(from as int) >= pt_amount ==> {
                &&& r == Ok::<i128, Error>((pt_amount as int / self.exchange_rate as int) as i128)
                &&& final(pt).balance_of(from as int) == old(pt).balance_of(from as int)
                    - pt_amount
                &&& final(pt).total_supply == old(pt).total_supply - pt_amount
                &&& forall|x: int|
                    x != from ==> final(pt).balance_of(x) == old(pt).balance_of(x)
            },
    {
        if caller != from {
            return Err(Error::AuthorizationFailure);
        }
        if pt_amount <= 0 {
            return Err(Error::InvalidAmount);
        }
        if now < self.maturity {
            return Err(Error::MaturityNotReached);
        }
        let shares_to_return = pt_amount / self.exchange_rate;
        match pt.burn(self.identity, from, pt_amount) {
            Ok(_) => Ok(shares_to_return),
            Err(e) => Err(e),
        }
    }
}

/// The exchange rate is monotone: whatever quote a refresh observes, the
/// stored rate never decreases.
pub proof fn lemma_exchange_rate_monotonic(m: &YieldManager, quote: Option<i128>)
    ensures
        m.rate_after_quote(quote) >= m.exchange_rate,
{
}

/// The freeze is permanent: once the rate is locked, a refresh at any later
/// time, with any quote — higher, lower, or failed — changes neither the
/// rate nor the lock.
pub proof fn lemma_exchange_rate_frozen(m: &YieldManager, now: u64, quote: Option<i128>)
    requires
        m.rate_locked,
    ensures
        m.rate_after_quote(quote) == m.exchange_rate,
        m.locked_after(now),
{
}

/// The lock latches: a refresh never unlocks, and any refresh observed at
/// or past maturity leaves the rate locked.
pub proof fn lemma_lock_latches(m: &YieldManager, now: u64)
    ensures
        m.rate_locked ==> m.locked_after(now),
        now >= m.maturity ==> m.locked_after(now),
{
}

} // verus!
