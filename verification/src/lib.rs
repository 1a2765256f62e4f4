//! A yield-tokenization engine.
//!
//! A yield-bearing vault share is split into two claims: a principal claim
//! (PT), redeemable one-for-one for the deposited value once a fixed maturity
//! has passed, and a yield claim (YT), entitled to all yield the underlying
//! position accrues between deposit and maturity.  A clearinghouse (the
//! yield manager) owns the authoritative exchange rate — a high-water mark
//! over the rates the vault reports, frozen permanently once maturity is
//! observed — and coordinates deposits, yield distribution and principal
//! redemption against the two ledgers.
//!
//! The host environment (persistent storage, caller authentication, the
//! clock, and the vault itself) is modelled as plain values: every operation
//! takes the authenticated caller, the current time and the vault's current
//! quote as arguments, and returns the amount of underlying shares the host
//! must move.  All state transitions, the accrual arithmetic and the
//! authorization matrix are verified here.

pub mod amm;
pub mod errors;
pub mod math;
pub mod mock_vault;
pub mod oracle;
pub mod principal_token;
pub mod yield_manager;
pub mod yield_token;
