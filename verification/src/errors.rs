use vstd::prelude::*;

verus! {

/// The failure modes of the engine.  Every failure aborts the whole
/// operation it occurs in: an operation either returns `Ok` having applied
/// all of its effects, or returns one of these having applied none.
#[derive(Clone, Copy, Debug, PartialEq, Eq, Structural)]
pub enum Error {
    /// The caller is not the identity the operation demands.
    AuthorizationFailure,
    /// The requested amount exceeds the available balance.
    InsufficientBalance,
    /// The requested amount exceeds the granted allowance.
    InsufficientAllowance,
    /// A negative amount, or a non-positive one where strictly positive
    /// value is required.
    InvalidAmount,
    /// A set-once value was set a second time.
    AlreadyInitialized,
    /// Principal redemption was attempted before the maturity timestamp.
    MaturityNotReached,
    /// The vault's rate query failed, or returned something unusable.
    UpstreamQueryFailure,
}

} // verus!
