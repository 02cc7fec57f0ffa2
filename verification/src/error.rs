//! Errors raised by the entry points.  Every failed call aborts atomically:
//! the store is left exactly as it was.  Arithmetic overflow and underflow in
//! any bookkeeping step is a hard failure, carried as `Arithmetic`.

use vstd::prelude::*;

verus! {

#[derive(Clone, Copy, Debug, PartialEq, Eq, Structural)]
pub enum ContractError {
    /// The contract status is not active.
    InactiveContract,
    /// The caller is neither the contract admin nor the sale admin it needs
    /// to be.
    Unauthorized,
    /// The tier threshold table handed to instantiation is empty.
    EmptyDeposits,
    /// The tier threshold table does not fit the tier numbering.
    TooManyDeposits,
    /// The tier threshold table is not strictly descending.
    DepositsNotDescending,
    /// The lock period table must hold one entry per tier.
    WrongLockPeriodsLength { expected: u8 },
    /// `tokens_per_tier` does not hold one pool per tier.
    WrongTokensPerTierLength,
    /// The per-tier pools sum to less than the sale's token amount.
    TokensPerTierSumTooSmall,
    /// The sale would end at or before its start.
    EndBeforeStart,
    /// The sale price is zero.
    ZeroPrice,
    /// The sale would already be over at creation time.
    EndsInPast,
    /// The soft cap is zero.
    ZeroSoftCap,
    /// The soft cap exceeds the sale's token amount.
    SoftCapTooBig,
    /// The sale is outside its `[start, end)` window.
    IdoNotActive,
    /// A purchase of zero tokens.
    ZeroAmount,
    /// The purchase exceeds what is left for the buyer's tier; the exact
    /// remaining quantity, zero when the pool is exhausted.
    BuyLimitExceeded { remaining: u128 },
    /// No purchase in the claimed range has vested.
    NothingToReceive,
    /// The sale's funds were already withdrawn.
    AlreadyWithdrawn,
    /// The sale has not ended yet.
    IdoNotFinished,
    /// No funds were attached to the call.
    NoFunds,
    /// Attached funds of zero amount.
    ZeroFunds,
    /// Attached funds in a denomination other than the native token.
    UnsupportedToken,
    /// More than one coin attached to the call.
    MultipleFunds,
    /// The depositor already holds the best tier.
    MaxTierReached,
    /// The deposit does not reach the next tier; the exact shortfall in USD
    /// and its native equivalent.
    InsufficientDeposit { usd: u128, orai: u128 },
    /// No withdrawal in the claimed range has matured.
    NothingToClaim,
    /// No delegation rewards to withdraw.
    NothingToWithdraw,
    /// Redelegation to the currently configured validator.
    RedelegateToSameValidator,
    /// The delegation cannot be moved in full.
    CannotRedelegateFullAmount,
    /// Overflow or underflow in a bookkeeping step; the call aborts.
    Arithmetic,
}

} // verus!
