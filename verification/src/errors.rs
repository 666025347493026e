use vstd::prelude::*;

verus! {

/// The error conditions the vault can report. Every operation either runs to
/// completion or returns one of these; no partial state is meant to survive a
/// failed operation.
#[derive(Clone, Copy, Debug, PartialEq, Eq, Structural)]
pub enum FeeVaultError {
    /// A balance (the user's shares or the admin's b-tokens) is too small for
    /// the requested withdrawal.
    BalanceError,
    /// The vault's ledger record does not exist yet.
    ReserveNotFound,
    /// The vault's ledger record already exists.
    ReserveAlreadyExists,
    /// An input amount was zero or negative.
    InvalidAmount,
    /// The admin tried to take more fees than have accrued.
    InsufficientAccruedFees,
    /// A fee rate outside `[0, SCALAR_7]`.
    InvalidFeeRate,
    /// The vault as a whole holds fewer shares or b-tokens than a withdrawal
    /// needs.
    InsufficientReserves,
    /// A deposit converted to a non-positive b-token amount.
    InvalidBTokensMinted,
    /// A withdrawal converted to a non-positive b-token amount.
    InvalidBTokensBurnt,
    /// A deposit converted to a non-positive share amount.
    InvalidSharesMinted,
    /// A fee rate type tag that is not take rate, capped rate or fixed rate.
    InvalidFeeRateType,
    /// A reward claim was made before any reward was ever configured.
    NoRewardsConfigured,
    /// A reward configuration that cannot start a valid reward period.
    InvalidRewardConfig,
    /// A withdrawal converted to a non-positive share amount.
    InvalidSharesBurnt,
}

} // verus!
