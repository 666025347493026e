use vstd::prelude::*;

verus! {

/// Scalar for 7-decimal fixed-point values: shares, b-tokens, underlying
/// amounts, fee rates and reward emissions.
pub const SCALAR_7: i128 = 10_000_000;

/// Scalar for 12-decimal fixed-point values: the pool's exchange rate.
pub const SCALAR_12: i128 = 1_000_000_000_000;

/// Seconds in a 365-day year, used to scale annual target rates down to the
/// seconds elapsed between two ledger updates.
pub const SECONDS_PER_YEAR: i128 = 31_536_000;

} // verus!
