use vstd::prelude::*;

use crate::constants::SCALAR_7;
use crate::errors::FeeVaultError;
use crate::storage::Fee;

verus! {

/// Check that an incoming amount is positive, reporting the given error
/// otherwise.
pub fn require_positive(amount: i128, err: FeeVaultError) -> (r: Result<(), FeeVaultError>)
    ensures
        r == (if amount > 0 {
            Result::<(), FeeVaultError>::Ok(())
        } else {
            Result::<(), FeeVaultError>::Err(err)
        }),
{
    if amount <= 0 {
        Err(err)
    } else {
        Ok(())
    }
}

/// Check that a fee configuration is valid: the rate within `[0, SCALAR_7]`
/// and the rate type one of the three known policies.
pub fn require_valid_fee(fee: &Fee) -> (r: Result<(), FeeVaultError>)
    ensures
        fee.rate > SCALAR_7 ==> r == Result::<(), FeeVaultError>::Err(
            FeeVaultError::InvalidFeeRate,
        ),
        fee.rate <= SCALAR_7 && fee.rate_type > 2 ==> r == Result::<(), FeeVaultError>::Err(
            FeeVaultError::InvalidFeeRateType,
        ),
        fee.rate <= SCALAR_7 && fee.rate_type <= 2 ==> r == Result::<(), FeeVaultError>::Ok(()),
        r is Ok ==> fee.wf(),
{
    if fee.rate > 10_000_000u32 {
        return Err(FeeVaultError::InvalidFeeRate);
    }
    if fee.rate_type > 2 {
        return Err(FeeVaultError::InvalidFeeRateType);
    }
    Ok(())
}

} // verus!
