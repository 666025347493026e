use vstd::prelude::*;

use crate::constants::{SCALAR_12, SCALAR_7};
use crate::math::{
    fits_i128, fixed_div_ceil, fixed_mul_ceil, fixed_mul_floor, muldiv_ceil, muldiv_floor,
};
use crate::storage::Fee;

verus! {

/// The utilization level where the lending market's interest curve enters
/// its steep third segment, 7-decimal fixed point.
pub const UTIL_HIGH: i128 = 9_500_000;

/// The width of the third segment of the interest curve (from `UTIL_HIGH` to
/// full utilization), 7-decimal fixed point.
pub const UTIL_HIGH_SPAN: i128 = 500_000;

/// The slice of the lending pool's reserve state that the supplier APR
/// estimate reads, as plain values: token supplies, exchange rates and the
/// reserve's interest-rate curve, plus the pool's backstop take rate.
#[derive(Clone, Copy, Debug, PartialEq, Eq, Structural)]
pub struct ReserveView {
    /// The reserve's total b-token (supply-side) tokens.
    pub b_supply: i128,
    /// The reserve's total d-token (debt-side) tokens.
    pub d_supply: i128,
    /// The b-token exchange rate, 12-decimal fixed point.
    pub b_rate: i128,
    /// The d-token exchange rate, 12-decimal fixed point.
    pub d_rate: i128,
    /// The reserve's reactive interest rate modifier, 7-decimal fixed point.
    pub ir_mod: i128,
    /// The reserve's target utilization, 7-decimal fixed point.
    pub util: u32,
    /// The base interest rate of the curve, 7-decimal fixed point.
    pub r_base: u32,
    /// The rate slope below target utilization, 7-decimal fixed point.
    pub r_one: u32,
    /// The rate slope above target utilization, 7-decimal fixed point.
    pub r_two: u32,
    /// The rate slope above `UTIL_HIGH`, 7-decimal fixed point.
    pub r_three: u32,
    /// The pool's backstop take rate, 7-decimal fixed point.
    pub bstop_rate: u32,
}

impl ReserveView {
    /// Sane reserve state: non-negative supplies, rates and modifier, and a
    /// positive utilization target (the curve divides by it).
    pub open spec fn wf(&self) -> bool {
        &&& self.b_supply >= 0
        &&& self.d_supply >= 0
        &&& self.b_rate >= 0
        &&& self.d_rate >= 0
        &&& self.ir_mod >= 0
        &&& self.util > 0
    }

    /// The reserve's current utilization: liabilities over supply, both in
    /// underlying terms, rounded against the borrowers and clamped to 100%.
    pub open spec fn spec_cur_util(&self) -> int {
        let liabilities = muldiv_ceil(self.d_supply as int, self.d_rate as int, SCALAR_12 as int);
        let supply = muldiv_floor(self.b_supply as int, self.b_rate as int, SCALAR_12 as int);
        if liabilities == 0 {
            0
        } else if liabilities >= supply {
            SCALAR_7 as int
        } else {
            muldiv_ceil(liabilities, SCALAR_7 as int, supply)
        }
    }

    /// The current borrow interest rate, from the three-segment curve the
    /// lending market uses, scaled by the reserve's rate modifier.
    pub open spec fn spec_cur_ir(&self) -> int {
        let cur_util = self.spec_cur_util();
        let target_util = self.util as int;
        if cur_util <= target_util {
            let util_scalar = muldiv_ceil(cur_util, SCALAR_7 as int, target_util);
            let base_rate = muldiv_ceil(util_scalar, self.r_one as int, SCALAR_7 as int)
                + self.r_base;
            muldiv_ceil(base_rate, self.ir_mod as int, SCALAR_7 as int)
        } else if cur_util <= UTIL_HIGH {
            let util_scalar = muldiv_ceil(
                cur_util - target_util,
                SCALAR_7 as int,
                UTIL_HIGH - target_util,
            );
            let base_rate = muldiv_ceil(util_scalar, self.r_two as int, SCALAR_7 as int)
                + self.r_one + self.r_base;
            muldiv_ceil(base_rate, self.ir_mod as int, SCALAR_7 as int)
        } else {
            let util_scalar = muldiv_ceil(cur_util - UTIL_HIGH, SCALAR_7 as int, UTIL_HIGH_SPAN as int);
            let extra_rate = muldiv_ceil(util_scalar, self.r_three as int, SCALAR_7 as int);
            let intersection = muldiv_ceil(
                self.ir_mod as int,
                self.r_two + self.r_one + self.r_base,
                SCALAR_7 as int,
            );
            extra_rate + intersection
        }
    }

    /// The supply-side rate: the borrow rate earned on the utilized portion,
    /// net of the backstop's take.
    pub open spec fn spec_supply_apr(&self) -> int {
        let gross = muldiv_floor(self.spec_cur_ir(), self.spec_cur_util(), SCALAR_7 as int);
        muldiv_floor(gross, SCALAR_7 - self.bstop_rate, SCALAR_7 as int)
    }

    /// The estimated APR a vault supplier earns, after the vault's own fee
    /// policy: a take rate scales the supply rate down; a capped rate clips
    /// it; a fixed rate applies whenever the admin can cover it (a positive
    /// admin balance or a supply rate above the target), and otherwise
    /// behaves like a cap.
    pub open spec fn spec_est_apr(&self, fee: Fee, admin_balance: int) -> int {
        let supply_apr = self.spec_supply_apr();
        if fee.rate_type == 0 {
            muldiv_floor(supply_apr, SCALAR_7 - fee.rate, SCALAR_7 as int)
        } else if fee.rate_type == 1 {
            if supply_apr > fee.rate {
                fee.rate as int
            } else {
                supply_apr
            }
        } else if fee.rate_type == 2 {
            if admin_balance > 0 || (fee.rate as int) < supply_apr {
                fee.rate as int
            } else {
                supply_apr
            }
        } else {
            0
        }
    }

    /// The machine-width side conditions under which the APR estimate cannot
    /// overflow an `i128`: every product of the curve fits, and the curve's
    /// rate sums stay within their types.
    pub open spec fn est_apr_in_bounds(&self, fee: Fee) -> bool {
        let liabilities = muldiv_ceil(self.d_supply as int, self.d_rate as int, SCALAR_12 as int);
        let cur_util = self.spec_cur_util();
        let target_util = self.util as int;
        &&& fits_i128(self.d_supply * self.d_rate)
        &&& fits_i128(self.b_supply * self.b_rate)
        &&& fits_i128(liabilities * SCALAR_7)
        &&& (cur_util <= target_util ==> {
            let util_scalar = muldiv_ceil(cur_util, SCALAR_7 as int, target_util);
            let scaled = muldiv_ceil(util_scalar, self.r_one as int, SCALAR_7 as int);
            &&& fits_i128(cur_util * SCALAR_7)
            &&& fits_i128(util_scalar * self.r_one)
            &&& fits_i128(scaled + self.r_base)
            &&& fits_i128((scaled + self.r_base) * self.ir_mod)
        })
        &&& (target_util < cur_util <= UTIL_HIGH ==> {
            let util_scalar = muldiv_ceil(
                cur_util - target_util,
                SCALAR_7 as int,
                UTIL_HIGH - target_util,
            );
            let scaled = muldiv_ceil(util_scalar, self.r_two as int, SCALAR_7 as int);
            &&& fits_i128((cur_util - target_util) * SCALAR_7)
            &&& fits_i128(util_scalar * self.r_two)
            &&& fits_i128(scaled + self.r_one + self.r_base)
            &&& fits_i128((scaled + self.r_one + self.r_base) * self.ir_mod)
        })
        &&& (cur_util > UTIL_HIGH ==> {
            let util_scalar = muldiv_ceil(cur_util - UTIL_HIGH, SCALAR_7 as int, UTIL_HIGH_SPAN as int);
            let extra_rate = muldiv_ceil(util_scalar, self.r_three as int, SCALAR_7 as int);
            let curve_top = self.r_two + self.r_one + self.r_base;
            &&& fits_i128((cur_util - UTIL_HIGH) * SCALAR_7)
            &&& fits_i128(util_scalar * self.r_three)
            &&& curve_top <= u32::MAX
            &&& fits_i128(self.ir_mod * curve_top)
            &&& fits_i128(extra_rate + muldiv_ceil(self.ir_mod as int, curve_top, SCALAR_7 as int))
        })
        &&& fits_i128(self.spec_cur_ir() * cur_util)
        &&& fits_i128(
            muldiv_floor(self.spec_cur_ir(), cur_util, SCALAR_7 as int) * (
            SCALAR_7 - self.bstop_rate),
        )
        &&& (fee.rate_type == 0 ==> fits_i128(self.spec_supply_apr() * (SCALAR_7 - fee.rate)))
    }

    /// Estimate the APR a supplier to the vault currently earns: the lending
    /// market's supply rate for this reserve, reduced by the vault's fee
    /// policy. Intended for display, not for on-chain accounting.
    pub fn est_apr(&self, fee: &Fee, admin_balance: i128) -> (r: i128)
        requires
            self.wf(),
            self.est_apr_in_bounds(*fee),
        ensures
            r == self.spec_est_apr(*fee, admin_balance as int),
    {
        let liabilities = fixed_mul_ceil(self.d_supply, self.d_rate, SCALAR_12).unwrap();
        let supply = fixed_mul_floor(self.b_supply, self.b_rate, SCALAR_12).unwrap();
        let cur_util: i128 = if liabilities == 0 {
            0
        } else if liabilities >= supply {
            SCALAR_7
        } else {
            fixed_div_ceil(liabilities, supply, SCALAR_7).unwrap()
        };
        let target_util: i128 = self.util as i128;
        let cur_ir: i128 = if cur_util <= target_util {
            let util_scalar = fixed_div_ceil(cur_util, target_util, SCALAR_7).unwrap();
            let base_rate = fixed_mul_ceil(util_scalar, self.r_one as i128, SCALAR_7).unwrap()
                + self.r_base as i128;
            fixed_mul_ceil(base_rate, self.ir_mod, SCALAR_7).unwrap()
        } else if cur_util <= UTIL_HIGH {
            let util_scalar = fixed_div_ceil(
                cur_util - target_util,
                UTIL_HIGH - target_util,
                SCALAR_7,
            ).unwrap();
            let base_rate = fixed_mul_ceil(util_scalar, self.r_two as i128, SCALAR_7).unwrap()
                + self.r_one as i128 + self.r_base as i128;
            fixed_mul_ceil(base_rate, self.ir_mod, SCALAR_7).unwrap()
        } else {
            let util_scalar = fixed_div_ceil(cur_util - UTIL_HIGH, UTIL_HIGH_SPAN, SCALAR_7)
                .unwrap();
            let extra_rate = fixed_mul_ceil(util_scalar, self.r_three as i128, SCALAR_7).unwrap();
            let curve_top = self.r_two as i128 + self.r_one as i128 + self.r_base as i128;
            let intersection = fixed_mul_ceil(self.ir_mod, curve_top, SCALAR_7).unwrap();
            extra_rate + intersection
        };
        // the borrow rate becomes a supply rate on the utilized portion,
        // after the backstop's cut
        let gross = fixed_mul_floor(cur_ir, cur_util, SCALAR_7).unwrap();
        let supply_apr = fixed_mul_floor(gross, SCALAR_7 - self.bstop_rate as i128, SCALAR_7)
            .unwrap();
        if fee.rate_type == 0 {
            fixed_mul_floor(supply_apr, SCALAR_7 - fee.rate as i128, SCALAR_7).unwrap()
        } else if fee.rate_type == 1 {
            if supply_apr > fee.rate as i128 {
                fee.rate as i128
            } else {
                supply_apr
            }
        } else if fee.rate_type == 2 {
            if admin_balance > 0 || (fee.rate as i128) < supply_apr {
                fee.rate as i128
            } else {
                supply_apr
            }
        } else {
            0
        }
    }
}

} // verus!
