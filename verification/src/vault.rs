use vstd::prelude::*;

use crate::constants::{SCALAR_12, SCALAR_7, SECONDS_PER_YEAR};
use crate::errors::FeeVaultError;
use crate::math::{
    ceil_div, fits_i128, fixed_div_ceil, fixed_div_floor, fixed_mul_ceil, fixed_mul_floor,
    floor_div, lemma_ceil_div_range, lemma_floor_div_ordered, lemma_floor_div_range,
    lemma_floor_div_sign, muldiv_ceil, muldiv_floor,
};
use crate::rewards::{
    reward_update_in_bounds, spec_touched_user, spec_updated_reward_data, update_rewards,
    user_update_in_bounds,
};
use crate::storage::{Fee, RewardData, UserRewards};

verus! {

/// The vault's ledger: the pool exchange rate it last saw, the share supply,
/// and the split of the vault's pool tokens between depositors and the admin.
#[derive(Clone, Copy, Debug, PartialEq, Eq, Structural)]
pub struct VaultData {
    /// The timestamp of the last rate refresh.
    pub last_update_timestamp: u64,
    /// The pool's exchange rate at the last refresh, 12-decimal fixed point.
    pub b_rate: i128,
    /// The total shares issued to depositors.
    pub total_shares: i128,
    /// The pool tokens owned by depositors. Excludes the admin's balance.
    pub total_b_tokens: i128,
    /// The admin's pool tokens, excluded from `total_b_tokens`. This is the
    /// one balance that may go negative: under the fixed-rate policy the
    /// admin owes the vault whenever the pool underperforms the target.
    pub admin_balance: i128,
}

impl VaultData {
    /// The ledger's invariant: a positive exchange rate and non-negative
    /// depositor-owned totals.
    pub open spec fn wf(&self) -> bool {
        &&& self.b_rate > 0
        &&& self.total_shares >= 0
        &&& self.total_b_tokens >= 0
    }

    /// What `b_tokens_to_shares_down` returns: `amount * total_shares /
    /// total_b_tokens` rounded down, or `amount` itself while the vault is
    /// empty (the bootstrap 1:1 case).
    pub open spec fn spec_b_tokens_to_shares_down(&self, amount: int) -> int {
        if self.total_shares == 0 || self.total_b_tokens == 0 {
            amount
        } else {
            muldiv_floor(amount, self.total_shares as int, self.total_b_tokens as int)
        }
    }

    /// What `b_tokens_to_shares_up` returns: as above, rounded up.
    pub open spec fn spec_b_tokens_to_shares_up(&self, amount: int) -> int {
        if self.total_shares == 0 || self.total_b_tokens == 0 {
            amount
        } else {
            muldiv_ceil(amount, self.total_shares as int, self.total_b_tokens as int)
        }
    }

    /// What `shares_to_b_tokens_down` returns: `amount * total_b_tokens /
    /// total_shares` rounded down.
    pub open spec fn spec_shares_to_b_tokens_down(&self, amount: int) -> int {
        muldiv_floor(amount, self.total_b_tokens as int, self.total_shares as int)
    }

    /// What `b_tokens_to_underlying_down` returns: `amount * b_rate / 10^12`
    /// rounded down.
    pub open spec fn spec_b_tokens_to_underlying_down(&self, amount: int) -> int {
        muldiv_floor(amount, self.b_rate as int, SCALAR_12 as int)
    }

    /// What `underlying_to_b_tokens_down` returns: `amount * 10^12 / b_rate`
    /// rounded down.
    pub open spec fn spec_underlying_to_b_tokens_down(&self, amount: int) -> int {
        muldiv_floor(amount, SCALAR_12 as int, self.b_rate as int)
    }

    /// What `underlying_to_b_tokens_up` returns: `amount * 10^12 / b_rate`
    /// rounded up.
    pub open spec fn spec_underlying_to_b_tokens_up(&self, amount: int) -> int {
        muldiv_ceil(amount, SCALAR_12 as int, self.b_rate as int)
    }

    /// The 12-decimal growth factor the target annual rate implies over
    /// `elapsed` seconds: `1 + rate * elapsed / seconds_per_year`, the
    /// division rounded up so the target never understates what the period
    /// owes. The rate is 7-decimal, so scaling by `100_000` lifts it to 12
    /// decimals.
    pub open spec fn spec_target_growth(fee: Fee, elapsed: int) -> int {
        ceil_div(100_000 * fee.rate * elapsed, SECONDS_PER_YEAR as int) + SCALAR_12
    }

    /// The exchange rate the vault would have to reach at `now` for
    /// depositors to have earned exactly the target annual rate since the
    /// last refresh, rounded up.
    pub open spec fn spec_target_b_rate(&self, fee: Fee, now: int) -> int {
        muldiv_ceil(
            self.b_rate as int,
            Self::spec_target_growth(fee, now - self.last_update_timestamp),
            SCALAR_12 as int,
        )
    }

    /// The admin's b-token fee under the take-rate policy:
    /// `total_b_tokens * (new_rate - b_rate) / new_rate * rate / 10^7`,
    /// floored at each step so rounding never favors the admin — the
    /// period's yield in b-tokens first, then the admin's fraction of it.
    pub open spec fn spec_take_rate_fee(&self, fee: Fee, new_rate: int) -> int {
        let gross = muldiv_floor(self.total_b_tokens as int, new_rate - self.b_rate, new_rate);
        muldiv_floor(gross, fee.rate as int, SCALAR_7 as int)
    }

    /// The signed b-token difference between what the pool actually paid and
    /// what the target rate owed:
    /// `total_b_tokens * (new_rate - target_rate) / new_rate`, floored, so a
    /// shortfall (negative difference) rounds away from zero.
    pub open spec fn spec_b_token_diff(&self, fee: Fee, now: int, new_rate: int) -> int {
        let target = self.spec_target_b_rate(fee, now);
        muldiv_floor(self.total_b_tokens as int, new_rate - target, new_rate)
    }

    /// The admin's b-token fee for a rate increase, by policy: the take rate
    /// earns a fraction of the yield; the capped rate earns only the excess
    /// above the target and never pays in; the fixed rate earns or pays the
    /// whole difference; an unrecognized tag earns nothing so funds are
    /// never locked.
    pub open spec fn spec_admin_fee(&self, fee: Fee, now: int, new_rate: int) -> int {
        if fee.rate_type == 0 {
            self.spec_take_rate_fee(fee, new_rate)
        } else if fee.rate_type == 1 || fee.rate_type == 2 {
            let diff = self.spec_b_token_diff(fee, now, new_rate);
            if diff <= 0 && fee.rate_type == 1 {
                0
            } else {
                diff
            }
        } else {
            0
        }
    }

    /// The full result of a rate refresh: the rate and timestamp always move
    /// to the fresh values, and when the rate rose, the admin's fee moves
    /// from the depositors' b-tokens to the admin balance.
    pub open spec fn spec_update_rate(&self, fee: Fee, now: int, new_rate: int) -> VaultData {
        if new_rate <= self.b_rate {
            VaultData {
                last_update_timestamp: now as u64,
                b_rate: new_rate as i128,
                ..*self
            }
        } else {
            let f = self.spec_admin_fee(fee, now, new_rate);
            VaultData {
                last_update_timestamp: now as u64,
                b_rate: new_rate as i128,
                total_shares: self.total_shares,
                total_b_tokens: (self.total_b_tokens - f) as i128,
                admin_balance: (self.admin_balance + f) as i128,
            }
        }
    }

    /// The machine-width side conditions under which a rate refresh cannot
    /// overflow an `i128`: the elapsed time is non-negative, every
    /// intermediate product of the fee formulas fits, and so do the
    /// resulting balances.
    pub open spec fn update_rate_in_bounds(&self, fee: Fee, now: int, new_rate: int) -> bool {
        new_rate > self.b_rate ==> {
            let f = self.spec_admin_fee(fee, now, new_rate);
            &&& fits_i128(self.total_b_tokens - f)
            &&& fits_i128(self.admin_balance + f)
            &&& (fee.rate_type == 0 ==> {
                let gross = muldiv_floor(
                    self.total_b_tokens as int,
                    new_rate - self.b_rate,
                    new_rate,
                );
                &&& fits_i128(self.total_b_tokens * (new_rate - self.b_rate))
                &&& fits_i128(gross * fee.rate)
            })
            &&& ((fee.rate_type == 1 || fee.rate_type == 2) ==> {
                let target = self.spec_target_b_rate(fee, now);
                &&& now >= self.last_update_timestamp
                &&& fits_i128(
                    self.b_rate * Self::spec_target_growth(
                        fee,
                        now - self.last_update_timestamp,
                    ),
                )
                &&& fits_i128(new_rate - target)
                &&& fits_i128(self.total_b_tokens * (new_rate - target))
            })
        }
    }

    /// Whatever the policy, a rate increase never charges depositors more
    /// b-tokens than they own, and only the fixed-rate policy can produce a
    /// negative fee (the admin supplementing the vault).
    pub proof fn lemma_admin_fee_bounds(&self, fee: Fee, now: int, new_rate: int)
        requires
            self.wf(),
            fee.wf(),
            new_rate > self.b_rate,
            fee.rate_type == 1 || fee.rate_type == 2 ==> now >= self.last_update_timestamp,
        ensures
            self.spec_admin_fee(fee, now, new_rate) <= self.total_b_tokens,
            fee.rate_type != 2 ==> self.spec_admin_fee(fee, now, new_rate) >= 0,
    {
        let tb = self.total_b_tokens as int;
        let br = self.b_rate as int;
        let nr = new_rate;
        let s12 = SCALAR_12 as int;
        let s7 = SCALAR_7 as int;
        let rate = fee.rate as int;
        if fee.rate_type == 0 {
            let d = nr - br;
            let p1 = tb * d;
            let gross = floor_div(p1, nr);
            let p2 = gross * rate;
            let f = floor_div(p2, s7);
            vstd::arithmetic::mul::lemma_mul_nonnegative(tb, d);
            lemma_floor_div_sign(p1, nr);
            lemma_floor_div_range(p1, nr);
            // gross <= total_b_tokens, because the yield fraction is below 1
            vstd::arithmetic::mul::lemma_mul_inequality(d, nr, tb);
            assert(d * tb == tb * d && nr * tb == tb * nr) by (nonlinear_arith);
            assert(nr * gross == gross * nr) by (nonlinear_arith);
            vstd::arithmetic::mul::lemma_mul_inequality_converse(gross, tb, nr);
            // f <= gross, because rate <= SCALAR_7
            vstd::arithmetic::mul::lemma_mul_nonnegative(gross, rate);
            lemma_floor_div_sign(p2, s7);
            lemma_floor_div_range(p2, s7);
            vstd::arithmetic::mul::lemma_mul_inequality(rate, s7, gross);
            lemma_floor_div_ordered(p2, gross * s7, s7);
            vstd::arithmetic::div_mod::lemma_div_multiples_vanish(gross, s7);
            assert(gross * s7 == s7 * gross) by (nonlinear_arith);
        } else if fee.rate_type == 1 || fee.rate_type == 2 {
            let elapsed = now - self.last_update_timestamp;
            let growth = Self::spec_target_growth(fee, elapsed);
            vstd::arithmetic::mul::lemma_mul_nonnegative(100_000 * rate, elapsed);
            crate::math::lemma_ceil_div_sign(100_000 * rate * elapsed, SECONDS_PER_YEAR as int);
            assert(growth >= SCALAR_12);
            let target = self.spec_target_b_rate(fee, now);
            lemma_ceil_div_range(br * growth, s12);
            vstd::arithmetic::mul::lemma_mul_nonnegative(br, growth);
            assert(s12 * target >= 0);
            if target < 0 {
                assert(s12 * target < 0) by (nonlinear_arith)
                    requires
                        s12 > 0,
                        target < 0,
                ;
            }
            assert(target >= 0);
            let e = nr - target;
            let p = tb * e;
            let diff = floor_div(p, nr);
            lemma_floor_div_range(p, nr);
            vstd::arithmetic::mul::lemma_mul_inequality(e, nr, tb);
            assert(e * tb == tb * e && nr * tb == tb * nr) by (nonlinear_arith);
            assert(nr * diff <= tb * nr);
            assert(nr * diff == diff * nr) by (nonlinear_arith);
            vstd::arithmetic::mul::lemma_mul_inequality_converse(diff, tb, nr);
            assert(diff <= tb);
        }
    }

    /// Refresh the ledger against the pool's current exchange rate, accruing
    /// the admin's fee for the elapsed period under the configured policy.
    /// A flat or falling rate never generates a fee.
    pub fn update_rate(&mut self, now: u64, new_rate: i128, fee: &Fee)
        requires
            old(self).wf(),
            fee.wf(),
            new_rate > 0,
            old(self).update_rate_in_bounds(*fee, now as int, new_rate as int),
        ensures
            *final(self) == old(self).spec_update_rate(*fee, now as int, new_rate as int),
            final(self).wf(),
            final(self).total_shares == old(self).total_shares,
    {
        proof {
            if new_rate > self.b_rate {
                self.lemma_admin_fee_bounds(*fee, now as int, new_rate as int);
            }
        }
        if new_rate <= self.b_rate {
            self.last_update_timestamp = now;
            self.b_rate = new_rate;
            return;
        }
        let admin_b_tokens: i128 = if fee.rate_type == 0 {
            // take rate: the admin earns a percentage of the interest
            // accrued, both divisions floored against the admin
            let admin_take_rate = fee.rate as i128;
            let gross = fixed_mul_floor(
                self.total_b_tokens,
                new_rate - self.b_rate,
                new_rate,
            ).unwrap();
            fixed_mul_floor(gross, admin_take_rate, SCALAR_7).unwrap()
        } else if fee.rate_type == 1 || fee.rate_type == 2 {
            // capped rate: the admin earns only the excess above the target;
            // fixed rate: the admin also supplements any shortfall, so the
            // difference may be negative
            let target_apr = fee.rate as i128;
            let time_elapsed = now - self.last_update_timestamp;
            proof {
                vstd::arithmetic::mul::lemma_mul_upper_bound(
                    100_000 * (fee.rate as int),
                    100_000 * (u32::MAX as int),
                    time_elapsed as int,
                    u64::MAX as int,
                );
                vstd::arithmetic::mul::lemma_mul_nonnegative(
                    100_000 * (fee.rate as int),
                    time_elapsed as int,
                );
            }
            let scaled: i128 = 100_000 * target_apr * (time_elapsed as i128);
            proof {
                lemma_ceil_div_range(scaled as int, SECONDS_PER_YEAR as int);
                assert(ceil_div(scaled as int, SECONDS_PER_YEAR as int) <= scaled)
                    by (nonlinear_arith)
                    requires
                        (SECONDS_PER_YEAR as int) * (ceil_div(
                            scaled as int,
                            SECONDS_PER_YEAR as int,
                        ) - 1) < scaled as int,
                        scaled >= 0,
                        SECONDS_PER_YEAR as int >= 1,
                ;
            }
            // the growth division rounds up: the vault owes the full target
            let target_growth_rate = fixed_div_ceil(scaled, SECONDS_PER_YEAR, 1).unwrap()
                + SCALAR_12;
            let target_b_rate = fixed_mul_ceil(
                self.b_rate,
                target_growth_rate,
                SCALAR_12,
            ).unwrap();
            let b_token_diff = fixed_mul_floor(
                self.total_b_tokens,
                new_rate - target_b_rate,
                new_rate,
            ).unwrap();
            if b_token_diff <= 0 && fee.rate_type == 1 {
                // capped rate: no fee when the target rate was not exceeded
                0
            } else {
                b_token_diff
            }
        } else {
            // unrecognized policy tag: accrue nothing rather than lock funds
            0
        };
        self.last_update_timestamp = now;
        self.b_rate = new_rate;
        // nothing to move when no fee accrued
        if admin_b_tokens == 0 {
            return;
        }
        self.total_b_tokens = self.total_b_tokens - admin_b_tokens;
        self.admin_balance = self.admin_balance + admin_b_tokens;
    }

    /// Converts a b-token amount to shares, rounding down. Used on the
    /// deposit path, so the rounding biases against the acting user.
    pub fn b_tokens_to_shares_down(&self, amount: i128) -> (r: i128)
        requires
            self.wf(),
            fits_i128(amount * self.total_shares),
        ensures
            r == self.spec_b_tokens_to_shares_down(amount as int),
    {
        if self.total_shares == 0 || self.total_b_tokens == 0 {
            return amount;
        }
        fixed_mul_floor(amount, self.total_shares, self.total_b_tokens).unwrap()
    }

    /// Converts a b-token amount to shares, rounding up. Used on the
    /// withdrawal path, so the rounding biases against the acting user.
    pub fn b_tokens_to_shares_up(&self, amount: i128) -> (r: i128)
        requires
            self.wf(),
            fits_i128(amount * self.total_shares),
        ensures
            r == self.spec_b_tokens_to_shares_up(amount as int),
    {
        if self.total_shares == 0 || self.total_b_tokens == 0 {
            return amount;
        }
        fixed_mul_ceil(amount, self.total_shares, self.total_b_tokens).unwrap()
    }

    /// Converts a share amount to b-tokens, rounding down. Used only by
    /// read-only views and withdrawal sizing against the user's favor.
    pub fn shares_to_b_tokens_down(&self, amount: i128) -> (r: i128)
        requires
            self.wf(),
            self.total_shares > 0,
            fits_i128(amount * self.total_b_tokens),
        ensures
            r == self.spec_shares_to_b_tokens_down(amount as int),
    {
        fixed_div_floor(amount, self.total_shares, self.total_b_tokens).unwrap()
    }

    /// Converts a b-token amount to underlying tokens, rounding down.
    pub fn b_tokens_to_underlying_down(&self, amount: i128) -> (r: i128)
        requires
            fits_i128(amount * self.b_rate),
        ensures
            r == self.spec_b_tokens_to_underlying_down(amount as int),
    {
        fixed_mul_floor(amount, self.b_rate, SCALAR_12).unwrap()
    }

    /// Converts an underlying token amount to b-tokens, rounding down.
    pub fn underlying_to_b_tokens_down(&self, amount: i128) -> (r: i128)
        requires
            self.wf(),
            fits_i128(amount * SCALAR_12),
        ensures
            r == self.spec_underlying_to_b_tokens_down(amount as int),
    {
        fixed_div_floor(amount, self.b_rate, SCALAR_12).unwrap()
    }

    /// Converts an underlying token amount to b-tokens, rounding up.
    pub fn underlying_to_b_tokens_up(&self, amount: i128) -> (r: i128)
        requires
            self.wf(),
            fits_i128(amount * SCALAR_12),
        ensures
            r == self.spec_underlying_to_b_tokens_up(amount as int),
    {
        fixed_div_ceil(amount, self.b_rate, SCALAR_12).unwrap()
    }
}

/// A copy of the ledger brought up to the pool's current exchange rate, with
/// the period's admin fee accrued. Read-only views work on this copy without
/// persisting it.
pub fn get_vault_updated(vault: &VaultData, fee: &Fee, now: u64, new_rate: i128) -> (r: VaultData)
    requires
        vault.wf(),
        fee.wf(),
        new_rate > 0,
        vault.update_rate_in_bounds(*fee, now as int, new_rate as int),
    ensures
        r == vault.spec_update_rate(*fee, now as int, new_rate as int),
        r.wf(),
{
    let mut v = *vault;
    v.update_rate(now, new_rate, fee);
    v
}

/// The b-tokens a user's shares are worth, after a refresh: zero for an
/// empty position, otherwise the share value rounded down.
pub fn get_b_tokens(
    vault: &VaultData,
    fee: &Fee,
    now: u64,
    new_rate: i128,
    shares: i128,
) -> (r: i128)
    requires
        vault.wf(),
        fee.wf(),
        new_rate > 0,
        vault.update_rate_in_bounds(*fee, now as int, new_rate as int),
        shares > 0 ==> vault.total_shares > 0,
        fits_i128(
            shares * vault.spec_update_rate(*fee, now as int, new_rate as int).total_b_tokens,
        ),
    ensures
        r == ({
            let rv = vault.spec_update_rate(*fee, now as int, new_rate as int);
            if shares > 0 {
                rv.spec_shares_to_b_tokens_down(shares as int)
            } else {
                0
            }
        }),
{
    let v = get_vault_updated(vault, fee, now, new_rate);
    if shares > 0 {
        v.shares_to_b_tokens_down(shares)
    } else {
        0
    }
}

/// The underlying tokens a user's shares are worth, after a refresh: the
/// share value converted twice, rounding down both times.
pub fn get_underlying_tokens(
    vault: &VaultData,
    fee: &Fee,
    now: u64,
    new_rate: i128,
    shares: i128,
) -> (r: i128)
    requires
        vault.wf(),
        fee.wf(),
        new_rate > 0,
        vault.update_rate_in_bounds(*fee, now as int, new_rate as int),
        shares > 0 ==> vault.total_shares > 0,
        fits_i128(
            shares * vault.spec_update_rate(*fee, now as int, new_rate as int).total_b_tokens,
        ),
        fits_i128(
            ({
                let rv = vault.spec_update_rate(*fee, now as int, new_rate as int);
                rv.spec_shares_to_b_tokens_down(shares as int) * rv.b_rate
            }),
        ),
    ensures
        r == ({
            let rv = vault.spec_update_rate(*fee, now as int, new_rate as int);
            if shares > 0 {
                rv.spec_b_tokens_to_underlying_down(
                    rv.spec_shares_to_b_tokens_down(shares as int),
                )
            } else {
                0
            }
        }),
{
    let v = get_vault_updated(vault, fee, now, new_rate);
    if shares > 0 {
        let b_tokens = v.shares_to_b_tokens_down(shares);
        v.b_tokens_to_underlying_down(b_tokens)
    } else {
        0
    }
}

/// The admin's accrued fees in underlying tokens, after a refresh, rounded
/// down. Negative when the admin owes the vault under the fixed-rate policy.
pub fn get_underlying_admin_balance(
    vault: &VaultData,
    fee: &Fee,
    now: u64,
    new_rate: i128,
) -> (r: i128)
    requires
        vault.wf(),
        fee.wf(),
        new_rate > 0,
        vault.update_rate_in_bounds(*fee, now as int, new_rate as int),
        fits_i128(
            ({
                let rv = vault.spec_update_rate(*fee, now as int, new_rate as int);
                rv.admin_balance * rv.b_rate
            }),
        ),
    ensures
        r == ({
            let rv = vault.spec_update_rate(*fee, now as int, new_rate as int);
            rv.spec_b_tokens_to_underlying_down(rv.admin_balance as int)
        }),
{
    let v = get_vault_updated(vault, fee, now, new_rate);
    v.b_tokens_to_underlying_down(v.admin_balance)
}

/// The machine-width side conditions for a user deposit, stated against the
/// refreshed ledger: the conversion products and the grown balances fit an
/// `i128`.
pub open spec fn deposit_in_bounds(
    v: VaultData,
    fee: Fee,
    now: int,
    new_rate: int,
    user_shares: int,
    amount: int,
) -> bool {
    let rv = v.spec_update_rate(fee, now, new_rate);
    let b = rv.spec_underlying_to_b_tokens_down(amount);
    let s = rv.spec_b_tokens_to_shares_down(b);
    &&& v.update_rate_in_bounds(fee, now, new_rate)
    &&& fits_i128(amount * SCALAR_12)
    &&& fits_i128(b * rv.total_shares)
    &&& (b > 0 && s > 0 ==> {
        &&& fits_i128(rv.total_shares + s)
        &&& fits_i128(rv.total_b_tokens + b)
        &&& fits_i128(user_shares + s)
    })
}

/// Deposit `amount` of underlying into the vault: refresh the ledger, settle
/// the user's rewards against their balance from before the change, then
/// mint b-tokens and shares, both rounded down so the rounding favors the
/// remaining depositors. The caller moves the actual tokens into the pool.
///
/// Returns the b-tokens credited and the shares minted. On any error no
/// record changes.
pub fn deposit(
    vault: &mut VaultData,
    user_shares: &mut i128,
    reward_data: &mut Option<RewardData>,
    user_rewards: &mut Option<UserRewards>,
    fee: &Fee,
    now: u64,
    new_rate: i128,
    amount: i128,
) -> (r: Result<(i128, i128), FeeVaultError>)
    requires
        old(vault).wf(),
        fee.wf(),
        new_rate > 0,
        *old(user_shares) >= 0,
        *old(reward_data) matches Some(d) ==> d.wf() && reward_update_in_bounds(
            d,
            now as int,
            old(vault).total_shares as int,
        ),
        *old(user_rewards) matches Some(u) ==> u.wf(),
        *old(reward_data) matches Some(d) ==> user_update_in_bounds(
            spec_updated_reward_data(d, now as int, old(vault).total_shares as int),
            *old(user_rewards),
            *old(user_shares) as int,
        ),
        deposit_in_bounds(
            *old(vault),
            *fee,
            now as int,
            new_rate as int,
            *old(user_shares) as int,
            amount as int,
        ),
    ensures
        ({
            let rv = old(vault).spec_update_rate(*fee, now as int, new_rate as int);
            let b = rv.spec_underlying_to_b_tokens_down(amount as int);
            let s = rv.spec_b_tokens_to_shares_down(b);
            &&& (b <= 0 ==> r == Result::<(i128, i128), FeeVaultError>::Err(
                FeeVaultError::InvalidBTokensMinted,
            ) && *final(vault) == *old(vault) && *final(user_shares) == *old(user_shares)
                && *final(reward_data) == *old(reward_data) && *final(user_rewards) == *old(
                user_rewards,
            ))
            &&& (b > 0 && s <= 0 ==> r == Result::<(i128, i128), FeeVaultError>::Err(
                FeeVaultError::InvalidSharesMinted,
            ) && *final(vault) == *old(vault) && *final(user_shares) == *old(user_shares)
                && *final(reward_data) == *old(reward_data) && *final(user_rewards) == *old(
                user_rewards,
            ))
            &&& (b > 0 && s > 0 ==> {
                &&& r == Result::<(i128, i128), FeeVaultError>::Ok(((b as i128), (s as i128)))
                &&& *final(vault) == VaultData {
                    total_shares: (rv.total_shares + s) as i128,
                    total_b_tokens: (rv.total_b_tokens + b) as i128,
                    ..rv
                }
                &&& final(vault).wf()
                &&& *final(user_shares) == *old(user_shares) + s
                &&& *final(reward_data) == match *old(reward_data) {
                    Some(d) => Some(
                        spec_updated_reward_data(
                            d,
                            now as int,
                            old(vault).total_shares as int,
                        ),
                    ),
                    None => None::<RewardData>,
                }
                &&& *final(user_rewards) == match *old(reward_data) {
                    Some(d) => Some(
                        spec_touched_user(
                            spec_updated_reward_data(
                                d,
                                now as int,
                                old(vault).total_shares as int,
                            ),
                            *old(user_rewards),
                            *old(user_shares) as int,
                        ),
                    ),
                    None => *old(user_rewards),
                }
            })
        }),
{
    let mut v = *vault;
    v.update_rate(now, new_rate, fee);
    let mut rd = *reward_data;
    let mut ur = *user_rewards;
    // settle rewards against the pre-mutation share balances
    update_rewards(&mut rd, &mut ur, now, v.total_shares, *user_shares);
    let b_tokens_amount = v.underlying_to_b_tokens_down(amount);
    if b_tokens_amount <= 0 {
        return Err(FeeVaultError::InvalidBTokensMinted);
    }
    let share_amount = v.b_tokens_to_shares_down(b_tokens_amount);
    if share_amount <= 0 {
        return Err(FeeVaultError::InvalidSharesMinted);
    }
    v.total_shares = v.total_shares + share_amount;
    v.total_b_tokens = v.total_b_tokens + b_tokens_amount;
    *vault = v;
    *user_shares = *user_shares + share_amount;
    *reward_data = rd;
    *user_rewards = ur;
    Ok((b_tokens_amount, share_amount))
}

/// The machine-width side conditions for a user withdrawal, stated against
/// the refreshed ledger: the two conversion products fit an `i128`.
pub open spec fn withdraw_in_bounds(
    v: VaultData,
    fee: Fee,
    now: int,
    new_rate: int,
    amount: int,
) -> bool {
    let rv = v.spec_update_rate(fee, now, new_rate);
    let b = rv.spec_underlying_to_b_tokens_up(amount);
    &&& v.update_rate_in_bounds(fee, now, new_rate)
    &&& fits_i128(amount * SCALAR_12)
    &&& fits_i128(b * rv.total_shares)
}

/// Withdraw `amount` of underlying from the vault: refresh the ledger,
/// settle the user's rewards against their balance from before the change,
/// then burn b-tokens and shares, both rounded up so the rounding favors the
/// remaining depositors. The caller moves the actual tokens out of the pool.
/// A request for more than the user owns is not clamped here; it fails.
///
/// Returns the b-tokens debited and the shares burned. On any error no
/// record changes.
pub fn withdraw(
    vault: &mut VaultData,
    user_shares: &mut i128,
    reward_data: &mut Option<RewardData>,
    user_rewards: &mut Option<UserRewards>,
    fee: &Fee,
    now: u64,
    new_rate: i128,
    amount: i128,
) -> (r: Result<(i128, i128), FeeVaultError>)
    requires
        old(vault).wf(),
        fee.wf(),
        new_rate > 0,
        *old(user_shares) >= 0,
        *old(reward_data) matches Some(d) ==> d.wf() && reward_update_in_bounds(
            d,
            now as int,
            old(vault).total_shares as int,
        ),
        *old(user_rewards) matches Some(u) ==> u.wf(),
        *old(reward_data) matches Some(d) ==> user_update_in_bounds(
            spec_updated_reward_data(d, now as int, old(vault).total_shares as int),
            *old(user_rewards),
            *old(user_shares) as int,
        ),
        withdraw_in_bounds(*old(vault), *fee, now as int, new_rate as int, amount as int),
    ensures
        ({
            let rv = old(vault).spec_update_rate(*fee, now as int, new_rate as int);
            let b = rv.spec_underlying_to_b_tokens_up(amount as int);
            let s = rv.spec_b_tokens_to_shares_up(b);
            let unchanged = *final(vault) == *old(vault) && *final(user_shares) == *old(
                user_shares,
            ) && *final(reward_data) == *old(reward_data) && *final(user_rewards) == *old(
                user_rewards,
            );
            &&& (b <= 0 ==> r == Result::<(i128, i128), FeeVaultError>::Err(
                FeeVaultError::InvalidBTokensBurnt,
            ) && unchanged)
            &&& (b > 0 && s <= 0 ==> r == Result::<(i128, i128), FeeVaultError>::Err(
                FeeVaultError::InvalidSharesBurnt,
            ) && unchanged)
            &&& (b > 0 && s > 0 && (rv.total_shares < s || rv.total_b_tokens < b) ==> r
                == Result::<(i128, i128), FeeVaultError>::Err(
                FeeVaultError::InsufficientReserves,
            ) && unchanged)
            &&& (b > 0 && s > 0 && rv.total_shares >= s && rv.total_b_tokens >= b && s > *old(
                user_shares,
            ) ==> r == Result::<(i128, i128), FeeVaultError>::Err(
                FeeVaultError::BalanceError,
            ) && unchanged)
            &&& (b > 0 && s > 0 && rv.total_shares >= s && rv.total_b_tokens >= b && s <= *old(
                user_shares,
            ) ==> {
                &&& r == Result::<(i128, i128), FeeVaultError>::Ok(((b as i128), (s as i128)))
                &&& *final(vault) == VaultData {
                    total_shares: (rv.total_shares - s) as i128,
                    total_b_tokens: (rv.total_b_tokens - b) as i128,
                    ..rv
                }
                &&& final(vault).wf()
                &&& *final(user_shares) == *old(user_shares) - s
                &&& *final(reward_data) == match *old(reward_data) {
                    Some(d) => Some(
                        spec_updated_reward_data(
                            d,
                            now as int,
                            old(vault).total_shares as int,
                        ),
                    ),
                    None => None::<RewardData>,
                }
                &&& *final(user_rewards) == match *old(reward_data) {
                    Some(d) => Some(
                        spec_touched_user(
                            spec_updated_reward_data(
                                d,
                                now as int,
                                old(vault).total_shares as int,
                            ),
                            *old(user_rewards),
                            *old(user_shares) as int,
                        ),
                    ),
                    None => *old(user_rewards),
                }
            })
        }),
{
    let mut v = *vault;
    v.update_rate(now, new_rate, fee);
    let mut rd = *reward_data;
    let mut ur = *user_rewards;
    // settle rewards against the pre-mutation share balances
    update_rewards(&mut rd, &mut ur, now, v.total_shares, *user_shares);
    let b_tokens_amount = v.underlying_to_b_tokens_up(amount);
    if b_tokens_amount <= 0 {
        return Err(FeeVaultError::InvalidBTokensBurnt);
    }
    let share_amount = v.b_tokens_to_shares_up(b_tokens_amount);
    if share_amount <= 0 {
        return Err(FeeVaultError::InvalidSharesBurnt);
    }
    if v.total_shares < share_amount || v.total_b_tokens < b_tokens_amount {
        return Err(FeeVaultError::InsufficientReserves);
    }
    if share_amount > *user_shares {
        return Err(FeeVaultError::BalanceError);
    }
    v.total_shares = v.total_shares - share_amount;
    v.total_b_tokens = v.total_b_tokens - b_tokens_amount;
    *vault = v;
    *user_shares = *user_shares - share_amount;
    *reward_data = rd;
    *user_rewards = ur;
    Ok((b_tokens_amount, share_amount))
}

/// Deposit underlying into the admin's fee balance: refresh the ledger and
/// credit the converted b-tokens (rounded down) to the admin alone. Neither
/// shares nor depositor b-tokens move, so no reward touch is needed.
pub fn admin_deposit(
    vault: &mut VaultData,
    fee: &Fee,
    now: u64,
    new_rate: i128,
    amount: i128,
) -> (r: Result<i128, FeeVaultError>)
    requires
        old(vault).wf(),
        fee.wf(),
        new_rate > 0,
        old(vault).update_rate_in_bounds(*fee, now as int, new_rate as int),
        fits_i128(amount * SCALAR_12),
        ({
            let rv = old(vault).spec_update_rate(*fee, now as int, new_rate as int);
            let b = rv.spec_underlying_to_b_tokens_down(amount as int);
            b > 0 ==> fits_i128(rv.admin_balance + b)
        }),
    ensures
        ({
            let rv = old(vault).spec_update_rate(*fee, now as int, new_rate as int);
            let b = rv.spec_underlying_to_b_tokens_down(amount as int);
            &&& (b <= 0 ==> r == Result::<i128, FeeVaultError>::Err(
                FeeVaultError::InvalidBTokensMinted,
            ) && *final(vault) == *old(vault))
            &&& (b > 0 ==> {
                &&& r == Result::<i128, FeeVaultError>::Ok(b as i128)
                &&& *final(vault) == VaultData {
                    admin_balance: (rv.admin_balance + b) as i128,
                    ..rv
                }
                &&& final(vault).wf()
            })
        }),
{
    let mut v = *vault;
    v.update_rate(now, new_rate, fee);
    let b_tokens_amount = v.underlying_to_b_tokens_down(amount);
    if b_tokens_amount <= 0 {
        return Err(FeeVaultError::InvalidBTokensMinted);
    }
    v.admin_balance = v.admin_balance + b_tokens_amount;
    *vault = v;
    Ok(b_tokens_amount)
}

/// Withdraw underlying from the admin's fee balance: refresh the ledger and
/// debit the converted b-tokens (rounded up) from the admin alone. Unlike
/// fixed-rate accrual, an explicit withdrawal may not drive the balance
/// negative.
pub fn admin_withdraw(
    vault: &mut VaultData,
    fee: &Fee,
    now: u64,
    new_rate: i128,
    amount: i128,
) -> (r: Result<i128, FeeVaultError>)
    requires
        old(vault).wf(),
        fee.wf(),
        new_rate > 0,
        old(vault).update_rate_in_bounds(*fee, now as int, new_rate as int),
        fits_i128(amount * SCALAR_12),
    ensures
        ({
            let rv = old(vault).spec_update_rate(*fee, now as int, new_rate as int);
            let b = rv.spec_underlying_to_b_tokens_up(amount as int);
            &&& (b <= 0 ==> r == Result::<i128, FeeVaultError>::Err(
                FeeVaultError::InvalidBTokensBurnt,
            ) && *final(vault) == *old(vault))
            &&& (b > 0 && b > rv.admin_balance ==> r == Result::<i128, FeeVaultError>::Err(
                FeeVaultError::BalanceError,
            ) && *final(vault) == *old(vault))
            &&& (b > 0 && b <= rv.admin_balance ==> {
                &&& r == Result::<i128, FeeVaultError>::Ok(b as i128)
                &&& *final(vault) == VaultData {
                    admin_balance: (rv.admin_balance - b) as i128,
                    ..rv
                }
                &&& final(vault).wf()
            })
        }),
{
    let mut v = *vault;
    v.update_rate(now, new_rate, fee);
    let b_tokens_burnt = v.underlying_to_b_tokens_up(amount);
    if b_tokens_burnt <= 0 {
        return Err(FeeVaultError::InvalidBTokensBurnt);
    }
    if b_tokens_burnt > v.admin_balance {
        return Err(FeeVaultError::BalanceError);
    }
    v.admin_balance = v.admin_balance - b_tokens_burnt;
    *vault = v;
    Ok(b_tokens_burnt)
}

} // verus!
