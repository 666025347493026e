use vstd::prelude::*;

use crate::constants::SCALAR_7;
use crate::math::{
    fits_i128, floor_div, lemma_floor_div_ordered, lemma_floor_div_range, lemma_floor_div_sign,
    lemma_floor_div_superadd, muldiv_floor,
};
use crate::storage::{Fee, RewardData};
use crate::vault::VaultData;

verus! {

/// The sum of a sequence of per-user share balances.
pub open spec fn sum_shares(balances: Seq<int>) -> int
    decreases balances.len(),
{
    if balances.len() == 0 {
        0
    } else {
        balances[0] + sum_shares(balances.drop_first())
    }
}

/// The b-tokens the users' shares convert to (each rounded down, as the
/// read-only views convert them), summed over all users.
pub open spec fn sum_share_values(balances: Seq<int>, v: VaultData) -> int
    decreases balances.len(),
{
    if balances.len() == 0 {
        0
    } else {
        v.spec_shares_to_b_tokens_down(balances[0]) + sum_share_values(balances.drop_first(), v)
    }
}

/// Conservation of shares: an operation that moves `delta` shares moves one
/// user's balance and the vault's total by the same amount, so the users'
/// balances keep summing to the total. Deposits and withdrawals do exactly
/// that — their contracts add or subtract one `share_amount` on both sides —
/// and fee accrual touches no shares at all.
pub proof fn lemma_share_sum_preserved(balances: Seq<int>, i: int, delta: int, total: int)
    requires
        0 <= i < balances.len(),
        sum_shares(balances) == total,
    ensures
        sum_shares(balances.update(i, balances[i] + delta)) == total + delta,
    decreases balances.len(),
{
    let updated = balances.update(i, balances[i] + delta);
    if i == 0 {
        assert(updated.drop_first() =~= balances.drop_first());
    } else {
        assert(updated.drop_first() =~= balances.drop_first().update(
            i - 1,
            balances.drop_first()[i - 1] + delta,
        ));
        lemma_share_sum_preserved(
            balances.drop_first(),
            i - 1,
            delta,
            sum_shares(balances.drop_first()),
        );
    }
}

/// Each user's floored share value stays below the exact pro-rata value, so
/// the sum over any set of users is bounded by the pro-rata value of their
/// combined shares.
proof fn lemma_sum_values_le_pro_rata(balances: Seq<int>, v: VaultData)
    requires
        v.wf(),
        v.total_shares > 0,
    ensures
        sum_share_values(balances, v) <= floor_div(
            sum_shares(balances) * v.total_b_tokens,
            v.total_shares as int,
        ),
    decreases balances.len(),
{
    let s = v.total_shares as int;
    let b = v.total_b_tokens as int;
    if balances.len() == 0 {
        vstd::arithmetic::div_mod::lemma_div_of0(s);
    } else {
        let b0 = balances[0];
        let rest = balances.drop_first();
        lemma_sum_values_le_pro_rata(rest, v);
        lemma_floor_div_superadd(b0 * b, sum_shares(rest) * b, s);
        assert((b0 + sum_shares(rest)) * b == b0 * b + sum_shares(rest) * b) by (nonlinear_arith);
    }
}

/// Conservation of value: when the users' balances sum to the vault's total
/// shares, the b-tokens their shares convert to (each rounded down) sum to
/// no more than the b-tokens the vault holds for depositors. Rounding can
/// only strand dust in the vault, never mint claims out of thin air.
pub proof fn lemma_share_value_bound(balances: Seq<int>, v: VaultData)
    requires
        v.wf(),
        v.total_shares > 0,
        sum_shares(balances) == v.total_shares,
    ensures
        sum_share_values(balances, v) <= v.total_b_tokens,
{
    let s = v.total_shares as int;
    let b = v.total_b_tokens as int;
    lemma_sum_values_le_pro_rata(balances, v);
    assert(sum_shares(balances) * b == s * b) by (nonlinear_arith)
        requires
            sum_shares(balances) == s,
    ;
    vstd::arithmetic::div_mod::lemma_div_multiples_vanish(b, s);
}

/// Rounding bias, deposit side: the shares minted for a b-token amount never
/// exceed the exact pro-rata ratio — scaled back to b-tokens, the minted
/// shares are worth at most what was paid in.
pub proof fn lemma_deposit_rounding_bias(v: VaultData, amount: int)
    requires
        v.wf(),
        v.total_shares > 0,
        v.total_b_tokens > 0,
    ensures
        v.spec_b_tokens_to_shares_down(amount) * v.total_b_tokens <= amount * v.total_shares,
{
    let s = v.total_shares as int;
    let b = v.total_b_tokens as int;
    lemma_floor_div_range(amount * s, b);
    assert(v.spec_b_tokens_to_shares_down(amount) * b == b * floor_div(amount * s, b))
        by (nonlinear_arith)
        requires
            v.spec_b_tokens_to_shares_down(amount) == floor_div(amount * s, b),
    ;
}

/// Rounding bias, withdraw side: the shares burned for a b-token amount are
/// never below the exact pro-rata ratio — the withdrawer always pays at
/// least full price in shares.
pub proof fn lemma_withdraw_rounding_bias(v: VaultData, amount: int)
    requires
        v.wf(),
        v.total_shares > 0,
        v.total_b_tokens > 0,
    ensures
        v.spec_b_tokens_to_shares_up(amount) * v.total_b_tokens >= amount * v.total_shares,
{
    let s = v.total_shares as int;
    let b = v.total_b_tokens as int;
    crate::math::lemma_ceil_div_range(amount * s, b);
    assert(v.spec_b_tokens_to_shares_up(amount) * b == b * crate::math::ceil_div(amount * s, b))
        by (nonlinear_arith)
        requires
            v.spec_b_tokens_to_shares_up(amount) == crate::math::ceil_div(amount * s, b),
    ;
}

/// Rounding bias, underlying leg: the b-tokens credited for a deposit are
/// worth at most the underlying paid in, and the b-tokens debited for a
/// withdrawal at least the underlying paid out. Together with the share-side
/// bias, every rounding on both conversion legs favors the remaining pool.
pub proof fn lemma_underlying_conversion_bias(v: VaultData, amount: int)
    requires
        v.wf(),
    ensures
        v.spec_underlying_to_b_tokens_down(amount) * v.b_rate <= amount * (
        crate::constants::SCALAR_12 as int),
        v.spec_underlying_to_b_tokens_up(amount) * v.b_rate >= amount * (
        crate::constants::SCALAR_12 as int),
{
    let s12 = crate::constants::SCALAR_12 as int;
    let br = v.b_rate as int;
    lemma_floor_div_range(amount * s12, br);
    assert(v.spec_underlying_to_b_tokens_down(amount) * br == br * floor_div(amount * s12, br))
        by (nonlinear_arith)
        requires
            v.spec_underlying_to_b_tokens_down(amount) == floor_div(amount * s12, br),
    ;
    crate::math::lemma_ceil_div_range(amount * s12, br);
    assert(v.spec_underlying_to_b_tokens_up(amount) * br == br * crate::math::ceil_div(
        amount * s12,
        br,
    )) by (nonlinear_arith)
        requires
            v.spec_underlying_to_b_tokens_up(amount) == crate::math::ceil_div(amount * s12, br),
    ;
}

/// Capped rate below the cap: a refresh whose fresh rate stays at or below
/// the target rate charges no fee — the admin balance and the depositors'
/// b-tokens are unchanged, and all yield passes to depositors.
pub proof fn lemma_capped_rate_below_cap(v: VaultData, fee: Fee, now: int, new_rate: int)
    requires
        v.wf(),
        fee.rate_type == 1,
        new_rate <= v.spec_target_b_rate(fee, now),
    ensures
        v.spec_update_rate(fee, now, new_rate).admin_balance == v.admin_balance,
        v.spec_update_rate(fee, now, new_rate).total_b_tokens == v.total_b_tokens,
{
    if new_rate > v.b_rate {
        lemma_b_token_diff_nonpositive(v, fee, now, new_rate);
    }
}

/// Fixed rate below the target: the refresh decreases the admin balance by
/// exactly the floored shortfall between the target yield and the actual
/// yield, in b-tokens, and credits the same amount to the depositors. The
/// admin balance may go negative this way.
pub proof fn lemma_fixed_rate_supplement(v: VaultData, fee: Fee, now: int, new_rate: int)
    requires
        v.wf(),
        fee.rate_type == 2,
        v.b_rate < new_rate,
        new_rate <= v.spec_target_b_rate(fee, now),
        fits_i128(v.total_b_tokens - v.spec_b_token_diff(fee, now, new_rate)),
        fits_i128(v.admin_balance + v.spec_b_token_diff(fee, now, new_rate)),
    ensures
        v.spec_b_token_diff(fee, now, new_rate) <= 0,
        v.spec_update_rate(fee, now, new_rate).admin_balance == v.admin_balance
            + v.spec_b_token_diff(fee, now, new_rate),
        v.spec_update_rate(fee, now, new_rate).total_b_tokens == v.total_b_tokens
            - v.spec_b_token_diff(fee, now, new_rate),
        v.spec_update_rate(fee, now, new_rate).admin_balance <= v.admin_balance,
        v.spec_update_rate(fee, now, new_rate).total_b_tokens >= v.total_b_tokens,
{
    lemma_b_token_diff_nonpositive(v, fee, now, new_rate);
}

/// A fresh rate at or below the target makes the b-token difference
/// non-positive: the vault earned no more than the target owed.
proof fn lemma_b_token_diff_nonpositive(v: VaultData, fee: Fee, now: int, new_rate: int)
    requires
        v.wf(),
        v.b_rate < new_rate,
        new_rate <= v.spec_target_b_rate(fee, now),
    ensures
        v.spec_b_token_diff(fee, now, new_rate) <= 0,
{
    let tb = v.total_b_tokens as int;
    let target = v.spec_target_b_rate(fee, now);
    let e = new_rate - target;
    assert(tb * e <= 0) by (nonlinear_arith)
        requires
            tb >= 0,
            e <= 0,
    ;
    lemma_floor_div_sign(tb * e, new_rate);
}

/// Idempotence of the lazy reward index update: bringing a stream up to the
/// same time twice, with the same total shares, changes nothing the second
/// time — `index` and `last_time` stay put.
pub proof fn lemma_reward_update_idempotent(d: RewardData, now: int, total_shares: int)
    requires
        0 <= now <= u64::MAX,
    ensures
        crate::rewards::spec_updated_reward_data(
            crate::rewards::spec_updated_reward_data(d, now, total_shares),
            now,
            total_shares,
        ) == crate::rewards::spec_updated_reward_data(d, now, total_shares),
{
}

/// Reward fairness up to rounding: a holder of `k` times the shares accrues
/// at least `k` times a single holder's accrual over the same index growth,
/// and at most `k - 1` minimal units more — the floor loses less than one
/// unit per touch.
pub proof fn lemma_accrual_proportional(shares: int, k: int, delta: int)
    requires
        shares >= 0,
        k >= 1,
        delta >= 0,
    ensures
        ({
            let small = muldiv_floor(shares, delta, SCALAR_7 as int);
            let large = muldiv_floor(k * shares, delta, SCALAR_7 as int);
            k * small <= large <= k * small + (k - 1)
        }),
{
    let s7 = SCALAR_7 as int;
    let x = shares * delta;
    let small = floor_div(x, s7);
    let large = floor_div(k * shares * delta, s7);
    assert(k * shares * delta == k * x) by (nonlinear_arith)
        requires
            x == shares * delta,
    ;
    lemma_floor_div_range(x, s7);
    lemma_floor_div_range(k * x, s7);
    // lower bound: k * (s7 * small) <= k * x, so k * small survives the floor
    assert(s7 * (k * small) <= k * x) by (nonlinear_arith)
        requires
            s7 * small <= x,
            k >= 1,
    ;
    vstd::arithmetic::div_mod::lemma_div_multiples_vanish(k * small, s7);
    lemma_floor_div_ordered(s7 * (k * small), k * x, s7);
    // upper bound: k * x < s7 * (k * small + k), so the floor stays under it
    assert(k * x < s7 * (k * small + k)) by (nonlinear_arith)
        requires
            x < s7 * (small + 1),
            k >= 1,
            s7 > 0,
    ;
    assert(large < k * small + k) by (nonlinear_arith)
        requires
            s7 * large <= k * x,
            k * x < s7 * (k * small + k),
            s7 > 0,
    ;
}

} // verus!
