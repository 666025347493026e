use vstd::prelude::*;

use crate::constants::SCALAR_7;
use crate::errors::FeeVaultError;
use crate::math::{
    fits_i128, fixed_div_floor, fixed_mul_floor, floor_div, lemma_floor_div_sign, muldiv_floor,
};
use crate::storage::{RewardData, UserRewards};

verus! {

/// What the lazy index update computes: nothing while the stream is already
/// settled (expired, zero emission, zero shares, or no time elapsed), and
/// otherwise the emission since `last_time` — capped at the expiration —
/// spread over the current shares and added to the index.
pub open spec fn spec_updated_reward_data(d: RewardData, now: int, total_shares: int) -> RewardData {
    if d.last_time >= d.expiration || now == d.last_time || d.eps == 0 || total_shares == 0 {
        d
    } else {
        let max_t = if now > d.expiration {
            d.expiration as int
        } else {
            now
        };
        let additional = muldiv_floor((max_t - d.last_time) * d.eps, SCALAR_7 as int, total_shares);
        RewardData {
            expiration: d.expiration,
            eps: d.eps,
            last_time: now as u64,
            index: (d.index + additional) as i128,
        }
    }
}

/// The machine-width side conditions under which the lazy index update
/// cannot overflow: time has not run backwards since `last_time`, and the
/// emitted amount and the grown index fit an `i128`.
pub open spec fn reward_update_in_bounds(d: RewardData, now: int, total_shares: int) -> bool {
    (d.last_time < d.expiration && now != d.last_time && d.eps != 0 && total_shares != 0) ==> {
        let max_t = if now > d.expiration {
            d.expiration as int
        } else {
            now
        };
        &&& max_t >= d.last_time
        &&& fits_i128((max_t - d.last_time) * d.eps)
        &&& fits_i128((max_t - d.last_time) * d.eps * SCALAR_7)
        &&& fits_i128(
            d.index + muldiv_floor((max_t - d.last_time) * d.eps, SCALAR_7 as int, total_shares),
        )
    }
}

/// Bring a reward stream's cumulative index up to `now`. Pure: the caller
/// persists the result. Returns `None` exactly when no stream exists.
pub fn load_updated_reward_data(
    reward_data: &Option<RewardData>,
    now: u64,
    total_shares: i128,
) -> (r: Option<RewardData>)
    requires
        total_shares >= 0,
        reward_data matches Some(d) ==> d.wf() && reward_update_in_bounds(
            *d,
            now as int,
            total_shares as int,
        ),
    ensures
        r == match *reward_data {
            Some(d) => Some(spec_updated_reward_data(d, now as int, total_shares as int)),
            None => None::<RewardData>,
        },
        r matches Some(u) ==> u.wf(),
{
    match reward_data {
        Some(d) => {
            if d.last_time >= d.expiration || now == d.last_time || d.eps == 0 || total_shares == 0
            {
                // already settled or nothing to spread the emission over
                return Some(*d);
            }
            let max_timestamp = if now > d.expiration {
                d.expiration
            } else {
                now
            };
            let emitted: i128 = (max_timestamp - d.last_time) as i128 * (d.eps as i128);
            proof {
                vstd::arithmetic::mul::lemma_mul_nonnegative(
                    max_timestamp - d.last_time,
                    d.eps as int,
                );
                vstd::arithmetic::mul::lemma_mul_nonnegative(emitted as int, SCALAR_7 as int);
                lemma_floor_div_sign(emitted * SCALAR_7, total_shares as int);
            }
            let additional_idx = fixed_div_floor(emitted, total_shares, SCALAR_7).unwrap();
            Some(
                RewardData {
                    expiration: d.expiration,
                    eps: d.eps,
                    last_time: now,
                    index: d.index + additional_idx,
                },
            )
        },
        None => None,
    }
}

/// The reward amount a touch newly credits to the user: their shares times
/// the growth of the global index past the index they last observed, rounded
/// down. A user index at or ahead of the global index credits nothing.
pub open spec fn spec_user_accrual(rd: RewardData, ur: UserRewards, user_shares: int) -> int {
    if user_shares != 0 && rd.index > ur.index {
        muldiv_floor(user_shares, rd.index - ur.index, SCALAR_7 as int)
    } else {
        0
    }
}

/// The user's record after a touch, before any claim zeroes the accrual:
/// a known user accrues against their observed index; a new user with no
/// shares just records the current index; a new user who already held
/// shares is owed the full historical index.
pub open spec fn spec_touched_user(
    rd: RewardData,
    ur_opt: Option<UserRewards>,
    user_shares: int,
) -> UserRewards {
    match ur_opt {
        Some(ur) => UserRewards {
            index: rd.index,
            accrued: (ur.accrued + spec_user_accrual(rd, ur, user_shares)) as i128,
        },
        None => if user_shares == 0 {
            UserRewards { index: rd.index, accrued: 0 }
        } else {
            UserRewards {
                index: rd.index,
                accrued: muldiv_floor(user_shares, rd.index as int, SCALAR_7 as int) as i128,
            }
        },
    }
}

/// The machine-width side conditions under which a user touch cannot
/// overflow: the accrual product and the grown accrual fit an `i128`.
pub open spec fn user_update_in_bounds(
    rd: RewardData,
    ur_opt: Option<UserRewards>,
    user_shares: int,
) -> bool {
    match ur_opt {
        Some(ur) => user_shares != 0 && rd.index > ur.index ==> {
            &&& fits_i128(user_shares * (rd.index - ur.index))
            &&& fits_i128(
                ur.accrued + muldiv_floor(user_shares, rd.index - ur.index, SCALAR_7 as int),
            )
        },
        None => user_shares != 0 ==> fits_i128(user_shares * rd.index),
    }
}

/// Build the user record a touch stores, and the payout it returns: a claim
/// stores a zeroed accrual and pays the whole balance out; a plain touch
/// stores the balance and pays nothing.
pub fn set_user_rewards(index: i128, accrued: i128, to_claim: bool) -> (r: (UserRewards, i128))
    ensures
        to_claim ==> r == (UserRewards { index, accrued: 0i128 }, accrued),
        !to_claim ==> r == (UserRewards { index, accrued }, 0i128),
{
    if to_claim {
        (UserRewards { index, accrued: 0 }, accrued)
    } else {
        (UserRewards { index, accrued }, 0)
    }
}

/// Settle a user against the already-updated reward stream. Returns the
/// record to persist and the amount to pay out (zero unless claiming).
/// The user's share balance must be the balance from *before* whatever
/// ledger mutation this touch precedes.
pub fn update_user_rewards(
    reward_data: &RewardData,
    user_rewards: &Option<UserRewards>,
    user_shares: i128,
    to_claim: bool,
) -> (r: (UserRewards, i128))
    requires
        reward_data.wf(),
        user_rewards matches Some(u) ==> u.wf(),
        user_shares >= 0,
        user_update_in_bounds(*reward_data, *user_rewards, user_shares as int),
    ensures
        ({
            let touched = spec_touched_user(*reward_data, *user_rewards, user_shares as int);
            &&& (to_claim ==> r == (
                UserRewards { index: touched.index, accrued: 0i128 },
                touched.accrued,
            ))
            &&& (!to_claim ==> r == (touched, 0i128))
            &&& r.0.wf()
            &&& r.1 >= 0
        }),
{
    proof {
        let rd = *reward_data;
        if user_shares != 0 {
            match *user_rewards {
                Some(ur) => {
                    if rd.index > ur.index {
                        vstd::arithmetic::mul::lemma_mul_nonnegative(
                            user_shares as int,
                            rd.index - ur.index,
                        );
                        lemma_floor_div_sign(
                            user_shares * (rd.index - ur.index),
                            SCALAR_7 as int,
                        );
                    }
                },
                None => {
                    vstd::arithmetic::mul::lemma_mul_nonnegative(
                        user_shares as int,
                        rd.index as int,
                    );
                    lemma_floor_div_sign(user_shares * rd.index, SCALAR_7 as int);
                },
            }
        }
    }
    match user_rewards {
        Some(user_data) => {
            if user_data.index != reward_data.index || to_claim {
                let mut accrual = user_data.accrued;
                if user_shares != 0 && reward_data.index > user_data.index {
                    let delta_index = reward_data.index - user_data.index;
                    let to_accrue = fixed_mul_floor(user_shares, delta_index, SCALAR_7).unwrap();
                    accrual = accrual + to_accrue;
                }
                set_user_rewards(reward_data.index, accrual, to_claim)
            } else {
                // indexes agree and nothing is claimed: the stored record
                // would be rewritten unchanged
                (*user_data, 0)
            }
        },
        None => {
            if user_shares == 0 {
                // first interaction since this stream began, with no stake:
                // nothing is owed yet
                set_user_rewards(reward_data.index, 0, to_claim)
            } else {
                // the user held shares before this stream was recorded for
                // them: they are owed the full historical index
                let to_accrue = fixed_mul_floor(user_shares, reward_data.index, SCALAR_7).unwrap();
                set_user_rewards(reward_data.index, to_accrue, to_claim)
            }
        },
    }
}

/// Compute a whole-period emission rate: the amount spread evenly over the
/// period, rounded down. Fails when the rate rounds to zero or exceeds the
/// emission rate's numeric ceiling.
pub fn calculate_eps(reward_amount: i128, reward_period: u64) -> (r: Result<u64, FeeVaultError>)
    requires
        reward_period > 0,
    ensures
        reward_amount <= 0 ==> r == Result::<u64, FeeVaultError>::Err(
            FeeVaultError::InvalidRewardConfig,
        ),
        reward_amount > 0 ==> ({
            let q = floor_div(reward_amount as int, reward_period as int);
            &&& (q == 0 ==> r == Result::<u64, FeeVaultError>::Err(
                FeeVaultError::InvalidRewardConfig,
            ))
            &&& (q > u64::MAX ==> r == Result::<u64, FeeVaultError>::Err(
                FeeVaultError::InvalidRewardConfig,
            ))
            &&& (1 <= q <= u64::MAX ==> r == Result::<u64, FeeVaultError>::Ok(q as u64))
        }),
{
    if reward_amount <= 0 {
        return Err(FeeVaultError::InvalidRewardConfig);
    }
    proof {
        vstd::arithmetic::div_mod::lemma_div_pos_is_pos(
            reward_amount as int,
            reward_period as int,
        );
        vstd::arithmetic::div_mod::lemma_div_is_ordered_by_denominator(
            reward_amount as int,
            1,
            reward_period as int,
        );
    }
    let new_eps = reward_amount.checked_div(reward_period as i128).unwrap();
    if new_eps <= 0 || new_eps > u64::MAX as i128 {
        return Err(FeeVaultError::InvalidRewardConfig);
    }
    Ok(new_eps as u64)
}

/// What a successful reward configuration hands back to be persisted.
#[derive(Clone, Copy, Debug, PartialEq, Eq)]
pub struct SetRewardsResult {
    /// The stream record to store for the configured token.
    pub reward_data: RewardData,
    /// The settled record to store for the previously active token, present
    /// only when that token is a different one whose stream had data.
    pub prior_token_data: Option<RewardData>,
    /// Whether the configured token becomes the vault's current reward
    /// token. False only when an active stream of the same token was topped
    /// up.
    pub make_current: bool,
}

/// The machine-width side conditions under which configuring rewards cannot
/// overflow: the records' lazy updates fit, and topping up an active stream
/// keeps the combined emission within an `i128`.
pub open spec fn set_rewards_in_bounds(
    now: int,
    total_shares: int,
    cur_reward_data: Option<RewardData>,
    new_token_data: Option<RewardData>,
    reward_amount: int,
) -> bool {
    &&& (cur_reward_data matches Some(d) ==> d.wf() && reward_update_in_bounds(
        d,
        now,
        total_shares,
    ))
    &&& (new_token_data matches Some(d) ==> d.wf() && reward_update_in_bounds(
        d,
        now,
        total_shares,
    ))
    &&& (cur_reward_data matches Some(d) ==> {
        let upd = spec_updated_reward_data(d, now, total_shares);
        upd.expiration > now ==> {
            &&& fits_i128((upd.expiration - now) * upd.eps)
            &&& fits_i128(reward_amount + (upd.expiration - now) * upd.eps)
        }
    })
}

/// Configure the vault's reward stream: `reward_amount` of `reward_token`,
/// already transferred into the vault's custody by the caller, to be emitted
/// evenly until `expiration`.
///
/// While a stream is still active it can only be topped up: the token must
/// stay the same and the expiration cannot shorten, and the remaining
/// emission is folded into the new rate with the index carried over. With no
/// active stream, a fresh period starts and the token's own preserved index
/// (if it was ever used before) carries forward, so switching back to an
/// earlier token resumes where it left off.
///
/// `cur_reward_data` is the stored record of `cur_reward_token`, and
/// `new_token_data` the stored record of `reward_token` itself; when the two
/// tokens coincide the caller passes the same record twice.
pub fn set_rewards(
    now: u64,
    total_shares: i128,
    reward_token: u64,
    cur_reward_token: Option<u64>,
    cur_reward_data: &Option<RewardData>,
    new_token_data: &Option<RewardData>,
    reward_amount: i128,
    expiration: u64,
) -> (r: Result<SetRewardsResult, FeeVaultError>)
    requires
        total_shares >= 0,
        set_rewards_in_bounds(
            now as int,
            total_shares as int,
            *cur_reward_data,
            *new_token_data,
            reward_amount as int,
        ),
    ensures
        expiration <= now || reward_amount <= 0 ==> r == Result::<
            SetRewardsResult,
            FeeVaultError,
        >::Err(FeeVaultError::InvalidRewardConfig),
        expiration > now && reward_amount > 0 ==> {
            let period = expiration - now;
            if cur_reward_token is Some && (*cur_reward_data) is Some && spec_updated_reward_data(
                (*cur_reward_data)->Some_0,
                now as int,
                total_shares as int,
            ).expiration > now {
                // an active stream exists
                let upd = spec_updated_reward_data(
                    (*cur_reward_data)->Some_0,
                    now as int,
                    total_shares as int,
                );
                if cur_reward_token->Some_0 != reward_token || expiration < upd.expiration {
                    r == Result::<SetRewardsResult, FeeVaultError>::Err(
                        FeeVaultError::InvalidRewardConfig,
                    )
                } else {
                    let total = reward_amount + (upd.expiration - now) * upd.eps;
                    let q = floor_div(total, period as int);
                    if 1 <= q <= u64::MAX {
                        r == Result::<SetRewardsResult, FeeVaultError>::Ok(
                            SetRewardsResult {
                                reward_data: RewardData {
                                    expiration,
                                    eps: q as u64,
                                    last_time: now,
                                    index: upd.index,
                                },
                                prior_token_data: None,
                                make_current: false,
                            },
                        )
                    } else {
                        r == Result::<SetRewardsResult, FeeVaultError>::Err(
                            FeeVaultError::InvalidRewardConfig,
                        )
                    }
                }
            } else {
                // no active stream: start a fresh period, carrying the new
                // token's own preserved index forward
                let carried = match *new_token_data {
                    Some(nd) => spec_updated_reward_data(
                        nd,
                        now as int,
                        total_shares as int,
                    ).index as int,
                    None => 0,
                };
                let q = floor_div(reward_amount as int, period as int);
                if 1 <= q <= u64::MAX {
                    r == Result::<SetRewardsResult, FeeVaultError>::Ok(
                        SetRewardsResult {
                            reward_data: RewardData {
                                expiration,
                                eps: q as u64,
                                last_time: now,
                                index: carried as i128,
                            },
                            prior_token_data: if cur_reward_token is Some
                                && cur_reward_token->Some_0 != reward_token
                                && (*cur_reward_data) is Some {
                                Some(
                                    spec_updated_reward_data(
                                        (*cur_reward_data)->Some_0,
                                        now as int,
                                        total_shares as int,
                                    ),
                                )
                            } else {
                                None
                            },
                            make_current: true,
                        },
                    )
                } else {
                    r == Result::<SetRewardsResult, FeeVaultError>::Err(
                        FeeVaultError::InvalidRewardConfig,
                    )
                }
            }
        },
{
    if expiration <= now || reward_amount <= 0 {
        return Err(FeeVaultError::InvalidRewardConfig);
    }
    let reward_period = expiration - now;
    // check whether the currently configured token still has an active
    // stream once brought up to date
    let cur_updated = load_updated_reward_data(cur_reward_data, now, total_shares);
    if cur_reward_token.is_some() {
        match cur_updated {
            Some(cur_upd) => {
                if cur_upd.expiration > now {
                    // active stream: only a top-up of the same token that
                    // does not shorten the period is allowed
                    if cur_reward_token.unwrap() != reward_token || expiration
                        < cur_upd.expiration {
                        return Err(FeeVaultError::InvalidRewardConfig);
                    }
                    let cur_time_left = cur_upd.expiration - now;
                    let to_emit_total = reward_amount + (cur_time_left as i128) * (
                    cur_upd.eps as i128);
                    let new_eps = match calculate_eps(to_emit_total, reward_period) {
                        Ok(e) => e,
                        Err(err) => { return Err(err) },
                    };
                    return Ok(
                        SetRewardsResult {
                            reward_data: RewardData {
                                expiration,
                                eps: new_eps,
                                last_time: now,
                                index: cur_upd.index,
                            },
                            prior_token_data: None,
                            make_current: false,
                        },
                    );
                }
            },
            None => {},
        }
    }
    // no active stream: look up the configured token's own record so a
    // previously used token resumes from its preserved index
    let new_token_updated = load_updated_reward_data(new_token_data, now, total_shares);
    let carried_index: i128 = match new_token_updated {
        Some(nd) => nd.index,
        None => 0,
    };
    let new_eps = match calculate_eps(reward_amount, reward_period) {
        Ok(e) => e,
        Err(err) => { return Err(err) },
    };
    let prior_token_data: Option<RewardData> = match cur_reward_token {
        Some(t) => {
            if t != reward_token {
                cur_updated
            } else {
                None
            }
        },
        None => None,
    };
    Ok(
        SetRewardsResult {
            reward_data: RewardData {
                expiration,
                eps: new_eps,
                last_time: now,
                index: carried_index,
            },
            prior_token_data,
            make_current: true,
        },
    )
}

/// One reward touch, as every ledger mutation performs it: bring the active
/// stream's index up to date, then settle the user against it. Both records
/// are settled against the share balances from before the mutation. A vault
/// with no stream configured is left untouched.
pub fn update_rewards(
    reward_data: &mut Option<RewardData>,
    user_rewards: &mut Option<UserRewards>,
    now: u64,
    total_shares: i128,
    user_shares: i128,
)
    requires
        total_shares >= 0,
        user_shares >= 0,
        *old(reward_data) matches Some(d) ==> d.wf() && reward_update_in_bounds(
            d,
            now as int,
            total_shares as int,
        ),
        *old(user_rewards) matches Some(u) ==> u.wf(),
        *old(reward_data) matches Some(d) ==> user_update_in_bounds(
            spec_updated_reward_data(d, now as int, total_shares as int),
            *old(user_rewards),
            user_shares as int,
        ),
    ensures
        *final(reward_data) == match *old(reward_data) {
            Some(d) => Some(spec_updated_reward_data(d, now as int, total_shares as int)),
            None => None::<RewardData>,
        },
        *final(user_rewards) == match *old(reward_data) {
            Some(d) => Some(
                spec_touched_user(
                    spec_updated_reward_data(d, now as int, total_shares as int),
                    *old(user_rewards),
                    user_shares as int,
                ),
            ),
            None => *old(user_rewards),
        },
{
    let updated = load_updated_reward_data(reward_data, now, total_shares);
    match updated {
        Some(d) => {
            let (user_record, _payout) = update_user_rewards(&d, user_rewards, user_shares, false);
            *reward_data = Some(d);
            *user_rewards = Some(user_record);
        },
        None => {},
    }
}

/// A reward claim: the same touch as `update_rewards`, but the user's
/// settled accrual is paid out and their stored accrual reset to zero in the
/// same step, so nothing is ever counted twice. Fails if the vault has never
/// had rewards configured. The caller transfers the returned amount.
pub fn claim_rewards(
    reward_data: &mut Option<RewardData>,
    user_rewards: &mut Option<UserRewards>,
    now: u64,
    total_shares: i128,
    user_shares: i128,
) -> (r: Result<i128, FeeVaultError>)
    requires
        total_shares >= 0,
        user_shares >= 0,
        *old(reward_data) matches Some(d) ==> d.wf() && reward_update_in_bounds(
            d,
            now as int,
            total_shares as int,
        ),
        *old(user_rewards) matches Some(u) ==> u.wf(),
        *old(reward_data) matches Some(d) ==> user_update_in_bounds(
            spec_updated_reward_data(d, now as int, total_shares as int),
            *old(user_rewards),
            user_shares as int,
        ),
    ensures
        *old(reward_data) is None ==> r == Result::<i128, FeeVaultError>::Err(
            FeeVaultError::NoRewardsConfigured,
        ) && *final(reward_data) == *old(reward_data) && *final(user_rewards) == *old(
            user_rewards,
        ),
        *old(reward_data) matches Some(d) ==> ({
            let updated = spec_updated_reward_data(d, now as int, total_shares as int);
            let touched = spec_touched_user(updated, *old(user_rewards), user_shares as int);
            &&& r == Result::<i128, FeeVaultError>::Ok(touched.accrued)
            &&& touched.accrued >= 0
            &&& *final(reward_data) == Some(updated)
            &&& *final(user_rewards) == Some(
                UserRewards { index: touched.index, accrued: 0i128 },
            )
        }),
{
    let updated = load_updated_reward_data(reward_data, now, total_shares);
    match updated {
        Some(d) => {
            let (user_record, payout) = update_user_rewards(&d, user_rewards, user_shares, true);
            *reward_data = Some(d);
            *user_rewards = Some(user_record);
            Ok(payout)
        },
        None => Err(FeeVaultError::NoRewardsConfigured),
    }
}

} // verus!
