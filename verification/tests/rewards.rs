use fee_vault::errors::FeeVaultError;
use fee_vault::rewards::{
    calculate_eps, claim_rewards, load_updated_reward_data, set_rewards, update_rewards,
};
use fee_vault::storage::{RewardData, UserRewards};

const DAY: u64 = 24 * 60 * 60;
const BASE: u64 = 1713139200;

#[test]
fn test_update_rewards() {
    let now = BASE + 1234;
    let mut reward_data = Some(RewardData {
        expiration: BASE + 7 * DAY,
        eps: 0_1000000,
        index: 22222,
        last_time: BASE,
    });
    let mut user_rewards = Some(UserRewards { index: 11111, accrued: 3 });

    let total_shares: i128 = 150_0000000;
    let user_balance: i128 = 9_0000000;
    update_rewards(&mut reward_data, &mut user_rewards, now, total_shares, user_balance);

    let new_rewards_data = reward_data.unwrap();
    let new_user_data = user_rewards.unwrap();
    assert_eq!(new_rewards_data.last_time, now);
    assert_eq!(new_rewards_data.index, 8248888);
    assert_eq!(new_user_data.accrued, 7_4139996);
    assert_eq!(new_user_data.index, 8248888);
}

#[test]
fn test_update_rewards_no_data() {
    let now = BASE + 1234;
    let mut reward_data: Option<RewardData> = None;
    let mut user_rewards: Option<UserRewards> = None;

    update_rewards(&mut reward_data, &mut user_rewards, now, 150_0000000, 9_0000000);

    assert!(reward_data.is_none());
    assert!(user_rewards.is_none());
}

#[test]
fn test_update_rewards_expired_data() {
    let now = BASE + 1234;
    let mut reward_data = Some(RewardData {
        expiration: BASE,
        eps: 0_1000000,
        index: 22222,
        last_time: BASE,
    });
    let mut user_rewards = Some(UserRewards { index: 11111, accrued: 3 });

    update_rewards(&mut reward_data, &mut user_rewards, now, 150_0000000, 9_0000000);

    let new_rewards_data = reward_data.unwrap();
    let new_user_data = user_rewards.unwrap();
    // the stream is settled: nothing moves, but the user catches up against
    // the frozen index
    assert_eq!(new_rewards_data.last_time, BASE);
    assert_eq!(new_rewards_data.index, 22222);
    assert_eq!(new_user_data.accrued, 99999 + 3);
    assert_eq!(new_user_data.index, 22222);
}

#[test]
fn test_update_rewards_first_action() {
    let now = BASE + 12345;
    let mut reward_data = Some(RewardData {
        expiration: BASE + 7 * DAY,
        eps: 0_0420000,
        index: 22222,
        last_time: BASE,
    });
    let mut user_rewards: Option<UserRewards> = None;

    update_rewards(&mut reward_data, &mut user_rewards, now, 150_0000000, 0);

    let new_rewards_data = reward_data.unwrap();
    let new_user_data = user_rewards.unwrap();
    assert_eq!(new_rewards_data.last_time, now);
    assert_eq!(new_rewards_data.index, 34588222);
    assert_eq!(new_user_data.accrued, 0);
    assert_eq!(new_user_data.index, 34588222);
}

#[test]
fn test_update_rewards_config_set_after_user() {
    let now = BASE + 12345;
    let mut reward_data = Some(RewardData {
        expiration: BASE + 7 * DAY,
        eps: 0_0420000,
        index: 0,
        last_time: BASE,
    });
    let mut user_rewards: Option<UserRewards> = None;

    update_rewards(&mut reward_data, &mut user_rewards, now, 150_0000000, 9_0000000);

    let new_rewards_data = reward_data.unwrap();
    let new_user_data = user_rewards.unwrap();
    // the user held shares before the stream was recorded for them: they
    // are owed the full historical index
    assert_eq!(new_rewards_data.last_time, now);
    assert_eq!(new_rewards_data.index, 34566000);
    assert_eq!(new_user_data.accrued, 31_1094000);
    assert_eq!(new_user_data.index, 34566000);
}

#[test]
fn test_update_rewards_zero_shares() {
    let now = BASE + 1234;
    let mut reward_data = Some(RewardData {
        expiration: BASE + 7 * DAY,
        eps: 0_1000000,
        index: 22222,
        last_time: BASE,
    });
    let mut user_rewards = Some(UserRewards { index: 11111, accrued: 3 });

    update_rewards(&mut reward_data, &mut user_rewards, now, 0, 0);

    let new_rewards_data = reward_data.unwrap();
    let new_user_data = user_rewards.unwrap();
    // an empty vault leaves the index untouched; the user just observes it
    assert_eq!(new_rewards_data.last_time, BASE);
    assert_eq!(new_rewards_data.index, 22222);
    assert_eq!(new_user_data.accrued, 3);
    assert_eq!(new_user_data.index, 22222);
}

#[test]
fn test_update_rewards_negative_user_index_corrects() {
    let now = BASE + 1234;
    let mut reward_data = Some(RewardData {
        expiration: BASE + 7 * DAY,
        eps: 0_1000000,
        index: 22222,
        last_time: BASE,
    });
    // a user index ahead of the global index contributes zero accrual and is
    // corrected to the global value
    let mut user_rewards = Some(UserRewards { index: 8248888 + 1, accrued: 3 });

    update_rewards(&mut reward_data, &mut user_rewards, now, 150_0000000, 9_0000000);

    let new_rewards_data = reward_data.unwrap();
    let new_user_data = user_rewards.unwrap();
    assert_eq!(new_rewards_data.last_time, now);
    assert_eq!(new_rewards_data.index, 8248888);
    assert_eq!(new_user_data.accrued, 3);
    assert_eq!(new_user_data.index, 8248888);
}

#[test]
fn test_claim_rewards() {
    let now = BASE + 1234;
    let mut reward_data = Some(RewardData {
        expiration: BASE + 7 * DAY,
        eps: 0_1000000,
        index: 22222,
        last_time: BASE,
    });
    let mut user_rewards = Some(UserRewards { index: 11111, accrued: 3 });

    let result = claim_rewards(&mut reward_data, &mut user_rewards, now, 150_0000000, 9_0000000);

    let new_rewards_data = reward_data.unwrap();
    let new_user_data = user_rewards.unwrap();
    assert_eq!(new_rewards_data.last_time, now);
    assert_eq!(new_rewards_data.index, 8248888);
    assert_eq!(result, Ok(7_4139996));
    assert_eq!(new_user_data.accrued, 0);
    assert_eq!(new_user_data.index, 8248888);
}

#[test]
fn test_claim_rewards_no_data() {
    let mut reward_data: Option<RewardData> = None;
    let mut user_rewards: Option<UserRewards> = None;

    let result = claim_rewards(
        &mut reward_data,
        &mut user_rewards,
        BASE + 1234,
        150_0000000,
        9_0000000,
    );
    assert_eq!(result, Err(FeeVaultError::NoRewardsConfigured));
    assert!(reward_data.is_none());
    assert!(user_rewards.is_none());
}

#[test]
fn test_claim_rewards_zero_accrued() {
    let now = BASE + 1234;
    let mut reward_data = Some(RewardData {
        expiration: BASE + 7 * DAY,
        eps: 0_1000000,
        index: 22222,
        last_time: BASE,
    });
    let mut user_rewards = Some(UserRewards { index: 22222, accrued: 0 });

    // the user holds no shares, so the index growth accrues them nothing
    let result = claim_rewards(&mut reward_data, &mut user_rewards, now, 150_0000000, 0);

    let new_rewards_data = reward_data.unwrap();
    let new_user_data = user_rewards.unwrap();
    assert_eq!(new_rewards_data.last_time, now);
    assert_eq!(new_rewards_data.index, 8248888);
    assert_eq!(result, Ok(0));
    assert_eq!(new_user_data.accrued, 0);
    assert_eq!(new_user_data.index, 8248888);
}

#[test]
fn test_set_rewards_first_time() {
    let now = BASE;
    let reward_amount: i128 = 100_000_0000000;
    let expiration = now + 30 * DAY;

    let result = set_rewards(now, 150_0000000, 7, None, &None, &None, reward_amount, expiration);

    let outcome = result.unwrap();
    assert_eq!(outcome.reward_data.last_time, now);
    assert_eq!(outcome.reward_data.index, 0);
    assert_eq!(outcome.reward_data.eps, 0_0385802);
    assert_eq!(outcome.reward_data.expiration, expiration);
    assert_eq!(outcome.prior_token_data, None);
    assert!(outcome.make_current);
}

#[test]
fn test_set_rewards_same_token_active() {
    let now = BASE;
    let reward_amount: i128 = 100_000_0000000;
    let expiration = now + 30 * DAY;

    let cur_data = Some(RewardData {
        expiration: now + 7 * DAY,
        eps: 0_1000000,
        index: 22222,
        last_time: now - 1234,
    });

    let result = set_rewards(
        now,
        150_0000000,
        7,
        Some(7),
        &cur_data,
        &cur_data,
        reward_amount,
        expiration,
    );

    let outcome = result.unwrap();
    assert_eq!(outcome.reward_data.last_time, now);
    // the index was settled over the 1234 elapsed seconds before the top-up
    assert_eq!(outcome.reward_data.index, 8248888);
    // the remaining emission folds into the new rate
    assert_eq!(outcome.reward_data.eps, 0_0385802 + 0_0233333);
    assert_eq!(outcome.reward_data.expiration, expiration);
    assert_eq!(outcome.prior_token_data, None);
    assert!(!outcome.make_current);
}

#[test]
fn test_set_rewards_same_token_expired() {
    let now = BASE;
    let reward_amount: i128 = 100_000_0000000;
    let expiration = now + 30 * DAY;

    let last_timestamp = now - 7 * DAY;
    let cur_data = Some(RewardData {
        expiration: last_timestamp,
        eps: 0_1000000,
        index: 123456789,
        last_time: last_timestamp,
    });

    let result = set_rewards(
        now,
        150_0000000,
        7,
        Some(7),
        &cur_data,
        &cur_data,
        reward_amount,
        expiration,
    );

    let outcome = result.unwrap();
    assert_eq!(outcome.reward_data.last_time, now);
    // the index carries over from the expired period
    assert_eq!(outcome.reward_data.index, 123456789);
    assert_eq!(outcome.reward_data.eps, 0_0385802);
    assert_eq!(outcome.reward_data.expiration, expiration);
    assert_eq!(outcome.prior_token_data, None);
    assert!(outcome.make_current);
}

#[test]
fn test_set_rewards_new_token_expired_first_time() {
    let now = BASE;
    let reward_amount: i128 = 100_000_0000000;
    let expiration = now + 180 * DAY;

    let last_timestamp = now - 7 * DAY;
    let old_data = Some(RewardData {
        expiration: last_timestamp,
        eps: 0_1000000,
        index: 123456789,
        last_time: last_timestamp,
    });

    let result = set_rewards(
        now,
        150_0000000,
        9,
        Some(7),
        &old_data,
        &None,
        reward_amount,
        expiration,
    );

    let outcome = result.unwrap();
    assert_eq!(outcome.reward_data.last_time, now);
    // a token never used before starts from a zero index
    assert_eq!(outcome.reward_data.index, 0);
    assert_eq!(outcome.reward_data.eps, 0_0064300);
    assert_eq!(outcome.reward_data.expiration, expiration);
    // the settled record of the old token is handed back for persistence
    assert_eq!(outcome.prior_token_data, old_data);
    assert!(outcome.make_current);
}

#[test]
fn test_set_rewards_new_token_expired() {
    let now = BASE;
    let reward_amount: i128 = 100_000_0000000;
    let expiration = now + 180 * DAY;

    let last_timestamp = now - 7 * DAY;
    let old_data = Some(RewardData {
        expiration: last_timestamp,
        eps: 0_1000000,
        index: 123456789,
        last_time: last_timestamp,
    });
    let new_token_old_data = Some(RewardData {
        expiration: now - 180 * DAY,
        eps: 0_0050000,
        index: 987654321,
        last_time: now - 180 * DAY,
    });

    let result = set_rewards(
        now,
        150_0000000,
        9,
        Some(7),
        &old_data,
        &new_token_old_data,
        reward_amount,
        expiration,
    );

    let outcome = result.unwrap();
    assert_eq!(outcome.reward_data.last_time, now);
    // the token was used before: its preserved index resumes
    assert_eq!(outcome.reward_data.index, 987654321);
    assert_eq!(outcome.reward_data.eps, 0_0064300);
    assert_eq!(outcome.reward_data.expiration, expiration);
    assert_eq!(outcome.prior_token_data, old_data);
    assert!(outcome.make_current);
}

#[test]
fn test_set_rewards_new_token_active() {
    let now = BASE;
    let cur_data = Some(RewardData {
        expiration: now + 7 * DAY,
        eps: 0_1000000,
        index: 22222,
        last_time: now - 1234,
    });

    // an active stream cannot be replaced by a different token
    let result = set_rewards(
        now,
        150_0000000,
        9,
        Some(7),
        &cur_data,
        &None,
        100_000_0000000,
        now + 30 * DAY,
    );
    assert_eq!(result, Err(FeeVaultError::InvalidRewardConfig));
}

#[test]
fn test_set_rewards_active_shortened_expiration() {
    let now = BASE;
    let cur_data = Some(RewardData {
        expiration: now + 7 * DAY,
        eps: 0_1000000,
        index: 22222,
        last_time: now - 1234,
    });

    // an active stream cannot have its expiration shortened
    let result = set_rewards(
        now,
        150_0000000,
        7,
        Some(7),
        &cur_data,
        &cur_data,
        100_000_0000000,
        now + 3 * DAY,
    );
    assert_eq!(result, Err(FeeVaultError::InvalidRewardConfig));
}

#[test]
fn test_set_rewards_zero_eps() {
    // an amount too small for the period rounds the rate to zero
    let result = set_rewards(BASE, 150_0000000, 7, None, &None, &None, 100, BASE + 30 * DAY);
    assert_eq!(result, Err(FeeVaultError::InvalidRewardConfig));
}

#[test]
fn test_set_rewards_max_eps() {
    // a rate beyond the emission ceiling is rejected
    let huge: i128 = (u64::MAX as i128 + 1) * 100;
    let result = set_rewards(BASE, 150_0000000, 7, None, &None, &None, huge, BASE + 100);
    assert_eq!(result, Err(FeeVaultError::InvalidRewardConfig));
}

#[test]
fn test_set_rewards_zero_reward_amount() {
    let result = set_rewards(BASE, 150_0000000, 7, None, &None, &None, 0, BASE + 30 * DAY);
    assert_eq!(result, Err(FeeVaultError::InvalidRewardConfig));
}

#[test]
fn test_set_rewards_expiration_in_past() {
    let result = set_rewards(BASE, 150_0000000, 7, None, &None, &None, 100_000_0000000, BASE);
    assert_eq!(result, Err(FeeVaultError::InvalidRewardConfig));
}

#[test]
fn test_calculate_eps_exact() {
    // 100,000 tokens over 30 days
    assert_eq!(calculate_eps(100_000_0000000, 30 * DAY), Ok(0_0385802));
    // dust over a long period rounds to zero
    assert_eq!(calculate_eps(100, 30 * DAY), Err(FeeVaultError::InvalidRewardConfig));
    assert_eq!(calculate_eps(0, 100), Err(FeeVaultError::InvalidRewardConfig));
    assert_eq!(calculate_eps(-5, 100), Err(FeeVaultError::InvalidRewardConfig));
}

#[test]
fn test_load_updated_reward_data_idempotent() {
    let now = BASE + 1234;
    let reward_data = Some(RewardData {
        expiration: BASE + 7 * DAY,
        eps: 0_1000000,
        index: 22222,
        last_time: BASE,
    });

    let once = load_updated_reward_data(&reward_data, now, 150_0000000);
    let twice = load_updated_reward_data(&once, now, 150_0000000);
    // a second update with no elapsed time and unchanged shares is a no-op
    assert_eq!(once, twice);
    let settled = once.unwrap();
    assert_eq!(settled.index, 8248888);
    assert_eq!(settled.last_time, now);
}
