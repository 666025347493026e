use fee_vault::errors::FeeVaultError;
use fee_vault::storage::Fee;
use fee_vault::vault::{admin_deposit, admin_withdraw, deposit, withdraw, VaultData};

fn take_rate_fee() -> Fee {
    Fee { rate_type: 0, rate: 0_1000000 }
}

#[test]
fn test_deposit() {
    let mut vault = VaultData {
        total_b_tokens: 1000_0000000,
        total_shares: 1200_0000000,
        b_rate: 1_100_000_000_000,
        last_update_timestamp: 100,
        admin_balance: 0,
    };
    let mut user_shares: i128 = 0;
    let mut reward_data = None;
    let mut user_rewards = None;

    let new_b_rate = 1_110_000_000_000;
    let b_tokens = 83_3333300;
    let amount = b_tokens * new_b_rate / 1_000_000_000_000;
    let expected_b_token_fees = 0_9009009;
    let expected_share_amount = 100_0901673;

    let result = deposit(
        &mut vault,
        &mut user_shares,
        &mut reward_data,
        &mut user_rewards,
        &take_rate_fee(),
        125,
        new_b_rate,
        amount,
    );
    assert_eq!(result, Ok((b_tokens, expected_share_amount)));

    assert_eq!(vault.total_shares, 1200_0000000 + expected_share_amount);
    assert_eq!(
        vault.total_b_tokens,
        1000_0000000 + b_tokens - expected_b_token_fees
    );
    assert_eq!(vault.b_rate, new_b_rate);
    assert_eq!(vault.admin_balance, expected_b_token_fees);
    assert_eq!(user_shares, expected_share_amount);
}

#[test]
fn test_initial_deposit() {
    let mut vault = VaultData {
        total_b_tokens: 0,
        total_shares: 0,
        b_rate: 1_000_000_000_000,
        last_update_timestamp: 100,
        admin_balance: 0,
    };
    let mut user_shares: i128 = 0;
    let mut reward_data = None;
    let mut user_rewards = None;

    let new_b_rate = 1_100_000_000_000;
    let amount = 100_0000000;
    let expected_b_tokens = amount * 1_000_000_000_000 / new_b_rate;

    let result = deposit(
        &mut vault,
        &mut user_shares,
        &mut reward_data,
        &mut user_rewards,
        &take_rate_fee(),
        125,
        new_b_rate,
        amount,
    );
    // bootstrap mints shares 1:1 with the b-tokens
    assert_eq!(result, Ok((expected_b_tokens, expected_b_tokens)));
    assert_eq!(vault.total_shares, expected_b_tokens);
    assert_eq!(vault.total_b_tokens, expected_b_tokens);
    assert_eq!(vault.b_rate, new_b_rate);
    // no fees accrue against zero deposits
    assert_eq!(vault.admin_balance, 0);
    assert_eq!(user_shares, expected_b_tokens);
}

#[test]
fn test_deposit_zero_amount() {
    let mut vault = VaultData {
        total_b_tokens: 1000_0000000,
        total_shares: 1200_0000000,
        b_rate: 1_100_000_000_000,
        last_update_timestamp: 100,
        admin_balance: 0,
    };
    let before = vault;
    let mut user_shares: i128 = 0;
    let mut reward_data = None;
    let mut user_rewards = None;

    let result = deposit(
        &mut vault,
        &mut user_shares,
        &mut reward_data,
        &mut user_rewards,
        &take_rate_fee(),
        100,
        1_100_000_000_000,
        0,
    );
    assert_eq!(result, Err(FeeVaultError::InvalidBTokensMinted));
    assert_eq!(vault, before);
    assert_eq!(user_shares, 0);
}

#[test]
fn test_deposit_zero_b_tokens() {
    let mut vault = VaultData {
        total_b_tokens: 1000_0000000,
        total_shares: 1200_0000000,
        b_rate: 1_100_000_000_000,
        last_update_timestamp: 100,
        admin_balance: 0,
    };
    let mut user_shares: i128 = 0;
    let mut reward_data = None;
    let mut user_rewards = None;

    // 1 stroop of underlying converts to zero b-tokens at a 1.1 rate
    let result = deposit(
        &mut vault,
        &mut user_shares,
        &mut reward_data,
        &mut user_rewards,
        &take_rate_fee(),
        100,
        1_100_000_000_000,
        1,
    );
    assert_eq!(result, Err(FeeVaultError::InvalidBTokensMinted));
}

#[test]
fn test_deposit_zero_shares() {
    let mut vault = VaultData {
        total_b_tokens: 10000_0000000,
        total_shares: 1200_0000000,
        b_rate: 1_100_000_000_000,
        last_update_timestamp: 100,
        admin_balance: 0,
    };
    let mut user_shares: i128 = 0;
    let mut reward_data = None;
    let mut user_rewards = None;

    // 2 stroops convert to 1 b-token but to zero shares
    let result = deposit(
        &mut vault,
        &mut user_shares,
        &mut reward_data,
        &mut user_rewards,
        &take_rate_fee(),
        100,
        1_100_000_000_000,
        2,
    );
    assert_eq!(result, Err(FeeVaultError::InvalidSharesMinted));
}

#[test]
fn test_withdraw() {
    let mut vault = VaultData {
        total_b_tokens: 1000_0000000,
        total_shares: 1200_0000000,
        b_rate: 1_100_000_000_000,
        last_update_timestamp: 100,
        admin_balance: 0,
    };
    let expected_share_amount = 100_0901674;
    let mut user_shares: i128 = expected_share_amount;
    let mut reward_data = None;
    let mut user_rewards = None;

    let new_b_rate = 1_110_000_000_000;
    let b_tokens_to_withdraw = 50_0000000;
    let expected_b_token_fees = 0_9009009;
    // the underlying value of the b-tokens at the fresh rate
    let withdraw_amount = b_tokens_to_withdraw * new_b_rate / 1_000_000_000_000;

    let result = withdraw(
        &mut vault,
        &mut user_shares,
        &mut reward_data,
        &mut user_rewards,
        &take_rate_fee(),
        125,
        new_b_rate,
        withdraw_amount,
    );
    let (b_tokens_burnt, shares_burnt) = result.unwrap();
    assert_eq!(b_tokens_burnt, b_tokens_to_withdraw);

    assert_eq!(vault.total_shares, 1200_0000000 - shares_burnt);
    assert_eq!(
        vault.total_b_tokens,
        1000_0000000 - b_tokens_to_withdraw - expected_b_token_fees
    );
    assert_eq!(vault.b_rate, new_b_rate);
    assert_eq!(vault.admin_balance, expected_b_token_fees);
    assert_eq!(user_shares, expected_share_amount - shares_burnt);
}

#[test]
fn test_withdraw_max() {
    let mut vault = VaultData {
        total_b_tokens: 1000_0000000,
        total_shares: 1200_0000000,
        b_rate: 1_100_000_000_000,
        last_update_timestamp: 100,
        admin_balance: 0,
    };
    let mut user_shares: i128 = vault.total_shares;
    let mut reward_data = None;
    let mut user_rewards = None;

    let withdraw_amount = vault.b_tokens_to_underlying_down(1000_0000000);
    let result = withdraw(
        &mut vault,
        &mut user_shares,
        &mut reward_data,
        &mut user_rewards,
        &take_rate_fee(),
        100,
        1_100_000_000_000,
        withdraw_amount,
    );
    assert_eq!(result, Ok((1000_0000000, 1200_0000000)));
    assert_eq!(user_shares, 0);
    assert_eq!(vault.total_shares, 0);
    assert_eq!(vault.total_b_tokens, 0);
}

#[test]
fn test_withdraw_zero_amount() {
    let mut vault = VaultData {
        total_b_tokens: 1000_0000000,
        total_shares: 1200_0000000,
        b_rate: 1_100_000_000_000,
        last_update_timestamp: 100,
        admin_balance: 0,
    };
    let mut user_shares: i128 = 100_0000000;
    let mut reward_data = None;
    let mut user_rewards = None;

    let result = withdraw(
        &mut vault,
        &mut user_shares,
        &mut reward_data,
        &mut user_rewards,
        &take_rate_fee(),
        100,
        1_100_000_000_000,
        0,
    );
    assert_eq!(result, Err(FeeVaultError::InvalidBTokensBurnt));
}

#[test]
fn test_withdraw_more_b_tokens_than_vault() {
    let mut vault = VaultData {
        total_b_tokens: 1000_0000000,
        total_shares: 1200_0000000,
        b_rate: 1_100_000_000_000,
        last_update_timestamp: 100,
        admin_balance: 0,
    };
    let mut user_shares: i128 = vault.total_shares;
    let mut reward_data = None;
    let mut user_rewards = None;

    let withdraw_amount = vault.b_tokens_to_underlying_down(1000_0000000);
    let result = withdraw(
        &mut vault,
        &mut user_shares,
        &mut reward_data,
        &mut user_rewards,
        &take_rate_fee(),
        100,
        1_100_000_000_000,
        withdraw_amount + 1,
    );
    assert_eq!(result, Err(FeeVaultError::InsufficientReserves));
}

#[test]
fn test_withdraw_exact_balance() {
    let mut vault = VaultData {
        total_b_tokens: 1000_0000000,
        total_shares: 1200_0000000,
        b_rate: 1_100_000_000_000,
        last_update_timestamp: 100,
        admin_balance: 0,
    };
    let sam_shares: i128 = 1000_0000000;
    let mut user_shares = sam_shares;
    let mut reward_data = None;
    let mut user_rewards = None;

    let sam_b_tokens = vault.shares_to_b_tokens_down(sam_shares);
    let sam_underlying_balance = vault.b_tokens_to_underlying_down(sam_b_tokens);

    let result = withdraw(
        &mut vault,
        &mut user_shares,
        &mut reward_data,
        &mut user_rewards,
        &take_rate_fee(),
        100,
        1_100_000_000_000,
        sam_underlying_balance,
    );
    assert_eq!(result, Ok((sam_b_tokens, sam_shares)));
}

#[test]
fn test_withdraw_over_balance() {
    let mut vault = VaultData {
        total_b_tokens: 1000_0000000,
        total_shares: 1200_0000000,
        b_rate: 1_100_000_000_000,
        last_update_timestamp: 100,
        admin_balance: 0,
    };
    let mut user_shares: i128 = 1000_0000000;
    let mut reward_data = None;
    let mut user_rewards = None;

    let sam_b_tokens = vault.shares_to_b_tokens_down(1000_0000000);
    let sam_underlying_balance = vault.b_tokens_to_underlying_down(sam_b_tokens);

    let result = withdraw(
        &mut vault,
        &mut user_shares,
        &mut reward_data,
        &mut user_rewards,
        &take_rate_fee(),
        100,
        1_100_000_000_000,
        sam_underlying_balance + 1,
    );
    assert_eq!(result, Err(FeeVaultError::BalanceError));
}

#[test]
fn test_admin_deposit() {
    let starting_admin_balance = 5_0000000;
    let mut vault = VaultData {
        total_b_tokens: 1000_0000000,
        total_shares: 1200_0000000,
        b_rate: 1_100_000_000_000,
        last_update_timestamp: 100,
        admin_balance: starting_admin_balance,
    };

    let new_b_rate = 1_110_000_000_000;
    let expected_b_token_fees = 0_9009009;
    let b_token_deposit = 10_0000000;
    let amount = b_token_deposit * new_b_rate / 1_000_000_000_000;

    let result = admin_deposit(&mut vault, &take_rate_fee(), 125, new_b_rate, amount);
    assert_eq!(result, Ok(b_token_deposit));

    assert_eq!(vault.total_shares, 1200_0000000);
    assert_eq!(vault.total_b_tokens, 1000_0000000 - expected_b_token_fees);
    assert_eq!(vault.b_rate, new_b_rate);
    assert_eq!(
        vault.admin_balance,
        starting_admin_balance + expected_b_token_fees + b_token_deposit
    );
    assert_eq!(vault.last_update_timestamp, 125);
}

#[test]
fn test_admin_deposit_zero_mint() {
    let mut vault = VaultData {
        total_b_tokens: 1000_0000000,
        total_shares: 1200_0000000,
        b_rate: 1_100_000_000_000,
        last_update_timestamp: 100,
        admin_balance: 5_0000000,
    };
    let result = admin_deposit(&mut vault, &take_rate_fee(), 100, 1_100_000_000_000, 1);
    assert_eq!(result, Err(FeeVaultError::InvalidBTokensMinted));
}

#[test]
fn test_admin_withdraw() {
    let starting_admin_balance = 5_0000000;
    let mut vault = VaultData {
        total_b_tokens: 1000_0000000,
        total_shares: 1200_0000000,
        b_rate: 1_100_000_000_000,
        last_update_timestamp: 100,
        admin_balance: starting_admin_balance,
    };

    let new_b_rate = 1_110_000_000_000;
    let expected_b_token_fees = 0_9009009;
    let b_token_withdraw = 3_0000000;
    let amount = b_token_withdraw * new_b_rate / 1_000_000_000_000;

    let result = admin_withdraw(&mut vault, &take_rate_fee(), 125, new_b_rate, amount);
    assert_eq!(result, Ok(b_token_withdraw));

    assert_eq!(vault.total_shares, 1200_0000000);
    assert_eq!(vault.total_b_tokens, 1000_0000000 - expected_b_token_fees);
    assert_eq!(vault.b_rate, new_b_rate);
    assert_eq!(
        vault.admin_balance,
        starting_admin_balance + expected_b_token_fees - b_token_withdraw
    );
    assert_eq!(vault.last_update_timestamp, 125);
}

#[test]
fn test_admin_withdraw_all() {
    let starting_admin_balance = 5_0000000;
    let mut vault = VaultData {
        total_b_tokens: 1000_0000000,
        total_shares: 1200_0000000,
        b_rate: 1_100_000_000_000,
        last_update_timestamp: 100,
        admin_balance: starting_admin_balance,
    };

    let new_b_rate = 1_110_000_000_000;
    let expected_b_token_fees = 0_9009009;
    let b_token_withdraw = starting_admin_balance + expected_b_token_fees;
    let amount = b_token_withdraw * new_b_rate / 1_000_000_000_000;

    let result = admin_withdraw(&mut vault, &take_rate_fee(), 125, new_b_rate, amount);
    assert_eq!(result, Ok(b_token_withdraw));
    assert_eq!(vault.admin_balance, 0);
    assert_eq!(vault.total_b_tokens, 1000_0000000 - expected_b_token_fees);
}

#[test]
fn test_admin_withdraw_balance_error() {
    let starting_admin_balance = 5_0000000;
    let mut vault = VaultData {
        total_b_tokens: 1000_0000000,
        total_shares: 1200_0000000,
        b_rate: 1_100_000_000_000,
        last_update_timestamp: 100,
        admin_balance: starting_admin_balance,
    };

    let new_b_rate = 1_110_000_000_000;
    let expected_b_token_fees = 0_9009009;
    let b_token_withdraw = starting_admin_balance + expected_b_token_fees + 1;
    let amount = b_token_withdraw * new_b_rate / 1_000_000_000_000;

    let result = admin_withdraw(&mut vault, &take_rate_fee(), 125, new_b_rate, amount);
    assert_eq!(result, Err(FeeVaultError::BalanceError));
}

#[test]
fn test_admin_withdraw_zero_shares() {
    let starting_admin_balance = 5_0000000;
    let mut vault = VaultData {
        total_b_tokens: 0,
        total_shares: 0,
        b_rate: 1_100_000_000_000,
        last_update_timestamp: 100,
        admin_balance: starting_admin_balance,
    };

    // even a doubled rate accrues no fee against zero deposits
    let new_b_rate = 2_200_000_000_000;
    let amount = starting_admin_balance * new_b_rate / 1_000_000_000_000;

    let result = admin_withdraw(&mut vault, &take_rate_fee(), 125, new_b_rate, amount);
    assert_eq!(result, Ok(starting_admin_balance));
    assert_eq!(vault.total_shares, 0);
    assert_eq!(vault.total_b_tokens, 0);
    assert_eq!(vault.b_rate, new_b_rate);
    assert_eq!(vault.admin_balance, 0);
    assert_eq!(vault.last_update_timestamp, 125);
}
