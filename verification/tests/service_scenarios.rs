use staking_core::config::StateConfig;
use staking_core::errors::ErrorCode;
use staking_core::service::{StakingService, Unstaked};
use staking_core::user_account::initialize_user;

fn test_config() -> StateConfig {
    StateConfig {
        points_per_nft_stake: 1,
        points_per_sol_stake: 100,
        points_per_spl_stake: 10,
        min_freeze_period: 86400,
        annual_percentage_rate: 500,
    }
}

#[test]
fn scenario_a_fungible_stake_then_unstake_at_lock_end() {
    let config = test_config();
    let mut svc = StakingService::new();
    let mut user = initialize_user();

    let bonus = svc.stake_spl(&config, &mut user, 7, 42, 1, 500, false, 86400, 0);
    assert_eq!(bonus, Ok(5000));
    assert_eq!(user.points, 5000);
    assert_eq!(user.spl_staked_amount, 500);
    assert_eq!(svc.positions.len(), 1);

    let out = svc.unstake_spl(&config, &mut user, 7, 7, 42, 1, 86400);
    assert_eq!(
        out,
        Ok(Unstaked {
            amount: 500,
            reward: 10 * 86400,
        })
    );
    assert_eq!(user.points, 5000 + 10 * 86400);
    assert_eq!(user.spl_staked_amount, 0);
    assert_eq!(svc.positions.len(), 0);
}

#[test]
fn scenario_b_lock_period_below_minimum_rejected() {
    let config = test_config();
    let mut svc = StakingService::new();
    let mut user = initialize_user();

    let r = svc.stake_spl(&config, &mut user, 7, 42, 1, 500, false, 43200, 0);
    assert_eq!(r, Err(ErrorCode::InvalidLockPeriod));
    assert_eq!(user, initialize_user());
    assert_eq!(svc.positions.len(), 0);
}

#[test]
fn scenario_c_duplicate_seed_rejected() {
    let config = test_config();
    let mut svc = StakingService::new();
    let mut user = initialize_user();

    assert_eq!(
        svc.stake_spl(&config, &mut user, 7, 42, 1, 500, false, 86400, 0),
        Ok(5000)
    );
    let before = user;
    let second = svc.stake_spl(&config, &mut user, 7, 42, 1, 300, false, 86400, 10);
    assert_eq!(second, Err(ErrorCode::DuplicatePosition));
    assert_eq!(user, before);
    assert_eq!(svc.positions.len(), 1);
}

#[test]
fn scenario_d_unstake_by_non_owner_rejected() {
    let config = test_config();
    let mut svc = StakingService::new();
    let mut user = initialize_user();

    assert_eq!(
        svc.stake_sol(&config, &mut user, 7, 1, 1000, false, 86400, 0),
        Ok(100_000_000)
    );
    let before = user;
    let r = svc.unstake_sol(&config, &mut user, 8, 7, 1, 200000);
    assert_eq!(r, Err(ErrorCode::Unauthorized));
    assert_eq!(user, before);
    assert_eq!(svc.positions.len(), 1);
}

#[test]
fn scenario_e_release_exceeding_aggregate_underflows() {
    let config = test_config();
    let mut svc = StakingService::new();
    let mut user = initialize_user();

    assert_eq!(
        svc.stake_sol(&config, &mut user, 7, 1, 150, false, 86400, 0),
        Ok(100_000_000)
    );
    // An inconsistent aggregate must fail the checked decrement rather
    // than wrap: the release of 150 exceeds the remaining 100.
    user.sol_staked_amount = 100;
    let before = user;
    let r = svc.unstake_sol(&config, &mut user, 7, 7, 1, 86400);
    assert_eq!(r, Err(ErrorCode::Underflow));
    assert_eq!(user, before);
    assert_eq!(svc.positions.len(), 1);
}

#[test]
fn early_unstake_rejected_then_allowed_at_lock_end() {
    let config = test_config();
    let mut svc = StakingService::new();
    let mut user = initialize_user();

    assert_eq!(
        svc.stake_sol(&config, &mut user, 7, 1, 1000, false, 86400, 1000),
        Ok(100_000_000)
    );
    let before = user;
    let early = svc.unstake_sol(&config, &mut user, 7, 7, 1, 1000 + 86399);
    assert_eq!(early, Err(ErrorCode::LockPeriodNotElapsed));
    assert_eq!(user, before);
    assert_eq!(svc.positions.len(), 1);

    let done = svc.unstake_sol(&config, &mut user, 7, 7, 1, 1000 + 86400);
    assert_eq!(
        done,
        Ok(Unstaked {
            amount: 1000,
            reward: 100 * 86400,
        })
    );
    assert_eq!(svc.positions.len(), 0);
}

#[test]
fn unstake_unknown_position_not_found() {
    let config = test_config();
    let mut svc = StakingService::new();
    let mut user = initialize_user();

    let r = svc.unstake_spl(&config, &mut user, 7, 7, 42, 99, 86400);
    assert_eq!(r, Err(ErrorCode::RecordNotFound));
    assert_eq!(user, initialize_user());
}

#[test]
fn native_join_bonus_is_flat_regardless_of_amount() {
    let config = test_config();
    let mut svc = StakingService::new();
    let mut user = initialize_user();

    assert_eq!(
        svc.stake_sol(&config, &mut user, 7, 1, 5, false, 86400, 0),
        Ok(100_000_000)
    );
    assert_eq!(
        svc.stake_sol(&config, &mut user, 7, 2, 987654321, false, 86400, 0),
        Ok(100_000_000)
    );
    assert_eq!(user.points, 200_000_000);
    assert_eq!(user.sol_staked_amount, 5 + 987654321);
}

#[test]
fn nft_stake_counts_one_and_pays_flat_rate() {
    let config = test_config();
    let mut svc = StakingService::new();
    let mut user = initialize_user();

    let r = svc.stake_nft(&config, &mut user, 7, 9, 2, true, 86400, 0);
    assert_eq!(r, Ok(1));
    assert_eq!(user.points, 1);
    assert_eq!(user.nft_staked_amount, 1);

    let out = svc.unstake_nft(&config, &mut user, 7, 7, 9, 2, 86400);
    // locked tier: base 1 * 86400, scaled by 500 bps -> 4320
    assert_eq!(
        out,
        Ok(Unstaked {
            amount: 1,
            reward: 86400 * 500 / 10000,
        })
    );
    assert_eq!(user.nft_staked_amount, 0);
}

#[test]
fn fungible_join_bonus_overflow_rejected() {
    let config = test_config();
    let mut svc = StakingService::new();
    let mut user = initialize_user();

    let r = svc.stake_spl(&config, &mut user, 7, 42, 1, u64::MAX, false, 86400, 0);
    assert_eq!(r, Err(ErrorCode::Overflow));
    assert_eq!(user, initialize_user());
    assert_eq!(svc.positions.len(), 0);
}

#[test]
fn points_credit_overflow_on_unstake_rejected() {
    let config = test_config();
    let mut svc = StakingService::new();
    let mut user = initialize_user();

    assert_eq!(
        svc.stake_sol(&config, &mut user, 7, 1, 10, false, 86400, 0),
        Ok(100_000_000)
    );
    user.points = u64::MAX;
    let before = user;
    let r = svc.unstake_sol(&config, &mut user, 7, 7, 1, 86400);
    assert_eq!(r, Err(ErrorCode::Overflow));
    assert_eq!(user, before);
    assert_eq!(svc.positions.len(), 1);
}

#[test]
fn distinct_seeds_and_classes_coexist() {
    let config = test_config();
    let mut svc = StakingService::new();
    let mut user = initialize_user();

    assert!(svc
        .stake_spl(&config, &mut user, 7, 42, 1, 100, false, 86400, 0)
        .is_ok());
    assert!(svc
        .stake_spl(&config, &mut user, 7, 42, 2, 100, false, 86400, 0)
        .is_ok());
    assert!(svc
        .stake_sol(&config, &mut user, 7, 1, 100, false, 86400, 0)
        .is_ok());
    assert!(svc
        .stake_nft(&config, &mut user, 7, 42, 1, false, 86400, 0)
        .is_ok());
    assert_eq!(svc.positions.len(), 4);
    assert_eq!(user.spl_staked_amount, 200);
    assert_eq!(user.sol_staked_amount, 100);
    assert_eq!(user.nft_staked_amount, 1);

    let out = svc.unstake_spl(&config, &mut user, 7, 7, 42, 2, 86400);
    assert_eq!(out.map(|u| u.amount), Ok(100));
    assert_eq!(svc.positions.len(), 3);
    assert_eq!(user.spl_staked_amount, 100);
}
