use staking_core::config::{ConfigStore, StateConfig};
use staking_core::errors::ErrorCode;
use staking_core::position::AssetClass;
use staking_core::reward::{accrue, join_bonus, rate_for, NATIVE_STAKE_BONUS};
use staking_core::user_account::initialize_user;

fn test_config() -> StateConfig {
    StateConfig {
        points_per_nft_stake: 3,
        points_per_sol_stake: 100,
        points_per_spl_stake: 10,
        min_freeze_period: 86400,
        annual_percentage_rate: 500,
    }
}

#[test]
fn initialize_config_is_admin_gated_and_once_only() {
    let mut store = ConfigStore::new(1);
    assert_eq!(store.get(), None);

    let intruder = store.initialize_config(2, 3, 100, 10, 86400, 500);
    assert_eq!(intruder, Err(ErrorCode::Unauthorized));
    assert_eq!(store.get(), None);

    let first = store.initialize_config(1, 3, 100, 10, 86400, 500);
    assert_eq!(first, Ok(()));
    assert_eq!(store.get(), Some(test_config()));

    let second = store.initialize_config(1, 9, 9, 9, 9, 9);
    assert_eq!(second, Err(ErrorCode::AlreadyInitialized));
    assert_eq!(store.get(), Some(test_config()));
}

#[test]
fn initialize_user_starts_at_zero() {
    let user = initialize_user();
    assert_eq!(user.points, 0);
    assert_eq!(user.nft_staked_amount, 0);
    assert_eq!(user.spl_staked_amount, 0);
    assert_eq!(user.sol_staked_amount, 0);
}

#[test]
fn ledger_increment_and_decrement_are_checked() {
    let mut user = initialize_user();
    assert_eq!(user.increment(AssetClass::Native, 100), Ok(()));
    assert_eq!(user.sol_staked_amount, 100);

    let too_much = user.decrement(AssetClass::Native, 150);
    assert_eq!(too_much, Err(ErrorCode::Underflow));
    assert_eq!(user.sol_staked_amount, 100);

    assert_eq!(user.decrement(AssetClass::Native, 100), Ok(()));
    assert_eq!(user.sol_staked_amount, 0);

    assert_eq!(
        user.increment(AssetClass::Fungible { mint: 4 }, u64::MAX),
        Ok(())
    );
    let over = user.increment(AssetClass::Fungible { mint: 4 }, 1);
    assert_eq!(over, Err(ErrorCode::Overflow));
    assert_eq!(user.spl_staked_amount, u64::MAX);
}

#[test]
fn add_points_fails_overflow_without_wrapping() {
    let mut user = initialize_user();
    assert_eq!(user.add_points(u64::MAX - 1), Ok(()));
    assert_eq!(user.add_points(2), Err(ErrorCode::Overflow));
    assert_eq!(user.points, u64::MAX - 1);
    assert_eq!(user.add_points(1), Ok(()));
    assert_eq!(user.points, u64::MAX);
}

#[test]
fn join_bonus_per_class() {
    let config = test_config();
    assert_eq!(
        join_bonus(AssetClass::Native, 12345, &config),
        Ok(NATIVE_STAKE_BONUS)
    );
    assert_eq!(
        join_bonus(AssetClass::Fungible { mint: 4 }, 500, &config),
        Ok(5000)
    );
    assert_eq!(
        join_bonus(AssetClass::NonFungible { mint: 4 }, 1, &config),
        Ok(3)
    );
    assert_eq!(
        join_bonus(AssetClass::Fungible { mint: 4 }, u64::MAX, &config),
        Err(ErrorCode::Overflow)
    );
}

#[test]
fn accrue_base_and_locked_tier() {
    // unlocked: rate * elapsed
    assert_eq!(accrue(100, 1000, false, 500), Ok(100_000));
    // locked: the base scaled by the rate in basis points, truncating
    assert_eq!(accrue(100, 1000, true, 500), Ok(5_000));
    // truncation toward zero
    assert_eq!(accrue(1, 3, true, 9999), Ok(2));
    // apr above 100% raises the reward
    assert_eq!(accrue(100, 1000, true, 20000), Ok(200_000));
    // elapsed zero accrues nothing
    assert_eq!(accrue(100, 0, false, 500), Ok(0));
    assert_eq!(accrue(100, 0, true, 500), Ok(0));
}

#[test]
fn accrue_overflow_rejected() {
    assert_eq!(accrue(255, u64::MAX, false, 0), Err(ErrorCode::Overflow));
    // base fits, the locked-tier product does not
    assert_eq!(
        accrue(255, u64::MAX / 255, true, u16::MAX),
        Err(ErrorCode::Overflow)
    );
    // the same inputs unlocked stay in range
    assert_eq!(
        accrue(255, u64::MAX / 255, false, u16::MAX),
        Ok(255 * (u64::MAX / 255))
    );
}

#[test]
fn rate_for_selects_the_class_rate() {
    let config = test_config();
    assert_eq!(rate_for(AssetClass::Native, &config), 100);
    assert_eq!(rate_for(AssetClass::Fungible { mint: 4 }, &config), 10);
    assert_eq!(rate_for(AssetClass::NonFungible { mint: 4 }, &config), 3);
}

#[test]
fn reward_is_deterministic_across_calls() {
    let config = test_config();
    for _ in 0..3 {
        assert_eq!(
            join_bonus(AssetClass::Fungible { mint: 4 }, 500, &config),
            Ok(5000)
        );
        assert_eq!(accrue(10, 86400, true, 500), Ok(43200));
    }
}
