use icp_canister::types::{
    CanisterError, GlobalSettings, StakingStatus, TransactionType, UserData, NANOS_PER_DAY,
};

const START: u64 = 1_000;

#[test]
fn stake_then_claim_at_maturity_scenario() {
    let settings = GlobalSettings::default();
    let mut u = UserData::new_at("0xabc".to_string(), 25_000, START);
    let pool = u.stake(1_000, 30, &settings, START).unwrap();
    assert_eq!(pool.status, StakingStatus::Active);
    assert_eq!(pool.apy, 500);
    assert_eq!(pool.maturity_date, START + 30 * NANOS_PER_DAY);
    assert_eq!(u.dual_balance.rupees_balance, 24_000);
    assert_eq!(u.staking_pools.len(), 1);

    let id = pool.id.clone();
    assert_eq!(u.claim(&id, START).unwrap_err(), CanisterError::PoolNotMatured);
    assert_eq!(u.dual_balance.rupees_balance, 24_000);

    let t = u.claim(&id, pool.maturity_date).unwrap();
    assert_eq!(t.amount, 1_050);
    assert_eq!(t.transaction_type, TransactionType::Stake);
    assert_eq!(u.dual_balance.rupees_balance, 25_050);
    assert_eq!(u.staking_pools[0].status, StakingStatus::Claimed);
    assert_eq!(u.staking_pools[0].current_rewards, 50);
}

#[test]
fn second_claim_is_refused() {
    let settings = GlobalSettings::default();
    let mut u = UserData::new_at("0xabc".to_string(), 25_000, START);
    let pool = u.stake(1_000, 90, &settings, START).unwrap();
    u.claim(&pool.id, pool.maturity_date).unwrap();
    let after_first = u.dual_balance.rupees_balance;
    assert_eq!(after_first, 24_000 + 1_070);
    assert_eq!(
        u.claim(&pool.id, pool.maturity_date + 5).unwrap_err(),
        CanisterError::AlreadyClaimed
    );
    assert_eq!(u.dual_balance.rupees_balance, after_first);
}

#[test]
fn stake_refusals() {
    let settings = GlobalSettings::default();
    let mut u = UserData::new_at("0xabc".to_string(), 500, START);
    assert_eq!(u.stake(100, 45, &settings, START).unwrap_err(), CanisterError::InvalidDuration);
    assert_eq!(u.stake(501, 30, &settings, START).unwrap_err(), CanisterError::InsufficientBalance);
    assert_eq!(u.stake(0, 30, &settings, START).unwrap_err(), CanisterError::InvalidAmount);
    assert_eq!(
        u.stake(100, 180, &settings, u64::MAX - 1).unwrap_err(),
        CanisterError::InvalidDuration
    );
    assert_eq!(u.dual_balance.rupees_balance, 500);
    assert!(u.staking_pools.is_empty());
    assert!(u.transactions.is_empty());
}

#[test]
fn claim_of_unknown_pool() {
    let mut u = UserData::new_at("0xabc".to_string(), 500, START);
    assert_eq!(u.claim(&"7".to_string(), START).unwrap_err(), CanisterError::PoolNotFound);
}

#[test]
fn accrual_is_linear_and_capped() {
    let settings = GlobalSettings::default();
    let mut u = UserData::new_at("0xabc".to_string(), 25_000, START);
    let pool = u.stake(1_000, 30, &settings, START).unwrap();
    assert_eq!(pool.accrue(0), 0);
    assert_eq!(pool.accrue(START), 0);
    assert_eq!(pool.accrue(START + 15 * NANOS_PER_DAY), 25);
    assert_eq!(pool.accrue(START + 6 * NANOS_PER_DAY), 10);
    assert_eq!(pool.accrue(pool.maturity_date), 50);
    assert_eq!(pool.accrue(u64::MAX), 50);
    let mut last = 0;
    let mut t = START;
    while t <= pool.maturity_date + NANOS_PER_DAY {
        let r = pool.accrue(t);
        assert!(r >= last);
        last = r;
        t += NANOS_PER_DAY / 3;
    }
}

#[test]
fn accrual_of_large_pool_does_not_overflow() {
    let settings = GlobalSettings::default();
    let mut u = UserData::new_at("0xabc".to_string(), u64::MAX, START);
    let pool = u.stake(u64::MAX, 180, &settings, START).unwrap();
    let full = (u64::MAX as u128) * 1_000 / 10_000;
    assert_eq!(pool.accrue(pool.maturity_date), full);
    let half = pool.accrue(START + 90 * NANOS_PER_DAY);
    assert_eq!(half, full / 2);
}

#[test]
fn status_is_derived_from_the_clock() {
    let settings = GlobalSettings::default();
    let mut u = UserData::new_at("0xabc".to_string(), 25_000, START);
    let pool = u.stake(1_000, 30, &settings, START).unwrap();
    assert_eq!(pool.status_at(START), StakingStatus::Active);
    assert_eq!(pool.status_at(pool.maturity_date), StakingStatus::Matured);
    u.claim(&pool.id, pool.maturity_date).unwrap();
    assert_eq!(u.staking_pools[0].status_at(pool.maturity_date), StakingStatus::Claimed);
}
