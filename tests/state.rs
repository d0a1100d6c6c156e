use icp_canister::state::{CanisterState, DEFAULT_STARTING_BALANCE};
use icp_canister::types::{
    Achievement, AchievementCategory, AchievementRarity, AchievementReward, CanisterError,
    Currency, GlobalSettings, StakingStatus, TransactionType, UserData, WalletType, NANOS_PER_DAY,
};

fn state_with(address: &str) -> CanisterState {
    let mut st = CanisterState::new(GlobalSettings::default());
    st.users.push(UserData::new_at(address.to_string(), DEFAULT_STARTING_BALANCE, 0));
    st
}

fn first_trade(reward: Option<AchievementReward>) -> Achievement {
    Achievement {
        id: "first-trade".to_string(),
        title: "First trade".to_string(),
        description: "Exchange once".to_string(),
        category: AchievementCategory::Trading,
        rarity: AchievementRarity::Common,
        unlocked: false,
        unlocked_at: None,
        reward,
    }
}

#[test]
fn default_settings() {
    let s = GlobalSettings::default();
    assert_eq!(s.exchange_rate.numerator, 1);
    assert_eq!(s.exchange_rate.denominator, 10);
    assert_eq!(s.staking_apys.len(), 3);
    assert_eq!(s.staking_apys.get(&30), Some(&500));
    assert_eq!(s.staking_apys.get(&90), Some(&700));
    assert_eq!(s.staking_apys.get(&180), Some(&1_000));
    assert_eq!(s.session_timeout, 24 * 60 * 60 * 1_000_000_000);
    assert_eq!(s.starting_balance, 25_000);
}

#[test]
fn operations_on_unknown_user() {
    let mut st = state_with("0xabc");
    let other = "0xdef".to_string();
    assert_eq!(st.deposit(&other, 5, 1).unwrap_err(), CanisterError::UserNotFound);
    assert_eq!(st.withdraw(&other, 5, 1).unwrap_err(), CanisterError::UserNotFound);
    assert_eq!(st.balance(&other).unwrap_err(), CanisterError::UserNotFound);
    assert_eq!(
        st.exchange(&other, Currency::Rupees, 5, 1).unwrap_err(),
        CanisterError::UserNotFound
    );
    assert_eq!(st.stake(&other, 5, 30, 1).unwrap_err(), CanisterError::UserNotFound);
    assert_eq!(
        st.claim_stake(&other, &"0".to_string(), 1).unwrap_err(),
        CanisterError::UserNotFound
    );
}

#[test]
fn deposit_withdraw_exchange_through_state() {
    let mut st = state_with("0xabc");
    let a = "0xabc".to_string();
    st.deposit(&a, 1_000, 1).unwrap();
    assert_eq!(st.balance(&a).unwrap().rupees_balance, 26_000);
    assert_eq!(st.withdraw(&a, 30_000, 2).unwrap_err(), CanisterError::InsufficientBalance);
    st.withdraw(&a, 6_000, 2).unwrap();
    let r = st.exchange(&a, Currency::Rupees, 100, 3).unwrap();
    assert_eq!(r.to_amount, 10);
    let b = st.balance(&a).unwrap();
    assert_eq!(b.rupees_balance, 19_900);
    assert_eq!(b.token_balance, 10);
    assert_eq!(st.users[0].transactions.len(), 3);
}

#[test]
fn stake_and_claim_through_state() {
    let mut st = state_with("0xabc");
    let a = "0xabc".to_string();
    let pool = st.stake(&a, 1_000, 30, 10).unwrap();
    assert_eq!(st.balance(&a).unwrap().rupees_balance, 24_000);
    assert_eq!(st.claim_stake(&a, &pool.id, 10).unwrap_err(), CanisterError::PoolNotMatured);
    st.claim_stake(&a, &pool.id, 10 + 30 * NANOS_PER_DAY).unwrap();
    assert_eq!(st.balance(&a).unwrap().rupees_balance, 25_050);
    assert_eq!(st.users[0].staking_pools[0].status, StakingStatus::Claimed);
    assert_eq!(
        st.claim_stake(&a, &pool.id, 11 + 30 * NANOS_PER_DAY).unwrap_err(),
        CanisterError::AlreadyClaimed
    );
    assert_eq!(st.balance(&a).unwrap().rupees_balance, 25_050);
}

#[test]
fn achievement_reward_is_paid_once() {
    let mut st = state_with("0xabc");
    let a = "0xabc".to_string();
    let def = first_trade(Some(AchievementReward { reward_type: Currency::Tokens, amount: 5 }));
    assert_eq!(st.unlock_achievement(&a, &def, 4), Ok(true));
    assert_eq!(st.unlock_achievement(&a, &def, 9), Ok(false));
    let u = &st.users[0];
    assert_eq!(u.dual_balance.token_balance, 5);
    assert_eq!(u.achievements.len(), 1);
    assert!(u.achievements[0].unlocked);
    assert_eq!(u.achievements[0].unlocked_at, Some(4));
    assert_eq!(
        st.unlock_achievement(&"0xdef".to_string(), &def, 9).unwrap_err(),
        CanisterError::UserNotFound
    );
}

#[test]
fn evaluate_waits_for_threshold() {
    let mut u = UserData::new_at("0xabc".to_string(), 100, 0);
    let def = first_trade(None);
    assert_eq!(u.evaluate(&def, TransactionType::Exchange, 1, 1), Ok(false));
    assert!(u.achievements.is_empty());
    u.credit(Currency::Rupees, 1, TransactionType::Deposit, 1).unwrap();
    assert_eq!(u.count_transactions(TransactionType::Exchange), 0);
    assert_eq!(u.count_transactions(TransactionType::Deposit), 1);
    let rate = GlobalSettings::default().exchange_rate;
    u.exchange(Currency::Rupees, 10, rate, 2).unwrap();
    assert_eq!(u.evaluate(&def, TransactionType::Exchange, 1, 3), Ok(true));
    assert_eq!(u.dual_balance.rupees_balance, 91);
    assert_eq!(u.evaluate(&def, TransactionType::Exchange, 1, 4), Ok(false));
}

#[test]
fn reward_that_overflows_is_refused() {
    let mut u = UserData::new_at("0xabc".to_string(), u64::MAX, 0);
    let def = first_trade(Some(AchievementReward { reward_type: Currency::Rupees, amount: 1 }));
    assert_eq!(u.unlock(&def, 1), Err(CanisterError::AmountOverflow));
    assert!(u.achievements.is_empty());
}

#[test]
fn wallet_connections() {
    let mut st = CanisterState::default();
    let a = "0xabc".to_string();
    assert!(!st.wallet_status(&a).connected);
    let c = st.connect_wallet(a.clone(), "1".to_string(), WalletType::Coinbase);
    assert_eq!(c.address, a);
    let s = st.wallet_status(&a);
    assert!(s.connected);
    assert_eq!(s.address, Some(a.clone()));
    assert_eq!(s.wallet_type, Some(WalletType::Coinbase));
    st.connect_wallet(a.clone(), "137".to_string(), WalletType::WalletConnect);
    assert_eq!(st.wallet_connections.len(), 1);
    assert_eq!(st.wallet_connections[0].chain_id, "137");
    assert_eq!(st.wallet_status(&a).wallet_type, Some(WalletType::WalletConnect));
}
