use icp_canister::types::{AchievementCategory, AchievementRarity, TransactionType, WalletType};

#[test]
fn wallet_names_ignore_case() {
    assert_eq!(WalletType::from("MetaMask"), WalletType::MetaMask);
    assert_eq!(WalletType::from("PHANTOM"), WalletType::Phantom);
    assert_eq!(WalletType::from("coinbase"), WalletType::Coinbase);
    assert_eq!(WalletType::from("WalletConnect"), WalletType::WalletConnect);
    assert_eq!(WalletType::from("trust"), WalletType::Injected);
    assert_eq!(WalletType::from(""), WalletType::Injected);
}

#[test]
fn transaction_names_ignore_case() {
    assert_eq!(TransactionType::from("Withdraw"), TransactionType::Withdraw);
    assert_eq!(TransactionType::from("EXCHANGE"), TransactionType::Exchange);
    assert_eq!(TransactionType::from("stake"), TransactionType::Stake);
    assert_eq!(TransactionType::from("other"), TransactionType::Deposit);
}

#[test]
fn achievement_names_ignore_case() {
    assert_eq!(AchievementCategory::from("Saving"), AchievementCategory::Saving);
    assert_eq!(AchievementCategory::from("STAKING"), AchievementCategory::Staking);
    assert_eq!(AchievementCategory::from("learning"), AchievementCategory::Learning);
    assert_eq!(AchievementCategory::from("x"), AchievementCategory::Trading);
    assert_eq!(AchievementRarity::from("Rare"), AchievementRarity::Rare);
    assert_eq!(AchievementRarity::from("EPIC"), AchievementRarity::Epic);
    assert_eq!(AchievementRarity::from("Legendary"), AchievementRarity::Legendary);
    assert_eq!(AchievementRarity::from("mythic"), AchievementRarity::Common);
}

#[test]
fn lower_case_names_match_directly() {
    assert_eq!(WalletType::from_lowercase(&"metamask".to_string()), WalletType::MetaMask);
    assert_eq!(WalletType::from_lowercase(&"MetaMask".to_string()), WalletType::Injected);
}
