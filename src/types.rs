use std::collections::HashMap;

use vstd::prelude::*;

verus! {

/// The wallet provider a connection or a session was made with.
#[derive(Clone, Copy, Debug, PartialEq, Eq, Structural)]
pub enum WalletType {
    MetaMask,
    Phantom,
    Coinbase,
    WalletConnect,
    Injected,
}

/// Transient connection metadata of a wallet.
#[derive(Clone, Debug)]
pub struct WalletConnection {
    pub address: String,
    pub chain_id: String,
    pub wallet_type: WalletType,
    pub balance: Option<String>,
}

/// Presentation data of a wallet provider.
#[derive(Clone, Debug)]
pub struct WalletInfo {
    pub name: String,
    pub wallet_type: WalletType,
    pub icon: String,
    pub installed: bool,
    pub download_url: Option<String>,
}

/// What a client is told about the connection of an address.
#[derive(Clone, Debug)]
pub struct WalletStatus {
    pub connected: bool,
    pub address: Option<String>,
    pub wallet_type: Option<WalletType>,
    pub error: Option<String>,
    pub is_connecting: Option<bool>,
    pub balance: Option<String>,
}

/// The two denominations a user holds.
#[derive(Clone, Copy, Debug, PartialEq, Eq, Structural)]
pub enum Currency {
    Rupees,
    Tokens,
}

/// Balances in the smallest unit of each denomination; they cannot go
/// negative by construction.
#[derive(Clone, Copy, Debug, PartialEq, Eq, Structural)]
pub struct DualBalance {
    pub rupees_balance: u64,
    pub token_balance: u64,
    pub last_updated: u64,
}

/// Tokens obtained for one rupee: `numerator / denominator`.
#[derive(Clone, Copy, Debug, PartialEq, Eq, Structural)]
pub struct ExchangeRate {
    pub numerator: u64,
    pub denominator: u64,
}

impl ExchangeRate {
    /// A rate is usable in both directions when neither part is zero.
    pub open spec fn wf(self) -> bool {
        self.numerator > 0 && self.denominator > 0
    }
}

#[derive(Clone, Copy, Debug, PartialEq, Eq, Structural)]
pub enum StakingStatus {
    Active,
    Matured,
    Claimed,
}

/// A staking position. `apy` is in basis points (hundredths of a percent)
/// and is earned once over the whole term.
#[derive(Clone, Debug)]
pub struct StakingPool {
    pub id: String,
    pub staked_amount: u64,
    pub apy: u64,
    pub start_date: u64,
    pub maturity_date: u64,
    pub current_rewards: u64,
    pub status: StakingStatus,
}

/// Outcome of an exchange between the two denominations.
#[derive(Clone, Debug)]
pub struct ExchangeResult {
    pub success: bool,
    pub from_amount: u64,
    pub to_amount: u64,
    pub rate: ExchangeRate,
    pub transaction: Option<Web3Transaction>,
    pub error: Option<String>,
}

#[derive(Clone, Copy, Debug, PartialEq, Eq, Structural)]
pub enum AchievementCategory {
    Trading,
    Saving,
    Staking,
    Learning,
}

#[derive(Clone, Copy, Debug, PartialEq, Eq, Structural)]
pub enum AchievementRarity {
    Common,
    Rare,
    Epic,
    Legendary,
}

/// What unlocking an achievement pays, and in which denomination.
#[derive(Clone, Copy, Debug, PartialEq, Eq, Structural)]
pub struct AchievementReward {
    pub reward_type: Currency,
    pub amount: u64,
}

#[derive(Clone, Debug)]
pub struct Achievement {
    pub id: String,
    pub title: String,
    pub description: String,
    pub category: AchievementCategory,
    pub rarity: AchievementRarity,
    pub unlocked: bool,
    pub unlocked_at: Option<u64>,
    pub reward: Option<AchievementReward>,
}

#[derive(Clone, Copy, Debug, PartialEq, Eq, Structural)]
pub enum TransactionType {
    Deposit,
    Withdraw,
    Exchange,
    Stake,
}

#[derive(Clone, Copy, Debug, PartialEq, Eq, Structural)]
pub enum TransactionStatus {
    Pending,
    Confirmed,
    Failed,
}

/// One entry of a user's append-only history.
#[derive(Clone, Debug)]
pub struct Web3Transaction {
    pub id: String,
    pub from: String,
    pub to: Option<String>,
    pub amount: u64,
    pub transaction_type: TransactionType,
    pub timestamp: u64,
    pub status: TransactionStatus,
    pub hash: Option<String>,
}

#[derive(Clone, Debug)]
pub struct Web3Session {
    pub wallet_address: String,
    pub wallet_type: WalletType,
    pub chain_id: String,
    pub connected_at: u64,
    pub last_activity: u64,
}

#[derive(Clone, Debug)]
pub struct User {
    pub id: String,
    pub email: Option<String>,
    pub game_username: String,
    pub wallet_address: Option<String>,
    pub auth_method: String,
    pub created_at: u64,
    pub updated_at: u64,
}

#[derive(Clone, Debug)]
pub struct AuthResult {
    pub success: bool,
    pub user: Option<User>,
    pub token: Option<String>,
    pub is_new_user: Option<bool>,
    pub error: Option<String>,
}

#[derive(Clone, Debug)]
pub struct Web3AuthRequest {
    pub wallet_address: String,
    pub signature: String,
    pub message: String,
    pub timestamp: u64,
}

/// Everything the service knows of one user.
#[derive(Clone, Debug)]
pub struct UserData {
    pub wallet_address: String,
    pub dual_balance: DualBalance,
    pub staking_pools: Vec<StakingPool>,
    pub achievements: Vec<Achievement>,
    pub transactions: Vec<Web3Transaction>,
    pub created_at: u64,
    pub last_activity: u64,
}

/// The recoverable failures of every operation.
#[derive(Clone, Copy, Debug, PartialEq, Eq, Structural)]
pub enum CanisterError {
    InvalidAmount,
    InsufficientBalance,
    InvalidDuration,
    PoolNotFound,
    PoolNotMatured,
    AlreadyClaimed,
    SessionExpired,
    InvalidSignature,
    StaleRequest,
    UserNotFound,
    /// A balance or a reward would not fit in 64 bits.
    AmountOverflow,
}

/// Service-wide configuration, read by the ledger, the staking engine and
/// the session manager.
#[derive(Clone, Debug)]
pub struct GlobalSettings {
    /// Tokens obtained for one rupee.
    pub exchange_rate: ExchangeRate,
    /// Staking term in days to its yield in basis points.
    pub staking_apys: HashMap<u32, u64>,
    pub achievement_definitions: Vec<Achievement>,
    /// Idle time, in nanoseconds, after which a session is no longer valid.
    pub session_timeout: u64,
    /// Rupees a new user starts with.
    pub starting_balance: u64,
    /// Largest distance, in nanoseconds, between a signed request's
    /// timestamp and the current time.
    pub request_skew: u64,
}

/// Nanoseconds in one day; times are nanoseconds since the epoch.
pub const NANOS_PER_DAY: u64 = 86_400_000_000_000;

/// Denominator of amounts given in basis points.
pub const BASIS_POINTS: u64 = 10_000;

} // verus!
