use vstd::prelude::*;

use crate::types::{AchievementCategory, AchievementRarity, TransactionType, WalletType};

verus! {

/// The lower-case form of a text, as Unicode defines it.
pub uninterp spec fn lowercase_of(s: Seq<char>) -> Seq<char>;

/// Relies on `str::to_lowercase`: the result depends on the characters of
/// `s` alone.
#[verifier::external_body]
fn lowercase(s: &str) -> (r: String)
    ensures
        r@ == lowercase_of(s@),
{
    s.to_lowercase()
}

/// Whether `s` reads exactly `word`.
fn is_word(s: &String, word: &str) -> (r: bool)
    ensures
        r == (s@ == word@),
{
    let w = String::from_str(word);
    *s == w
}

/// The wallet a lower-case name stands for; unknown names are injected wallets.
pub open spec fn wallet_type_named(s: Seq<char>) -> WalletType {
    if s == "metamask"@ {
        WalletType::MetaMask
    } else if s == "phantom"@ {
        WalletType::Phantom
    } else if s == "coinbase"@ {
        WalletType::Coinbase
    } else if s == "walletconnect"@ {
        WalletType::WalletConnect
    } else {
        WalletType::Injected
    }
}

/// The operation a lower-case name stands for; unknown names are deposits.
pub open spec fn transaction_type_named(s: Seq<char>) -> TransactionType {
    if s == "deposit"@ {
        TransactionType::Deposit
    } else if s == "withdraw"@ {
        TransactionType::Withdraw
    } else if s == "exchange"@ {
        TransactionType::Exchange
    } else if s == "stake"@ {
        TransactionType::Stake
    } else {
        TransactionType::Deposit
    }
}

/// The category a lower-case name stands for; unknown names are trading.
pub open spec fn category_named(s: Seq<char>) -> AchievementCategory {
    if s == "trading"@ {
        AchievementCategory::Trading
    } else if s == "saving"@ {
        AchievementCategory::Saving
    } else if s == "staking"@ {
        AchievementCategory::Staking
    } else if s == "learning"@ {
        AchievementCategory::Learning
    } else {
        AchievementCategory::Trading
    }
}

/// The rarity a lower-case name stands for; unknown names are common.
pub open spec fn rarity_named(s: Seq<char>) -> AchievementRarity {
    if s == "common"@ {
        AchievementRarity::Common
    } else if s == "rare"@ {
        AchievementRarity::Rare
    } else if s == "epic"@ {
        AchievementRarity::Epic
    } else if s == "legendary"@ {
        AchievementRarity::Legendary
    } else {
        AchievementRarity::Common
    }
}

impl WalletType {
    /// The wallet named by an already lower-cased name.
    pub fn from_lowercase(s: &String) -> (r: WalletType)
        ensures
            r == wallet_type_named(s@),
    {
        if is_word(s, "metamask") {
            WalletType::MetaMask
        } else if is_word(s, "phantom") {
            WalletType::Phantom
        } else if is_word(s, "coinbase") {
            WalletType::Coinbase
        } else if is_word(s, "walletconnect") {
            WalletType::WalletConnect
        } else {
            WalletType::Injected
        }
    }
}

impl TransactionType {
    /// The operation named by an already lower-cased name.
    pub fn from_lowercase(s: &String) -> (r: TransactionType)
        ensures
            r == transaction_type_named(s@),
    {
        if is_word(s, "deposit") {
            TransactionType::Deposit
        } else if is_word(s, "withdraw") {
            TransactionType::Withdraw
        } else if is_word(s, "exchange") {
            TransactionType::Exchange
        } else if is_word(s, "stake") {
            TransactionType::Stake
        } else {
            TransactionType::Deposit
        }
    }
}

impl AchievementCategory {
    /// The category named by an already lower-cased name.
    pub fn from_lowercase(s: &String) -> (r: AchievementCategory)
        ensures
            r == category_named(s@),
    {
        if is_word(s, "trading") {
            AchievementCategory::Trading
        } else if is_word(s, "saving") {
            AchievementCategory::Saving
        } else if is_word(s, "staking") {
            AchievementCategory::Staking
        } else if is_word(s, "learning") {
            AchievementCategory::Learning
        } else {
            AchievementCategory::Trading
        }
    }
}

impl AchievementRarity {
    /// The rarity named by an already lower-cased name.
    pub fn from_lowercase(s: &String) -> (r: AchievementRarity)
        ensures
            r == rarity_named(s@),
    {
        if is_word(s, "common") {
            AchievementRarity::Common
        } else if is_word(s, "rare") {
            AchievementRarity::Rare
        } else if is_word(s, "epic") {
            AchievementRarity::Epic
        } else if is_word(s, "legendary") {
            AchievementRarity::Legendary
        } else {
            AchievementRarity::Common
        }
    }
}

impl<'a> From<&'a str> for WalletType {
    /// Names are matched without regard to case.
    fn from(s: &'a str) -> (r: WalletType) {
        WalletType::from_lowercase(&lowercase(s))
    }
}

impl<'a> vstd::std_specs::convert::FromSpecImpl<&'a str> for WalletType {
    open spec fn obeys_from_spec() -> bool {
        true
    }

    open spec fn from_spec(s: &'a str) -> WalletType {
        wallet_type_named(lowercase_of(s@))
    }
}

impl<'a> From<&'a str> for TransactionType {
    /// Names are matched without regard to case.
    fn from(s: &'a str) -> (r: TransactionType) {
        TransactionType::from_lowercase(&lowercase(s))
    }
}

impl<'a> vstd::std_specs::convert::FromSpecImpl<&'a str> for TransactionType {
    open spec fn obeys_from_spec() -> bool {
        true
    }

    open spec fn from_spec(s: &'a str) -> TransactionType {
        transaction_type_named(lowercase_of(s@))
    }
}

impl<'a> From<&'a str> for AchievementCategory {
    /// Names are matched without regard to case.
    fn from(s: &'a str) -> (r: AchievementCategory) {
        AchievementCategory::from_lowercase(&lowercase(s))
    }
}

impl<'a> vstd::std_specs::convert::FromSpecImpl<&'a str> for AchievementCategory {
    open spec fn obeys_from_spec() -> bool {
        true
    }

    open spec fn from_spec(s: &'a str) -> AchievementCategory {
        category_named(lowercase_of(s@))
    }
}

impl<'a> From<&'a str> for AchievementRarity {
    /// Names are matched without regard to case.
    fn from(s: &'a str) -> (r: AchievementRarity) {
        AchievementRarity::from_lowercase(&lowercase(s))
    }
}

impl<'a> vstd::std_specs::convert::FromSpecImpl<&'a str> for AchievementRarity {
    open spec fn obeys_from_spec() -> bool {
        true
    }

    open spec fn from_spec(s: &'a str) -> AchievementRarity {
        rarity_named(lowercase_of(s@))
    }
}

} // verus!
