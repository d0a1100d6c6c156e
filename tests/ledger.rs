use icp_canister::types::{
    CanisterError, Currency, ExchangeRate, TransactionStatus, TransactionType, UserData,
};

fn user(rupees: u64, tokens: u64) -> UserData {
    let mut u = UserData::new_at("0xabc".to_string(), rupees, 1);
    u.dual_balance.token_balance = tokens;
    u
}

fn tenth() -> ExchangeRate {
    ExchangeRate { numerator: 1, denominator: 10 }
}

#[test]
fn exchange_primary_at_tenth_rate() {
    let mut u = user(25_000, 0);
    let r = u.exchange(Currency::Rupees, 100, tenth(), 7).unwrap();
    assert_eq!(u.dual_balance.rupees_balance, 24_900);
    assert_eq!(u.dual_balance.token_balance, 10);
    assert_eq!(u.dual_balance.last_updated, 7);
    assert!(r.success);
    assert_eq!(r.from_amount, 100);
    assert_eq!(r.to_amount, 10);
    assert_eq!(u.transactions.len(), 1);
    let t = &u.transactions[0];
    assert_eq!(t.transaction_type, TransactionType::Exchange);
    assert_eq!(t.status, TransactionStatus::Confirmed);
    assert_eq!(t.amount, 100);
    assert_eq!(t.from, "0xabc");
    let rt = r.transaction.unwrap();
    assert_eq!(rt.transaction_type, TransactionType::Exchange);
}

#[test]
fn exchange_tokens_back_to_rupees() {
    let mut u = user(0, 7);
    let r = u.exchange(Currency::Tokens, 3, tenth(), 2).unwrap();
    assert_eq!(r.to_amount, 30);
    assert_eq!(u.dual_balance.token_balance, 4);
    assert_eq!(u.dual_balance.rupees_balance, 30);
}

#[test]
fn exchange_conserves_value_with_rounding_down() {
    let mut u = user(1_000, 5);
    let before_from = u.dual_balance.rupees_balance;
    let before_to = u.dual_balance.token_balance;
    let r = u.exchange(Currency::Rupees, 19, tenth(), 2).unwrap();
    assert_eq!(before_from - u.dual_balance.rupees_balance, 19);
    assert_eq!(u.dual_balance.token_balance - before_to, 19 / 10);
    assert_eq!(r.to_amount, 1);
}

#[test]
fn exchange_errors_leave_user_unchanged() {
    let mut u = user(50, u64::MAX - 1);
    assert_eq!(
        u.exchange(Currency::Rupees, 0, tenth(), 2).unwrap_err(),
        CanisterError::InvalidAmount
    );
    assert_eq!(
        u.exchange(Currency::Rupees, 51, tenth(), 2).unwrap_err(),
        CanisterError::InsufficientBalance
    );
    assert_eq!(
        u.exchange(Currency::Rupees, 50, tenth(), 2).unwrap_err(),
        CanisterError::AmountOverflow
    );
    assert_eq!(u.dual_balance.rupees_balance, 50);
    assert_eq!(u.dual_balance.token_balance, u64::MAX - 1);
    assert_eq!(u.dual_balance.last_updated, 1);
    assert!(u.transactions.is_empty());
}

#[test]
fn credit_and_debit_record_transactions() {
    let mut u = user(10, 0);
    let t = u.credit(Currency::Rupees, 5, TransactionType::Deposit, 3).unwrap();
    assert_eq!(t.amount, 5);
    assert_eq!(t.id, "0");
    assert_eq!(u.dual_balance.rupees_balance, 15);
    let t = u.debit(Currency::Rupees, 15, TransactionType::Withdraw, 4).unwrap();
    assert_eq!(t.transaction_type, TransactionType::Withdraw);
    assert_eq!(t.id, "1");
    assert_eq!(u.dual_balance.rupees_balance, 0);
    assert_eq!(u.transactions.len(), 2);
    assert_eq!(u.transactions[1].id, "1");
    assert_eq!(u.last_activity, 4);
}

#[test]
fn debit_never_overdraws() {
    let mut u = user(10, 0);
    assert_eq!(
        u.debit(Currency::Rupees, 11, TransactionType::Withdraw, 4).unwrap_err(),
        CanisterError::InsufficientBalance
    );
    assert_eq!(
        u.debit(Currency::Tokens, 1, TransactionType::Withdraw, 4).unwrap_err(),
        CanisterError::InsufficientBalance
    );
    assert_eq!(
        u.debit(Currency::Rupees, 0, TransactionType::Withdraw, 4).unwrap_err(),
        CanisterError::InvalidAmount
    );
    assert_eq!(u.dual_balance.rupees_balance, 10);
    assert!(u.transactions.is_empty());
}

#[test]
fn credit_refuses_overflow_and_zero() {
    let mut u = user(u64::MAX, 0);
    assert_eq!(
        u.credit(Currency::Rupees, 1, TransactionType::Deposit, 4).unwrap_err(),
        CanisterError::AmountOverflow
    );
    assert_eq!(
        u.credit(Currency::Tokens, 0, TransactionType::Deposit, 4).unwrap_err(),
        CanisterError::InvalidAmount
    );
    assert_eq!(u.dual_balance.rupees_balance, u64::MAX);
    u.credit(Currency::Tokens, 9, TransactionType::Deposit, 4).unwrap();
    assert_eq!(u.dual_balance.token_balance, 9);
}
