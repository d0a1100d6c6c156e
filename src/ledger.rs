use vstd::prelude::*;

use crate::types::{
    CanisterError, Currency, DualBalance, ExchangeRate, ExchangeResult, TransactionStatus,
    TransactionType, UserData, Web3Transaction,
};

verus! {

/// The denomination an exchange pays into.
pub open spec fn counterpart(c: Currency) -> Currency {
    match c {
        Currency::Rupees => Currency::Tokens,
        Currency::Tokens => Currency::Rupees,
    }
}

/// The balance held in one denomination.
pub open spec fn balance_of(b: DualBalance, c: Currency) -> int {
    match c {
        Currency::Rupees => b.rupees_balance as int,
        Currency::Tokens => b.token_balance as int,
    }
}

/// What `amount` of `from` is worth in the other denomination, rounded down.
pub open spec fn converted(amount: int, from: Currency, rate: ExchangeRate) -> int {
    match from {
        Currency::Rupees => amount * rate.numerator / rate.denominator as int,
        Currency::Tokens => amount * rate.denominator / rate.numerator as int,
    }
}

/// `t` is the settled record of a one-sided operation of `owner`.
pub open spec fn records(
    t: Web3Transaction,
    owner: Seq<char>,
    kind: TransactionType,
    amount: u64,
    now: u64,
) -> bool {
    &&& t.from@ == owner
    &&& t.to is None
    &&& t.amount == amount
    &&& t.transaction_type == kind
    &&& t.timestamp == now
    &&& t.status == TransactionStatus::Confirmed
    &&& t.hash is None
}

/// `after` differs from `before` only in its balances, its history and its
/// activity time.
pub open spec fn ledger_frame(before: UserData, after: UserData) -> bool {
    &&& after.wallet_address == before.wallet_address
    &&& after.staking_pools == before.staking_pools
    &&& after.achievements == before.achievements
    &&& after.created_at == before.created_at
}

/// `after` holds the history of `before` with `t` appended, and was touched at `now`.
pub open spec fn appended(before: UserData, after: UserData, now: u64) -> bool {
    &&& after.transactions@.len() == before.transactions@.len() + 1
    &&& after.transactions@.drop_last() == before.transactions@
    &&& after.last_activity == now
    &&& after.dual_balance.last_updated == now
}

/// What crediting `amount` of `currency` does.
pub open spec fn credit_post(
    before: UserData,
    after: UserData,
    currency: Currency,
    amount: u64,
    kind: TransactionType,
    now: u64,
    r: Result<Web3Transaction, CanisterError>,
) -> bool {
    &&& r is Ok <==> amount > 0 && balance_of(before.dual_balance, currency) + amount <= u64::MAX
    &&& amount == 0 ==> r == Err::<Web3Transaction, CanisterError>(CanisterError::InvalidAmount)
    &&& amount > 0 && !(r is Ok) ==> r == Err::<Web3Transaction, CanisterError>(
        CanisterError::AmountOverflow,
    )
    &&& !(r is Ok) ==> after == before
    &&& r is Ok ==> {
        &&& balance_of(after.dual_balance, currency) == balance_of(before.dual_balance, currency)
            + amount
        &&& balance_of(after.dual_balance, counterpart(currency)) == balance_of(
            before.dual_balance,
            counterpart(currency),
        )
        &&& ledger_frame(before, after)
        &&& appended(before, after, now)
        &&& records(after.transactions@.last(), before.wallet_address@, kind, amount, now)
        &&& records(r->Ok_0, before.wallet_address@, kind, amount, now)
    }
}

/// What debiting `amount` of `currency` does.
pub open spec fn debit_post(
    before: UserData,
    after: UserData,
    currency: Currency,
    amount: u64,
    kind: TransactionType,
    now: u64,
    r: Result<Web3Transaction, CanisterError>,
) -> bool {
    &&& r is Ok <==> amount > 0 && amount <= balance_of(before.dual_balance, currency)
    &&& amount == 0 ==> r == Err::<Web3Transaction, CanisterError>(CanisterError::InvalidAmount)
    &&& amount > 0 && !(r is Ok) ==> r == Err::<Web3Transaction, CanisterError>(
        CanisterError::InsufficientBalance,
    )
    &&& !(r is Ok) ==> after == before
    &&& r is Ok ==> {
        &&& balance_of(after.dual_balance, currency) == balance_of(before.dual_balance, currency)
            - amount
        &&& balance_of(after.dual_balance, counterpart(currency)) == balance_of(
            before.dual_balance,
            counterpart(currency),
        )
        &&& ledger_frame(before, after)
        &&& appended(before, after, now)
        &&& records(after.transactions@.last(), before.wallet_address@, kind, amount, now)
        &&& records(r->Ok_0, before.wallet_address@, kind, amount, now)
    }
}

/// What exchanging `amount` out of `from` at `rate` does. The amount that
/// leaves `from`, converted at `rate`, is what arrives in the other
/// denomination.
pub open spec fn exchange_post(
    before: UserData,
    after: UserData,
    from: Currency,
    amount: u64,
    rate: ExchangeRate,
    now: u64,
    r: Result<ExchangeResult, CanisterError>,
) -> bool {
    let from_before = balance_of(before.dual_balance, from);
    let from_after = balance_of(after.dual_balance, from);
    let to_before = balance_of(before.dual_balance, counterpart(from));
    let to_after = balance_of(after.dual_balance, counterpart(from));
    &&& r is Ok <==> amount > 0 && amount <= from_before && to_before + converted(
        amount as int,
        from,
        rate,
    ) <= u64::MAX
    &&& amount == 0 ==> r == Err::<ExchangeResult, CanisterError>(CanisterError::InvalidAmount)
    &&& amount > 0 && amount > from_before ==> r == Err::<ExchangeResult, CanisterError>(
        CanisterError::InsufficientBalance,
    )
    &&& amount > 0 && amount <= from_before && !(r is Ok) ==> r == Err::<
        ExchangeResult,
        CanisterError,
    >(CanisterError::AmountOverflow)
    &&& !(r is Ok) ==> after == before
    &&& r is Ok ==> {
        &&& from_after == from_before - amount
        &&& to_after - to_before == converted(from_before - from_after, from, rate)
        &&& ledger_frame(before, after)
        &&& appended(before, after, now)
        &&& records(
            after.transactions@.last(),
            before.wallet_address@,
            TransactionType::Exchange,
            amount,
            now,
        )
        &&& r->Ok_0.success
        &&& r->Ok_0.from_amount == amount
        &&& r->Ok_0.to_amount == converted(amount as int, from, rate)
        &&& r->Ok_0.rate == rate
        &&& r->Ok_0.error is None
        &&& r->Ok_0.transaction matches Some(t) && records(
            t,
            before.wallet_address@,
            TransactionType::Exchange,
            amount,
            now,
        )
    }
}

/// An exchange neither creates nor destroys value: what leaves the source
/// balance, converted at the rate, is exactly what the other balance gains,
/// and a refused exchange moves nothing.
pub proof fn exchange_conserves(
    before: UserData,
    after: UserData,
    from: Currency,
    amount: u64,
    rate: ExchangeRate,
    now: u64,
    r: Result<ExchangeResult, CanisterError>,
)
    requires
        rate.wf(),
        exchange_post(before, after, from, amount, rate, now, r),
    ensures
        balance_of(after.dual_balance, counterpart(from)) - balance_of(
            before.dual_balance,
            counterpart(from),
        ) == converted(
            balance_of(before.dual_balance, from) - balance_of(after.dual_balance, from),
            from,
            rate,
        ),
{
    if !(r is Ok) {
        let n = rate.numerator as int;
        let d = rate.denominator as int;
        assert(0 * n / d == 0 && 0 * d / n == 0) by (nonlinear_arith)
            requires
                n > 0,
                d > 0,
        ;
    }
}

impl DualBalance {
    pub fn balance(&self, c: Currency) -> (r: u64)
        ensures
            r as int == balance_of(*self, c),
    {
        match c {
            Currency::Rupees => self.rupees_balance,
            Currency::Tokens => self.token_balance,
        }
    }

    pub fn set_balance(&mut self, c: Currency, v: u64, now: u64)
        ensures
            balance_of(*final(self), c) == v,
            balance_of(*final(self), counterpart(c)) == balance_of(*old(self), counterpart(c)),
            final(self).last_updated == now,
    {
        match c {
            Currency::Rupees => self.rupees_balance = v,
            Currency::Tokens => self.token_balance = v,
        }
        self.last_updated = now;
    }
}

impl UserData {
    /// A settled record of this user's operation; its id is the position it
    /// takes in the history.
    fn new_record(&self, kind: TransactionType, amount: u64, now: u64) -> (t: Web3Transaction)
        ensures
            records(t, self.wallet_address@, kind, amount, now),
    {
        let id = self.transactions.len().to_string();
        Web3Transaction {
            id,
            from: self.wallet_address.clone(),
            to: None,
            amount,
            transaction_type: kind,
            timestamp: now,
            status: TransactionStatus::Confirmed,
            hash: None,
        }
    }

    fn append_record(&mut self, kind: TransactionType, amount: u64, now: u64) -> (t: Web3Transaction)
        ensures
            final(self).transactions@.len() == old(self).transactions@.len() + 1,
            final(self).transactions@.drop_last() == old(self).transactions@,
            records(final(self).transactions@.last(), old(self).wallet_address@, kind, amount, now),
            records(t, old(self).wallet_address@, kind, amount, now),
            final(self).wallet_address == old(self).wallet_address,
            final(self).dual_balance == old(self).dual_balance,
            final(self).staking_pools == old(self).staking_pools,
            final(self).achievements == old(self).achievements,
            final(self).created_at == old(self).created_at,
            final(self).last_activity == now,
    {
        let stored = self.new_record(kind, amount, now);
        let t = self.new_record(kind, amount, now);
        self.transactions.push(stored);
        self.last_activity = now;
        proof {
            assert(self.transactions@.drop_last() =~= old(self).transactions@);
        }
        t
    }

    /// Adds `amount` to one balance and records it.
    pub fn credit(&mut self, currency: Currency, amount: u64, kind: TransactionType, now: u64) -> (r:
        Result<Web3Transaction, CanisterError>)
        ensures
            credit_post(*old(self), *final(self), currency, amount, kind, now, r),
    {
        if amount == 0 {
            return Err(CanisterError::InvalidAmount);
        }
        let current = self.dual_balance.balance(currency);
        if current > u64::MAX - amount {
            return Err(CanisterError::AmountOverflow);
        }
        self.dual_balance.set_balance(currency, current + amount, now);
        let t = self.append_record(kind, amount, now);
        Ok(t)
    }

    /// Takes `amount` from one balance and records it; never overdraws.
    pub fn debit(&mut self, currency: Currency, amount: u64, kind: TransactionType, now: u64) -> (r:
        Result<Web3Transaction, CanisterError>)
        ensures
            debit_post(*old(self), *final(self), currency, amount, kind, now, r),
    {
        if amount == 0 {
            return Err(CanisterError::InvalidAmount);
        }
        let current = self.dual_balance.balance(currency);
        if amount > current {
            return Err(CanisterError::InsufficientBalance);
        }
        self.dual_balance.set_balance(currency, current - amount, now);
        let t = self.append_record(kind, amount, now);
        Ok(t)
    }

    /// Moves `amount` out of `from` and its converted value into the other
    /// denomination as one step, with one Exchange record.
    pub fn exchange(&mut self, from: Currency, amount: u64, rate: ExchangeRate, now: u64) -> (r:
        Result<ExchangeResult, CanisterError>)
        requires
            rate.wf(),
        ensures
            exchange_post(*old(self), *final(self), from, amount, rate, now, r),
    {
        if amount == 0 {
            return Err(CanisterError::InvalidAmount);
        }
        let current = self.dual_balance.balance(from);
        if amount > current {
            return Err(CanisterError::InsufficientBalance);
        }
        let (mul, div) = match from {
            Currency::Rupees => (rate.numerator, rate.denominator),
            Currency::Tokens => (rate.denominator, rate.numerator),
        };
        assert((amount as int) * (mul as int) <= (u64::MAX as int) * (u64::MAX as int))
            by (nonlinear_arith)
            requires
                amount <= u64::MAX,
                mul <= u64::MAX,
        ;
        let wide: u128 = (amount as u128) * (mul as u128) / (div as u128);
        let to = counterpart_exec(from);
        let target = self.dual_balance.balance(to);
        if wide > (u64::MAX - target) as u128 {
            return Err(CanisterError::AmountOverflow);
        }
        let to_amount = wide as u64;
        self.dual_balance.set_balance(from, current - amount, now);
        self.dual_balance.set_balance(to, target + to_amount, now);
        let t = self.append_record(TransactionType::Exchange, amount, now);
        Ok(
            ExchangeResult {
                success: true,
                from_amount: amount,
                to_amount,
                rate,
                transaction: Some(t),
                error: None,
            },
        )
    }
}

/// The denomination an exchange from `c` pays into.
pub fn counterpart_exec(c: Currency) -> (r: Currency)
    ensures
        r == counterpart(c),
{
    match c {
        Currency::Rupees => Currency::Tokens,
        Currency::Tokens => Currency::Rupees,
    }
}

} // verus!
