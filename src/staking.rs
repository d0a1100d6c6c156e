use vstd::arithmetic::div_mod::{
    lemma_div_by_multiple, lemma_div_is_ordered, lemma_div_multiples_vanish_fancy,
    lemma_fundamental_div_mod, lemma_div_pos_is_pos,
};
use vstd::arithmetic::mul::lemma_mul_inequality;
use vstd::prelude::*;

use crate::ledger::{appended, records};
use crate::types::{
    CanisterError, Currency, GlobalSettings, StakingPool, StakingStatus, TransactionType,
    UserData, Web3Transaction, BASIS_POINTS, NANOS_PER_DAY,
};

verus! {

broadcast use vstd::std_specs::hash::group_hash_axioms;

/// What a pool pays over its whole term: `staked × apy`, rounded down.
pub open spec fn full_reward(p: StakingPool) -> int {
    (p.staked_amount as int) * (p.apy as int) / (BASIS_POINTS as int)
}

/// Rewards accrued by `now`: none before the start, the full reward from
/// maturity on, and in between a share proportional to the elapsed time.
pub open spec fn reward_at(p: StakingPool, now: u64) -> int {
    if now >= p.maturity_date {
        full_reward(p)
    } else if now <= p.start_date {
        0
    } else {
        full_reward(p) * (now - p.start_date) / (p.maturity_date - p.start_date) as int
    }
}

/// The status a pool shows at `now`: maturity is derived from the clock,
/// only a claim is stored.
pub open spec fn status_at(p: StakingPool, now: u64) -> StakingStatus {
    if p.status == StakingStatus::Claimed {
        StakingStatus::Claimed
    } else if now >= p.maturity_date {
        StakingStatus::Matured
    } else {
        StakingStatus::Active
    }
}

/// `i` is the first pool of `pools` whose id is `id`.
pub open spec fn first_with_id(pools: Seq<StakingPool>, id: Seq<char>, i: int) -> bool {
    &&& 0 <= i < pools.len()
    &&& pools[i].id@ == id
    &&& forall|j: int| 0 <= j < i ==> pools[j].id@ != id
}

/// `p` once claimed: its rewards frozen at the full reward.
pub open spec fn settled(p: StakingPool) -> StakingPool {
    StakingPool { status: StakingStatus::Claimed, current_rewards: full_reward(p) as u64, ..p }
}

/// What a claim of `p` pays back.
pub open spec fn payout(p: StakingPool) -> int {
    p.staked_amount + full_reward(p)
}

proof fn lemma_split_share(full: int, e: int, d: int)
    requires
        0 <= full,
        0 <= e < d,
    ensures
        full * e / d == (full / d) * e + (full % d) * e / d,
        full * e / d <= full,
{
    let q = full / d;
    let r = full % d;
    lemma_fundamental_div_mod(full, d);
    assert(0 <= r < d);
    assert(full * e == d * (q * e) + r * e) by (nonlinear_arith)
        requires
            full == d * q + r,
    ;
    assert(0 <= r * e) by (nonlinear_arith)
        requires
            0 <= r,
            0 <= e,
    ;
    lemma_fundamental_div_mod(r * e, d);
    lemma_div_pos_is_pos(r * e, d);
    let k = (r * e) / d;
    let m = (r * e) % d;
    assert(d * (q * e) + r * e == d * (q * e + k) + m) by (nonlinear_arith)
        requires
            r * e == d * k + m,
    ;
    lemma_div_multiples_vanish_fancy(q * e + k, m, d);
    lemma_mul_inequality(e, d, full);
    lemma_div_is_ordered(full * e, full * d, d);
    assert(e * full == full * e && d * full == full * d) by (nonlinear_arith);
    lemma_div_by_multiple(full, d);
}

/// Accrued rewards grow with time, and at maturity they are the full reward.
pub proof fn rewards_are_monotonic(p: StakingPool, t1: u64, t2: u64)
    requires
        p.start_date <= p.maturity_date,
        t1 <= t2,
    ensures
        reward_at(p, t1) <= reward_at(p, t2),
        reward_at(p, p.maturity_date) == full_reward(p),
        0 <= reward_at(p, t1),
{
    let full = full_reward(p);
    let d = p.maturity_date - p.start_date;
    lemma_div_pos_is_pos((p.staked_amount as int) * (p.apy as int), BASIS_POINTS as int);
    if t1 < p.maturity_date && t1 > p.start_date {
        let e1 = t1 - p.start_date;
        lemma_split_share(full, e1, d);
        assert(0 <= full * e1) by (nonlinear_arith)
            requires
                0 <= full,
                0 <= e1,
        ;
        lemma_div_pos_is_pos(full * e1, d);
        if t2 < p.maturity_date {
            let e2 = t2 - p.start_date;
            lemma_mul_inequality(e1, e2, full);
            assert(e1 * full == full * e1 && e2 * full == full * e2) by (nonlinear_arith);
            lemma_div_is_ordered(full * e1, full * e2, d);
        }
    }
}

impl StakingPool {
    /// Rewards accrued by `now`; pure, computed on every read.
    pub fn accrue(&self, now: u64) -> (r: u128)
        requires
            self.start_date <= self.maturity_date,
        ensures
            r as int == reward_at(*self, now),
    {
        assert((self.staked_amount as int) * (self.apy as int) <= (u64::MAX as int) * (
        u64::MAX as int)) by (nonlinear_arith)
            requires
                self.staked_amount <= u64::MAX,
                self.apy <= u64::MAX,
        ;
        let full: u128 = (self.staked_amount as u128) * (self.apy as u128) / (BASIS_POINTS as u128);
        if now >= self.maturity_date {
            full
        } else if now <= self.start_date {
            0
        } else {
            let d: u64 = self.maturity_date - self.start_date;
            let e: u64 = now - self.start_date;
            proof {
                lemma_split_share(full as int, e as int, d as int);
                lemma_div_pos_is_pos(full as int, d as int);
                assert((full as int / d as int) * (e as int) <= full) by (nonlinear_arith)
                    requires
                        (full as int / d as int) * (e as int) + (full as int % d as int) * (
                        e as int) / (d as int) <= full as int,
                        0 <= (full as int % d as int) * (e as int) / (d as int),
                ;
                assert((full as int % d as int) * (e as int) < (d as int) * (d as int))
                    by (nonlinear_arith)
                    requires
                        0 <= (full as int % d as int) < (d as int),
                        0 <= e < d,
                ;
                assert((d as int) * (d as int) <= (u64::MAX as int) * (u64::MAX as int))
                    by (nonlinear_arith)
                    requires
                        d <= u64::MAX,
                ;
            }
            let q: u128 = full / (d as u128);
            let rem: u128 = full % (d as u128);
            q * (e as u128) + rem * (e as u128) / (d as u128)
        }
    }

    /// The status this pool shows at `now`.
    pub fn status_at(&self, now: u64) -> (r: StakingStatus)
        ensures
            r == status_at(*self, now),
    {
        match self.status {
            StakingStatus::Claimed => StakingStatus::Claimed,
            _ => if now >= self.maturity_date {
                StakingStatus::Matured
            } else {
                StakingStatus::Active
            },
        }
    }
}

/// The yield, in basis points, of a staking term of `days`, if offered.
pub fn apy_for(settings: &GlobalSettings, days: u32) -> (r: Option<u64>)
    ensures
        r == (if settings.staking_apys@.contains_key(days) {
            Some(settings.staking_apys@[days])
        } else {
            None::<u64>
        }),
{
    match settings.staking_apys.get(&days) {
        Some(a) => Some(*a),
        None => None,
    }
}

/// `after` differs from `before` only in its staking pools, balances,
/// history and activity time.
pub open spec fn staking_frame(before: UserData, after: UserData) -> bool {
    &&& after.wallet_address == before.wallet_address
    &&& after.achievements == before.achievements
    &&& after.created_at == before.created_at
}

/// Every pool of `u` holds a stake and runs forward in time.
pub open spec fn pools_wf(u: UserData) -> bool {
    forall|i: int| 0 <= i < u.staking_pools@.len() ==> pool_wf(#[trigger] u.staking_pools@[i])
}

pub open spec fn pool_wf(p: StakingPool) -> bool {
    p.staked_amount > 0 && p.start_date <= p.maturity_date
}

/// `p` is the pool opened at `now` for `amount` over `days` at `apy`.
pub open spec fn opened(p: StakingPool, amount: u64, apy: u64, days: u32, now: u64) -> bool {
    &&& p.staked_amount == amount
    &&& p.apy == apy
    &&& p.start_date == now
    &&& p.maturity_date == now + days * NANOS_PER_DAY
    &&& p.current_rewards == 0
    &&& p.status == StakingStatus::Active
}

/// What staking `amount` rupees for `days` does, with `apys` the yields on offer.
pub open spec fn stake_post(
    before: UserData,
    after: UserData,
    amount: u64,
    days: u32,
    apys: Map<u32, u64>,
    now: u64,
    r: Result<StakingPool, CanisterError>,
) -> bool {
    &&& r is Ok <==> apys.contains_key(days) && now + days * NANOS_PER_DAY
        <= u64::MAX && 0 < amount <= before.dual_balance.rupees_balance
    &&& !apys.contains_key(days) || now + days * NANOS_PER_DAY > u64::MAX
        ==> r == Err::<StakingPool, CanisterError>(CanisterError::InvalidDuration)
    &&& apys.contains_key(days) && now + days * NANOS_PER_DAY <= u64::MAX
        && amount == 0 ==> r == Err::<StakingPool, CanisterError>(
        CanisterError::InvalidAmount,
    )
    &&& apys.contains_key(days) && now + days * NANOS_PER_DAY <= u64::MAX
        && amount > before.dual_balance.rupees_balance ==> r == Err::<
        StakingPool,
        CanisterError,
    >(CanisterError::InsufficientBalance)
    &&& !(r is Ok) ==> after == before
    &&& r is Ok ==> {
        &&& after.dual_balance.rupees_balance == before.dual_balance.rupees_balance
            - amount
        &&& after.dual_balance.token_balance == before.dual_balance.token_balance
        &&& staking_frame(before, after)
        &&& appended(before, after, now)
        &&& records(
            after.transactions@.last(),
            before.wallet_address@,
            TransactionType::Stake,
            amount,
            now,
        )
        &&& after.staking_pools@.len() == before.staking_pools@.len() + 1
        &&& after.staking_pools@.drop_last() == before.staking_pools@
        &&& opened(
            after.staking_pools@.last(),
            amount,
            apys[days],
            days,
            now,
        )
        &&& opened(r->Ok_0, amount, apys[days], days, now)
    }
}

impl UserData {
    /// Locks `amount` rupees for `days` at the yield the settings offer for
    /// that term.
    pub fn stake(&mut self, amount: u64, days: u32, settings: &GlobalSettings, now: u64) -> (r:
        Result<StakingPool, CanisterError>)
        requires
            pools_wf(*old(self)),
        ensures
            pools_wf(*final(self)),
            stake_post(*old(self), *final(self), amount, days, settings.staking_apys@, now, r),
    {
        let apy = match apy_for(settings, days) {
            Some(a) => a,
            None => {
                return Err(CanisterError::InvalidDuration);
            },
        };
        if days as u64 > (u64::MAX - now) / NANOS_PER_DAY {
            proof {
                let room = (u64::MAX - now) as int;
                let n = NANOS_PER_DAY as int;
                lemma_fundamental_div_mod(room, n);
                assert((days as int) * n > room) by (nonlinear_arith)
                    requires
                        days as int >= room / n + 1,
                        room == n * (room / n) + room % n,
                        room % n < n,
                        n > 0,
                ;
            }
            return Err(CanisterError::InvalidDuration);
        }
        proof {
            let room = (u64::MAX - now) as int;
            let n = NANOS_PER_DAY as int;
            lemma_fundamental_div_mod(room, n);
            assert((days as int) * n <= room) by (nonlinear_arith)
                requires
                    days as int <= room / n,
                    room == n * (room / n) + room % n,
                    room % n >= 0,
                    n > 0,
            ;
        }
        let maturity = now + (days as u64) * NANOS_PER_DAY;
        let id = self.staking_pools.len().to_string();
        match self.debit(Currency::Rupees, amount, TransactionType::Stake, now) {
            Ok(_) => {},
            Err(e) => {
                return Err(e);
            },
        }
        let stored = StakingPool {
            id: id.clone(),
            staked_amount: amount,
            apy,
            start_date: now,
            maturity_date: maturity,
            current_rewards: 0,
            status: StakingStatus::Active,
        };
        let pool = StakingPool {
            id,
            staked_amount: amount,
            apy,
            start_date: now,
            maturity_date: maturity,
            current_rewards: 0,
            status: StakingStatus::Active,
        };
        self.staking_pools.push(stored);
        proof {
            assert(self.staking_pools@.drop_last() =~= old(self).staking_pools@);
        }
        Ok(pool)
    }
}

/// What a claim of `id` at `now` does to `before`, giving `after` and `r`.
pub open spec fn claim_post(
    before: UserData,
    after: UserData,
    id: Seq<char>,
    now: u64,
    r: Result<Web3Transaction, CanisterError>,
) -> bool {
    &&& (forall|j: int| 0 <= j < before.staking_pools@.len() ==> #[trigger] before.staking_pools@[j].id@ != id)
        ==> r == Err::<Web3Transaction, CanisterError>(CanisterError::PoolNotFound)
    &&& !(r is Ok) ==> after == before
    &&& after.wallet_address == before.wallet_address
    &&& forall|i: int| #[trigger] first_with_id(before.staking_pools@, id, i) ==> claim_of(before, after, i, now, r)
}

/// The effect of claiming the pool at position `i`.
pub open spec fn claim_of(
    before: UserData,
    after: UserData,
    i: int,
    now: u64,
    r: Result<Web3Transaction, CanisterError>,
) -> bool {
    let p = before.staking_pools@[i];
    &&& p.status == StakingStatus::Claimed ==> r == Err::<Web3Transaction, CanisterError>(
        CanisterError::AlreadyClaimed,
    )
    &&& p.status != StakingStatus::Claimed && now < p.maturity_date ==> r == Err::<
        Web3Transaction,
        CanisterError,
    >(CanisterError::PoolNotMatured)
    &&& p.status != StakingStatus::Claimed && now >= p.maturity_date && !(r is Ok) ==> r == Err::<
        Web3Transaction,
        CanisterError,
    >(CanisterError::AmountOverflow)
    &&& r is Ok <==> p.status != StakingStatus::Claimed && now >= p.maturity_date
        && before.dual_balance.rupees_balance + payout(p) <= u64::MAX
    &&& r is Ok ==> {
        &&& after.dual_balance.rupees_balance == before.dual_balance.rupees_balance + payout(p)
        &&& after.dual_balance.token_balance == before.dual_balance.token_balance
        &&& after.staking_pools@ == before.staking_pools@.update(i, settled(p))
        &&& staking_frame(before, after)
        &&& appended(before, after, now)
        &&& records(
            after.transactions@.last(),
            before.wallet_address@,
            TransactionType::Stake,
            payout(p) as u64,
            now,
        )
        &&& records(r->Ok_0, before.wallet_address@, TransactionType::Stake, payout(p) as u64, now)
    }
}

/// A pool is paid once: after a successful claim of `id`, a second claim of
/// `id`, at any time, fails with `AlreadyClaimed` and changes nothing, and
/// the first one raised the rupee balance by exactly the principal and the
/// full reward.
pub proof fn claim_is_final(
    u0: UserData,
    u1: UserData,
    u2: UserData,
    id: Seq<char>,
    t1: u64,
    t2: u64,
    r1: Result<Web3Transaction, CanisterError>,
    r2: Result<Web3Transaction, CanisterError>,
)
    requires
        claim_post(u0, u1, id, t1, r1),
        claim_post(u1, u2, id, t2, r2),
        r1 is Ok,
    ensures
        r2 == Err::<Web3Transaction, CanisterError>(CanisterError::AlreadyClaimed),
        u2 == u1,
        exists|i: int|
            first_with_id(u0.staking_pools@, id, i) && u1.dual_balance.rupees_balance
                == u0.dual_balance.rupees_balance + payout(#[trigger] u0.staking_pools@[i]),
{
    if forall|j: int| 0 <= j < u0.staking_pools@.len() ==> #[trigger] u0.staking_pools@[j].id@ != id {
        assert(false);
    }
    let k = choose|k: int| 0 <= k < u0.staking_pools@.len() && #[trigger] u0.staking_pools@[k].id@ == id;
    let i = first_index(u0.staking_pools@, id, k);
    assert(claim_of(u0, u1, i, t1, r1));
    let p = u0.staking_pools@[i];
    assert(u1.staking_pools@ == u0.staking_pools@.update(i, settled(p)));
    assert(u1.staking_pools@[i] == settled(p));
    assert forall|j: int| 0 <= j < i implies #[trigger] u1.staking_pools@[j].id@ != id by {
        assert(u1.staking_pools@[j] == u0.staking_pools@[j]);
    }
    assert(first_with_id(u1.staking_pools@, id, i));
    assert(claim_of(u1, u2, i, t2, r2));
}

/// The first position holding `id`, given that position `k` holds it.
proof fn first_index(pools: Seq<StakingPool>, id: Seq<char>, k: int) -> (i: int)
    requires
        0 <= k < pools.len(),
        pools[k].id@ == id,
    ensures
        first_with_id(pools, id, i),
    decreases k,
{
    if exists|j: int| 0 <= j < k && #[trigger] pools[j].id@ == id {
        let j = choose|j: int| 0 <= j < k && #[trigger] pools[j].id@ == id;
        first_index(pools, id, j)
    } else {
        k
    }
}

impl UserData {
    /// Position of the first pool whose id is `id`.
    pub fn find_pool(&self, id: &String) -> (r: Option<usize>)
        ensures
            r matches Some(i) ==> first_with_id(self.staking_pools@, id@, i as int),
            r is None ==> forall|j: int|
                0 <= j < self.staking_pools@.len() ==> #[trigger] self.staking_pools@[j].id@
                    != id@,
    {
        let mut i: usize = 0;
        while i < self.staking_pools.len()
            invariant
                i <= self.staking_pools@.len(),
                forall|j: int| 0 <= j < i ==> #[trigger] self.staking_pools@[j].id@ != id@,
            decreases self.staking_pools@.len() - i,
        {
            if self.staking_pools[i].id == *id {
                return Some(i);
            }
            i = i + 1;
        }
        None
    }

    /// Pays a matured pool back, principal and full reward, and marks it
    /// claimed; a claimed pool is never paid again.
    pub fn claim(&mut self, id: &String, now: u64) -> (r: Result<Web3Transaction, CanisterError>)
        requires
            pools_wf(*old(self)),
        ensures
            pools_wf(*final(self)),
            claim_post(*old(self), *final(self), id@, now, r),
    {
        let i = match self.find_pool(id) {
            Some(i) => i,
            None => {
                return Err(CanisterError::PoolNotFound);
            },
        };
        let ghost gi = i as int;
        assert(first_with_id(old(self).staking_pools@, id@, gi));
        assert forall|k: int| #[trigger] first_with_id(old(self).staking_pools@, id@, k) implies k
            == gi by {
            if k < gi {
                assert(old(self).staking_pools@[k].id@ != id@);
            }
            if gi < k {
                assert(old(self).staking_pools@[gi].id@ != id@);
            }
        }
        let p = &self.staking_pools[i];
        assert(pool_wf(*p));
        if p.status == StakingStatus::Claimed {
            return Err(CanisterError::AlreadyClaimed);
        }
        if now < p.maturity_date {
            return Err(CanisterError::PoolNotMatured);
        }
        let reward = p.accrue(now);
        let balance = self.dual_balance.rupees_balance;
        if reward > (u64::MAX - balance) as u128 || p.staked_amount > u64::MAX - balance
            - reward as u64 {
            return Err(CanisterError::AmountOverflow);
        }
        let amount = p.staked_amount + reward as u64;
        let claimed = StakingPool {
            id: p.id.clone(),
            staked_amount: p.staked_amount,
            apy: p.apy,
            start_date: p.start_date,
            maturity_date: p.maturity_date,
            current_rewards: reward as u64,
            status: StakingStatus::Claimed,
        };
        match self.credit(Currency::Rupees, amount, TransactionType::Stake, now) {
            Ok(t) => {
                self.staking_pools.set(i, claimed);
                Ok(t)
            },
            Err(e) => Err(e),
        }
    }
}

} // verus!
