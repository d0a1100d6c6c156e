use vstd::prelude::*;

use crate::ledger::{appended, balance_of, counterpart, records};
use crate::types::{Achievement, CanisterError, TransactionType, UserData, Web3Transaction};

verus! {

/// How many records of `history` are of `kind`.
pub open spec fn count_of(history: Seq<Web3Transaction>, kind: TransactionType) -> nat
    decreases history.len(),
{
    if history.len() == 0 {
        0
    } else {
        count_of(history.drop_last(), kind) + if history.last().transaction_type == kind {
            1nat
        } else {
            0nat
        }
    }
}

/// `i` is the first achievement of `u` with this id.
pub open spec fn first_achievement(u: UserData, id: Seq<char>, i: int) -> bool {
    &&& 0 <= i < u.achievements@.len()
    &&& u.achievements@[i].id@ == id
    &&& forall|j: int| 0 <= j < i ==> #[trigger] u.achievements@[j].id@ != id
}

/// The achievement of `u` with this id is unlocked.
pub open spec fn has_unlocked(u: UserData, id: Seq<char>) -> bool {
    exists|i: int| #[trigger] first_achievement(u, id, i) && u.achievements@[i].unlocked
}

/// `a` is definition `def` unlocked at `now`.
pub open spec fn unlocked_from(a: Achievement, def: Achievement, now: u64) -> bool {
    &&& a.id@ == def.id@
    &&& a.category == def.category
    &&& a.rarity == def.rarity
    &&& a.reward == def.reward
    &&& a.unlocked
    &&& a.unlocked_at == Some(now)
}

/// Paying the reward of `def`, if any, keeps the balance within 64 bits.
pub open spec fn reward_fits(u: UserData, def: Achievement) -> bool {
    match def.reward {
        Some(w) => w.amount == 0 || balance_of(u.dual_balance, w.reward_type) + w.amount
            <= u64::MAX,
        None => true,
    }
}

/// What unlocking `def` at `now` does: nothing when it is already unlocked,
/// otherwise the reward, if any, is credited once and the achievement is
/// recorded as unlocked.
pub open spec fn unlock_post(
    before: UserData,
    after: UserData,
    def: Achievement,
    now: u64,
    r: Result<bool, CanisterError>,
) -> bool {
    &&& has_unlocked(before, def.id@) ==> r == Ok::<bool, CanisterError>(false) && after == before
    &&& !(r is Ok) ==> after == before
    &&& !(r matches Ok(true)) ==> after == before
    &&& !has_unlocked(before, def.id@) ==> {
        &&& r is Ok <==> reward_fits(before, def)
        &&& !(r is Ok) ==> r == Err::<bool, CanisterError>(CanisterError::AmountOverflow)
        &&& r is Ok ==> r == Ok::<bool, CanisterError>(true)
    }
    &&& r matches Ok(true) ==> {
        &&& has_unlocked(after, def.id@)
        &&& exists|i: int|
            0 <= i < after.achievements@.len() && unlocked_from(
                #[trigger] after.achievements@[i],
                def,
                now,
            ) && (after.achievements@ == before.achievements@.push(after.achievements@[i])
                || after.achievements@ == before.achievements@.update(i, after.achievements@[i]))
        &&& match def.reward {
            Some(w) if w.amount > 0 => {
                &&& balance_of(after.dual_balance, w.reward_type) == balance_of(
                    before.dual_balance,
                    w.reward_type,
                ) + w.amount
                &&& balance_of(after.dual_balance, counterpart(w.reward_type)) == balance_of(
                    before.dual_balance,
                    counterpart(w.reward_type),
                )
                &&& appended(before, after, now)
                &&& records(
                    after.transactions@.last(),
                    before.wallet_address@,
                    TransactionType::Deposit,
                    w.amount,
                    now,
                )
            },
            _ => after.dual_balance == before.dual_balance && after.transactions
                == before.transactions,
        }
        &&& after.staking_pools == before.staking_pools
        &&& after.wallet_address == before.wallet_address
    }
}

/// Unlocking twice pays once: after a successful unlock, unlocking the same
/// achievement again changes nothing and reports no new unlock.
pub proof fn unlock_is_idempotent(
    u0: UserData,
    u1: UserData,
    u2: UserData,
    def: Achievement,
    t1: u64,
    t2: u64,
    r1: Result<bool, CanisterError>,
    r2: Result<bool, CanisterError>,
)
    requires
        unlock_post(u0, u1, def, t1, r1),
        unlock_post(u1, u2, def, t2, r2),
        r1 is Ok,
    ensures
        r2 == Ok::<bool, CanisterError>(false),
        u2 == u1,
{
}

impl UserData {
    /// Position of the first achievement of this user with id `id`.
    pub fn find_achievement(&self, id: &String) -> (r: Option<usize>)
        ensures
            r matches Some(i) ==> i < self.achievements@.len() && self.achievements@[i as int].id@
                == id@ && forall|j: int| 0 <= j < i ==> #[trigger] self.achievements@[j].id@ != id@,
            r is None ==> forall|j: int|
                0 <= j < self.achievements@.len() ==> #[trigger] self.achievements@[j].id@ != id@,
    {
        let mut i: usize = 0;
        while i < self.achievements.len()
            invariant
                i <= self.achievements@.len(),
                forall|j: int| 0 <= j < i ==> #[trigger] self.achievements@[j].id@ != id@,
            decreases self.achievements@.len() - i,
        {
            if self.achievements[i].id == *id {
                return Some(i);
            }
            i = i + 1;
        }
        None
    }

    /// How many of this user's records are of `kind`.
    pub fn count_transactions(&self, kind: TransactionType) -> (r: usize)
        ensures
            r == count_of(self.transactions@, kind),
    {
        let mut n: usize = 0;
        let mut i: usize = 0;
        while i < self.transactions.len()
            invariant
                i <= self.transactions@.len(),
                n == count_of(self.transactions@.subrange(0, i as int), kind),
                n <= i,
            decreases self.transactions@.len() - i,
        {
            proof {
                assert(self.transactions@.subrange(0, i as int + 1).drop_last()
                    =~= self.transactions@.subrange(0, i as int));
            }
            if self.transactions[i].transaction_type == kind {
                n = n + 1;
            }
            i = i + 1;
        }
        proof {
            assert(self.transactions@.subrange(0, i as int) =~= self.transactions@);
        }
        n
    }

    /// Unlocks `def` for this user at `now`, paying its reward once.
    /// Returns whether this call unlocked it.
    pub fn unlock(&mut self, def: &Achievement, now: u64) -> (r: Result<bool, CanisterError>)
        ensures
            unlock_post(*old(self), *final(self), *def, now, r),
    {
        let found = self.find_achievement(&def.id);
        match found {
            Some(i) => {
                if self.achievements[i].unlocked {
                    assert(first_achievement(*self, def.id@, i as int));
                    return Ok(false);
                }
            },
            None => {},
        }
        assert forall|k: int| #[trigger] first_achievement(*old(self), def.id@, k) implies !old(
            self,
        ).achievements@[k].unlocked by {
            if let Some(i) = found {
                if k < i {
                    assert(old(self).achievements@[k].id@ != def.id@);
                } else if k > i {
                    assert(old(self).achievements@[i as int].id@ != def.id@);
                }
            }
        }
        match def.reward {
            Some(w) => {
                if w.amount > 0 {
                    match self.credit(w.reward_type, w.amount, TransactionType::Deposit, now) {
                        Ok(_) => {},
                        Err(e) => {
                            return Err(e);
                        },
                    }
                }
            },
            None => {},
        }
        let a = Achievement {
            id: def.id.clone(),
            title: def.title.clone(),
            description: def.description.clone(),
            category: def.category,
            rarity: def.rarity,
            unlocked: true,
            unlocked_at: Some(now),
            reward: def.reward,
        };
        let ghost pos: int;
        match found {
            Some(i) => {
                self.achievements.set(i, a);
                proof {
                    pos = i as int;
                }
            },
            None => {
                self.achievements.push(a);
                proof {
                    pos = self.achievements@.len() - 1;
                }
            },
        }
        assert(unlocked_from(self.achievements@[pos], *def, now));
        assert forall|j: int| 0 <= j < pos implies #[trigger] self.achievements@[j].id@
            != def.id@ by {
            assert(self.achievements@[j] == old(self).achievements@[j]);
        }
        assert(first_achievement(*self, def.id@, pos));
        proof {
            if found is None {
                assert(self.achievements@ =~= old(self).achievements@.push(self.achievements@[pos]));
            }
        }
        Ok(true)
    }

    /// Unlocks `def` once this user holds at least `threshold` records of
    /// `kind`; below that, nothing changes.
    pub fn evaluate(&mut self, def: &Achievement, kind: TransactionType, threshold: usize, now: u64) -> (r:
        Result<bool, CanisterError>)
        ensures
            count_of(old(self).transactions@, kind) < threshold ==> r == Ok::<bool, CanisterError>(
                false,
            ) && *final(self) == *old(self),
            count_of(old(self).transactions@, kind) >= threshold ==> unlock_post(
                *old(self),
                *final(self),
                *def,
                now,
                r,
            ),
    {
        if self.count_transactions(kind) < threshold {
            Ok(false)
        } else {
            self.unlock(def, now)
        }
    }
}

} // verus!
