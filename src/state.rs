use std::collections::HashMap;

use vstd::prelude::*;

use crate::ledger::{credit_post, debit_post, exchange_post};
use crate::achievements::unlock_post;
use crate::session::expired;
use crate::staking::{claim_post, pools_wf, stake_post};
use crate::types::{
    CanisterError, Currency, DualBalance, ExchangeRate, ExchangeResult, GlobalSettings,
    Achievement, AuthResult, StakingPool, TransactionType, User, UserData, WalletConnection,
    WalletStatus, WalletType, Web3AuthRequest, Web3Session, Web3Transaction,
    NANOS_PER_DAY,
};

verus! {

broadcast use vstd::std_specs::hash::group_hash_axioms;

/// Rupees a new user starts with unless configured otherwise.
pub const DEFAULT_STARTING_BALANCE: u64 = 25_000;

/// Idle time after which a session lapses unless configured otherwise: one day.
pub const DEFAULT_SESSION_TIMEOUT: u64 = NANOS_PER_DAY;

/// Accepted distance between a signed request's timestamp and the current
/// time unless configured otherwise: five minutes.
pub const DEFAULT_REQUEST_SKEW: u64 = 300_000_000_000;

/// Relies on `ic_cdk::api::time`: the host's clock, in nanoseconds since the
/// epoch. Nothing is promised of the value. The call is only answered inside
/// a canister; elsewhere `ic0` panics.
#[verifier::external_body]
fn host_time() -> (r: u64) {
    ic_cdk::api::time()
}

impl Default for GlobalSettings {
    /// One rupee buys a tenth of a token; 30, 90 and 180 day terms yield 5%,
    /// 7% and 10%; sessions lapse after a day idle.
    fn default() -> (r: GlobalSettings)
        ensures
            r.exchange_rate == (ExchangeRate { numerator: 1, denominator: 10 }),
            r.staking_apys@ == map![30u32 => 500u64, 90u32 => 700u64, 180u32 => 1000u64],
            r.achievement_definitions@.len() == 0,
            r.session_timeout == DEFAULT_SESSION_TIMEOUT,
            r.starting_balance == DEFAULT_STARTING_BALANCE,
            r.request_skew == DEFAULT_REQUEST_SKEW,
    {
        let mut staking_apys: HashMap<u32, u64> = HashMap::new();
        staking_apys.insert(30, 500);
        staking_apys.insert(90, 700);
        staking_apys.insert(180, 1000);
        proof {
            assert(staking_apys@ =~= map![30u32 => 500u64, 90u32 => 700u64, 180u32 => 1000u64]);
        }
        GlobalSettings {
            exchange_rate: ExchangeRate { numerator: 1, denominator: 10 },
            staking_apys,
            achievement_definitions: Vec::new(),
            session_timeout: DEFAULT_SESSION_TIMEOUT,
            starting_balance: DEFAULT_STARTING_BALANCE,
            request_skew: DEFAULT_REQUEST_SKEW,
        }
    }
}

impl UserData {
    /// A user first seen at `now`, holding `starting_balance` rupees and
    /// nothing else.
    pub fn new_at(wallet_address: String, starting_balance: u64, now: u64) -> (u: UserData)
        ensures
            u.wallet_address == wallet_address,
            u.dual_balance == (DualBalance {
                rupees_balance: starting_balance,
                token_balance: 0,
                last_updated: now,
            }),
            u.staking_pools@.len() == 0,
            u.achievements@.len() == 0,
            u.transactions@.len() == 0,
            u.created_at == now,
            u.last_activity == now,
            pools_wf(u),
    {
        UserData {
            wallet_address,
            dual_balance: DualBalance {
                rupees_balance: starting_balance,
                token_balance: 0,
                last_updated: now,
            },
            staking_pools: Vec::new(),
            achievements: Vec::new(),
            transactions: Vec::new(),
            created_at: now,
            last_activity: now,
        }
    }

    /// A user first seen now, by the host's clock, with the default starting
    /// balance. Only meaningful inside the host.
    pub fn new(wallet_address: String) -> (u: UserData)
        ensures
            u.wallet_address == wallet_address,
            u.dual_balance.rupees_balance == DEFAULT_STARTING_BALANCE,
            u.dual_balance.token_balance == 0,
            u.dual_balance.last_updated == u.created_at,
            u.staking_pools@.len() == 0,
            u.achievements@.len() == 0,
            u.transactions@.len() == 0,
            u.last_activity == u.created_at,
    {
        let now = host_time();
        UserData::new_at(wallet_address, DEFAULT_STARTING_BALANCE, now)
    }
}

/// A live session and the token that names it.
#[derive(Clone, Debug)]
pub struct SessionEntry {
    pub token: String,
    pub session: Web3Session,
}

/// The whole durable state: users by wallet address, sessions by token,
/// wallet connections and the settings.
#[derive(Clone, Debug)]
pub struct CanisterState {
    pub users: Vec<UserData>,
    pub sessions: Vec<SessionEntry>,
    pub wallet_connections: Vec<WalletConnection>,
    pub global_settings: GlobalSettings,
    /// Number of the next session token.
    pub next_session: u64,
}

impl Default for CanisterState {
    /// No users and no sessions, under the default settings.
    fn default() -> (s: CanisterState)
        ensures
            s.users@.len() == 0,
            s.sessions@.len() == 0,
            s.wallet_connections@.len() == 0,
            s.global_settings.exchange_rate == (ExchangeRate { numerator: 1, denominator: 10 }),
            s.global_settings.starting_balance == DEFAULT_STARTING_BALANCE,
            s.global_settings.session_timeout == DEFAULT_SESSION_TIMEOUT,
            s.global_settings.request_skew == DEFAULT_REQUEST_SKEW,
            s.next_session == 0,
            s.wf(),
    {
        CanisterState::new(GlobalSettings::default())
    }
}

/// `i` is the first user of `users` with this address.
pub open spec fn first_user(users: Seq<UserData>, address: Seq<char>, i: int) -> bool {
    &&& 0 <= i < users.len()
    &&& users[i].wallet_address@ == address
    &&& forall|j: int| 0 <= j < i ==> #[trigger] users[j].wallet_address@ != address
}

/// No user of `users` has this address.
pub open spec fn no_user(users: Seq<UserData>, address: Seq<char>) -> bool {
    forall|j: int| 0 <= j < users.len() ==> #[trigger] users[j].wallet_address@ != address
}

/// `after` is `before` with at most the user at `i` changed.
pub open spec fn only_user_changed(before: CanisterState, after: CanisterState, i: int) -> bool {
    &&& after.users@.len() == before.users@.len()
    &&& forall|j: int| 0 <= j < before.users@.len() && j != i ==> #[trigger] after.users@[j]
        == before.users@[j]
    &&& after.users@[i].wallet_address == before.users@[i].wallet_address
    &&& after.sessions == before.sessions
    &&& after.wallet_connections == before.wallet_connections
    &&& after.global_settings == before.global_settings
    &&& after.next_session == before.next_session
}

/// `i` is the first session entry named by `token`.
pub open spec fn first_session(sessions: Seq<SessionEntry>, token: Seq<char>, i: int) -> bool {
    &&& 0 <= i < sessions.len()
    &&& sessions[i].token@ == token
    &&& forall|j: int| 0 <= j < i ==> #[trigger] sessions[j].token@ != token
}

/// No session entry is named by `token`.
pub open spec fn no_session(sessions: Seq<SessionEntry>, token: Seq<char>) -> bool {
    forall|j: int| 0 <= j < sessions.len() ==> #[trigger] sessions[j].token@ != token
}

/// `i` is the first session entry held by the wallet `address`.
pub open spec fn first_wallet_session(sessions: Seq<SessionEntry>, address: Seq<char>, i: int) -> bool {
    &&& 0 <= i < sessions.len()
    &&& sessions[i].session.wallet_address@ == address
    &&& forall|j: int| 0 <= j < i ==> #[trigger] sessions[j].session.wallet_address@ != address
}

/// The wallet `address` holds no session.
pub open spec fn no_wallet_session(sessions: Seq<SessionEntry>, address: Seq<char>) -> bool {
    forall|j: int| 0 <= j < sessions.len() ==> #[trigger] sessions[j].session.wallet_address@ != address
}

/// `after` is `before` with only its sessions and token counter changed.
pub open spec fn only_sessions_changed(before: CanisterState, after: CanisterState) -> bool {
    &&& after.users == before.users
    &&& after.wallet_connections == before.wallet_connections
    &&& after.global_settings == before.global_settings
}

/// The sessions after `address` opened one named `token`: its earlier one
/// is replaced, otherwise the new one is added.
pub open spec fn sessions_after_open(
    before: Seq<SessionEntry>,
    after: Seq<SessionEntry>,
    e: SessionEntry,
) -> bool {
    let address = e.session.wallet_address@;
    &&& no_wallet_session(before, address) ==> after == before.push(e)
    &&& forall|i: int| #[trigger] first_wallet_session(before, address, i) ==> after == before.update(i, e)
}

/// A signed request made at `ts` is fresh at `now`.
pub open spec fn fresh(ts: u64, now: u64, skew: u64) -> bool {
    ts - now <= skew && now - ts <= skew
}

/// `i` is the first connection of the wallet `address`.
pub open spec fn first_connection(conns: Seq<WalletConnection>, address: Seq<char>, i: int) -> bool {
    &&& 0 <= i < conns.len()
    &&& conns[i].address@ == address
    &&& forall|j: int| 0 <= j < i ==> #[trigger] conns[j].address@ != address
}

/// The wallet `address` has no connection.
pub open spec fn no_connection(conns: Seq<WalletConnection>, address: Seq<char>) -> bool {
    forall|j: int| 0 <= j < conns.len() ==> #[trigger] conns[j].address@ != address
}

impl CanisterState {
    /// Every user's pools are well formed and the exchange rate is usable.
    pub open spec fn wf(self) -> bool {
        &&& self.global_settings.exchange_rate.wf()
        &&& forall|i: int| 0 <= i < self.users@.len() ==> pools_wf(#[trigger] self.users@[i])
    }

    /// A state with no users and no sessions.
    pub fn new(global_settings: GlobalSettings) -> (s: CanisterState)
        ensures
            s.users@.len() == 0,
            s.sessions@.len() == 0,
            s.wallet_connections@.len() == 0,
            s.global_settings == global_settings,
            s.next_session == 0,
            global_settings.exchange_rate.wf() ==> s.wf(),
    {
        CanisterState {
            users: Vec::new(),
            sessions: Vec::new(),
            wallet_connections: Vec::new(),
            global_settings,
            next_session: 0,
        }
    }

    /// Position of the first user with this address.
    pub fn find_user(&self, address: &String) -> (r: Option<usize>)
        ensures
            r matches Some(i) ==> first_user(self.users@, address@, i as int),
            r is None ==> no_user(self.users@, address@),
    {
        let mut i: usize = 0;
        while i < self.users.len()
            invariant
                i <= self.users@.len(),
                forall|j: int| 0 <= j < i ==> #[trigger] self.users@[j].wallet_address@ != address@,
            decreases self.users@.len() - i,
        {
            if self.users[i].wallet_address == *address {
                return Some(i);
            }
            i = i + 1;
        }
        None
    }

    /// The balances of the user with this address.
    pub fn balance(&self, address: &String) -> (r: Result<DualBalance, CanisterError>)
        ensures
            no_user(self.users@, address@) <==> r == Err::<DualBalance, CanisterError>(
                CanisterError::UserNotFound,
            ),
            forall|i: int| #[trigger]
                first_user(self.users@, address@, i) ==> r == Ok::<DualBalance, CanisterError>(
                    self.users@[i].dual_balance,
                ),
    {
        match self.find_user(address) {
            Some(i) => {
                proof {
                    self.lemma_first_user_unique(address@, i as int);
                }
                Ok(self.users[i].dual_balance)
            },
            None => Err(CanisterError::UserNotFound),
        }
    }

    proof fn lemma_first_user_unique(&self, address: Seq<char>, i: int)
        requires
            first_user(self.users@, address, i),
        ensures
            forall|k: int| #[trigger] first_user(self.users@, address, k) ==> k == i,
            !no_user(self.users@, address),
    {
        assert forall|k: int| #[trigger] first_user(self.users@, address, k) implies k == i by {
            if k < i {
                assert(self.users@[k].wallet_address@ != address);
            } else if k > i {
                assert(self.users@[i].wallet_address@ != address);
            }
        }
        assert(self.users@[i].wallet_address@ == address);
    }

    /// Adds `amount` rupees to the user with this address.
    pub fn deposit(&mut self, address: &String, amount: u64, now: u64) -> (r: Result<Web3Transaction, CanisterError>)
        requires
            old(self).wf(),
        ensures
            final(self).wf(),
            no_user(old(self).users@, address@) ==> r == Err::<Web3Transaction, CanisterError>(
                CanisterError::UserNotFound,
            ) && *final(self) == *old(self),
            forall|i: int| #[trigger]
                first_user(old(self).users@, address@, i) ==> only_user_changed(
                    *old(self),
                    *final(self),
                    i,
                ) && credit_post(old(self).users@[i], final(self).users@[i], Currency::Rupees, amount, TransactionType::Deposit, now, r),
    {
        let i = match self.find_user(address) {
            Some(i) => i,
            None => {
                return Err(CanisterError::UserNotFound);
            },
        };
        proof {
            self.lemma_first_user_unique(address@, i as int);
        }
        let mut u = self.take_user(i);
        assert(pools_wf(u));
        let r = u.credit(Currency::Rupees, amount, TransactionType::Deposit, now);
        self.put_user(i, u);
        proof {
            assert(self.users@ =~= old(self).users@.update(i as int, u));
            assert forall|j: int| 0 <= j < self.users@.len() implies pools_wf(
                #[trigger] self.users@[j],
            ) by {
                if j != i {
                    assert(self.users@[j] == old(self).users@[j]);
                }
            }
        }
        r
    }

    /// Takes `amount` rupees from the user with this address; never overdraws.
    pub fn withdraw(&mut self, address: &String, amount: u64, now: u64) -> (r: Result<Web3Transaction, CanisterError>)
        requires
            old(self).wf(),
        ensures
            final(self).wf(),
            no_user(old(self).users@, address@) ==> r == Err::<Web3Transaction, CanisterError>(
                CanisterError::UserNotFound,
            ) && *final(self) == *old(self),
            forall|i: int| #[trigger]
                first_user(old(self).users@, address@, i) ==> only_user_changed(
                    *old(self),
                    *final(self),
                    i,
                ) && debit_post(old(self).users@[i], final(self).users@[i], Currency::Rupees, amount, TransactionType::Withdraw, now, r),
    {
        let i = match self.find_user(address) {
            Some(i) => i,
            None => {
                return Err(CanisterError::UserNotFound);
            },
        };
        proof {
            self.lemma_first_user_unique(address@, i as int);
        }
        let mut u = self.take_user(i);
        assert(pools_wf(u));
        let r = u.debit(Currency::Rupees, amount, TransactionType::Withdraw, now);
        self.put_user(i, u);
        proof {
            assert(self.users@ =~= old(self).users@.update(i as int, u));
            assert forall|j: int| 0 <= j < self.users@.len() implies pools_wf(
                #[trigger] self.users@[j],
            ) by {
                if j != i {
                    assert(self.users@[j] == old(self).users@[j]);
                }
            }
        }
        r
    }

    /// Exchanges `amount` out of `from` at the configured rate.
    pub fn exchange(&mut self, address: &String, from: Currency, amount: u64, now: u64) -> (r: Result<ExchangeResult, CanisterError>)
        requires
            old(self).wf(),
        ensures
            final(self).wf(),
            no_user(old(self).users@, address@) ==> r == Err::<ExchangeResult, CanisterError>(
                CanisterError::UserNotFound,
            ) && *final(self) == *old(self),
            forall|i: int| #[trigger]
                first_user(old(self).users@, address@, i) ==> only_user_changed(
                    *old(self),
                    *final(self),
                    i,
                ) && exchange_post(old(self).users@[i], final(self).users@[i], from, amount, old(self).global_settings.exchange_rate, now, r),
    {
        let i = match self.find_user(address) {
            Some(i) => i,
            None => {
                return Err(CanisterError::UserNotFound);
            },
        };
        proof {
            self.lemma_first_user_unique(address@, i as int);
        }
        let rate = self.global_settings.exchange_rate;
        let mut u = self.take_user(i);
        assert(pools_wf(u));
        let r = u.exchange(from, amount, rate, now);
        self.put_user(i, u);
        proof {
            assert(self.users@ =~= old(self).users@.update(i as int, u));
            assert forall|j: int| 0 <= j < self.users@.len() implies pools_wf(
                #[trigger] self.users@[j],
            ) by {
                if j != i {
                    assert(self.users@[j] == old(self).users@[j]);
                }
            }
        }
        r
    }

    /// Stakes `amount` rupees for `days` at the configured yield.
    pub fn stake(&mut self, address: &String, amount: u64, days: u32, now: u64) -> (r: Result<StakingPool, CanisterError>)
        requires
            old(self).wf(),
        ensures
            final(self).wf(),
            no_user(old(self).users@, address@) ==> r == Err::<StakingPool, CanisterError>(
                CanisterError::UserNotFound,
            ) && *final(self) == *old(self),
            forall|i: int| #[trigger]
                first_user(old(self).users@, address@, i) ==> only_user_changed(
                    *old(self),
                    *final(self),
                    i,
                ) && stake_post(old(self).users@[i], final(self).users@[i], amount, days, old(self).global_settings.staking_apys@, now, r),
    {
        let i = match self.find_user(address) {
            Some(i) => i,
            None => {
                return Err(CanisterError::UserNotFound);
            },
        };
        proof {
            self.lemma_first_user_unique(address@, i as int);
        }
        let mut u = self.take_user(i);
        assert(pools_wf(u));
        let r = u.stake(amount, days, &self.global_settings, now);
        self.put_user(i, u);
        proof {
            assert(self.users@ =~= old(self).users@.update(i as int, u));
            assert forall|j: int| 0 <= j < self.users@.len() implies pools_wf(
                #[trigger] self.users@[j],
            ) by {
                if j != i {
                    assert(self.users@[j] == old(self).users@[j]);
                }
            }
        }
        r
    }

    /// Claims the pool `pool_id` of the user with this address.
    pub fn claim_stake(&mut self, address: &String, pool_id: &String, now: u64) -> (r: Result<Web3Transaction, CanisterError>)
        requires
            old(self).wf(),
        ensures
            final(self).wf(),
            no_user(old(self).users@, address@) ==> r == Err::<Web3Transaction, CanisterError>(
                CanisterError::UserNotFound,
            ) && *final(self) == *old(self),
            forall|i: int| #[trigger]
                first_user(old(self).users@, address@, i) ==> only_user_changed(
                    *old(self),
                    *final(self),
                    i,
                ) && claim_post(old(self).users@[i], final(self).users@[i], pool_id@, now, r),
    {
        let i = match self.find_user(address) {
            Some(i) => i,
            None => {
                return Err(CanisterError::UserNotFound);
            },
        };
        proof {
            self.lemma_first_user_unique(address@, i as int);
        }
        let mut u = self.take_user(i);
        assert(pools_wf(u));
        let r = u.claim(pool_id, now);
        self.put_user(i, u);
        proof {
            assert(self.users@ =~= old(self).users@.update(i as int, u));
            assert forall|j: int| 0 <= j < self.users@.len() implies pools_wf(
                #[trigger] self.users@[j],
            ) by {
                if j != i {
                    assert(self.users@[j] == old(self).users@[j]);
                }
            }
        }
        r
    }

    /// Position of the first session entry named by `token`.
    pub fn find_session(&self, token: &String) -> (r: Option<usize>)
        ensures
            r matches Some(i) ==> first_session(self.sessions@, token@, i as int),
            r is None ==> no_session(self.sessions@, token@),
    {
        let mut i: usize = 0;
        while i < self.sessions.len()
            invariant
                i <= self.sessions@.len(),
                forall|j: int| 0 <= j < i ==> #[trigger] self.sessions@[j].token@ != token@,
            decreases self.sessions@.len() - i,
        {
            if self.sessions[i].token == *token {
                return Some(i);
            }
            i = i + 1;
        }
        None
    }

    /// Position of the first session entry held by the wallet `address`.
    pub fn find_wallet_session(&self, address: &String) -> (r: Option<usize>)
        ensures
            r matches Some(i) ==> first_wallet_session(self.sessions@, address@, i as int),
            r is None ==> no_wallet_session(self.sessions@, address@),
    {
        let mut i: usize = 0;
        while i < self.sessions.len()
            invariant
                i <= self.sessions@.len(),
                forall|j: int|
                    0 <= j < i ==> #[trigger] self.sessions@[j].session.wallet_address@ != address@,
            decreases self.sessions@.len() - i,
        {
            if self.sessions[i].session.wallet_address == *address {
                return Some(i);
            }
            i = i + 1;
        }
        None
    }

    /// Opens a session for the wallet `address` at `now`, replacing the one
    /// it held, and returns the token that names it.
    pub fn open_session(
        &mut self,
        address: String,
        wallet_type: WalletType,
        chain_id: String,
        now: u64,
    ) -> (token: String)
        ensures
            only_sessions_changed(*old(self), *final(self)),
            sessions_after_open(
                old(self).sessions@,
                final(self).sessions@,
                SessionEntry {
                    token,
                    session: Web3Session {
                        wallet_address: address,
                        wallet_type,
                        chain_id,
                        connected_at: now,
                        last_activity: now,
                    },
                },
            ),
    {
        let token = self.next_session.to_string();
        self.next_session = if self.next_session < u64::MAX {
            self.next_session + 1
        } else {
            0
        };
        let found = self.find_wallet_session(&address);
        let entry = SessionEntry {
            token: token.clone(),
            session: Web3Session::open(address, wallet_type, chain_id, now),
        };
        let ghost e = entry;
        match found {
            Some(i) => {
                self.sessions.set(i, entry);
                proof {
                    assert forall|k: int| #[trigger]
                        first_wallet_session(old(self).sessions@, e.session.wallet_address@, k)
                        implies k == i by {
                        if k < i {
                            assert(old(self).sessions@[k].session.wallet_address@
                                != e.session.wallet_address@);
                        } else if k > i {
                            assert(old(self).sessions@[i as int].session.wallet_address@
                                != e.session.wallet_address@);
                        }
                    }
                    assert(!no_wallet_session(old(self).sessions@, e.session.wallet_address@)) by {
                        assert(old(self).sessions@[i as int].session.wallet_address@
                            == e.session.wallet_address@);
                    }
                }
            },
            None => {
                self.sessions.push(entry);
            },
        }
        token
    }

    /// Whether the session named by `token` admits requests at `now`; an
    /// unknown token is treated as expired. Changes nothing.
    pub fn validate_session(&self, token: &String, now: u64) -> (r: Result<(), CanisterError>)
        ensures
            !(r is Ok) ==> r == Err::<(), CanisterError>(CanisterError::SessionExpired),
            no_session(self.sessions@, token@) ==> !(r is Ok),
            forall|i: int| #[trigger]
                first_session(self.sessions@, token@, i) ==> (r is Ok <==> !expired(
                    self.sessions@[i].session.last_activity,
                    now,
                    self.global_settings.session_timeout,
                )),
    {
        match self.find_session(token) {
            Some(i) => {
                proof {
                    self.lemma_first_session_unique(token@, i as int);
                }
                self.sessions[i].session.validate(now, self.global_settings.session_timeout)
            },
            None => Err(CanisterError::SessionExpired),
        }
    }

    /// Records activity at `now` on the session named by `token`, sliding its
    /// expiry; an expired or unknown session is refused and nothing changes.
    pub fn touch_session(&mut self, token: &String, now: u64) -> (r: Result<(), CanisterError>)
        ensures
            !(r is Ok) ==> r == Err::<(), CanisterError>(CanisterError::SessionExpired)
                && *final(self) == *old(self),
            no_session(old(self).sessions@, token@) ==> !(r is Ok),
            only_sessions_changed(*old(self), *final(self)),
            final(self).next_session == old(self).next_session,
            forall|i: int| #[trigger]
                first_session(old(self).sessions@, token@, i) ==> {
                    let e = old(self).sessions@[i];
                    &&& r is Ok <==> !expired(
                        e.session.last_activity,
                        now,
                        old(self).global_settings.session_timeout,
                    )
                    &&& r is Ok ==> final(self).sessions@ == old(self).sessions@.update(
                        i,
                        SessionEntry {
                            session: Web3Session { last_activity: now, ..e.session },
                            ..e
                        },
                    )
                },
    {
        let i = match self.find_session(token) {
            Some(i) => i,
            None => {
                return Err(CanisterError::SessionExpired);
            },
        };
        proof {
            self.lemma_first_session_unique(token@, i as int);
        }
        let timeout = self.global_settings.session_timeout;
        match self.sessions[i].session.validate(now, timeout) {
            Ok(()) => {},
            Err(e) => {
                return Err(e);
            },
        }
        let mut entry = self.sessions.remove(i);
        let _ = entry.session.touch(now, timeout);
        self.sessions.insert(i, entry);
        proof {
            assert(self.sessions@ =~= old(self).sessions@.update(i as int, entry));
        }
        Ok(())
    }

    /// Logs out: removes the session named by `token`, if any.
    pub fn close_session(&mut self, token: &String) -> (r: bool)
        ensures
            only_sessions_changed(*old(self), *final(self)),
            final(self).next_session == old(self).next_session,
            no_session(old(self).sessions@, token@) ==> !r && *final(self) == *old(self),
            forall|i: int| #[trigger]
                first_session(old(self).sessions@, token@, i) ==> r && final(self).sessions@
                    == old(self).sessions@.remove(i),
    {
        match self.find_session(token) {
            Some(i) => {
                proof {
                    self.lemma_first_session_unique(token@, i as int);
                }
                self.sessions.remove(i);
                true
            },
            None => false,
        }
    }

    proof fn lemma_first_session_unique(&self, token: Seq<char>, i: int)
        requires
            first_session(self.sessions@, token, i),
        ensures
            forall|k: int| #[trigger] first_session(self.sessions@, token, k) ==> k == i,
            !no_session(self.sessions@, token),
    {
        assert forall|k: int| #[trigger] first_session(self.sessions@, token, k) implies k == i by {
            if k < i {
                assert(self.sessions@[k].token@ != token);
            } else if k > i {
                assert(self.sessions@[i].token@ != token);
            }
        }
        assert(self.sessions@[i].token@ == token);
    }

    /// Records the connection of the wallet `address`, replacing the one it
    /// had, and returns it.
    pub fn connect_wallet(&mut self, address: String, chain_id: String, wallet_type: WalletType) -> (r:
        WalletConnection)
        ensures
            r.address == address,
            r.chain_id == chain_id,
            r.wallet_type == wallet_type,
            r.balance is None,
            final(self).users == old(self).users,
            final(self).sessions == old(self).sessions,
            final(self).global_settings == old(self).global_settings,
            final(self).next_session == old(self).next_session,
            no_connection(old(self).wallet_connections@, address@)
                ==> final(self).wallet_connections@ == old(self).wallet_connections@.push(r),
            forall|i: int| #[trigger]
                first_connection(old(self).wallet_connections@, address@, i)
                    ==> final(self).wallet_connections@ == old(self).wallet_connections@.update(i, r),
    {
        let found = self.find_connection(&address);
        let r = WalletConnection {
            address: address.clone(),
            chain_id: chain_id.clone(),
            wallet_type,
            balance: None,
        };
        let stored = WalletConnection { address, chain_id, wallet_type, balance: None };
        match found {
            Some(k) => {
                proof {
                    assert forall|m: int| #[trigger]
                        first_connection(old(self).wallet_connections@, r.address@, m) implies m
                        == k by {
                        if m < k {
                            assert(old(self).wallet_connections@[m].address@ != r.address@);
                        } else if m > k {
                            assert(old(self).wallet_connections@[k as int].address@ != r.address@);
                        }
                    }
                }
                self.wallet_connections.set(k, stored);
            },
            None => {
                self.wallet_connections.push(stored);
            },
        }
        r
    }

    /// Position of the first connection of the wallet `address`.
    pub fn find_connection(&self, address: &String) -> (r: Option<usize>)
        ensures
            r matches Some(i) ==> first_connection(self.wallet_connections@, address@, i as int),
            r is None ==> no_connection(self.wallet_connections@, address@),
    {
        let mut i: usize = 0;
        while i < self.wallet_connections.len()
            invariant
                i <= self.wallet_connections@.len(),
                forall|j: int|
                    0 <= j < i ==> #[trigger] self.wallet_connections@[j].address@ != address@,
            decreases self.wallet_connections@.len() - i,
        {
            if self.wallet_connections[i].address == *address {
                return Some(i);
            }
            i = i + 1;
        }
        None
    }

    /// What a client is told about the wallet `address`.
    pub fn wallet_status(&self, address: &String) -> (r: WalletStatus)
        ensures
            r.connected <==> !no_connection(self.wallet_connections@, address@),
            r.error is None,
            r.is_connecting == Some(false),
            !r.connected ==> r.address is None && r.wallet_type is None && r.balance is None,
            forall|i: int| #[trigger]
                first_connection(self.wallet_connections@, address@, i) ==> {
                    let c = self.wallet_connections@[i];
                    &&& r.address == Some(c.address)
                    &&& r.wallet_type == Some(c.wallet_type)
                    &&& r.balance == c.balance
                },
    {
        let mut i: usize = 0;
        while i < self.wallet_connections.len()
            invariant
                i <= self.wallet_connections@.len(),
                forall|j: int|
                    0 <= j < i ==> #[trigger] self.wallet_connections@[j].address@ != address@,
            decreases self.wallet_connections@.len() - i,
        {
            let c = &self.wallet_connections[i];
            if c.address == *address {
                proof {
                    assert(first_connection(self.wallet_connections@, address@, i as int));
                    assert forall|m: int| #[trigger]
                        first_connection(self.wallet_connections@, address@, m) implies m == i by {
                        if m < i {
                            assert(self.wallet_connections@[m].address@ != address@);
                        } else if m > i {
                            assert(self.wallet_connections@[i as int].address@ != address@);
                        }
                    }
                }
                return WalletStatus {
                    connected: true,
                    address: Some(c.address.clone()),
                    wallet_type: Some(c.wallet_type),
                    error: None,
                    is_connecting: Some(false),
                    balance: c.balance.clone(),
                };
            }
            i = i + 1;
        }
        WalletStatus {
            connected: false,
            address: None,
            wallet_type: None,
            error: None,
            is_connecting: Some(false),
            balance: None,
        }
    }

    /// Signs a wallet in. A request whose timestamp is too far from `now` is
    /// refused as stale, one whose signature did not verify as invalid, and
    /// neither changes anything. Otherwise the wallet's user is found or
    /// created with the starting balance, and a session is opened for it.
    pub fn authenticate(
        &mut self,
        request: &Web3AuthRequest,
        signature_valid: bool,
        wallet_type: WalletType,
        chain_id: String,
        now: u64,
    ) -> (r: Result<AuthResult, CanisterError>)
        requires
            old(self).wf(),
        ensures
            final(self).wf(),
            !fresh(request.timestamp, now, old(self).global_settings.request_skew) ==> r == Err::<
                AuthResult,
                CanisterError,
            >(CanisterError::StaleRequest),
            fresh(request.timestamp, now, old(self).global_settings.request_skew)
                && !signature_valid ==> r == Err::<AuthResult, CanisterError>(
                CanisterError::InvalidSignature,
            ),
            !(r is Ok) ==> *final(self) == *old(self),
            r is Ok <==> fresh(request.timestamp, now, old(self).global_settings.request_skew)
                && signature_valid,
            r is Ok ==> {
                let address = request.wallet_address@;
                &&& final(self).wallet_connections == old(self).wallet_connections
                &&& final(self).global_settings == old(self).global_settings
                &&& no_user(old(self).users@, address) ==> {
                    &&& final(self).users@.len() == old(self).users@.len() + 1
                    &&& final(self).users@.drop_last() == old(self).users@
                    &&& final(self).users@.last().wallet_address@ == address
                    &&& final(self).users@.last().dual_balance == (DualBalance {
                        rupees_balance: old(self).global_settings.starting_balance,
                        token_balance: 0,
                        last_updated: now,
                    })
                    &&& final(self).users@.last().staking_pools@.len() == 0
                    &&& final(self).users@.last().transactions@.len() == 0
                    &&& r->Ok_0.is_new_user == Some(true)
                }
                &&& !no_user(old(self).users@, address) ==> {
                    &&& final(self).users == old(self).users
                    &&& r->Ok_0.is_new_user == Some(false)
                }
                &&& r->Ok_0.success
                &&& r->Ok_0.error is None
                &&& r->Ok_0.user matches Some(u) && u.wallet_address matches Some(a) && a@
                    == address
                &&& r->Ok_0.token matches Some(t) && sessions_after_open(
                    old(self).sessions@,
                    final(self).sessions@,
                    SessionEntry {
                        token: t,
                        session: Web3Session {
                            wallet_address: request.wallet_address,
                            wallet_type,
                            chain_id,
                            connected_at: now,
                            last_activity: now,
                        },
                    },
                )
            },
    {
        let skew = self.global_settings.request_skew;
        let ts = request.timestamp;
        if (ts > now && ts - now > skew) || (now > ts && now - ts > skew) {
            return Err(CanisterError::StaleRequest);
        }
        if !signature_valid {
            return Err(CanisterError::InvalidSignature);
        }
        let address = &request.wallet_address;
        let is_new = match self.find_user(address) {
            Some(_) => false,
            None => {
                let u = UserData::new_at(
                    address.clone(),
                    self.global_settings.starting_balance,
                    now,
                );
                self.users.push(u);
                proof {
                    assert(self.users@.drop_last() =~= old(self).users@);
                    assert forall|j: int| 0 <= j < self.users@.len() implies pools_wf(
                        #[trigger] self.users@[j],
                    ) by {
                        if j < old(self).users@.len() {
                            assert(self.users@[j] == old(self).users@[j]);
                        }
                    }
                }
                true
            },
        };
        let token = self.open_session(address.clone(), wallet_type, chain_id, now);
        let user = User {
            id: address.clone(),
            email: None,
            game_username: address.clone(),
            wallet_address: Some(address.clone()),
            auth_method: String::from_str("web3"),
            created_at: now,
            updated_at: now,
        };
        Ok(
            AuthResult {
                success: true,
                user: Some(user),
                token: Some(token),
                is_new_user: Some(is_new),
                error: None,
            },
        )
    }

    /// Unlocks `def` for the user with this address, paying its reward once.
    pub fn unlock_achievement(&mut self, address: &String, def: &Achievement, now: u64) -> (r:
        Result<bool, CanisterError>)
        requires
            old(self).wf(),
        ensures
            final(self).wf(),
            no_user(old(self).users@, address@) ==> r == Err::<bool, CanisterError>(
                CanisterError::UserNotFound,
            ) && *final(self) == *old(self),
            forall|i: int| #[trigger]
                first_user(old(self).users@, address@, i) ==> only_user_changed(
                    *old(self),
                    *final(self),
                    i,
                ) && unlock_post(old(self).users@[i], final(self).users@[i], *def, now, r),
    {
        let i = match self.find_user(address) {
            Some(i) => i,
            None => {
                return Err(CanisterError::UserNotFound);
            },
        };
        proof {
            self.lemma_first_user_unique(address@, i as int);
        }
        let mut u = self.take_user(i);
        assert(pools_wf(u));
        let r = u.unlock(def, now);
        self.put_user(i, u);
        proof {
            assert(self.users@ =~= old(self).users@.update(i as int, u));
            assert forall|j: int| 0 <= j < self.users@.len() implies pools_wf(
                #[trigger] self.users@[j],
            ) by {
                if j != i {
                    assert(self.users@[j] == old(self).users@[j]);
                }
            }
        }
        r
    }

    /// Takes the user at `i` out, to be put back by `put_user`.
    fn take_user(&mut self, i: usize) -> (u: UserData)
        requires
            i < old(self).users@.len(),
        ensures
            u == old(self).users@[i as int],
            final(self).users@ == old(self).users@.remove(i as int),
            final(self).sessions == old(self).sessions,
            final(self).wallet_connections == old(self).wallet_connections,
            final(self).global_settings == old(self).global_settings,
            final(self).next_session == old(self).next_session,
    {
        self.users.remove(i)
    }

    fn put_user(&mut self, i: usize, u: UserData)
        requires
            i <= old(self).users@.len(),
        ensures
            final(self).users@ == old(self).users@.insert(i as int, u),
            final(self).sessions == old(self).sessions,
            final(self).wallet_connections == old(self).wallet_connections,
            final(self).global_settings == old(self).global_settings,
            final(self).next_session == old(self).next_session,
    {
        self.users.insert(i, u);
    }
}

} // verus!
