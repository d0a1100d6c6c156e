use vstd::prelude::*;

use crate::types::{CanisterError, WalletType, Web3Session};

verus! {

/// A session last active at `last` is no longer valid at `now` once it has
/// been idle for more than `timeout`.
pub open spec fn expired(last: u64, now: u64, timeout: u64) -> bool {
    now - last > timeout
}

/// Last activity after touching, in order, at each of `times`, starting from
/// `last`; `None` once a touch is refused.
pub open spec fn after_touches(last: u64, times: Seq<u64>, timeout: u64) -> Option<u64>
    decreases times.len(),
{
    if times.len() == 0 {
        Some(last)
    } else if expired(last, times[0], timeout) {
        None
    } else {
        after_touches(times[0], times.drop_first(), timeout)
    }
}

/// A session touched at intervals shorter than the timeout never expires:
/// every touch is accepted and activity slides to the latest one.
pub proof fn sliding_expiry(last: u64, times: Seq<u64>, timeout: u64)
    requires
        times.len() > 0 ==> times[0] - last < timeout,
        forall|i: int| 0 < i < times.len() ==> #[trigger] times[i] - times[i - 1] < timeout,
    ensures
        after_touches(last, times, timeout) == Some(
            if times.len() == 0 {
                last
            } else {
                times.last()
            },
        ),
    decreases times.len(),
{
    if times.len() > 0 {
        let rest = times.drop_first();
        assert forall|i: int| 0 < i < rest.len() implies #[trigger] rest[i] - rest[i - 1]
            < timeout by {
            assert(rest[i] == times[i + 1] && rest[i - 1] == times[i]);
            assert(times[i + 1] - times[i + 1 - 1] < timeout);
        }
        if rest.len() > 0 {
            assert(rest[0] == times[1]);
            assert(times[1] - times[1 - 1] < timeout);
        }
        sliding_expiry(times[0], rest, timeout);
    }
}

/// A session idle for longer than the timeout is refused, however it is
/// reached afterwards.
pub proof fn idle_session_rejected(last: u64, times: Seq<u64>, timeout: u64)
    requires
        times.len() > 0,
        times[0] - last > timeout,
    ensures
        after_touches(last, times, timeout) is None,
{
}

impl Web3Session {
    /// A session opened at `now`.
    pub fn open(wallet_address: String, wallet_type: WalletType, chain_id: String, now: u64) -> (s:
        Web3Session)
        ensures
            s.wallet_address == wallet_address,
            s.wallet_type == wallet_type,
            s.chain_id == chain_id,
            s.connected_at == now,
            s.last_activity == now,
    {
        Web3Session { wallet_address, wallet_type, chain_id, connected_at: now, last_activity: now }
    }

    /// Whether the session still admits requests at `now`; changes nothing.
    pub fn validate(&self, now: u64, timeout: u64) -> (r: Result<(), CanisterError>)
        ensures
            r is Ok <==> !expired(self.last_activity, now, timeout),
            !(r is Ok) ==> r == Err::<(), CanisterError>(CanisterError::SessionExpired),
    {
        if now > self.last_activity && now - self.last_activity > timeout {
            Err(CanisterError::SessionExpired)
        } else {
            Ok(())
        }
    }

    /// Records activity at `now`, which keeps the session alive for another
    /// timeout; an expired session is refused and left as it was.
    pub fn touch(&mut self, now: u64, timeout: u64) -> (r: Result<(), CanisterError>)
        ensures
            r is Ok <==> !expired(old(self).last_activity, now, timeout),
            !(r is Ok) ==> r == Err::<(), CanisterError>(CanisterError::SessionExpired),
            !(r is Ok) ==> *final(self) == *old(self),
            r is Ok ==> *final(self) == (Web3Session { last_activity: now, ..*old(self) }),
    {
        match self.validate(now, timeout) {
            Ok(()) => {
                self.last_activity = now;
                Ok(())
            },
            Err(e) => Err(e),
        }
    }
}

} // verus!
