use crate::clock::{non_negative, unix_now_millis};
use crate::encoding::str_equal;
use crate::errors::BridgeError;
use vstd::prelude::*;

verus! {

/// An API key and the actions it may perform.
#[derive(Debug)]
pub struct ApiKey {
    pub key: String,
    pub permissions: Vec<String>,
}

/// Requests counted for one source address in the current window.
#[derive(Debug)]
pub struct RateWindow {
    pub ip: String,
    pub count: usize,
    pub started_at_ms: u64,
}

pub open spec fn window_at(s: Seq<RateWindow>, k: int, ip: Seq<char>) -> bool {
    0 <= k < s.len() && s[k].ip@ == ip
}

pub open spec fn has_window(s: Seq<RateWindow>, ip: Seq<char>) -> bool {
    exists|k: int| #[trigger] window_at(s, k, ip)
}

/// Time elapsed from `start` to `now`, zero if `now` is earlier.
pub open spec fn elapsed(start: u64, now: u64) -> int {
    if now >= start {
        now - start
    } else {
        0
    }
}

/// A fixed-window request counter per source address.
#[derive(Debug)]
pub struct RateLimiter {
    pub requests: Vec<RateWindow>,
    pub max_requests: usize,
    pub window_ms: u64,
}

impl RateLimiter {
    pub fn new(max_requests: usize, window_ms: u64) -> (r: RateLimiter)
        ensures
            r.requests@.len() == 0,
            r.max_requests == max_requests,
            r.window_ms == window_ms,
    {
        RateLimiter { requests: Vec::new(), max_requests, window_ms }
    }

    /// Counts a request from `ip` at the current time; see `check_at`.
    pub fn check(&mut self, ip: &str) -> (r: Result<(), BridgeError>)
        ensures
            final(self).max_requests == old(self).max_requests,
            final(self).window_ms == old(self).window_ms,
            r is Err ==> r == Err::<(), BridgeError>(BridgeError::RateLimitExceeded) && *final(self)
                == *old(self),
            !has_window(old(self).requests@, ip@) ==> r is Ok && final(self).requests@.drop_last()
                == old(self).requests@ && final(self).requests@.last().ip@ == ip@ && final(self).requests@.last().count == 1,
            r is Ok && has_window(old(self).requests@, ip@) ==> exists|k: int|
                #[trigger] window_at(old(self).requests@, k, ip@) && {
                    let w = old(self).requests@[k];
                    ||| final(self).requests@ == old(self).requests@.update(
                        k,
                        RateWindow { count: 1, started_at_ms: final(self).requests@[k].started_at_ms, ..w },
                    )
                    ||| final(self).requests@ == old(self).requests@.update(
                        k,
                        RateWindow { count: (w.count + 1) as usize, ..w },
                    )
                },
    {
        let now = non_negative(unix_now_millis());
        self.check_at(ip, now)
    }

    /// Counts a request from `ip` at `now_ms`. A first request opens a window
    /// at count 1; a request after the window has passed opens a new one; a
    /// request inside the window is refused once `max_requests` were counted.
    pub fn check_at(&mut self, ip: &str, now_ms: u64) -> (r: Result<(), BridgeError>)
        ensures
            final(self).max_requests == old(self).max_requests,
            final(self).window_ms == old(self).window_ms,
            r is Err ==> r == Err::<(), BridgeError>(BridgeError::RateLimitExceeded) && *final(self)
                == *old(self),
            !has_window(old(self).requests@, ip@) ==> r is Ok && final(self).requests@.len() == old(self).requests@.len() + 1 && final(self).requests@.drop_last() == old(self).requests@
                && final(self).requests@.last().ip@ == ip@ && final(self).requests@.last().count
                == 1 && final(self).requests@.last().started_at_ms == now_ms,
            has_window(old(self).requests@, ip@) ==> exists|k: int|
                #[trigger] window_at(old(self).requests@, k, ip@) && {
                    let w = old(self).requests@[k];
                    &&& elapsed(w.started_at_ms, now_ms) > old(self).window_ms ==> r is Ok && final(self).requests@ == old(self).requests@.update(
                        k,
                        RateWindow { count: 1, started_at_ms: now_ms, ..w },
                    )
                    &&& elapsed(w.started_at_ms, now_ms) <= old(self).window_ms && w.count >= old(self).max_requests ==> r is Err
                    &&& elapsed(w.started_at_ms, now_ms) <= old(self).window_ms && w.count < old(self).max_requests ==> r is Ok && final(self).requests@ == old(self).requests@.update(
                        k,
                        RateWindow { count: (w.count + 1) as usize, ..w },
                    )
                },
    {
        let mut found: Option<usize> = None;
        let mut i: usize = 0;
        while i < self.requests.len() && found.is_none()
            invariant
                i <= self.requests.len(),
                found is None ==> forall|j: int| 0 <= j < i ==> self.requests@[j].ip@ != ip@,
                found matches Some(k) ==> window_at(self.requests@, k as int, ip@),
            decreases self.requests.len() - i,
        {
            if str_equal(self.requests[i].ip.as_str(), ip) {
                found = Some(i);
            }
            i = i + 1;
        }
        match found {
            None => {
                assert(!has_window(self.requests@, ip@)) by {
                    if has_window(self.requests@, ip@) {
                        let k = choose|k: int| #[trigger] window_at(self.requests@, k, ip@);
                        assert(self.requests@[k].ip@ != ip@);
                    }
                }
                self.requests.push(RateWindow { ip: ip.to_string(), count: 1, started_at_ms: now_ms });
                assert(self.requests@.drop_last() =~= old(self).requests@);
                Ok(())
            },
            Some(k) => {
                let w = &self.requests[k];
                let passed = if now_ms >= w.started_at_ms {
                    now_ms - w.started_at_ms
                } else {
                    0
                };
                if passed > self.window_ms {
                    let fresh = RateWindow { ip: w.ip.clone(), count: 1, started_at_ms: now_ms };
                    self.requests.set(k, fresh);
                    Ok(())
                } else if w.count >= self.max_requests {
                    Err(BridgeError::RateLimitExceeded)
                } else {
                    let next = RateWindow {
                        ip: w.ip.clone(),
                        count: w.count + 1,
                        started_at_ms: w.started_at_ms,
                    };
                    self.requests.set(k, next);
                    Ok(())
                }
            },
        }
    }
}

} // verus!
