//! Rate-limited, time-to-live response cache.
//!
//! The cache holds at most one response (a single global slot, not keyed by
//! URL) together with the timestamp of the most recent upstream-call attempt.
//! Every fetch is gated through a freshness check and a rate-limit check
//! before an upstream call is admitted.
//!
//! Time is modeled as `u64` ticks from a monotonic clock owned by the caller;
//! all durations and timestamps share that one unit.  The upstream HTTP call
//! itself is performed by the caller: `begin_fetch` decides what a fetch at
//! the given instant must do, and `update_cache` records a response that an
//! admitted call brought back.

use vstd::prelude::*;
use vstd::string::*;

verus! {

/// The outbound URL a proxied request fetches: the base endpoint, with the
/// forwarded query string appended when there is one.
pub open spec fn target_url_spec(base: Seq<char>, query: Seq<char>) -> Seq<char> {
    if query.len() == 0 {
        base
    } else {
        base + "?"@ + query
    }
}

/// Build the outbound URL from the base endpoint and the forwarded query
/// string.
pub fn build_target_url(base: &str, query: &str) -> (r: String)
    ensures
        r@ == target_url_spec(base@, query@),
{
    if query.is_empty() {
        base.to_owned()
    } else {
        let mut url: String = String::from_str(base);
        url.append("?");
        url.append(query);
        url
    }
}

/// One cached upstream response: the body, the upstream status code
/// preserved verbatim, and the instant it was stored.
pub struct CachedResponse {
    pub data: String,
    pub timestamp: u64,
    pub status_code: u16,
}

impl CachedResponse {
    /// A stored response is expired when its age strictly exceeds the
    /// duration; a value exactly at the boundary is still fresh.
    pub open spec fn spec_is_expired(self, now: u64, duration: u64) -> bool {
        now - self.timestamp > duration
    }

    pub fn new(data: String, status_code: u16, now: u64) -> (r: CachedResponse)
        ensures
            r == (CachedResponse { data, timestamp: now, status_code }),
    {
        CachedResponse { data, timestamp: now, status_code }
    }

    pub fn is_expired(&self, now: u64, duration: u64) -> (r: bool)
        requires
            self.timestamp <= now,
        ensures
            r == self.spec_is_expired(now, duration),
    {
        now - self.timestamp > duration
    }
}

/// What a fetch at a given instant must do.
#[derive(Debug, PartialEq)]
pub enum FetchDecision {
    /// The cached value is fresh: serve it; no upstream call, no state change.
    CacheHit(String, u16),
    /// The cache is stale but the rate-limit window has not elapsed:
    /// serve the stale value rather than hit the upstream again.
    ServeStale(String, u16),
    /// The rate-limit window has not elapsed and nothing is cached: fail.
    RateLimitedNoCache,
    /// The upstream call is admitted; the attempt has been recorded.
    Admit,
}

/// The failures a fetch surfaces to its caller.
#[derive(Debug, PartialEq)]
pub enum FetchError {
    /// The rate limit was hit and no prior cached value exists to serve.
    RateLimitedNoCache,
    /// The admitted upstream call failed, timed out, or its body was
    /// unreadable; the cache is left unmodified.
    UpstreamError,
}

/// The protective layer's whole state: the single cached response, the
/// instant of the most recent upstream-call attempt (attempts count, not
/// successes; `None` until the first attempt, so the first fetch is never
/// rate-limited), and the two configured durations.
pub struct ApiCache {
    pub cache: Option<CachedResponse>,
    pub last_request_time: Option<u64>,
    pub rate_limit_secs: u64,
    pub cache_expiry_secs: u64,
}

impl ApiCache {
    /// Every stored timestamp lies at or before `now`: what a monotonic
    /// clock guarantees of instants it handed out earlier.
    pub open spec fn times_valid(self, now: u64) -> bool {
        &&& match self.cache {
            Some(c) => c.timestamp <= now,
            None => true,
        }
        &&& match self.last_request_time {
            Some(t) => t <= now,
            None => true,
        }
    }

    /// A cached value exists and its age is within the time-to-live.
    pub open spec fn has_fresh_cache(self, now: u64) -> bool {
        match self.cache {
            Some(c) => !c.spec_is_expired(now, self.cache_expiry_secs),
            None => false,
        }
    }

    /// The most recent attempt lies strictly within the rate-limit window,
    /// so the upstream must not be called again yet.  An attempt exactly at
    /// the window boundary is allowed through.
    pub open spec fn in_rate_limit_window(self, now: u64) -> bool {
        match self.last_request_time {
            Some(t) => now - t < self.rate_limit_secs,
            None => false,
        }
    }

    /// The decision a fetch at `now` takes.  It depends on the state and the
    /// clock alone, never on the requested URL: the slot is global.
    pub open spec fn fetch_decision(self, now: u64) -> FetchDecision {
        if self.has_fresh_cache(now) {
            FetchDecision::CacheHit(self.cache->Some_0.data, self.cache->Some_0.status_code)
        } else if self.in_rate_limit_window(now) {
            match self.cache {
                Some(c) => FetchDecision::ServeStale(c.data, c.status_code),
                None => FetchDecision::RateLimitedNoCache,
            }
        } else {
            FetchDecision::Admit
        }
    }

    /// The state after a fetch at `now`: an admitted fetch records the
    /// attempt before the upstream call is made; every other outcome leaves
    /// the state untouched.
    pub open spec fn after_fetch(self, now: u64) -> ApiCache {
        if self.fetch_decision(now) is Admit {
            ApiCache { last_request_time: Some(now), ..self }
        } else {
            self
        }
    }

    /// The state after a successful upstream call at `now`: the response
    /// replaces the cached value wholesale; the attempt timestamp is
    /// untouched.
    pub open spec fn with_response(self, data: String, status_code: u16, now: u64) -> ApiCache {
        ApiCache { cache: Some(CachedResponse { data, timestamp: now, status_code }), ..self }
    }

    pub fn new(rate_limit_secs: u64, cache_expiry_secs: u64) -> (r: ApiCache)
        ensures
            r.cache is None,
            r.last_request_time is None,
            r.rate_limit_secs == rate_limit_secs,
            r.cache_expiry_secs == cache_expiry_secs,
    {
        ApiCache {
            cache: None,
            last_request_time: None,
            rate_limit_secs,
            cache_expiry_secs,
        }
    }

    /// Decide what a fetch arriving at `now` must do, and record the attempt
    /// if the upstream call is admitted.  The caller performs the admitted
    /// call and hands a successful response to `update_cache`; a failed call
    /// leaves the cache untouched (the attempt stays recorded).
    pub fn begin_fetch(&mut self, now: u64) -> (d: FetchDecision)
        requires
            old(self).times_valid(now),
        ensures
            d == old(self).fetch_decision(now),
            *final(self) == old(self).after_fetch(now),
            final(self).times_valid(now),
    {
        if let Some(c) = &self.cache {
            if !c.is_expired(now, self.cache_expiry_secs) {
                return FetchDecision::CacheHit(c.data.clone(), c.status_code);
            }
        }
        if let Some(t) = self.last_request_time {
            if now - t < self.rate_limit_secs {
                match &self.cache {
                    Some(c) => {
                        return FetchDecision::ServeStale(c.data.clone(), c.status_code);
                    },
                    None => {
                        return FetchDecision::RateLimitedNoCache;
                    },
                }
            }
        }
        self.last_request_time = Some(now);
        FetchDecision::Admit
    }

    /// One whole fetch, the upstream call modeled as the event it produced:
    /// `upstream` is what an admitted call brings back — `None` when it
    /// fails — and is consulted only when the fetch is admitted.  A served
    /// value, fresh or stale, leaves the state untouched; an admitted fetch
    /// records the attempt, and its response when it succeeded; a failed
    /// admitted call consumes the rate-limit slot and caches nothing.
    pub fn get_cached_response(&mut self, now: u64, upstream: Option<(String, u16)>) -> (r: Result<
        (String, u16),
        FetchError,
    >)
        requires
            old(self).times_valid(now),
        ensures
            old(self).fetch_decision(now) matches FetchDecision::CacheHit(data, status_code) ==> {
                &&& r == Ok::<(String, u16), FetchError>((data, status_code))
                &&& *final(self) == *old(self)
            },
            old(self).fetch_decision(now) matches FetchDecision::ServeStale(data, status_code)
                ==> {
                &&& r == Ok::<(String, u16), FetchError>((data, status_code))
                &&& *final(self) == *old(self)
            },
            old(self).fetch_decision(now) is RateLimitedNoCache ==> {
                &&& r == Err::<(String, u16), FetchError>(FetchError::RateLimitedNoCache)
                &&& *final(self) == *old(self)
            },
            old(self).fetch_decision(now) is Admit ==> match upstream {
                Some(reply) => {
                    &&& r == Ok::<(String, u16), FetchError>(reply)
                    &&& *final(self) == old(self).after_fetch(now).with_response(
                        reply.0,
                        reply.1,
                        now,
                    )
                },
                None => {
                    &&& r == Err::<(String, u16), FetchError>(FetchError::UpstreamError)
                    &&& *final(self) == old(self).after_fetch(now)
                },
            },
    {
        match self.begin_fetch(now) {
            FetchDecision::CacheHit(data, status_code) => Ok((data, status_code)),
            FetchDecision::ServeStale(data, status_code) => Ok((data, status_code)),
            FetchDecision::RateLimitedNoCache => Err(FetchError::RateLimitedNoCache),
            FetchDecision::Admit => match upstream {
                Some((data, status_code)) => {
                    self.update_cache(data.clone(), status_code, now);
                    Ok((data, status_code))
                },
                None => Err(FetchError::UpstreamError),
            },
        }
    }

    /// Before any upstream-call attempt was recorded — as a freshly
    /// constructed cache is — a fetch is never rate-limited: the first real
    /// request always goes through.
    pub proof fn lemma_first_fetch_admitted(self, now: u64)
        requires
            self.cache is None,
            self.last_request_time is None,
        ensures
            self.fetch_decision(now) == FetchDecision::Admit,
    {
    }

    /// Two fetches while the cached value stays fresh — with no intervening
    /// cache mutation — serve the identical response, and neither admits an
    /// upstream call or changes the state.
    pub proof fn lemma_fresh_cache_fetches_identical(self, t1: u64, t2: u64)
        requires
            self.times_valid(t1),
            t1 <= t2,
            self.has_fresh_cache(t2),
        ensures
            self.has_fresh_cache(t1),
            self.fetch_decision(t1) == self.fetch_decision(t2),
            self.fetch_decision(t1) is CacheHit,
            self.after_fetch(t1) == self,
            self.after_fetch(t2) == self,
    {
    }

    /// A cached value whose age exceeds the time-to-live, once the
    /// rate-limit window has also elapsed, triggers exactly one fresh
    /// upstream call: the fetch is an admission, the recorded response
    /// replaces the prior value wholesale, and an immediate retry is then
    /// served from the new value without a further call.
    pub proof fn lemma_expired_cache_refetches(self, now: u64, data: String, status_code: u16)
        requires
            self.times_valid(now),
            self.cache is Some,
            !self.has_fresh_cache(now),
            !self.in_rate_limit_window(now),
        ensures
            self.fetch_decision(now) == FetchDecision::Admit,
            self.after_fetch(now).with_response(data, status_code, now).cache == Some(
                CachedResponse { data, timestamp: now, status_code },
            ),
            self.after_fetch(now).with_response(data, status_code, now).fetch_decision(now)
                == FetchDecision::CacheHit(data, status_code),
    {
    }

    /// Within the rate-limit window, a fetch with a stale cached value is
    /// served that value.  The decision is a function of the state and the
    /// clock alone — `fetch_decision` takes no URL — so the same value is
    /// served whatever URL the caller supplies: the slot is global.
    pub proof fn lemma_rate_limited_serves_cache(self, now: u64)
        requires
            self.times_valid(now),
            !self.has_fresh_cache(now),
            self.in_rate_limit_window(now),
            self.cache is Some,
        ensures
            self.fetch_decision(now) == FetchDecision::ServeStale(
                self.cache->Some_0.data,
                self.cache->Some_0.status_code,
            ),
            self.after_fetch(now) == self,
    {
    }

    /// Within the rate-limit window with nothing cached yet, a fetch fails
    /// and changes nothing.
    pub proof fn lemma_rate_limited_no_cache_fails(self, now: u64)
        requires
            self.times_valid(now),
            self.in_rate_limit_window(now),
            self.cache is None,
        ensures
            self.fetch_decision(now) == FetchDecision::RateLimitedNoCache,
            self.after_fetch(now) == self,
    {
    }

    /// Store a response brought back by an admitted upstream call,
    /// overwriting any prior value regardless of which URL produced it.
    pub fn update_cache(&mut self, data: String, status_code: u16, now: u64)
        ensures
            *final(self) == old(self).with_response(data, status_code, now),
    {
        let cached_response = CachedResponse::new(data, status_code, now);
        self.cache = Some(cached_response);
    }
}

} // verus!
