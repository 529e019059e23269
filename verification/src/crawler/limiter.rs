//! Politeness: a minimum spacing between two requests to one domain.
//!
//! The limiter does not sleep. It grants each request a dispatch time, at
//! or after the time of asking, records it, and tells the caller how long
//! to wait for it. Times are milliseconds on the caller's clock.

use crate::common::error::Error;
use crate::crawler::address::{Address, AddressView};
use vstd::hash_map::StringHashMap;
use vstd::prelude::*;

verus! {

/// The earliest time at which a request asked for at `now` may go out to
/// a domain whose last request was granted the time `last`.
pub open spec fn dispatch_time(last: Option<u64>, now: u64, min_delay: u64) -> int {
    match last {
        Some(t) => if t + min_delay > now {
            t + min_delay
        } else {
            now as int
        },
        None => now as int,
    }
}

/// The last dispatch time recorded for `domain` in `record`.
pub open spec fn last_dispatch(record: Map<Seq<char>, u64>, domain: Seq<char>) -> Option<u64> {
    if record.contains_key(domain) {
        Some(record[domain])
    } else {
        None
    }
}

/// Politeness: the time granted to a request lies at least `min_delay`
/// after the time granted to the request before it to the same domain,
/// and never before the time of asking.
pub proof fn lemma_spacing(last: u64, now: u64, min_delay: u64)
    ensures
        dispatch_time(Some(last), now, min_delay) - last >= min_delay,
        dispatch_time(Some(last), now, min_delay) >= now,
        dispatch_time(None, now, min_delay) == now,
{
}

/// Politeness: a request waits no longer than the spacing asks for. One
/// that comes `min_delay` or more after the last is granted at once.
pub proof fn lemma_no_needless_wait(last: u64, now: u64, min_delay: u64)
    requires
        now >= last + min_delay,
    ensures
        dispatch_time(Some(last), now, min_delay) == now,
{
}

/// Independence: the time granted for one domain does not depend on what
/// was granted, at any time, for another.
pub proof fn lemma_domains_independent(
    record: Map<Seq<char>, u64>,
    busy: Seq<char>,
    granted: u64,
    other: Seq<char>,
    now: u64,
    min_delay: u64,
)
    requires
        busy != other,
    ensures
        dispatch_time(last_dispatch(record.insert(busy, granted), other), now, min_delay)
            == dispatch_time(last_dispatch(record, other), now, min_delay),
{
}

/// The dispatch time last granted for each domain.
pub struct PolitenessLimiter {
    last_access: StringHashMap<u64>,
    min_delay_ms: u64,
}

impl PolitenessLimiter {
    /// The dispatch time last granted for each domain.
    pub closed spec fn record(&self) -> Map<Seq<char>, u64> {
        self.last_access@
    }

    /// The spacing between two requests to one domain.
    pub closed spec fn min_delay(&self) -> u64 {
        self.min_delay_ms
    }

    /// A limiter that has granted nothing yet.
    pub fn new(min_delay_ms: u64) -> (r: Self)
        ensures
            r.record() == Map::<Seq<char>, u64>::empty(),
            r.min_delay() == min_delay_ms,
    {
        PolitenessLimiter { last_access: StringHashMap::new(), min_delay_ms }
    }

    /// What `wait` does: `pre` is the limiter before the call, `post` the
    /// limiter after it, `r` the result.
    ///
    /// The request is granted the time `dispatch_time` and is told how
    /// long that is from `now`; the time is recorded for the domain, and
    /// nothing else changes. The call fails, and records nothing, for an
    /// address without a domain, and where the time to grant lies beyond
    /// what the clock can count.
    pub open spec fn granted(
        pre: PolitenessLimiter,
        post: PolitenessLimiter,
        url: AddressView,
        now: u64,
        r: Result<u64, Error>,
    ) -> bool {
        &&& post.min_delay() == pre.min_delay()
        &&& match url.domain {
            None => {
                &&& r matches Err(Error::InvalidResponse(m))
                &&& m@ == "No domain in URL"@
                &&& post.record() == pre.record()
            },
            Some(domain) => {
                let time = dispatch_time(last_dispatch(pre.record(), domain), now, pre.min_delay());
                if time <= u64::MAX {
                    &&& r == Ok::<u64, Error>((time - now) as u64)
                    &&& post.record() == pre.record().insert(domain, time as u64)
                } else {
                    &&& r matches Err(Error::RateLimitError(m))
                    &&& m@ == domain
                    &&& post.record() == pre.record()
                }
            },
        }
    }

    /// Whether the time that `post` records for the domain of `url` lies
    /// at least the minimum delay after the time that `pre` records for
    /// it, if `pre` records one.
    pub open spec fn spaced(pre: PolitenessLimiter, post: PolitenessLimiter, url: AddressView) -> bool {
        url.domain matches Some(domain) ==> (pre.record().contains_key(domain)
            ==> post.record()[domain] - pre.record()[domain] >= pre.min_delay())
    }

    /// Grants a dispatch time to a request to `url` asked for at `now`,
    /// records it for the domain, and returns how long the caller has to
    /// wait for it, in milliseconds; see [`PolitenessLimiter::granted`].
    ///
    /// The time recorded lies at least the minimum delay after the one
    /// recorded before for the same domain.
    pub fn wait(&mut self, url: &Address, now: u64) -> (r: Result<u64, Error>)
        ensures
            Self::granted(*old(self), *final(self), url@, now, r),
            r is Ok ==> Self::spaced(*old(self), *final(self), url@),
    {
        let domain = match url.domain() {
            None => {
                return Err(Error::InvalidResponse("No domain in URL".to_owned()));
            },
            Some(domain) => domain,
        };
        let granted: u64 = match self.last_access.get(domain) {
            Some(last) => match last.checked_add(self.min_delay_ms) {
                Some(earliest) => if earliest > now {
                    earliest
                } else {
                    now
                },
                None => {
                    return Err(Error::RateLimitError(domain.to_owned()));
                },
            },
            None => now,
        };
        self.last_access.insert(domain.to_owned(), granted);
        Ok(granted - now)
    }
}

} // verus!
