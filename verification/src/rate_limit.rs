//! Sliding-window rate limiting for one client.
//!
//! Time is a count of nanoseconds on a clock that does not run backwards;
//! the caller reads the clock and keeps one `RequestTracker` per client.

use vstd::prelude::*;
use crate::numbers::{parse_unsigned, parsed_unsigned};
use crate::text::chars_of;

verus! {

/// The limits of the rate limiter. Durations are in nanoseconds.
#[derive(Debug, Clone, Copy, PartialEq, Eq, Structural)]
pub struct RateLimiter {
    /// Maximum number of requests per window.
    pub max_requests: u32,
    /// Length of the sliding window.
    pub window_duration: u64,
    /// Time after which a tracker notes a new cleanup.
    pub cleanup_interval: u64,
}

/// The accepted requests of one client.
#[derive(Debug, Clone)]
pub struct RequestTracker {
    /// Times of the accepted requests, oldest first.
    pub requests: Vec<u64>,
    /// Time of the last noted cleanup.
    pub last_cleanup: u64,
}

/// What the rate limiter knows of one client.
#[derive(Debug, Clone, Copy, PartialEq, Eq, Structural)]
pub struct RateLimitStatus {
    /// Whether a request would be accepted.
    pub allowed: bool,
    /// Number of requests within the window.
    pub current_requests: u32,
    /// Maximum number of requests per window.
    pub max_requests: u32,
    /// Length of the window, in nanoseconds.
    pub window_duration: u64,
    /// Time at which the oldest noted request leaves the window.
    pub reset_time: u64,
}

/// Nanoseconds in one second.
pub const NANOS_PER_SECOND: u64 = 1_000_000_000;

/// The time from `earlier` to `now`; zero where `earlier` is not earlier.
pub open spec fn elapsed(now: u64, earlier: u64) -> nat {
    if now >= earlier {
        (now - earlier) as nat
    } else {
        0
    }
}

/// The requests that lie within the window that ends at `now`.
pub open spec fn within_window(requests: Seq<u64>, now: u64, window: u64) -> Seq<u64> {
    requests.filter(|t: u64| elapsed(now, t) <= window)
}

fn elapsed_since(now: u64, earlier: u64) -> (r: u64)
    ensures
        r == elapsed(now, earlier),
{
    if now >= earlier {
        now - earlier
    } else {
        0
    }
}

impl RequestTracker {
    /// A tracker without requests, first seen at `now`.
    pub fn new(now: u64) -> (r: RequestTracker)
        ensures
            r.requests@ == Seq::<u64>::empty(),
            r.last_cleanup == now,
    {
        RequestTracker { requests: Vec::new(), last_cleanup: now }
    }

    /// Drops the requests that have left the window that ends at `now`.
    pub fn prune(&mut self, now: u64, window: u64)
        ensures
            final(self).requests@ == within_window(old(self).requests@, now, window),
            final(self).requests@.len() <= old(self).requests@.len(),
            final(self).last_cleanup == old(self).last_cleanup,
    {
        let ghost keep = |t: u64| elapsed(now, t) <= window;
        let mut kept: Vec<u64> = Vec::new();
        let mut i: usize = 0;
        while i < self.requests.len()
            invariant
                i <= self.requests.len(),
                *self == *old(self),
                keep == |t: u64| elapsed(now, t) <= window,
                kept@ == self.requests@.take(i as int).filter(keep),
                kept@.len() <= i,
            decreases self.requests.len() - i,
        {
            proof {
                let next = self.requests@.take(i + 1);
                assert(next.drop_last() == self.requests@.take(i as int));
                reveal(Seq::filter);
            }
            let t = self.requests[i];
            if elapsed_since(now, t) <= window {
                kept.push(t);
            }
            i = i + 1;
        }
        proof {
            assert(self.requests@.take(i as int) == self.requests@);
        }
        self.requests = kept;
    }

    /// True when the tracker has noted no cleanup for three cleanup
    /// intervals or more: its client has been silent and it may be dropped.
    pub fn is_stale(&self, now: u64, cleanup_interval: u64) -> (r: bool)
        ensures
            r == (elapsed(now, self.last_cleanup) >= 3 * cleanup_interval),
    {
        elapsed_since(now, self.last_cleanup) / 3 >= cleanup_interval
    }
}

impl RateLimiter {
    /// A rate limiter with the given limits.
    pub fn new(max_requests: u32, window_duration: u64, cleanup_interval: u64) -> (r: RateLimiter)
        ensures
            r == (RateLimiter { max_requests, window_duration, cleanup_interval }),
    {
        RateLimiter { max_requests, window_duration, cleanup_interval }
    }

    /// The standard limits: 60 requests per minute, cleanup every five
    /// minutes.
    pub fn default() -> (r: RateLimiter)
        ensures
            r == (RateLimiter {
                max_requests: 60,
                window_duration: 60_000_000_000,
                cleanup_interval: 300_000_000_000,
            }),
    {
        RateLimiter::new(60, 60 * NANOS_PER_SECOND, 300 * NANOS_PER_SECOND)
    }

    /// The standard limits with the number of requests per minute read from
    /// `per_minute`; 60 where there is no value or it is no number that
    /// fits 32 bits.
    pub fn from_value(per_minute: Option<String>) -> (r: RateLimiter)
        ensures
            r.window_duration == 60_000_000_000,
            r.cleanup_interval == 300_000_000_000,
            r.max_requests == match per_minute {
                Some(v) => match parsed_unsigned(v@, 0xffff_ffff) {
                    Some(n) => n,
                    None => 60,
                },
                None => 60,
            },
    {
        let max_requests: u32 = match per_minute {
            Some(v) => {
                let chars = chars_of(v.as_str());
                match parse_unsigned(chars.as_slice(), 0xffff_ffff) {
                    Some(n) => n as u32,
                    None => 60,
                }
            },
            None => 60,
        };
        RateLimiter::new(max_requests, 60 * NANOS_PER_SECOND, 300 * NANOS_PER_SECOND)
    }

    /// Decides on a request made at `now` and notes it where it is
    /// accepted. Requests that have left the window are dropped first; the
    /// request is accepted exactly when fewer than the maximum remain. The
    /// cleanup time moves to `now` once more than a cleanup interval has
    /// passed since it was set.
    pub fn is_allowed(&self, tracker: &mut RequestTracker, now: u64) -> (r: bool)
        ensures
            r == (within_window(old(tracker).requests@, now, self.window_duration).len()
                < self.max_requests),
            final(tracker).requests@ == if r {
                within_window(old(tracker).requests@, now, self.window_duration).push(now)
            } else {
                within_window(old(tracker).requests@, now, self.window_duration)
            },
            final(tracker).last_cleanup == if elapsed(now, old(tracker).last_cleanup)
                > self.cleanup_interval {
                now
            } else {
                old(tracker).last_cleanup
            },
            old(tracker).requests@.len() <= self.max_requests ==> final(tracker).requests@.len()
                <= self.max_requests,
    {
        let overdue = elapsed_since(now, tracker.last_cleanup) > self.cleanup_interval;
        tracker.prune(now, self.window_duration);
        if overdue {
            tracker.last_cleanup = now;
        }
        if tracker.requests.len() < self.max_requests as usize {
            tracker.requests.push(now);
            true
        } else {
            false
        }
    }

    /// Reports on a client without noting a request. A client without a
    /// tracker is allowed, nothing counts and the reset lies one window
    /// after `now`; else the requests within the window count, the client
    /// is allowed while they are fewer than the maximum, and the reset lies
    /// one window after the oldest noted request.
    pub fn get_status(&self, tracker: Option<&RequestTracker>, now: u64) -> (r: RateLimitStatus)
        requires
            self.reset_time_of(tracker, now) <= u64::MAX,
        ensures
            r.max_requests == self.max_requests,
            r.window_duration == self.window_duration,
            r.reset_time == self.reset_time_of(tracker, now),
            r.allowed == (tracker is None || self.recent_requests(tracker, now)
                < self.max_requests),
            r.current_requests == self.recent_requests(tracker, now) % 0x1_0000_0000,
    {
        match tracker {
            Some(t) => {
                let recent = count_within(&t.requests, now, self.window_duration);
                let first = if t.requests.len() > 0 { t.requests[0] } else { now };
                RateLimitStatus {
                    allowed: recent < self.max_requests as usize,
                    current_requests: ((recent as u64) % 0x1_0000_0000u64) as u32,
                    max_requests: self.max_requests,
                    window_duration: self.window_duration,
                    reset_time: first + self.window_duration,
                }
            },
            None => {
                RateLimitStatus {
                    allowed: true,
                    current_requests: 0,
                    max_requests: self.max_requests,
                    window_duration: self.window_duration,
                    reset_time: now + self.window_duration,
                }
            },
        }
    }

    /// Number of requests of a client within the window that ends at `now`.
    pub open spec fn recent_requests(&self, tracker: Option<&RequestTracker>, now: u64) -> nat {
        match tracker {
            Some(t) => within_window(t.requests@, now, self.window_duration).len(),
            None => 0,
        }
    }

    /// One window after the oldest noted request of a client, or after
    /// `now` where nothing is noted.
    pub open spec fn reset_time_of(&self, tracker: Option<&RequestTracker>, now: u64) -> int {
        match tracker {
            Some(t) => if t.requests@.len() > 0 {
                t.requests@[0] + self.window_duration
            } else {
                now + self.window_duration
            },
            None => now + self.window_duration,
        }
    }
}

/// Counts the requests within the window that ends at `now`.
fn count_within(requests: &Vec<u64>, now: u64, window: u64) -> (r: usize)
    ensures
        r == within_window(requests@, now, window).len(),
{
    let ghost keep = |t: u64| elapsed(now, t) <= window;
    let mut count: usize = 0;
    let mut i: usize = 0;
    while i < requests.len()
        invariant
            i <= requests.len(),
            keep == |t: u64| elapsed(now, t) <= window,
            count == requests@.take(i as int).filter(keep).len(),
            count <= i,
        decreases requests.len() - i,
    {
        proof {
            let next = requests@.take(i + 1);
            assert(next.drop_last() == requests@.take(i as int));
            reveal(Seq::filter);
        }
        if elapsed_since(now, requests[i]) <= window {
            count = count + 1;
        }
        i = i + 1;
    }
    proof {
        assert(requests@.take(i as int) == requests@);
    }
    count
}

impl RateLimitStatus {
    /// Number of requests still open in the window.
    pub fn remaining(&self) -> (r: u32)
        requires
            self.current_requests <= self.max_requests,
        ensures
            r == self.max_requests - self.current_requests,
    {
        self.max_requests - self.current_requests
    }

    /// The window in whole seconds: the time after which to try again.
    pub fn retry_after_secs(&self) -> (r: u64)
        ensures
            r == self.window_duration / 1_000_000_000,
    {
        self.window_duration / NANOS_PER_SECOND
    }
}

} // verus!
