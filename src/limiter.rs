//! A client-side fixed-window rate limiter.
//!
//! Each window lasts sixty seconds. Times are milliseconds on one clock,
//! handed in by the caller; the methods without a time read the wall clock.
use vstd::prelude::*;
use crate::clock::now_millis;

verus! {

/// Length of one window, in milliseconds.
pub const WINDOW_MS: u64 = 60000;

/// A fixed-window counter of the requests still allowed.
#[derive(Debug, Clone, Copy)]
pub struct RateLimitMiddleware {
    /// Requests allowed per window.
    pub requests_per_minute: u32,
    /// Start of the current window.
    pub window_start: u64,
    /// Requests still allowed in the current window.
    pub tokens_remaining: u32,
}

/// Whether a whole window has passed at `now` since `start`.
pub open spec fn window_elapsed(start: u64, now: u64) -> bool {
    now >= start && now - start >= WINDOW_MS
}

impl RateLimitMiddleware {
    /// No more tokens than the capacity.
    pub open spec fn wf(self) -> bool {
        self.tokens_remaining <= self.requests_per_minute
    }

    /// Whether a check at `now` allows the request: a new window allows it
    /// when the capacity is above zero, the current one when a token is left.
    pub open spec fn allows(self, now: u64) -> bool {
        if window_elapsed(self.window_start, now) {
            self.requests_per_minute > 0
        } else {
            self.tokens_remaining > 0
        }
    }

    /// The limiter after a check at `now`: a new window starts full and this
    /// request spends one of its tokens, or one token is spent if any is left.
    pub open spec fn after_check(self, now: u64) -> Self {
        if window_elapsed(self.window_start, now) {
            RateLimitMiddleware {
                window_start: now,
                tokens_remaining: if self.requests_per_minute > 0 {
                    (self.requests_per_minute - 1) as u32
                } else {
                    0
                },
                ..self
            }
        } else if self.tokens_remaining > 0 {
            RateLimitMiddleware { tokens_remaining: (self.tokens_remaining - 1) as u32, ..self }
        } else {
            self
        }
    }

    /// The limiter after checks at each of `times`, in order.
    pub open spec fn after_checks(self, times: Seq<u64>) -> Self
        decreases times.len(),
    {
        if times.len() == 0 {
            self
        } else {
            self.after_checks(times.drop_last()).after_check(times.last())
        }
    }

    /// A full limiter whose window starts at `now`.
    pub fn new_at(requests_per_minute: u32, now: u64) -> (r: Self)
        ensures
            r.wf(),
            r == (RateLimitMiddleware { requests_per_minute, window_start: now, tokens_remaining: requests_per_minute }),
    {
        RateLimitMiddleware { requests_per_minute, window_start: now, tokens_remaining: requests_per_minute }
    }

    /// A full limiter whose window starts now on the wall clock.
    pub fn new(requests_per_minute: u32) -> (r: Self)
        ensures
            r.wf(),
            r.requests_per_minute == requests_per_minute,
            r.tokens_remaining == requests_per_minute,
    {
        let now = now_millis();
        RateLimitMiddleware::new_at(requests_per_minute, now)
    }

    /// Decides whether a request may go out at `now`. When a whole window has
    /// passed a new window starts at `now` with full capacity, and the request
    /// spends one token of it; otherwise a token is spent if one is left.
    pub fn check_rate_limit_at(&mut self, now: u64) -> (r: bool)
        requires
            old(self).wf(),
        ensures
            final(self).wf(),
            r == old(self).allows(now),
            *final(self) == old(self).after_check(now),
    {
        if now >= self.window_start && now - self.window_start >= WINDOW_MS {
            self.window_start = now;
            if self.requests_per_minute > 0 {
                self.tokens_remaining = self.requests_per_minute - 1;
                true
            } else {
                self.tokens_remaining = 0;
                false
            }
        } else if self.tokens_remaining > 0 {
            self.tokens_remaining = self.tokens_remaining - 1;
            true
        } else {
            false
        }
    }

    /// `check_rate_limit_at` on the wall clock.
    pub fn check_rate_limit(&mut self) -> (r: bool)
        requires
            old(self).wf(),
        ensures
            final(self).wf(),
            exists|now: u64| r == old(self).allows(now) && *final(self) == old(self).after_check(now),
    {
        let now = now_millis();
        self.check_rate_limit_at(now)
    }
}

/// Within one window, checks spend one token each.
proof fn lemma_checks_spend(l: RateLimitMiddleware, times: Seq<u64>)
    requires
        l.wf(),
        times.len() <= l.tokens_remaining,
        forall|i: int| 0 <= i < times.len() ==> !window_elapsed(l.window_start, #[trigger] times[i]),
    ensures
        l.after_checks(times) == (RateLimitMiddleware {
            tokens_remaining: (l.tokens_remaining - times.len()) as u32,
            ..l
        }),
    decreases times.len(),
{
    if times.len() > 0 {
        let init = times.drop_last();
        assert forall|i: int| 0 <= i < init.len() implies !window_elapsed(l.window_start, #[trigger] init[i]) by {
            assert(init[i] == times[i]);
        }
        lemma_checks_spend(l, init);
        assert(!window_elapsed(l.window_start, times[times.len() - 1]));
    }
}

/// In a window with `t` tokens left, the next `t` checks within the window
/// are allowed and the one after them is rejected.
pub proof fn lemma_window_tokens(l: RateLimitMiddleware, times: Seq<u64>)
    requires
        l.wf(),
        times.len() == l.tokens_remaining,
        forall|i: int| 0 <= i < times.len() ==> !window_elapsed(l.window_start, #[trigger] times[i]),
    ensures
        forall|i: int| 0 <= i < times.len() ==> #[trigger] l.after_checks(times.take(i)).allows(times[i]),
        forall|now: u64| !window_elapsed(l.window_start, now) ==> !l.after_checks(times).allows(now),
{
    assert forall|i: int| 0 <= i < times.len() implies #[trigger] l.after_checks(times.take(i)).allows(times[i]) by {
        let pre = times.take(i);
        assert forall|j: int| 0 <= j < pre.len() implies !window_elapsed(l.window_start, #[trigger] pre[j]) by {
            assert(pre[j] == times[j]);
        }
        lemma_checks_spend(l, pre);
    }
    lemma_checks_spend(l, times);
}

/// Within one window of capacity `requests_per_minute`, whether it started
/// full or was started by a refill, the first `requests_per_minute` checks are
/// allowed and the next one is rejected. A check after a whole window has
/// passed restores the full capacity: it is allowed (when the capacity is
/// above zero) and leaves the rest of that capacity for the new window.
pub proof fn lemma_window_capacity(l: RateLimitMiddleware, times: Seq<u64>, later: u64, rest: Seq<u64>)
    requires
        l.wf(),
        l.tokens_remaining == l.requests_per_minute,
        times.len() == l.requests_per_minute,
        forall|i: int| 0 <= i < times.len() ==> !window_elapsed(l.window_start, #[trigger] times[i]),
    ensures
        forall|i: int| 0 <= i < times.len() ==> #[trigger] l.after_checks(times.take(i)).allows(times[i]),
        forall|now: u64| !window_elapsed(l.window_start, now) ==> !l.after_checks(times).allows(now),
        ({
            let m = l.after_checks(times);
            let r = m.after_check(later);
            window_elapsed(m.window_start, later) && l.requests_per_minute > 0 ==> {
                &&& m.allows(later)
                &&& r.window_start == later
                &&& r.tokens_remaining + 1 == l.requests_per_minute
                &&& (rest.len() == r.tokens_remaining
                    && (forall|i: int| 0 <= i < rest.len() ==> !window_elapsed(later, #[trigger] rest[i])))
                    ==> (forall|i: int| 0 <= i < rest.len() ==> #[trigger] r.after_checks(rest.take(i)).allows(rest[i]))
                        && (forall|now: u64| !window_elapsed(later, now) ==> !r.after_checks(rest).allows(now))
            }
        }),
{
    lemma_window_tokens(l, times);
    lemma_checks_spend(l, times);
    let m = l.after_checks(times);
    let r = m.after_check(later);
    if window_elapsed(m.window_start, later) && l.requests_per_minute > 0 && rest.len() == r.tokens_remaining
        && (forall|i: int| 0 <= i < rest.len() ==> !window_elapsed(later, #[trigger] rest[i])) {
        lemma_window_tokens(r, rest);
    }
}

} // verus!
