//! A circuit breaker: after enough consecutive failures it stops requests for
//! a cooldown, then lets one trial through.
//!
//! Times are milliseconds on one clock, handed in by the caller; the methods
//! without a time read the wall clock.
use vstd::prelude::*;
use crate::clock::now_millis;

verus! {

/// The three states of a breaker.
#[derive(Debug, Clone, Copy, PartialEq, Eq, Structural)]
pub enum CircuitState {
    /// Requests pass.
    Closed,
    /// Requests are rejected until the cooldown has passed.
    Open,
    /// One trial request has been let through; its outcome decides.
    HalfOpen,
}

/// A circuit breaker shared by the attempts of one client.
#[derive(Debug, Clone, Copy)]
pub struct CircuitBreakerMiddleware {
    /// Consecutive failures that open the breaker.
    pub failure_threshold: u32,
    /// Cooldown after the last failure, in milliseconds.
    pub recovery_timeout: u64,
    /// Failures since the last success.
    pub failure_count: u32,
    /// Time of the last failure, if any.
    pub last_failure: Option<u64>,
    /// Current state.
    pub state: CircuitState,
}

/// Whether the cooldown has passed at `now` since a failure at `last`.
pub open spec fn cooled_down(last: Option<u64>, recovery: u64, now: u64) -> bool {
    last matches Some(t) && now >= t && now - t >= recovery
}

impl CircuitBreakerMiddleware {
    /// The breaker after a success is recorded: closed, with no failures.
    pub open spec fn after_success(self) -> Self {
        CircuitBreakerMiddleware { failure_count: 0, state: CircuitState::Closed, ..self }
    }

    /// The breaker after a failure at `now`: one more failure, the failure
    /// clock set to `now`, and open if the trial failed or the threshold is met.
    pub open spec fn after_failure(self, now: u64) -> Self {
        let count = if self.failure_count == u32::MAX { u32::MAX } else { (self.failure_count + 1) as u32 };
        CircuitBreakerMiddleware {
            failure_count: count,
            last_failure: Some(now),
            state: if self.state == CircuitState::HalfOpen || count >= self.failure_threshold {
                CircuitState::Open
            } else {
                self.state
            },
            ..self
        }
    }

    /// Whether a request may go out at `now`.
    pub open spec fn admits(self, now: u64) -> bool {
        match self.state {
            CircuitState::Closed => true,
            CircuitState::Open => cooled_down(self.last_failure, self.recovery_timeout, now),
            CircuitState::HalfOpen => false,
        }
    }

    /// The breaker after a request asks to go out at `now`: an open breaker
    /// whose cooldown has passed turns half-open.
    pub open spec fn after_admit(self, now: u64) -> Self {
        if self.state == CircuitState::Open && cooled_down(self.last_failure, self.recovery_timeout, now) {
            CircuitBreakerMiddleware { state: CircuitState::HalfOpen, ..self }
        } else {
            self
        }
    }

    /// The breaker after failures at each of `times`, in order.
    pub open spec fn after_failures(self, times: Seq<u64>) -> Self
        decreases times.len(),
    {
        if times.len() == 0 {
            self
        } else {
            self.after_failures(times.drop_last()).after_failure(times.last())
        }
    }

    /// A closed breaker with no failures.
    pub fn new(failure_threshold: u32, recovery_timeout: u64) -> (r: Self)
        ensures
            r == (CircuitBreakerMiddleware {
                failure_threshold,
                recovery_timeout,
                failure_count: 0,
                last_failure: None,
                state: CircuitState::Closed,
            }),
    {
        CircuitBreakerMiddleware {
            failure_threshold,
            recovery_timeout,
            failure_count: 0,
            last_failure: None,
            state: CircuitState::Closed,
        }
    }

    /// The breaker after an attempt it let through was cancelled: a cancelled
    /// trial sends a half-open breaker back to open, with its failure clock as
    /// it was, so that the next request after the cooldown is a new trial; in
    /// any other state nothing is counted.
    pub open spec fn after_cancel(self) -> Self {
        if self.state == CircuitState::HalfOpen {
            CircuitBreakerMiddleware { state: CircuitState::Open, ..self }
        } else {
            self
        }
    }

    /// Whether a request may go out at `now`, without any change.
    pub fn would_admit(&self, now: u64) -> (r: bool)
        ensures
            r == self.admits(now),
    {
        match self.state {
            CircuitState::Closed => true,
            CircuitState::Open => match self.last_failure {
                Some(t) => now >= t && now - t >= self.recovery_timeout,
                None => false,
            },
            CircuitState::HalfOpen => false,
        }
    }

    /// Records that an attempt it let through was cancelled before it ended.
    pub fn record_cancelled(&mut self)
        ensures
            *final(self) == old(self).after_cancel(),
    {
        if self.state == CircuitState::HalfOpen {
            self.state = CircuitState::Open;
        }
    }

    /// The current state.
    pub fn get_state(&self) -> (r: CircuitState)
        ensures
            r == self.state,
    {
        self.state
    }

    /// Decides whether a request may go out at `now`; an open breaker whose
    /// cooldown has passed turns half-open and lets this one trial through.
    pub fn can_execute_at(&mut self, now: u64) -> (r: bool)
        ensures
            r == old(self).admits(now),
            *final(self) == old(self).after_admit(now),
    {
        match self.state {
            CircuitState::Closed => true,
            CircuitState::Open => {
                match self.last_failure {
                    Some(t) => {
                        if now >= t && now - t >= self.recovery_timeout {
                            self.state = CircuitState::HalfOpen;
                            true
                        } else {
                            false
                        }
                    },
                    None => false,
                }
            },
            CircuitState::HalfOpen => false,
        }
    }

    /// `can_execute_at` on the wall clock.
    pub fn can_execute(&mut self) -> (r: bool)
        ensures
            exists|now: u64| r == old(self).admits(now) && *final(self) == old(self).after_admit(now),
    {
        let now = now_millis();
        self.can_execute_at(now)
    }

    /// Records a successful attempt: the breaker closes and forgets its failures.
    pub fn record_success(&mut self)
        ensures
            *final(self) == old(self).after_success(),
    {
        self.failure_count = 0;
        self.state = CircuitState::Closed;
    }

    /// Records a failed attempt at `now`.
    pub fn record_failure_at(&mut self, now: u64)
        ensures
            *final(self) == old(self).after_failure(now),
    {
        if self.failure_count < u32::MAX {
            self.failure_count = self.failure_count + 1;
        }
        self.last_failure = Some(now);
        if self.state == CircuitState::HalfOpen || self.failure_count >= self.failure_threshold {
            self.state = CircuitState::Open;
        }
    }

    /// `record_failure_at` on the wall clock.
    pub fn record_failure(&mut self)
        ensures
            exists|now: u64| *final(self) == old(self).after_failure(now),
    {
        let now = now_millis();
        self.record_failure_at(now);
    }
}

/// The failure count after failures from a reset breaker, and when it opens.
proof fn lemma_failures_count(b: CircuitBreakerMiddleware, times: Seq<u64>)
    requires
        b.failure_count == 0,
        b.state == CircuitState::Closed,
        times.len() <= u32::MAX,
    ensures
        b.after_failures(times).failure_count == times.len(),
        times.len() > 0 ==> b.after_failures(times).last_failure == Some(times.last()),
        b.after_failures(times).failure_threshold == b.failure_threshold,
        b.after_failures(times).recovery_timeout == b.recovery_timeout,
        times.len() >= b.failure_threshold && times.len() > 0
            ==> b.after_failures(times).state == CircuitState::Open,
        times.len() < b.failure_threshold ==> b.after_failures(times).state == CircuitState::Closed,
    decreases times.len(),
{
    if times.len() > 0 {
        lemma_failures_count(b, times.drop_last());
    }
}

/// After `failure_threshold` consecutive failures from a closed breaker with no
/// failures, the breaker is open and refuses every request until
/// `recovery_timeout` has passed since the last failure; once it has, the next
/// request is let through and the breaker is half-open.
pub proof fn lemma_breaker_opens_after_threshold(b: CircuitBreakerMiddleware, times: Seq<u64>, now: u64)
    requires
        b.failure_count == 0,
        b.state == CircuitState::Closed,
        b.failure_threshold > 0,
        times.len() == b.failure_threshold,
    ensures
        b.after_failures(times).state == CircuitState::Open,
        b.after_failures(times).admits(now)
            <==> (now >= times.last() && now - times.last() >= b.recovery_timeout),
        b.after_failures(times).admits(now)
            ==> b.after_failures(times).after_admit(now).state == CircuitState::HalfOpen,
{
    lemma_failures_count(b, times);
}

/// One success in the half-open state closes the breaker with no failures;
/// a failure or a cancelled trial opens it again, so the trial always ends
/// the half-open state.
pub proof fn lemma_half_open_success_closes(b: CircuitBreakerMiddleware, now: u64)
    requires
        b.state == CircuitState::HalfOpen,
    ensures
        b.after_success().state == CircuitState::Closed,
        b.after_success().failure_count == 0,
        b.after_failure(now).state == CircuitState::Open,
        b.after_cancel().state == CircuitState::Open,
{
}

} // verus!
