//! The decisions of the request executor.
//!
//! One logical call makes attempts numbered from zero. Before each, the
//! circuit breaker and then the rate limiter are consulted; a rejection stands
//! for the attempt's failure without any network call. After each attempt the
//! executor either finishes, with the response or a terminal error, or waits
//! and tries again. The caller performs the sends and the waits.
use vstd::prelude::*;
use crate::error::Error;
use crate::retry::{RetryPolicy, jittered, JITTER_MIN_PERMILLE, JITTER_MAX_PERMILLE};
use crate::breaker::{CircuitBreakerMiddleware, CircuitState};
use crate::limiter::{RateLimitMiddleware, WINDOW_MS};

verus! {

/// The name that exhausted retries report as their operation.
pub open spec fn operation_name() -> Seq<char> {
    "execute_request"@
}

/// What to do after an attempt.
#[derive(Debug)]
pub enum Step<T> {
    /// Wait this many milliseconds, then make the next attempt.
    Retry { delay_ms: u64 },
    /// Return this result to the caller.
    Finish(Result<T, Error>),
}

/// How an attempt ended, as far as the decision to go on is concerned.
#[derive(Debug, Clone, Copy, PartialEq, Eq, Structural)]
pub enum AttemptOutcome {
    /// The attempt succeeded.
    Success,
    /// The attempt failed with an error that may or may not be retried.
    Failure { retryable: bool },
}

/// The progress of one logical call.
#[derive(Debug, Clone, Copy)]
pub struct Execution {
    /// Number of the current attempt, from zero.
    pub attempt: u32,
    /// Retries allowed after the first attempt.
    pub max_attempts: u32,
    /// Whether the call has finished.
    pub finished: bool,
}

/// The outcome that a result stands for.
pub open spec fn outcome_of<T>(r: Result<T, Error>) -> AttemptOutcome {
    match r {
        Ok(_) => AttemptOutcome::Success,
        Err(e) => AttemptOutcome::Failure { retryable: e.spec_is_retryable() },
    }
}

/// The larger of two delays.
pub open spec fn max_u64(a: u64, b: u64) -> u64 {
    if a >= b { a } else { b }
}

/// The wait before the next attempt: the longer of the policy's delay and the
/// delay that the error asks for.
pub open spec fn wait_for(e: Error, policy_delay: u64) -> u64 {
    match e.spec_retry_after() {
        Some(ra) => max_u64(policy_delay, ra),
        None => policy_delay,
    }
}

/// Whether `d` is a delay that the policy may give before attempt `attempt`:
/// the exact delay, or with jitter (after the first attempt) the delay scaled
/// by some factor in [0.5, 1.5].
pub open spec fn may_be_policy_delay(p: RetryPolicy, attempt: u32, d: u64) -> bool {
    if p.jitter && attempt > 0 {
        exists|j: int| JITTER_MIN_PERMILLE <= j <= JITTER_MAX_PERMILLE
            && d == #[trigger] jittered(p.spec_delay(attempt as nat), j)
    } else {
        d == p.spec_delay(attempt as nat)
    }
}

/// Whether an error counts against the circuit breaker: a failure of the
/// transport, or a status of 500 and above.
pub open spec fn is_breaker_failure(e: Error) -> bool {
    match e {
        Error::Network { .. } | Error::Timeout { .. } => true,
        _ => e.spec_status_code() matches Some(c) && c >= 500,
    }
}

impl Execution {
    /// The attempt number never passes the last one allowed.
    pub open spec fn wf(self) -> bool {
        self.attempt <= self.max_attempts
    }

    /// Whether the call ends after an attempt with this outcome.
    pub open spec fn ends_after(self, o: AttemptOutcome) -> bool {
        match o {
            AttemptOutcome::Success => true,
            AttemptOutcome::Failure { retryable } => !retryable || self.attempt >= self.max_attempts,
        }
    }

    /// The progress after an attempt with this outcome.
    pub open spec fn after(self, o: AttemptOutcome) -> Execution {
        if self.ends_after(o) {
            Execution { finished: true, ..self }
        } else {
            Execution { attempt: (self.attempt + 1) as u32, ..self }
        }
    }

    /// The number of attempts made when the attempts end with these outcomes,
    /// in order, until the call finishes or the outcomes run out.
    pub open spec fn attempts_made(self, outcomes: Seq<AttemptOutcome>) -> nat
        decreases outcomes.len(),
    {
        if outcomes.len() == 0 {
            0
        } else if self.ends_after(outcomes[0]) {
            1
        } else {
            1 + self.after(outcomes[0]).attempts_made(outcomes.drop_first())
        }
    }

    /// A call that has made no attempt yet.
    pub fn new(policy: &RetryPolicy) -> (r: Execution)
        ensures
            r == (Execution { attempt: 0, max_attempts: policy.max_attempts, finished: false }),
            r.wf(),
    {
        Execution { attempt: 0, max_attempts: policy.max_attempts, finished: false }
    }

    /// The terminal error after the attempt failed with `e`: the error itself
    /// after the first attempt, else `RetryExhausted` wrapping it.
    pub open spec fn is_final_error(self, r: Error, e: Error) -> bool {
        if self.attempt == 0 {
            r == e
        } else {
            r matches Error::RetryExhausted { attempts, operation, last_error }
                && attempts == self.max_attempts && operation@ == operation_name()
                && *last_error == e
        }
    }

    /// Decides what follows an attempt whose result is `result`, given the
    /// policy's delay `policy_delay_ms` for this attempt. A success is returned;
    /// a failure after the last attempt, or one that cannot be retried, ends
    /// the call with the terminal error; any other failure waits for the longer
    /// of the policy's delay and the delay the error asks for.
    pub fn decide<T>(&mut self, result: Result<T, Error>, policy_delay_ms: u64) -> (r: Step<T>)
        requires
            old(self).wf(),
            !old(self).finished,
        ensures
            final(self).wf(),
            *final(self) == old(self).after(outcome_of(result)),
            final(self).finished <==> r is Finish,
            match result {
                Ok(v) => r matches Step::Finish(Ok(w)) && w == v,
                Err(e) => if old(self).ends_after(outcome_of(result)) {
                    r matches Step::Finish(Err(fe)) && old(self).is_final_error(fe, e)
                } else {
                    r matches Step::Retry { delay_ms } && delay_ms == wait_for(e, policy_delay_ms)
                },
            },
    {
        match result {
            Ok(v) => {
                self.finished = true;
                Step::Finish(Ok(v))
            },
            Err(e) => {
                if !e.is_retryable() || self.attempt >= self.max_attempts {
                    self.finished = true;
                    if self.attempt == 0 {
                        Step::Finish(Err(e))
                    } else {
                        Step::Finish(Err(Error::RetryExhausted {
                            attempts: self.max_attempts,
                            operation: "execute_request".to_owned(),
                            last_error: Box::new(e),
                        }))
                    }
                } else {
                    let delay_ms = match e.retry_after() {
                        Some(ra) => if ra > policy_delay_ms { ra } else { policy_delay_ms },
                        None => policy_delay_ms,
                    };
                    self.attempt = self.attempt + 1;
                    Step::Retry { delay_ms }
                }
            },
        }
    }

    /// `decide`, with the policy's delay for this attempt computed here (with
    /// a fresh jitter factor when the policy has jitter).
    pub fn on_result<T>(&mut self, policy: &RetryPolicy, result: Result<T, Error>) -> (r: Step<T>)
        requires
            old(self).wf(),
            !old(self).finished,
            policy.wf(),
            policy.max_attempts == old(self).max_attempts,
        ensures
            final(self).wf(),
            *final(self) == old(self).after(outcome_of(result)),
            final(self).finished <==> r is Finish,
            match result {
                Ok(v) => r matches Step::Finish(Ok(w)) && w == v,
                Err(e) => if old(self).ends_after(outcome_of(result)) {
                    r matches Step::Finish(Err(fe)) && old(self).is_final_error(fe, e)
                } else {
                    exists|d: u64| #[trigger] may_be_policy_delay(*policy, old(self).attempt, d)
                        && (r matches Step::Retry { delay_ms } && delay_ms == wait_for(e, d))
                },
            },
    {
        let d = policy.delay_for_attempt(self.attempt);
        assert(may_be_policy_delay(*policy, self.attempt, d));
        self.decide(result, d)
    }
}

/// With `max_attempts = k`, a call makes at most `k + 1` attempts, whatever
/// their outcomes; each attempt makes at most one network call.
pub proof fn lemma_attempts_bounded(e: Execution, outcomes: Seq<AttemptOutcome>)
    requires
        e.wf(),
    ensures
        e.attempts_made(outcomes) <= e.max_attempts - e.attempt + 1,
    decreases outcomes.len(),
{
    if outcomes.len() > 0 && !e.ends_after(outcomes[0]) {
        lemma_attempts_bounded(e.after(outcomes[0]), outcomes.drop_first());
    }
}

/// A first attempt that fails with an error that cannot be retried ends the
/// call after exactly one attempt, whatever `max_attempts` is, and the error
/// is returned as it is.
pub proof fn lemma_non_retryable_single_attempt(e: Execution, err: Error, outcomes: Seq<AttemptOutcome>)
    requires
        e.wf(),
        e.attempt == 0,
        !err.spec_is_retryable(),
        outcomes.len() > 0,
        outcomes[0] == outcome_of::<()>(Err(err)),
    ensures
        e.attempts_made(outcomes) == 1,
        e.is_final_error(err, err),
{
}

/// The breaker after an attempt at `now`: it turns half-open only when both
/// it and the limiter let the attempt through.
pub open spec fn breaker_after_gates(b: CircuitBreakerMiddleware, limiter: Option<RateLimitMiddleware>, now: u64) -> CircuitBreakerMiddleware {
    if b.admits(now) && (limiter matches Some(l) ==> l.allows(now)) {
        b.after_admit(now)
    } else {
        b
    }
}

/// Consults the circuit breaker, then the rate limiter, before an attempt at
/// `now`. Returns the error that stands for a rejection, or `None` when the
/// attempt may be sent. The limiter is not consulted when the breaker rejects,
/// and the breaker takes its trial only when the limiter lets it through.
pub fn admit_attempt(
    breaker: &mut Option<CircuitBreakerMiddleware>,
    limiter: &mut Option<RateLimitMiddleware>,
    now: u64,
) -> (r: Option<Error>)
    requires
        *old(limiter) matches Some(l) ==> l.wf(),
    ensures
        *final(limiter) matches Some(l) ==> l.wf(),
        *final(breaker) == match *old(breaker) {
            Some(b) => Some(breaker_after_gates(b, *old(limiter), now)),
            None => None,
        },
        match *old(breaker) {
            Some(b) if !b.admits(now) => {
                &&& r matches Some(Error::ServiceUnavailable { message, retry_after })
                    && message@ == "Circuit breaker is open"@ && retry_after == Some(b.recovery_timeout)
                &&& *final(limiter) == *old(limiter)
            },
            _ => {
                &&& *final(limiter) == match *old(limiter) {
                    Some(l) => Some(l.after_check(now)),
                    None => None,
                }
                &&& match *old(limiter) {
                    Some(l) if !l.allows(now) => r matches Some(Error::RateLimit { retry_after })
                        && retry_after == Some(WINDOW_MS),
                    _ => r is None,
                }
            },
        },
{
    match breaker {
        Some(b) => {
            if !b.would_admit(now) {
                return Some(Error::ServiceUnavailable {
                    message: "Circuit breaker is open".to_owned(),
                    retry_after: Some(b.recovery_timeout),
                });
            }
        },
        None => {},
    }
    match limiter {
        Some(l) => {
            if !l.check_rate_limit_at(now) {
                return Some(Error::RateLimit { retry_after: Some(WINDOW_MS) });
            }
        },
        None => {},
    }
    match breaker {
        Some(b) => {
            let _ = b.can_execute_at(now);
        },
        None => {},
    }
    None
}

/// Reports a sent attempt's result to the circuit breaker at `now`: a success
/// closes it; a breaker failure, or any error of a half-open trial, counts
/// against it (so a trial always ends the half-open state); any other error
/// leaves it.
pub fn report_attempt<T>(breaker: &mut Option<CircuitBreakerMiddleware>, result: &Result<T, Error>, now: u64)
    ensures
        *final(breaker) == match *old(breaker) {
            Some(b) => Some(match *result {
                Ok(_) => b.after_success(),
                Err(e) => if is_breaker_failure(e) || b.state == CircuitState::HalfOpen {
                    b.after_failure(now)
                } else {
                    b
                },
            }),
            None => None,
        },
        *old(breaker) matches Some(b) && b.state == CircuitState::HalfOpen
            ==> (*final(breaker) matches Some(c) && c.state != CircuitState::HalfOpen),
{
    match breaker {
        Some(b) => match result {
            Ok(_) => b.record_success(),
            Err(e) => {
                let failure = match e {
                    Error::Network { .. } | Error::Timeout { .. } => true,
                    _ => match e.status_code() {
                        Some(c) => c >= 500,
                        None => false,
                    },
                };
                if failure || b.state == CircuitState::HalfOpen {
                    b.record_failure_at(now);
                }
            },
        },
        None => {},
    }
}

/// Reports that a sent attempt was cancelled before it ended: it counts as
/// neither success nor failure, but a half-open breaker goes back to open.
pub fn report_cancelled(breaker: &mut Option<CircuitBreakerMiddleware>)
    ensures
        *final(breaker) == match *old(breaker) {
            Some(b) => Some(b.after_cancel()),
            None => None,
        },
{
    match breaker {
        Some(b) => b.record_cancelled(),
        None => {},
    }
}

} // verus!
