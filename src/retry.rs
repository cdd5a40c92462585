//! Exponential backoff between attempts.
//!
//! Delays are whole milliseconds. The multiplier is held in hundredths
//! (`200` stands for a factor of 2.0). The delay before attempt `n > 0` is
//! `initial · multiplier^n`, rounded down once and capped at `max_delay`.
use vstd::prelude::*;
use rand::Rng;
use vstd::arithmetic::div_mod::{lemma_div_denominator, lemma_div_multiples_vanish, lemma_div_is_ordered, lemma_fundamental_div_mod_converse};
use crate::digits::{pow, lemma_pow_positive, lemma_pow_adds, value, all_digits, from_u64, mul_small, high_part_capped, capped, lemma_value_shift, lemma_value_bound};

verus! {

/// How often, and after how long, a failed call is tried again.
#[derive(Debug, Clone, Copy)]
pub struct RetryPolicy {
    /// Number of retries after the first attempt.
    pub max_attempts: u32,
    /// Delay after the first failed attempt, in milliseconds.
    pub initial_delay: u64,
    /// Upper bound of every later delay, in milliseconds.
    pub max_delay: u64,
    /// Growth factor per attempt, in hundredths; above 100.
    pub multiplier_percent: u32,
    /// Whether each delay is scaled by a random factor in [0.5, 1.5].
    pub jitter: bool,
}

/// Lowest jitter factor, in thousandths.
pub const JITTER_MIN_PERMILLE: u64 = 500;
/// Highest jitter factor, in thousandths.
pub const JITTER_MAX_PERMILLE: u64 = 1500;

/// The smaller of two integers.
pub open spec fn min_int(a: int, b: int) -> int {
    if a <= b { a } else { b }
}

/// `initial · (m / 100)^n`, rounded down.
pub open spec fn growth(initial: u64, m: u32, n: nat) -> int {
    initial * pow(m as int, n) / pow(100, n)
}

/// The delay before attempt `n`, without jitter: `initial` for the first,
/// then `initial · (m / 100)^n` rounded down and capped at `max`.
pub open spec fn backoff(initial: u64, max: u64, m: u32, n: nat) -> int {
    if n == 0 {
        initial as int
    } else {
        min_int(growth(initial, m, n), max as int)
    }
}

/// A delay scaled by a jitter factor in thousandths, saturating at `u64::MAX`.
pub open spec fn jittered(delay: int, permille: int) -> int {
    min_int(delay * permille / 1000, u64::MAX as int)
}

/// The growth starts at `initial` and is never negative.
proof fn lemma_growth_base(initial: u64, m: u32, n: nat)
    ensures
        growth(initial, m, 0) == initial,
        growth(initial, m, n) >= 0,
{
    assert(pow(m as int, 0) == 1 && pow(100, 0) == 1);
    lemma_pow_positive(100, n);
    let a = initial * pow(m as int, n);
    if m > 0 {
        lemma_pow_positive(m as int, n);
        assert(a >= 0) by (nonlinear_arith)
            requires initial >= 0, pow(m as int, n) > 0, a == initial * pow(m as int, n);
    } else if n > 0 {
        assert(pow(m as int, n) == 0);
    } else {
        assert(pow(m as int, n) == 1);
    }
    lemma_div_is_ordered(0, a, pow(100, n));
}

/// With a multiplier of at least 1.0 the growth never falls from one
/// attempt to the next.
proof fn lemma_growth_step(initial: u64, m: u32, n: nat)
    requires
        m >= 100,
    ensures
        growth(initial, m, n) <= growth(initial, m, n + 1),
{
    let p = pow(m as int, n);
    let d = pow(100, n);
    lemma_pow_positive(m as int, n);
    lemma_pow_positive(100, n);
    let a = initial * p;
    assert(a >= 0) by (nonlinear_arith)
        requires initial >= 0, p > 0, a == initial * p;
    assert(pow(m as int, n + 1) == m * p);
    assert(pow(100, n + 1) == 100 * d);
    assert(initial * (m * p) == a * m) by (nonlinear_arith)
        requires a == initial * p;
    lemma_div_denominator(a * m, 100, d);
    assert(a * m >= 100 * a) by (nonlinear_arith)
        requires a >= 0, m >= 100;
    lemma_div_is_ordered(100 * a, a * m, 100);
    lemma_div_multiples_vanish(a, 100);
    lemma_div_is_ordered(a, (a * m) / 100, d);
}

/// The growth never falls as the attempt number grows.
proof fn lemma_growth_monotone(initial: u64, m: u32, k: nat, n: nat)
    requires
        m >= 100,
        k <= n,
    ensures
        growth(initial, m, k) <= growth(initial, m, n),
    decreases n - k,
{
    if k < n {
        lemma_growth_step(initial, m, k);
        lemma_growth_monotone(initial, m, k + 1, n);
    }
}

/// No delay is negative.
pub proof fn lemma_backoff_nonneg(initial: u64, max: u64, m: u32, n: nat)
    ensures
        0 <= backoff(initial, max, m, n) <= u64::MAX,
{
    lemma_growth_base(initial, m, n);
}

/// A hundred to the `k` is ten to the `2k`.
proof fn lemma_pow_hundred(k: nat)
    ensures
        pow(10, 2 * k) == pow(100, k),
    decreases k,
{
    if k > 0 {
        lemma_pow_hundred((k - 1) as nat);
        assert(pow(10, 2 * k) == 10 * pow(10, (2 * k - 1) as nat));
        assert(pow(10, (2 * k - 1) as nat) == 10 * pow(10, (2 * (k - 1)) as nat));
    }
}

/// Without jitter, the delay before attempt `n` never exceeds `max_delay`, and
/// it never falls as `n` grows (for a policy whose first delay is within the cap).
pub proof fn lemma_backoff_bounded_and_monotone(p: RetryPolicy, n: nat, k: nat)
    requires
        p.wf(),
        p.initial_delay <= p.max_delay,
        n <= k,
    ensures
        p.spec_delay(n) <= p.max_delay,
        p.spec_delay(n) <= p.spec_delay(k),
{
    lemma_growth_base(p.initial_delay, p.multiplier_percent, n);
    lemma_growth_monotone(p.initial_delay, p.multiplier_percent, 0, k);
    if n > 0 {
        lemma_growth_monotone(p.initial_delay, p.multiplier_percent, n, k);
    }
}

/// Relies on rand's `Rng::gen_range` over `thread_rng`: a value drawn from the
/// inclusive range, which is not empty.
#[verifier::external_body]
fn draw_jitter_permille() -> (r: u64)
    ensures
        JITTER_MIN_PERMILLE <= r <= JITTER_MAX_PERMILLE,
{
    rand::thread_rng().gen_range(JITTER_MIN_PERMILLE..=JITTER_MAX_PERMILLE)
}

impl RetryPolicy {
    /// The multiplier grows delays.
    pub open spec fn wf(&self) -> bool {
        self.multiplier_percent > 100
    }

    /// The delay before attempt `n`, without jitter.
    pub open spec fn spec_delay(&self, n: nat) -> int {
        backoff(self.initial_delay, self.max_delay, self.multiplier_percent, n)
    }

    /// A policy with jitter.
    pub fn new(max_attempts: u32, initial_delay: u64, max_delay: u64, multiplier_percent: u32) -> (r: RetryPolicy)
        requires
            multiplier_percent > 100,
        ensures
            r.wf(),
            r == (RetryPolicy { max_attempts, initial_delay, max_delay, multiplier_percent, jitter: true }),
    {
        RetryPolicy { max_attempts, initial_delay, max_delay, multiplier_percent, jitter: true }
    }

    /// The same policy without jitter.
    pub fn without_jitter(self) -> (r: RetryPolicy)
        ensures
            r == (RetryPolicy { jitter: false, ..self }),
    {
        RetryPolicy { jitter: false, ..self }
    }

    /// Three retries, one second growing twofold up to a minute, with jitter.
    pub fn default() -> (r: RetryPolicy)
        ensures
            r.wf(),
            r == (RetryPolicy {
                max_attempts: 3,
                initial_delay: 1000,
                max_delay: 60000,
                multiplier_percent: 200,
                jitter: true,
            }),
    {
        RetryPolicy::new(3, 1000, 60000, 200)
    }

    /// The delay before attempt `attempt`, without jitter. The exact product
    /// `initial · multiplier^attempt` is carried in decimal digits; dropping
    /// its lowest `2 · attempt` digits divides it by `100^attempt`.
    pub fn base_delay(&self, attempt: u32) -> (r: u64)
        requires
            self.wf(),
        ensures
            r == self.spec_delay(attempt as nat),
    {
        let initial = self.initial_delay;
        let max = self.max_delay;
        let m = self.multiplier_percent;
        if attempt == 0 {
            return initial;
        }
        proof {
            lemma_growth_base(initial, m, attempt as nat);
        }
        if initial == 0 {
            proof {
                assert(initial * pow(m as int, attempt as nat) == 0);
                lemma_pow_positive(100, attempt as nat);
                lemma_fundamental_div_mod_converse(0, pow(100, attempt as nat), 0, 0);
            }
            return 0;
        }
        let mut digits = from_u64(initial);
        let mut k: u32 = 0;
        let mut cur: u64 = initial;
        let mut done = false;
        assert(pow(m as int, 0) == 1);
        while k < attempt
            invariant
                k <= attempt,
                m >= 100,
                initial == self.initial_delay,
                max == self.max_delay,
                m == self.multiplier_percent,
                all_digits(digits@),
                done ==> k == attempt && cur == backoff(initial, max, m, attempt as nat),
                !done ==> value(digits@) == initial * pow(m as int, k as nat)
                    && cur == backoff(initial, max, m, k as nat),
            decreases attempt - k,
        {
            let ghost before = value(digits@);
            digits = mul_small(&digits, m);
            k = k + 1;
            proof {
                assert(pow(m as int, k as nat) == m * pow(m as int, (k - 1) as nat));
                assert(value(digits@) == initial * pow(m as int, k as nat)) by (nonlinear_arith)
                    requires value(digits@) == before * m, before == initial * pow(m as int, (k - 1) as nat),
                        pow(m as int, k as nat) == m * pow(m as int, (k - 1) as nat);
                lemma_pow_hundred(k as nat);
                lemma_growth_base(initial, m, k as nat);
            }
            let twice: u64 = 2 * (k as u64);
            let high: u128 = if twice > digits.len() as u64 {
                proof {
                    let len = digits@.len();
                    lemma_value_bound(digits@);
                    lemma_pow_adds(10, len, (2 * k - len) as nat);
                    lemma_pow_positive(10, (2 * k - len) as nat);
                    assert(pow(10, len) * pow(10, (2 * k - len) as nat) >= pow(10, len)) by (nonlinear_arith)
                        requires pow(10, len) > 0, pow(10, (2 * k - len) as nat) >= 1;
                    assert((len + (2 * k - len) as nat) as nat == 2 * k);
                    lemma_fundamental_div_mod_converse(value(digits@), pow(10, 2 * k as nat), 0, value(digits@));
                }
                0
            } else {
                proof {
                    lemma_value_shift(digits@, 2 * k as int);
                }
                high_part_capped(&digits, twice as usize)
            };
            assert(high == capped(growth(initial, m, k as nat)));
            if high >= max as u128 {
                proof {
                    lemma_growth_monotone(initial, m, k as nat, attempt as nat);
                }
                cur = max;
                done = true;
                k = attempt;
            } else {
                cur = high as u64;
            }
        }
        cur
    }

    /// A delay scaled by a jitter factor given in thousandths.
    pub fn apply_jitter(delay: u64, permille: u64) -> (r: u64)
        requires
            permille <= JITTER_MAX_PERMILLE,
        ensures
            r == jittered(delay as int, permille as int),
    {
        let dd = delay as u128;
        let pp = permille as u128;
        assert(dd * pp <= 0xffff_ffff_ffff_ffffu128 * 1500) by (nonlinear_arith)
            requires dd <= 0xffff_ffff_ffff_ffffu128, pp <= 1500;
        let scaled: u128 = dd * pp / 1000;
        if scaled > u64::MAX as u128 { u64::MAX } else { scaled as u64 }
    }

    /// The delay before attempt `attempt` with a given jitter factor in
    /// thousandths; the factor is ignored on the first attempt and when the
    /// policy has no jitter.
    pub fn delay_with_jitter(&self, attempt: u32, permille: u64) -> (r: u64)
        requires
            self.wf(),
            permille <= JITTER_MAX_PERMILLE,
        ensures
            r == if self.jitter && attempt > 0 {
                jittered(self.spec_delay(attempt as nat), permille as int)
            } else {
                self.spec_delay(attempt as nat)
            },
    {
        let base = self.base_delay(attempt);
        if self.jitter && attempt > 0 {
            RetryPolicy::apply_jitter(base, permille)
        } else {
            base
        }
    }

    /// The delay before attempt `attempt`; with jitter, scaled by a fresh
    /// random factor in [0.5, 1.5] (not on the first attempt).
    pub fn delay_for_attempt(&self, attempt: u32) -> (r: u64)
        requires
            self.wf(),
        ensures
            !(self.jitter && attempt > 0) ==> r == self.spec_delay(attempt as nat),
            self.jitter && attempt > 0 ==> exists|j: int|
                JITTER_MIN_PERMILLE <= j <= JITTER_MAX_PERMILLE
                    && r == #[trigger] jittered(self.spec_delay(attempt as nat), j),
    {
        if self.jitter && attempt > 0 {
            let permille = draw_jitter_permille();
            let r = self.delay_with_jitter(attempt, permille);
            assert(r == jittered(self.spec_delay(attempt as nat), permille as int));
            r
        } else {
            self.base_delay(attempt)
        }
    }

    /// Whether attempt number `attempt` (counted from zero) may be retried.
    pub fn should_retry(&self, attempt: u32) -> (r: bool)
        ensures
            r == (attempt < self.max_attempts),
    {
        attempt < self.max_attempts
    }
}

} // verus!
