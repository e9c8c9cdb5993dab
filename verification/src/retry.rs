//! Backoff policy and retry engine.
//!
//! The backoff policy is a pure function from an attempt number and an
//! optional failed-attempt error to a delay in milliseconds: a suggested
//! delay carried by the error wins (capped at the maximum), otherwise the
//! base delay grows by the configured multiplier per attempt, capped at the
//! maximum, and optionally perturbed by up to a quarter in either direction
//! when jitter is enabled.
//!
//! The retry engine drives an operation through at most `max_retries + 1`
//! attempts: it stops at the first success, at the first non-retryable
//! failure, or when the final allowed attempt has failed. The engine here is
//! deterministic: the operation is handed in as the sequence of outcomes its
//! successive invocations would produce, so every run is replayable and the
//! attempt counts are proved, not sampled. An asynchronous caller drives the
//! same decisions through [`RetryConfig::next_step`], sleeping between
//! attempts.

use vstd::prelude::*;
use vstd::arithmetic::div_mod::{lemma_div_is_ordered, lemma_div_multiples_vanish};
use vstd::arithmetic::mul::lemma_mul_inequality;
use crate::error::{LLMRouterError, spec_is_retryable, spec_retry_delay};

verus! {

/// Retry configuration: how many retries follow the first attempt, how the
/// inter-attempt delay grows, and whether it is jittered.
///
/// The multiplier is kept in hundredths, so `200` means the delay doubles
/// from one attempt to the next. A configuration is well formed when the
/// multiplier exceeds one (`backoff_multiplier_percent >= 101`).
#[derive(Debug, Clone)]
pub struct RetryConfig {
    /// Maximum number of retries after the first attempt.
    pub max_retries: u32,
    /// Base delay between retries, in milliseconds.
    pub base_delay_ms: u64,
    /// Maximum delay between retries, in milliseconds.
    pub max_delay_ms: u64,
    /// Backoff multiplier, in hundredths (200 = doubling).
    pub backoff_multiplier_percent: u32,
    /// Whether to perturb delays by up to a quarter in either direction.
    pub jitter: bool,
}

impl RetryConfig {
    /// The multiplier must exceed one, so that backoff never shrinks.
    pub open spec fn wf(self) -> bool {
        self.backoff_multiplier_percent >= 101
    }
}

/// The uncapped backoff value `base * (percent/100)^attempt`, with the
/// division floored after each multiplication.
pub open spec fn spec_backoff_raw(base: nat, percent: nat, attempt: nat) -> nat
    decreases attempt,
{
    if attempt == 0 {
        base
    } else {
        spec_backoff_raw(base, percent, (attempt - 1) as nat) * percent / 100
    }
}

/// The delay the policy owes for the given attempt: a suggested delay from
/// the error wins, capped at the maximum; otherwise the exponential value,
/// capped at the maximum. Jitter, when enabled, perturbs only the
/// exponential branch.
pub open spec fn spec_delay_ms(c: RetryConfig, attempt: nat, err: Option<LLMRouterError>) -> nat {
    let suggested = match err {
        Some(e) => spec_retry_delay(e),
        None => None,
    };
    match suggested {
        Some(d) => if d <= c.max_delay_ms {
            d as nat
        } else {
            c.max_delay_ms as nat
        },
        None => {
            let raw = spec_backoff_raw(
                c.base_delay_ms as nat,
                c.backoff_multiplier_percent as nat,
                attempt,
            );
            if raw <= c.max_delay_ms {
                raw
            } else {
                c.max_delay_ms as nat
            }
        },
    }
}

/// Whether the error, if any, carries its own suggested delay.
pub open spec fn spec_has_suggested(err: Option<LLMRouterError>) -> bool {
    match err {
        Some(e) => spec_retry_delay(e) is Some,
        None => false,
    }
}

/// What an actually produced delay may be: exactly the policy value, except
/// on the jittered exponential branch, where it may deviate by up to a
/// quarter in either direction.
pub open spec fn delay_matches(
    c: RetryConfig,
    attempt: nat,
    err: Option<LLMRouterError>,
    actual: u64,
) -> bool {
    let d = spec_delay_ms(c, attempt, err) as int;
    if c.jitter && !spec_has_suggested(err) {
        d - d / 4 <= actual as int && actual as int <= d + d / 4
    } else {
        actual as int == d
    }
}

/// The backoff value never shrinks as the attempt number grows, as long as
/// the multiplier is at least one.
proof fn lemma_backoff_monotone(base: nat, percent: nat, a: nat, b: nat)
    requires
        percent >= 100,
        a <= b,
    ensures
        spec_backoff_raw(base, percent, a) <= spec_backoff_raw(base, percent, b),
    decreases b - a,
{
    if a < b {
        let prev = spec_backoff_raw(base, percent, (b - 1) as nat);
        lemma_backoff_monotone(base, percent, a, (b - 1) as nat);
        lemma_mul_inequality(100, percent as int, prev as int);
        lemma_div_is_ordered(prev as int * 100, prev as int * percent, 100);
        lemma_div_multiples_vanish(prev as int, 100);
        assert(prev * 100 == 100 * prev as int);
        assert(prev as int * percent == prev * percent);
    }
}

/// Once one multiplication step leaves the value unchanged, every later
/// attempt yields the same value.
proof fn lemma_backoff_fixed(base: nat, percent: nat, k: nat, j: nat)
    requires
        spec_backoff_raw(base, percent, k) * percent / 100 == spec_backoff_raw(base, percent, k),
        k <= j,
    ensures
        spec_backoff_raw(base, percent, j) == spec_backoff_raw(base, percent, k),
    decreases j - k,
{
    if k < j {
        lemma_backoff_fixed(base, percent, k, (j - 1) as nat);
    }
}

/// Relies on fastrand::u64: a draw from the inclusive range, which panics
/// only when the range is empty.
#[verifier::external_body]
fn random_in_range(lo: u64, hi: u64) -> (r: u64)
    requires
        lo <= hi,
    ensures
        lo <= r && r <= hi,
{
    fastrand::u64(lo..=hi)
}

impl Default for RetryConfig {
    /// Default policy: three retries, one second base delay, one minute
    /// cap, doubling, jitter on.
    fn default() -> (r: Self)
        ensures
            r.max_retries == 3,
            r.base_delay_ms == 1000,
            r.max_delay_ms == 60000,
            r.backoff_multiplier_percent == 200,
            r.jitter,
            r.wf(),
    {
        RetryConfig {
            max_retries: 3,
            base_delay_ms: 1000,
            max_delay_ms: 60000,
            backoff_multiplier_percent: 200,
            jitter: true,
        }
    }
}

impl RetryConfig {
    /// Create the default retry configuration.
    pub fn new() -> (r: Self)
        ensures
            r.max_retries == 3,
            r.base_delay_ms == 1000,
            r.max_delay_ms == 60000,
            r.backoff_multiplier_percent == 200,
            r.jitter,
            r.wf(),
    {
        Self::default()
    }

    /// Set the maximum number of retries.
    pub fn max_retries(self, max_retries: u32) -> (r: Self)
        ensures
            r == (RetryConfig { max_retries, ..self }),
    {
        RetryConfig { max_retries, ..self }
    }

    /// Set the base delay in milliseconds.
    pub fn base_delay(self, base_delay_ms: u64) -> (r: Self)
        ensures
            r == (RetryConfig { base_delay_ms, ..self }),
    {
        RetryConfig { base_delay_ms, ..self }
    }

    /// Set the maximum delay in milliseconds.
    pub fn max_delay(self, max_delay_ms: u64) -> (r: Self)
        ensures
            r == (RetryConfig { max_delay_ms, ..self }),
    {
        RetryConfig { max_delay_ms, ..self }
    }

    /// Set the backoff multiplier, in hundredths (150 = one and a half).
    pub fn backoff_multiplier(self, percent: u32) -> (r: Self)
        ensures
            r == (RetryConfig { backoff_multiplier_percent: percent, ..self }),
    {
        RetryConfig { backoff_multiplier_percent: percent, ..self }
    }

    /// Enable or disable jitter.
    pub fn jitter(self, jitter: bool) -> (r: Self)
        ensures
            r == (RetryConfig { jitter, ..self }),
    {
        RetryConfig { jitter, ..self }
    }

    /// The capped exponential backoff value for the given attempt, before
    /// any jitter: `min(base * multiplier^attempt, max_delay)`.
    fn capped_backoff(&self, attempt: u32) -> (r: u64)
        requires
            self.wf(),
        ensures
            r as nat == (if spec_backoff_raw(
                self.base_delay_ms as nat,
                self.backoff_multiplier_percent as nat,
                attempt as nat,
            ) <= self.max_delay_ms {
                spec_backoff_raw(
                    self.base_delay_ms as nat,
                    self.backoff_multiplier_percent as nat,
                    attempt as nat,
                )
            } else {
                self.max_delay_ms as nat
            }),
    {
        let ghost base = self.base_delay_ms as nat;
        let ghost percent = self.backoff_multiplier_percent as nat;
        let mut value: u64 = self.base_delay_ms;
        if value >= self.max_delay_ms {
            proof {
                lemma_backoff_monotone(base, percent, 0, attempt as nat);
            }
            return self.max_delay_ms;
        }
        let mut k: u32 = 0;
        while k < attempt
            invariant
                self.wf(),
                k <= attempt,
                value < self.max_delay_ms,
                value as nat == spec_backoff_raw(base, percent, k as nat),
                base == self.base_delay_ms as nat,
                percent == self.backoff_multiplier_percent as nat,
            decreases attempt - k,
        {
            assert((value as int) * (self.backoff_multiplier_percent as int)
                <= (u64::MAX as int) * (u32::MAX as int)) by (nonlinear_arith)
                requires
                    value <= u64::MAX,
                    self.backoff_multiplier_percent <= u32::MAX,
            ;
            let next128: u128 = (value as u128) * (self.backoff_multiplier_percent as u128) / 100;
            assert(next128 == spec_backoff_raw(base, percent, (k + 1) as nat));
            if next128 >= self.max_delay_ms as u128 {
                proof {
                    lemma_backoff_monotone(base, percent, (k + 1) as nat, attempt as nat);
                }
                return self.max_delay_ms;
            }
            let next: u64 = next128 as u64;
            if next == value {
                proof {
                    lemma_backoff_fixed(base, percent, k as nat, attempt as nat);
                }
                return value;
            }
            value = next;
            k = k + 1;
        }
        value
    }

    /// Compute the delay before the next attempt, per the policy: a delay
    /// suggested by the error wins (capped at the maximum); otherwise the
    /// capped exponential value, jittered by up to a quarter in either
    /// direction when jitter is enabled.
    pub fn calculate_delay(&self, attempt: u32, error: Option<&LLMRouterError>) -> (r: u64)
        requires
            self.wf(),
        ensures
            delay_matches(
                *self,
                attempt as nat,
                match error {
                    Some(e) => Some(*e),
                    None => None,
                },
                r,
            ),
    {
        let suggested: Option<u64> = match error {
            Some(e) => e.retry_delay(),
            None => None,
        };
        match suggested {
            Some(d) => {
                if d <= self.max_delay_ms {
                    d
                } else {
                    self.max_delay_ms
                }
            },
            None => {
                let capped = self.capped_backoff(attempt);
                if self.jitter {
                    let range = capped / 4;
                    let low = capped - range;
                    let draw = random_in_range(0, 2 * range);
                    let sum: u128 = (low as u128) + (draw as u128);
                    if sum > u64::MAX as u128 {
                        u64::MAX
                    } else {
                        sum as u64
                    }
                } else {
                    capped
                }
            },
        }
    }
}

/// One decision of the retry engine after a failed attempt: sleep and try
/// again, or give up and surface the error.
#[derive(Debug, Clone, Copy, PartialEq, Eq, Structural)]
pub enum RetryDecision {
    /// Sleep for the given number of milliseconds, then retry.
    Retry { delay_ms: u64 },
    /// Surface the error to the caller without sleeping.
    GiveUp,
}

impl RetryConfig {
    /// Decide what follows a failed attempt: give up when the failed attempt
    /// was the last allowed one or the error is not retryable, otherwise
    /// retry after the policy's delay for this attempt.
    pub fn next_step(&self, attempt: u32, error: &LLMRouterError) -> (r: RetryDecision)
        requires
            self.wf(),
        ensures
            (r is GiveUp) <==> (attempt >= self.max_retries || !spec_is_retryable(*error)),
            r matches RetryDecision::Retry { delay_ms: d } ==>
                delay_matches(*self, attempt as nat, Some(*error), d),
    {
        if attempt >= self.max_retries || !error.is_retryable() {
            RetryDecision::GiveUp
        } else {
            RetryDecision::Retry { delay_ms: self.calculate_delay(attempt, Some(error)) }
        }
    }
}

/// The index of the attempt at which the engine stops, scanning from `i`:
/// the first attempt that succeeds or fails non-retryably, or the final
/// allowed attempt (`max_retries`), whichever comes first.
pub open spec fn spec_stop_from<T>(
    outcomes: Seq<Result<T, LLMRouterError>>,
    max_retries: nat,
    i: nat,
) -> nat
    decreases max_retries - i,
{
    if i >= max_retries {
        i
    } else if outcomes[i as int] is Ok {
        i
    } else if !spec_is_retryable(outcomes[i as int]->Err_0) {
        i
    } else {
        spec_stop_from(outcomes, max_retries, i + 1)
    }
}

/// The stop index never lies before the scan start nor after the final
/// allowed attempt.
proof fn lemma_stop_from_bounds<T>(
    outcomes: Seq<Result<T, LLMRouterError>>,
    max_retries: nat,
    i: nat,
)
    requires
        i <= max_retries,
    ensures
        i <= spec_stop_from(outcomes, max_retries, i) <= max_retries,
    decreases max_retries - i,
{
    if i < max_retries && outcomes[i as int] is Err
        && spec_is_retryable(outcomes[i as int]->Err_0) {
        lemma_stop_from_bounds(outcomes, max_retries, i + 1);
    }
}

/// When every attempt in `[i, k)` fails retryably and the engine must stop
/// at `k` (a success, a non-retryable failure, or the final allowed
/// attempt), the scan from `i` stops exactly at `k`.
proof fn lemma_stop_from_reaches<T>(
    outcomes: Seq<Result<T, LLMRouterError>>,
    max_retries: nat,
    i: nat,
    k: nat,
)
    requires
        i <= k <= max_retries,
        forall|j: int| i <= j < k ==> (#[trigger] outcomes[j]) is Err
            && spec_is_retryable(outcomes[j]->Err_0),
        k == max_retries || outcomes[k as int] is Ok
            || !spec_is_retryable(outcomes[k as int]->Err_0),
    ensures
        spec_stop_from(outcomes, max_retries, i) == k,
    decreases k - i,
{
    if i < k {
        lemma_stop_from_reaches(outcomes, max_retries, i + 1, k);
    }
}

/// What one run of the retry engine produced: the final result, how many
/// times the operation was invoked, and the delays slept between attempts.
pub struct RetryOutcome<T> {
    /// The first success, or the error of the attempt the engine stopped at.
    pub result: Result<T, LLMRouterError>,
    /// Total number of invocations of the operation.
    pub attempts: u64,
    /// The delay slept after each failed attempt that was retried.
    pub delays_ms: Vec<u64>,
}

/// Drive an operation through bounded retries. The operation is given as
/// the sequence of outcomes its successive invocations would produce (one
/// entry per allowed attempt), which makes every run replayable.
///
/// The engine returns the outcome of the attempt at which it stopped: the
/// first success, the first non-retryable failure, or the final allowed
/// attempt. It sleeps once per retried failure, each delay computed by the
/// backoff policy from the attempt index and the error of that attempt.
pub fn run_retries<T>(
    config: &RetryConfig,
    outcomes: Vec<Result<T, LLMRouterError>>,
) -> (r: RetryOutcome<T>)
    requires
        config.wf(),
        outcomes@.len() > config.max_retries as nat,
    ensures
        ({
            let stop = spec_stop_from(outcomes@, config.max_retries as nat, 0);
            &&& r.attempts == stop + 1
            &&& r.result == outcomes@[stop as int]
            &&& r.delays_ms@.len() == stop
            &&& forall|j: int| 0 <= j < stop ==> #[trigger] delay_matches(
                *config,
                j as nat,
                Some(outcomes@[j]->Err_0),
                r.delays_ms@[j],
            )
        }),
{
    let ghost stop = spec_stop_from(outcomes@, config.max_retries as nat, 0);
    proof {
        lemma_stop_from_bounds(outcomes@, config.max_retries as nat, 0);
    }
    let mut delays: Vec<u64> = Vec::new();
    let mut i: usize = 0;
    loop
        invariant
            config.wf(),
            outcomes@.len() > config.max_retries as nat,
            i as nat <= stop <= config.max_retries as nat,
            spec_stop_from(outcomes@, config.max_retries as nat, i as nat) == stop,
            delays@.len() == i,
            forall|j: int| 0 <= j < i ==> #[trigger] delay_matches(
                *config,
                j as nat,
                Some(outcomes@[j]->Err_0),
                delays@[j],
            ),
        ensures
            i as nat == stop,
            delays@.len() == stop,
            forall|j: int| 0 <= j < stop ==> #[trigger] delay_matches(
                *config,
                j as nat,
                Some(outcomes@[j]->Err_0),
                delays@[j],
            ),
        decreases config.max_retries as int - i as int,
    {
        match &outcomes[i] {
            Ok(_) => {
                break;
            },
            Err(e) => {
                if i >= config.max_retries as usize || !e.is_retryable() {
                    break;
                }
                let d = config.calculate_delay(i as u32, Some(e));
                delays.push(d);
                proof {
                    lemma_stop_from_bounds(outcomes@, config.max_retries as nat, i as nat + 1);
                }
                i = i + 1;
            },
        }
    }
    let mut outcomes = outcomes;
    let result = outcomes.remove(i);
    RetryOutcome { result, attempts: i as u64 + 1, delays_ms: delays }
}

/// Law: on a non-retryable first failure, the engine attempts the operation
/// exactly once and surfaces that failure.
pub proof fn lemma_non_retryable_single_attempt<T>(
    outcomes: Seq<Result<T, LLMRouterError>>,
    max_retries: nat,
)
    requires
        outcomes.len() > max_retries,
        outcomes[0] is Err,
        !spec_is_retryable(outcomes[0]->Err_0),
    ensures
        spec_stop_from(outcomes, max_retries, 0) == 0,
{
}

/// Law: when the first `k` attempts fail retryably and attempt index `k`
/// succeeds within the allowed budget, the engine invokes the operation
/// exactly `k + 1` times and returns the success.
pub proof fn lemma_success_after_retries<T>(
    outcomes: Seq<Result<T, LLMRouterError>>,
    max_retries: nat,
    k: nat,
)
    requires
        outcomes.len() > max_retries,
        k <= max_retries,
        forall|j: int| 0 <= j < k ==> (#[trigger] outcomes[j]) is Err
            && spec_is_retryable(outcomes[j]->Err_0),
        outcomes[k as int] is Ok,
    ensures
        spec_stop_from(outcomes, max_retries, 0) == k,
        outcomes[spec_stop_from(outcomes, max_retries, 0) as int] is Ok,
{
    lemma_stop_from_reaches(outcomes, max_retries, 0, k);
}

/// Law: when every allowed attempt fails retryably, the engine invokes the
/// operation exactly `max_retries + 1` times and returns the final error.
pub proof fn lemma_exhausted_retries<T>(
    outcomes: Seq<Result<T, LLMRouterError>>,
    max_retries: nat,
)
    requires
        outcomes.len() > max_retries,
        forall|j: int| 0 <= j <= max_retries ==> (#[trigger] outcomes[j]) is Err
            && spec_is_retryable(outcomes[j]->Err_0),
    ensures
        spec_stop_from(outcomes, max_retries, 0) == max_retries,
        outcomes[spec_stop_from(outcomes, max_retries, 0) as int]
            == outcomes[max_retries as int],
{
    lemma_stop_from_reaches(outcomes, max_retries, 0, max_retries);
}

/// Law: with jitter disabled and no error-suggested delay, the policy's
/// delay for an attempt is exactly the capped exponential formula,
/// `min(base * multiplier^attempt, max_delay)`.
pub proof fn lemma_delay_formula(c: RetryConfig, attempt: nat, actual: u64)
    requires
        !c.jitter,
        delay_matches(c, attempt, None, actual),
    ensures
        ({
            let raw = spec_backoff_raw(
                c.base_delay_ms as nat,
                c.backoff_multiplier_percent as nat,
                attempt,
            );
            actual == if raw <= c.max_delay_ms {
                raw
            } else {
                c.max_delay_ms as nat
            }
        }),
{
}

} // verus!
