//! Failure classification and the backoff policy of retries.

use vstd::prelude::*;
use vstd::arithmetic::power::pow;
use std::time::Duration;
use crate::common::error::{Error, ErrorView};
use crate::common::time::{duration_nanos, from_nanos, max_duration_nanos, to_nanos};

verus! {

/// A factor in thousandths: `1500` multiplies by one and a half.
#[derive(Debug, Clone, Copy, PartialEq, Eq)]
pub struct Multiplier {
    /// Thousandths of the factor.
    pub per_mille: u64,
}

impl Multiplier {
    /// The factor `n`.
    pub fn whole(n: u32) -> (r: Self)
        ensures
            r.per_mille == n * 1000,
    {
        Multiplier { per_mille: n as u64 * 1000 }
    }

    /// The factor of `per_mille` thousandths.
    pub fn from_per_mille(per_mille: u64) -> (r: Self)
        ensures
            r.per_mille == per_mille,
    {
        Multiplier { per_mille }
    }
}

/// The share of a delay, in thousandths, by which jitter may move it either way.
pub const JITTER_PER_MILLE: u64 = 500;

/// Retry configuration
#[derive(Debug, Clone)]
pub struct RetryConfig {
    /// Maximum number of retries
    pub max_retries: u32,
    /// Initial retry delay
    pub initial_backoff: Duration,
    /// Maximum retry delay
    pub max_backoff: Duration,
    /// Multiplier for exponential backoff
    pub backoff_multiplier: Multiplier,
}

impl Default for RetryConfig {
    fn default() -> (r: Self)
        ensures
            r.max_retries == 3,
            duration_nanos(r.initial_backoff) == 100_000_000,
            duration_nanos(r.max_backoff) == 10_000_000_000,
            r.backoff_multiplier.per_mille == 2000,
    {
        RetryConfig {
            max_retries: 3,
            initial_backoff: Duration::from_millis(100),
            max_backoff: Duration::from_secs(10),
            backoff_multiplier: Multiplier { per_mille: 2000 },
        }
    }
}

/// `x` brought into the range from `lo` to `hi`; `hi` where the range is empty.
pub open spec fn clamp(x: nat, lo: nat, hi: nat) -> nat {
    let y = if x < lo {
        lo
    } else {
        x
    };
    if y > hi {
        hi
    } else {
        y
    }
}

/// The delay that follows the delay `current`: multiplied, rounded down to whole
/// nanoseconds and kept between the initial and the maximum delay.
pub open spec fn grow(current: nat, initial: nat, max: nat, per_mille: nat) -> nat {
    clamp(current * per_mille / 1000, initial, max)
}

/// The delay before jitter for the retry `attempt` (counted from 0), in
/// nanoseconds: the initial delay, multiplied once per earlier attempt.
pub open spec fn base_delay(initial: nat, max: nat, per_mille: nat, attempt: nat) -> nat
    decreases attempt,
{
    if attempt == 0 {
        clamp(initial, initial, max)
    } else {
        grow(base_delay(initial, max, per_mille, (attempt - 1) as nat), initial, max, per_mille)
    }
}

/// How far jitter may move a delay of `base` nanoseconds either way.
pub open spec fn jitter_span(base: nat) -> nat {
    base * (JITTER_PER_MILLE as nat) / 1000
}

/// The delay `base` with jitter: `sample` picks a point between
/// `base - jitter_span(base)`, for the sample 0, and `base + jitter_span(base)`,
/// for the greatest sample; the points in between follow in equal steps.
pub open spec fn jittered(base: nat, sample: u32) -> nat {
    let span = jitter_span(base);
    ((base - span) + (2 * span + 1) * (sample as nat) / 0x1_0000_0000) as nat
}

/// `n` nanoseconds as a `Duration` can hold them.
pub open spec fn capped(n: nat) -> nat {
    if n <= max_duration_nanos() {
        n
    } else {
        max_duration_nanos()
    }
}

impl RetryConfig {
    /// The delay before jitter for the retry `attempt`, in nanoseconds.
    pub open spec fn spec_base_delay(&self, attempt: nat) -> nat {
        base_delay(
            duration_nanos(self.initial_backoff),
            duration_nanos(self.max_backoff),
            self.backoff_multiplier.per_mille as nat,
            attempt,
        )
    }

    /// The jittered delay for the retry `attempt`, in nanoseconds.
    pub open spec fn spec_backoff(&self, attempt: nat, sample: u32) -> nat {
        capped(jittered(self.spec_base_delay(attempt), sample))
    }

    fn base_delay_nanos(&self, attempt: u32) -> (r: u128)
        ensures
            r == self.spec_base_delay(attempt as nat),
            r <= max_duration_nanos(),
    {
        let initial = to_nanos(self.initial_backoff);
        let max = to_nanos(self.max_backoff);
        let per_mille = self.backoff_multiplier.per_mille as u128;
        let mut current = clamp_nanos(initial, initial, max);
        let mut k: u32 = 0;
        while k < attempt
            invariant
                k <= attempt,
                initial == duration_nanos(self.initial_backoff),
                max == duration_nanos(self.max_backoff),
                initial <= max_duration_nanos(),
                max <= max_duration_nanos(),
                per_mille == self.backoff_multiplier.per_mille,
                current == base_delay(initial as nat, max as nat, per_mille as nat, k as nat),
                current <= max_duration_nanos(),
            decreases attempt - k,
        {
            let next = match current.checked_mul(per_mille) {
                Some(product) => clamp_nanos(product / 1000, initial, max),
                None => {
                    assert(current * per_mille / 1000 > max) by (nonlinear_arith)
                        requires
                            current * per_mille > u128::MAX,
                            max <= (u64::MAX as nat) * 1_000_000_000 + 999_999_999,
                    ;
                    max
                },
            };
            assert(next == grow(current as nat, initial as nat, max as nat, per_mille as nat));
            if next == current {
                proof {
                    lemma_base_delay_settles(
                        initial as nat,
                        max as nat,
                        per_mille as nat,
                        k as nat,
                        attempt as nat,
                    );
                }
                return current;
            }
            current = next;
            k += 1;
        }
        current
    }

    /// Calculate backoff duration for a given retry attempt, with the jitter that
    /// `sample` picks
    pub fn calculate_backoff(&self, retry_attempt: u32, sample: u32) -> (d: Duration)
        ensures
            duration_nanos(d) == self.spec_backoff(retry_attempt as nat, sample),
    {
        let base = self.base_delay_nanos(retry_attempt);
        let span = base * (JITTER_PER_MILLE as u128) / 1000;
        assert(span <= base) by (nonlinear_arith)
            requires
                span == base * 500 / 1000,
        ;
        let width = 2 * span + 1;
        assert(width * (sample as u128) <= u128::MAX) by (nonlinear_arith)
            requires
                width <= 2 * ((u64::MAX as nat) * 1_000_000_000 + 999_999_999) + 1,
                sample < 0x1_0000_0000,
        ;
        let offset = width * (sample as u128) / 0x1_0000_0000u128;
        from_nanos(base - span + offset)
    }
}

fn clamp_nanos(x: u128, lo: u128, hi: u128) -> (r: u128)
    ensures
        r == clamp(x as nat, lo as nat, hi as nat),
{
    let y = if x < lo {
        lo
    } else {
        x
    };
    if y > hi {
        hi
    } else {
        y
    }
}

/// Once a delay no longer changes from one attempt to the next, it stays.
pub proof fn lemma_base_delay_settles(initial: nat, max: nat, per_mille: nat, k: nat, n: nat)
    requires
        k <= n,
        base_delay(initial, max, per_mille, k + 1) == base_delay(initial, max, per_mille, k),
    ensures
        base_delay(initial, max, per_mille, n) == base_delay(initial, max, per_mille, k),
    decreases n,
{
    if n > k {
        lemma_base_delay_settles(initial, max, per_mille, k, (n - 1) as nat);
    }
}

/// Where the initial delay is not above the maximum, every delay before jitter
/// lies between the two.
pub proof fn lemma_base_delay_bounds(initial: nat, max: nat, per_mille: nat, attempt: nat)
    requires
        initial <= max,
    ensures
        initial <= base_delay(initial, max, per_mille, attempt) <= max,
    decreases attempt,
{
    if attempt > 0 {
        lemma_base_delay_bounds(initial, max, per_mille, (attempt - 1) as nat);
    }
}

/// With a whole multiplier `factor` of at least 1, the delay before jitter for
/// attempt `n` is `initial * factor^n`, cut off at the maximum.
pub proof fn lemma_base_delay_whole(initial: nat, max: nat, factor: nat, attempt: nat)
    requires
        initial <= max,
        factor >= 1,
    ensures
        base_delay(initial, max, factor * 1000, attempt) == clamp(
            (initial * pow(factor as int, attempt)) as nat,
            initial,
            max,
        ),
        initial * pow(factor as int, attempt) >= initial,
    decreases attempt,
{
    reveal(pow);
    if attempt == 0 {
        assert(pow(factor as int, 0) == 1);
        assert(initial * 1 == initial);
    } else {
        let prev = (attempt - 1) as nat;
        lemma_base_delay_whole(initial, max, factor, prev);
        let p = pow(factor as int, prev);
        let x = initial * p;
        assert(pow(factor as int, attempt) == factor * p);
        assert(initial * (factor * p) == x * factor) by (nonlinear_arith)
            requires
                x == initial * p,
        ;
        assert(x * factor >= x) by (nonlinear_arith)
            requires
                x >= 0,
                factor >= 1,
        ;
        let b = base_delay(initial, max, factor * 1000, prev);
        assert(b * (factor * 1000) / 1000 == b * factor) by (nonlinear_arith);
        if x > max {
            assert(b == max);
            assert(max * factor >= max) by (nonlinear_arith)
                requires
                    factor >= 1,
            ;
        } else {
            assert(b == x);
        }
    }
}

/// Jitter moves a delay by at most its jitter span, either way.
pub proof fn lemma_jitter_bounds(base: nat, sample: u32)
    ensures
        base - jitter_span(base) <= jittered(base, sample) <= base + jitter_span(base),
        jitter_span(base) <= base,
{
    let span = jitter_span(base);
    assert(span <= base) by (nonlinear_arith)
        requires
            span == base * 500 / 1000,
    ;
    let s = sample as nat;
    assert((2 * span + 1) * s / 0x1_0000_0000 <= 2 * span) by (nonlinear_arith)
        requires
            s < 0x1_0000_0000,
    ;
}

/// The backoff law: where the initial delay is not above the maximum, the delay
/// before jitter of every attempt lies between the two, and the jittered delay
/// lies within the jitter span of the delay before jitter.
pub proof fn lemma_backoff_law(config: RetryConfig, attempt: nat, sample: u32)
    requires
        duration_nanos(config.initial_backoff) <= duration_nanos(config.max_backoff),
    ensures
        duration_nanos(config.initial_backoff) <= config.spec_base_delay(attempt)
            <= duration_nanos(config.max_backoff),
        config.spec_base_delay(attempt) - jitter_span(config.spec_base_delay(attempt))
            <= jittered(config.spec_base_delay(attempt), sample) <= config.spec_base_delay(
            attempt,
        ) + jitter_span(config.spec_base_delay(attempt)),
{
    lemma_base_delay_bounds(
        duration_nanos(config.initial_backoff),
        duration_nanos(config.max_backoff),
        config.backoff_multiplier.per_mille as nat,
        attempt,
    );
    lemma_jitter_bounds(config.spec_base_delay(attempt), sample);
}

/// Whether trying again after the error could succeed.
pub enum ErrorClass {
    /// A failure of the connection or of the server that may pass.
    Transient,
    /// A failure that trying again would meet again.
    Permanent,
}

/// Whether a status code tells of a failure that may pass: a server error
/// (500 to 599) or too many requests (429).
pub open spec fn is_retryable_status(status: u16) -> bool {
    (500 <= status <= 599) || status == 429
}

/// Whether trying again after the error could succeed: after a failure of the
/// connection, a timeout, a rate limit, or an answer with a retryable status.
pub open spec fn is_retryable(e: ErrorView) -> bool {
    match e {
        ErrorView::Http(f) => f.timeout || f.connect || (f.status matches Some(s)
            && is_retryable_status(s)),
        ErrorView::Api { status, .. } => is_retryable_status(status),
        ErrorView::RateLimit { .. } => true,
        ErrorView::Timeout => true,
        ErrorView::WebSocket(w) => w is ConnectionClosed || w is AlreadyClosed || w is Io,
        _ => false,
    }
}

/// Whether a status code tells of a failure that may pass.
pub fn status_is_retryable(status: u16) -> (r: bool)
    ensures
        r == is_retryable_status(status),
{
    (500 <= status && status <= 599) || status == 429
}

/// Determine if an error is retryable
pub fn is_retryable_error(error: &Error) -> (r: bool)
    ensures
        r == is_retryable(error@),
{
    match error {
        Error::Http(f) => {
            f.timeout || f.connect || match f.status {
                Some(s) => status_is_retryable(s),
                None => false,
            }
        },
        Error::Api { status, .. } => status_is_retryable(*status),
        Error::RateLimit { .. } => true,
        Error::Timeout => true,
        Error::WebSocket(w) => {
            match w {
                crate::common::error::WebSocketFailure::ConnectionClosed => true,
                crate::common::error::WebSocketFailure::AlreadyClosed => true,
                crate::common::error::WebSocketFailure::Io(_) => true,
                _ => false,
            }
        },
        _ => false,
    }
}

/// Classifies an error as transient or permanent.
pub fn classify(error: &Error) -> (r: ErrorClass)
    ensures
        r is Transient <==> is_retryable(error@),
{
    if is_retryable_error(error) {
        ErrorClass::Transient
    } else {
        ErrorClass::Permanent
    }
}

/// The seconds that the server asked to wait, where the error carries them.
pub open spec fn retry_after_secs(e: ErrorView) -> Option<u64> {
    match e {
        ErrorView::RateLimit { retry_after } => retry_after,
        _ => None,
    }
}

/// Extract retry-after duration from error
pub fn get_retry_after(error: &Error) -> (r: Option<Duration>)
    ensures
        match r {
            Some(d) => retry_after_secs(error@) matches Some(s) && duration_nanos(d) == s
                * 1_000_000_000,
            None => retry_after_secs(error@) is None,
        },
{
    match error {
        Error::RateLimit { retry_after } => match retry_after {
            Some(s) => Some(Duration::from_secs(*s)),
            None => None,
        },
        _ => None,
    }
}

/// What to do after a failed attempt.
#[derive(Debug)]
pub enum RetryDecision {
    /// Wait for `delay`, then try again.
    Retry {
        /// How long to wait.
        delay: Duration,
    },
    /// Give up and return the error.
    Stop,
}

/// The delay, in nanoseconds, before the retry that follows the error: what the
/// server asked for where the error says it, else the jittered backoff of the
/// attempt.
pub open spec fn delay_after(config: RetryConfig, retries: u32, e: ErrorView, sample: u32) -> nat {
    match retry_after_secs(e) {
        Some(s) => s as nat * 1_000_000_000,
        None => config.spec_backoff(retries as nat, sample),
    }
}

/// After a rate limit that says how long to wait, the delay is exactly that
/// long, whatever the attempt and the jitter.
pub proof fn lemma_retry_after_is_exact(
    config: RetryConfig,
    retries: u32,
    seconds: u64,
    sample: u32,
)
    ensures
        delay_after(
            config,
            retries,
            ErrorView::RateLimit { retry_after: Some(seconds) },
            sample,
        ) == seconds * 1_000_000_000,
{
}

/// Whether another attempt follows the error: it is retryable and fewer than
/// `max_retries` retries were made.
pub open spec fn should_retry(config: RetryConfig, retries: u32, e: ErrorView) -> bool {
    retries < config.max_retries && is_retryable(e)
}

/// Decides what follows a failed attempt, after `retries` retries so far.
pub fn retry_decision(config: &RetryConfig, retries: u32, error: &Error, sample: u32) -> (r:
    RetryDecision)
    ensures
        match r {
            RetryDecision::Retry { delay } => should_retry(*config, retries, error@)
                && duration_nanos(delay) == delay_after(*config, retries, error@, sample),
            RetryDecision::Stop => !should_retry(*config, retries, error@),
        },
{
    if retries >= config.max_retries || !is_retryable_error(error) {
        return RetryDecision::Stop;
    }
    let delay = match get_retry_after(error) {
        Some(d) => d,
        None => config.calculate_backoff(retries, sample),
    };
    RetryDecision::Retry { delay }
}

/// Retry policy builder
#[derive(Debug, Clone)]
pub struct RetryPolicyBuilder {
    config: RetryConfig,
}

impl RetryPolicyBuilder {
    /// The configuration built so far.
    pub closed spec fn config(&self) -> RetryConfig {
        self.config
    }

    /// Create a new retry policy builder
    pub fn new() -> (r: Self)
        ensures
            r.config().max_retries == 3,
            duration_nanos(r.config().initial_backoff) == 100_000_000,
            duration_nanos(r.config().max_backoff) == 10_000_000_000,
            r.config().backoff_multiplier.per_mille == 2000,
    {
        RetryPolicyBuilder { config: RetryConfig::default() }
    }

    /// Set maximum number of retries
    pub fn max_retries(self, retries: u32) -> (r: Self)
        ensures
            r.config() == (RetryConfig { max_retries: retries, ..self.config() }),
    {
        let mut r = self;
        r.config.max_retries = retries;
        r
    }

    /// Set initial retry interval
    pub fn initial_interval(self, interval: Duration) -> (r: Self)
        ensures
            r.config() == (RetryConfig { initial_backoff: interval, ..self.config() }),
    {
        let mut r = self;
        r.config.initial_backoff = interval;
        r
    }

    /// Set maximum retry interval
    pub fn max_interval(self, interval: Duration) -> (r: Self)
        ensures
            r.config() == (RetryConfig { max_backoff: interval, ..self.config() }),
    {
        let mut r = self;
        r.config.max_backoff = interval;
        r
    }

    /// Set backoff multiplier
    pub fn multiplier(self, multiplier: Multiplier) -> (r: Self)
        ensures
            r.config() == (RetryConfig { backoff_multiplier: multiplier, ..self.config() }),
    {
        let mut r = self;
        r.config.backoff_multiplier = multiplier;
        r
    }

    /// Build the retry configuration
    pub fn build(self) -> (r: RetryConfig)
        ensures
            r == self.config(),
    {
        self.config
    }
}

impl Default for RetryPolicyBuilder {
    fn default() -> (r: Self)
        ensures
            r.config().max_retries == 3,
            duration_nanos(r.config().initial_backoff) == 100_000_000,
            duration_nanos(r.config().max_backoff) == 10_000_000_000,
            r.config().backoff_multiplier.per_mille == 2000,
    {
        RetryPolicyBuilder::new()
    }
}

} // verus!
