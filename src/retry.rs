//! Retry decisions: which failures are worth another attempt, how long to
//! wait before it, and when to give up.
use vstd::prelude::*;
use crate::error::{message_of, GrokError, TransportKind};
use rand::Rng;

verus! {

/// Overall time limit of one attempt, in seconds.
pub const REQUEST_TIMEOUT_SECS: u64 = 120;

/// The shortest wait between two attempts, in milliseconds.
pub const MIN_DELAY_MS: u64 = 100;

/// Retry tuning: how many retries after the first attempt, how fast the wait
/// grows (in thousandths: 1500 stands for a factor of 1.5) and its ceiling in
/// seconds.
#[derive(Clone, Copy, Debug, PartialEq, Eq, Structural)]
pub struct RetryPolicy {
    pub max_attempts: u32,
    pub multiplier_milli: u32,
    pub max_wait_secs: u64,
}

impl RetryPolicy {
    /// The tuning is usable: at least one retry, a positive factor, a ceiling
    /// of at least one second, and values that keep the arithmetic in range.
    pub open spec fn wf(self) -> bool {
        &&& 1 <= self.max_attempts < u32::MAX
        &&& 1 <= self.multiplier_milli
        &&& 1 <= self.max_wait_secs <= 4_000_000
    }

    pub open spec fn cap_ms(self) -> nat {
        self.max_wait_secs as nat * 1000
    }
}

fn min_u64(a: u64, b: u64) -> (r: u64)
    ensures
        r == spec_min(a as int, b as int),
{
    if a <= b { a } else { b }
}

pub open spec fn spec_min(a: int, b: int) -> int {
    if a <= b { a } else { b }
}

pub open spec fn spec_max(a: int, b: int) -> int {
    if a >= b { a } else { b }
}

/// The wait before jitter after the failed attempt `attempt` (0-based), in
/// milliseconds: one second grown by `multiplier_milli / 1000` per attempt
/// (truncated to whole milliseconds at each step) and capped at `cap_ms`.
pub open spec fn base_delay_ms(multiplier_milli: nat, attempt: nat, cap_ms: nat) -> nat
    decreases attempt,
{
    if attempt == 0 {
        spec_min(1000, cap_ms as int) as nat
    } else {
        spec_min(
            (base_delay_ms(multiplier_milli, (attempt - 1) as nat, cap_ms) * multiplier_milli
                / 1000) as int,
            cap_ms as int,
        ) as nat
    }
}

/// The wait with a jitter factor in thousandths applied, never below the
/// minimum delay.
pub open spec fn jittered_delay_ms(base: nat, jitter_milli: nat) -> nat {
    spec_max(MIN_DELAY_MS as int, (base * jitter_milli / 1000) as int) as nat
}

/// A jitter factor allowed by the backoff rule: between 0.9 and 1.1.
pub open spec fn jitter_in_range(j: u64) -> bool {
    900 <= j <= 1100
}

proof fn lemma_base_bounded(m: nat, a: nat, cap: nat)
    ensures
        base_delay_ms(m, a, cap) <= cap,
        base_delay_ms(m, a, cap) <= 1000 || m > 1000,
    decreases a,
{
    if a > 0 {
        lemma_base_bounded(m, (a - 1) as nat, cap);
        let b = base_delay_ms(m, (a - 1) as nat, cap);
        if m <= 1000 {
            assert(b * m <= b * 1000) by (nonlinear_arith)
                requires m <= 1000;
            assert(b * m / 1000 <= b) by (nonlinear_arith)
                requires b * m <= b * 1000;
        }
    }
}

/// The wait in milliseconds after the failed attempt `attempt`, for a given
/// jitter factor in thousandths.
pub fn backoff_delay_ms(policy: &RetryPolicy, attempt: u32, jitter_milli: u64) -> (r: u64)
    requires
        policy.wf(),
        jitter_in_range(jitter_milli),
    ensures
        r == jittered_delay_ms(
            base_delay_ms(policy.multiplier_milli as nat, attempt as nat, policy.cap_ms()),
            jitter_milli as nat,
        ),
{
    let cap: u64 = policy.max_wait_secs * 1000;
    let m: u64 = policy.multiplier_milli as u64;
    let mut cur: u64 = min_u64(1000, cap);
    let mut i: u32 = 0;
    while i < attempt
        invariant
            policy.wf(),
            i <= attempt,
            cap == policy.cap_ms(),
            m == policy.multiplier_milli,
            cur == base_delay_ms(m as nat, i as nat, cap as nat),
            cur <= cap,
        decreases attempt - i,
    {
        proof {
            lemma_base_bounded(m as nat, i as nat, cap as nat);
            assert(cur * m <= 4_000_000_000 * 4_294_967_295) by (nonlinear_arith)
                requires cur <= cap, cap <= 4_000_000_000, m <= 4_294_967_295;
        }
        cur = min_u64(cur * m / 1000, cap);
        i = i + 1;
    }
    proof {
        assert(cur * jitter_milli <= 4_000_000_000 * 1100) by (nonlinear_arith)
            requires cur <= cap, cap <= 4_000_000_000, jitter_milli <= 1100;
    }
    let scaled: u64 = cur * jitter_milli / 1000;
    if scaled < MIN_DELAY_MS { MIN_DELAY_MS } else { scaled }
}

/// Relies on `rand::thread_rng` and `Rng::gen_range` over `900..=1100`: a
/// uniformly drawn value in that non-empty inclusive range.
#[verifier::external_body]
fn draw_jitter_milli() -> (r: u64)
    ensures
        jitter_in_range(r),
{
    rand::thread_rng().gen_range(900..=1100)
}

impl RetryPolicy {
    /// The wait in milliseconds after the failed attempt `attempt`, with a
    /// freshly drawn jitter factor.
    pub fn backoff(&self, attempt: u32) -> (r: u64)
        requires
            self.wf(),
        ensures
            exists|j: u64|
                jitter_in_range(j) && r == jittered_delay_ms(
                    #[trigger] base_delay_ms(self.multiplier_milli as nat, attempt as nat, self.cap_ms()),
                    j as nat,
                ),
    {
        let j = draw_jitter_milli();
        backoff_delay_ms(self, attempt, j)
    }
}

/// The backoff bounds: the wait lies between the minimum delay and 1.1 times
/// the ceiling, and, whenever 1.1 times the unjittered wait is not below the
/// minimum delay, within 0.9 and 1.1 times the unjittered wait (in whole
/// milliseconds).
pub proof fn lemma_backoff_bounds(policy: RetryPolicy, attempt: u32, jitter_milli: u64)
    requires
        policy.wf(),
        jitter_in_range(jitter_milli),
    ensures
        ({
            let base = base_delay_ms(policy.multiplier_milli as nat, attempt as nat, policy.cap_ms());
            let d = jittered_delay_ms(base, jitter_milli as nat);
            &&& MIN_DELAY_MS <= d <= policy.cap_ms() * 1100 / 1000
            &&& (base * 1100 / 1000 >= MIN_DELAY_MS ==> base * 900 / 1000 <= d <= base * 1100
                / 1000)
        }),
{
    let base = base_delay_ms(policy.multiplier_milli as nat, attempt as nat, policy.cap_ms());
    let cap = policy.cap_ms();
    lemma_base_bounded(policy.multiplier_milli as nat, attempt as nat, cap);
    let j = jitter_milli as nat;
    assert(base * 900 / 1000 <= base * j / 1000 <= base * 1100 / 1000) by (nonlinear_arith)
        requires 900 <= j <= 1100;
    assert(base * 1100 / 1000 <= cap * 1100 / 1000) by (nonlinear_arith)
        requires base <= cap;
    assert(cap * 1100 / 1000 >= MIN_DELAY_MS) by (nonlinear_arith)
        requires cap >= 1000;
}

/// Whether a failure is worth another attempt: a time-out, a transport failure
/// that timed out or could not connect, or a response with a status that
/// signals a transient condition.
pub open spec fn retryable(e: GrokError) -> bool {
    match e {
        GrokError::Timeout(_) => true,
        GrokError::Http { kind, .. } => kind == TransportKind::Timeout || kind
            == TransportKind::Connect,
        GrokError::Api { status, .. } => status == 429 || status == 500 || status == 502
            || status == 503 || status == 504,
        _ => false,
    }
}

/// Whether a failure is worth another attempt.
pub fn is_retryable(e: &GrokError) -> (r: bool)
    ensures
        r == retryable(*e),
{
    match e {
        GrokError::Timeout(_) => true,
        GrokError::Http { kind, .. } => match kind {
            TransportKind::Timeout => true,
            TransportKind::Connect => true,
            TransportKind::Other => false,
        },
        GrokError::Api { status, .. } => *status == 429 || *status == 500 || *status == 502
            || *status == 503 || *status == 504,
        _ => false,
    }
}

/// The error for a transport failure of an attempt: a time-out becomes the
/// attempt's overall time limit, anything else keeps its kind and description.
pub fn map_err(kind: TransportKind, message: String) -> (r: GrokError)
    ensures
        kind == TransportKind::Timeout ==> r == GrokError::Timeout(REQUEST_TIMEOUT_SECS),
        kind != TransportKind::Timeout ==> r == (GrokError::Http { kind, message }),
{
    match kind {
        TransportKind::Timeout => GrokError::Timeout(REQUEST_TIMEOUT_SECS),
        _ => GrokError::Http { kind, message },
    }
}

/// What to do after a failed attempt.
#[derive(Debug)]
pub enum RetryStep {
    /// Wait this many milliseconds, then send the same request again.
    Retry { delay_ms: u64 },
    /// Give up with this error.
    Fail(GrokError),
}

/// Whether the failure `e` of attempt `attempt` ends the call.
pub open spec fn stops(policy: RetryPolicy, attempt: nat, e: GrokError) -> bool {
    !retryable(e) || attempt >= policy.max_attempts
}

/// The error the call ends with when the failure `e` of attempt `attempt`
/// ends it: the failure itself when it is terminal, else `MaxRetries` with the
/// number of attempts made and the last failure's message.
pub open spec fn final_error_ok(policy: RetryPolicy, e: GrokError, r: GrokError) -> bool {
    if !retryable(e) {
        r == e
    } else {
        match r {
            GrokError::MaxRetries { attempts, last_error } => attempts == policy.max_attempts
                + 1 && last_error@ == message_of(e),
            _ => false,
        }
    }
}

/// The decision after the failure `e` of attempt `attempt` (0-based), given the
/// jitter factor for the wait: retry after the backoff delay while the failure
/// is retryable and attempts remain, else fail.
pub open spec fn step_ok(
    policy: RetryPolicy,
    attempt: nat,
    e: GrokError,
    jitter_milli: nat,
    r: RetryStep,
) -> bool {
    if stops(policy, attempt, e) {
        match r {
            RetryStep::Fail(f) => final_error_ok(policy, e, f),
            _ => false,
        }
    } else {
        r == RetryStep::Retry {
            delay_ms: jittered_delay_ms(
                base_delay_ms(policy.multiplier_milli as nat, attempt, policy.cap_ms()),
                jitter_milli,
            ) as u64,
        }
    }
}

/// The decision after the failure `e` of attempt `attempt`, for a given jitter
/// factor.
pub fn next_step(policy: &RetryPolicy, attempt: u32, e: GrokError, jitter_milli: u64) -> (r:
    RetryStep)
    requires
        policy.wf(),
        attempt <= policy.max_attempts,
        jitter_in_range(jitter_milli),
    ensures
        step_ok(*policy, attempt as nat, e, jitter_milli as nat, r),
{
    if !is_retryable(&e) {
        return RetryStep::Fail(e);
    }
    if attempt >= policy.max_attempts {
        let last_error = e.message();
        return RetryStep::Fail(GrokError::MaxRetries { attempts: policy.max_attempts + 1, last_error });
    }
    RetryStep::Retry { delay_ms: backoff_delay_ms(policy, attempt, jitter_milli) }
}

/// The retry state of one call: the index of the attempt in flight.
#[derive(Debug)]
pub struct RetryState {
    pub attempt: u32,
}

impl RetryState {
    /// The state before the first attempt.
    pub fn new() -> (r: RetryState)
        ensures
            r.attempt == 0,
    {
        RetryState { attempt: 0 }
    }

    /// Records the failure of the attempt in flight and decides what follows;
    /// on a retry the next attempt is counted.
    pub fn on_failure(&mut self, policy: &RetryPolicy, e: GrokError) -> (r: RetryStep)
        requires
            policy.wf(),
            old(self).attempt <= policy.max_attempts,
        ensures
            exists|j: u64| jitter_in_range(j) && #[trigger] step_ok(*policy, old(self).attempt as nat, e, j as nat, r),
            r is Retry ==> final(self).attempt == old(self).attempt + 1,
            r is Retry ==> final(self).attempt <= policy.max_attempts,
            r is Fail ==> final(self).attempt == old(self).attempt,
    {
        let j = draw_jitter_milli();
        let r = next_step(policy, self.attempt, e, j);
        if let RetryStep::Retry { .. } = r {
            self.attempt = self.attempt + 1;
        }
        r
    }
}

/// How many attempts a call makes when its attempts fail with `errs` in
/// order, starting at attempt `attempt`.
pub open spec fn attempts_made(policy: RetryPolicy, attempt: nat, errs: Seq<GrokError>) -> nat
    decreases errs.len(),
{
    if errs.len() == 0 {
        0
    } else if stops(policy, attempt, errs[0]) {
        1
    } else {
        1 + attempts_made(policy, attempt + 1, errs.drop_first())
    }
}

/// The failure that ends a call whose attempts fail with `errs` in order,
/// starting at attempt `attempt` (the last one if none ends it).
pub open spec fn ending_failure(policy: RetryPolicy, attempt: nat, errs: Seq<GrokError>) -> GrokError
    recommends
        errs.len() > 0,
    decreases errs.len(),
{
    if errs.len() <= 1 || stops(policy, attempt, errs[0]) {
        errs[0]
    } else {
        ending_failure(policy, attempt + 1, errs.drop_first())
    }
}

/// A call whose first attempt fails with a terminal error makes exactly one
/// attempt and ends with that error.
pub proof fn lemma_terminal_failure_stops_at_once(policy: RetryPolicy, errs: Seq<GrokError>)
    requires
        policy.wf(),
        errs.len() > 0,
        !retryable(errs[0]),
    ensures
        attempts_made(policy, 0, errs) == 1,
        ending_failure(policy, 0, errs) == errs[0],
        forall|j: nat, r: RetryStep| #[trigger] step_ok(policy, 0, errs[0], j, r) ==> r == RetryStep::Fail(errs[0]),
{
}

proof fn lemma_retryable_run(policy: RetryPolicy, attempt: nat, errs: Seq<GrokError>)
    requires
        policy.wf(),
        attempt <= policy.max_attempts,
        errs.len() >= policy.max_attempts + 1 - attempt,
        forall|i: int| 0 <= i < errs.len() ==> retryable(#[trigger] errs[i]),
    ensures
        attempts_made(policy, attempt, errs) == policy.max_attempts + 1 - attempt,
        ending_failure(policy, attempt, errs) == errs[policy.max_attempts - attempt],
    decreases errs.len(),
{
    assert(retryable(errs[0]));
    if attempt < policy.max_attempts {
        let rest = errs.drop_first();
        assert forall|i: int| 0 <= i < rest.len() implies retryable(#[trigger] rest[i]) by {
            assert(rest[i] == errs[i + 1]);
        }
        lemma_retryable_run(policy, attempt + 1, rest);
        assert(rest[policy.max_attempts - (attempt + 1)] == errs[policy.max_attempts - attempt]);
    }
}

/// A call whose attempts all fail with retryable errors makes exactly
/// `max_attempts + 1` attempts, and the last of them ends it with
/// `MaxRetries` carrying that count and the last failure's message.
pub proof fn lemma_retryable_failures_exhaust(policy: RetryPolicy, errs: Seq<GrokError>)
    requires
        policy.wf(),
        errs.len() >= policy.max_attempts + 1,
        forall|i: int| 0 <= i < errs.len() ==> retryable(#[trigger] errs[i]),
    ensures
        attempts_made(policy, 0, errs) == policy.max_attempts + 1,
        ending_failure(policy, 0, errs) == errs[policy.max_attempts as int],
        forall|j: nat, r: RetryStep| #[trigger] step_ok(policy, policy.max_attempts as nat, errs[policy.max_attempts as int], j, r)
            ==> match r {
                RetryStep::Fail(GrokError::MaxRetries { attempts, last_error }) => attempts == policy.max_attempts + 1
                    && last_error@ == message_of(errs[policy.max_attempts as int]),
                _ => false,
            },
{
    lemma_retryable_run(policy, 0, errs);
    assert(retryable(errs[policy.max_attempts as int]));
}

} // verus!
