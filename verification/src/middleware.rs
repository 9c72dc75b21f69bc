//! Retry policy: which statuses are retried, how long to wait between
//! attempts, how a `Retry-After` header is read, and the decision taken after
//! each attempt of a request.
//!
//! Durations are counted in nanoseconds.

use vstd::prelude::*;

verus! {

/// Nanoseconds in one second.
pub const NANOS_PER_SEC: u64 = 1_000_000_000;

/// Upper bound of any retry delay: 30 seconds, in nanoseconds.
pub const MAX_RETRY_DELAY_NANOS: u64 = 30_000_000_000;

/// `2^n`.
pub open spec fn pow2(n: nat) -> nat
    decreases n,
{
    if n == 0 {
        1
    } else {
        2 * pow2((n - 1) as nat)
    }
}

pub open spec fn max_nat(a: nat, b: nat) -> nat {
    if a >= b {
        a
    } else {
        b
    }
}

pub open spec fn min_nat(a: nat, b: nat) -> nat {
    if a <= b {
        a
    } else {
        b
    }
}

/// The delay before the retry that follows attempt `attempt`: exponential
/// backoff `base * 2^attempt`, at least the server's `Retry-After` seconds
/// when it sent one, and never more than 30 seconds.
pub open spec fn delay_spec(attempt: nat, base_nanos: nat, retry_after: Option<u64>) -> nat {
    let exponential = base_nanos * pow2(attempt);
    let wanted = match retry_after {
        Some(secs) => max_nat(exponential, secs as nat * NANOS_PER_SEC as nat),
        None => exponential,
    };
    min_nat(wanted, MAX_RETRY_DELAY_NANOS as nat)
}

/// The statuses that are transient: 429, 500, 502 and 503.
pub open spec fn is_retryable_status(status: u16) -> bool {
    status == 429 || status == 500 || status == 502 || status == 503
}

proof fn lemma_pow2_monotone(a: nat, b: nat)
    requires
        a <= b,
    ensures
        pow2(a) <= pow2(b),
    decreases b,
{
    if a < b {
        lemma_pow2_monotone(a, (b - 1) as nat);
    }
}

proof fn lemma_pow2_positive(a: nat)
    ensures
        pow2(a) >= 1,
    decreases a,
{
    if a > 0 {
        lemma_pow2_positive((a - 1) as nat);
    }
}

/// Returns `true` if the given HTTP status code is transient and the request
/// should be retried: 429 Too Many Requests, 500 Internal Server Error,
/// 502 Bad Gateway and 503 Service Unavailable.
pub fn should_retry(status: u16) -> (r: bool)
    ensures
        r == is_retryable_status(status),
{
    status == 429 || status == 500 || status == 502 || status == 503
}

/// `base_nanos * 2^attempt`, or the 30 second cap when that is larger.
fn capped_exponential(attempt: u32, base_nanos: u128) -> (e: u128)
    ensures
        e as nat == min_nat(base_nanos as nat * pow2(attempt as nat), MAX_RETRY_DELAY_NANOS as nat),
{
    let cap: u128 = MAX_RETRY_DELAY_NANOS as u128;
    if base_nanos == 0 {
        assert(base_nanos as nat * pow2(attempt as nat) == 0);
        return 0;
    }
    if base_nanos > cap {
        proof {
            lemma_pow2_positive(attempt as nat);
            assert(base_nanos as nat * pow2(attempt as nat) >= base_nanos as nat) by (nonlinear_arith)
                requires
                    pow2(attempt as nat) >= 1,
            ;
        }
        return cap;
    }
    let mut e: u128 = base_nanos;
    let mut i: u32 = 0;
    assert(pow2(0) == 1);
    assert(base_nanos as nat * pow2(0) == base_nanos as nat);
    while i < attempt
        invariant
            i <= attempt,
            e as nat == base_nanos as nat * pow2(i as nat),
            e <= cap,
            cap == MAX_RETRY_DELAY_NANOS as u128,
        decreases attempt - i,
    {
        let ghost prev = i as nat;
        assert(base_nanos as nat * pow2(prev + 1) == 2 * (base_nanos as nat * pow2(prev))) by (nonlinear_arith)
            requires
                pow2(prev + 1) == 2 * pow2(prev),
        ;
        e = e * 2;
        i = i + 1;
        if e > cap {
            proof {
                lemma_pow2_monotone(i as nat, attempt as nat);
                assert(base_nanos as nat * pow2(i as nat) <= base_nanos as nat * pow2(attempt as nat)) by (nonlinear_arith)
                    requires
                        pow2(i as nat) <= pow2(attempt as nat),
                ;
            }
            return cap;
        }
    }
    e
}

/// Computes the delay, in nanoseconds, before the retry that follows attempt
/// `attempt` (counted from 0).
///
/// Uses exponential backoff: `base_backoff * 2^attempt`, capped at 30 seconds.
/// If `retry_after` is provided (from a `Retry-After` header, in seconds), the
/// delay is the maximum of the computed backoff and the server-requested wait
/// time, still capped at 30 seconds.
pub fn compute_delay(attempt: u32, base_backoff_nanos: u128, retry_after: Option<u64>) -> (d: u64)
    ensures
        d as nat == delay_spec(attempt as nat, base_backoff_nanos as nat, retry_after),
        d <= MAX_RETRY_DELAY_NANOS,
{
    let cap = MAX_RETRY_DELAY_NANOS as u128;
    let exponential = capped_exponential(attempt, base_backoff_nanos);
    let wanted: u128 = match retry_after {
        Some(secs) => {
            let requested = secs as u128 * NANOS_PER_SEC as u128;
            if exponential >= requested {
                exponential
            } else {
                requested
            }
        },
        None => exponential,
    };
    if wanted > cap {
        MAX_RETRY_DELAY_NANOS
    } else {
        wanted as u64
    }
}

/// Whether every character of `s` is an ASCII decimal digit, and there is at
/// least one.
pub open spec fn is_digit_run(s: Seq<char>) -> bool {
    s.len() > 0 && forall|i: int| 0 <= i < s.len() ==> '0' <= #[trigger] s[i] && s[i] <= '9'
}

/// The number that a run of decimal digits denotes.
pub open spec fn digits_value(s: Seq<char>) -> nat
    decreases s.len(),
{
    if s.len() == 0 {
        0
    } else {
        digits_value(s.drop_last()) * 10 + (s.last() as nat - 48) as nat
    }
}

/// What follows an optional leading `+`.
pub open spec fn unsigned_digits(s: Seq<char>) -> Seq<char> {
    if s.len() > 0 && s[0] == '+' {
        s.drop_first()
    } else {
        s
    }
}

/// `s.parse::<u64>().ok()`: an optional `+`, then one or more decimal digits
/// whose value fits in a `u64`.
pub open spec fn parse_u64_spec(s: Seq<char>) -> Option<u64> {
    let digits = unsigned_digits(s);
    if is_digit_run(digits) && digits_value(digits) <= u64::MAX {
        Some(digits_value(digits) as u64)
    } else {
        None
    }
}

proof fn lemma_digits_value_step(s: Seq<char>, i: int)
    requires
        0 <= i < s.len(),
    ensures
        digits_value(s.subrange(0, i + 1)) == digits_value(s.subrange(0, i)) * 10 + (s[i] as nat
            - 48) as nat,
{
    let t = s.subrange(0, i + 1);
    assert(t.drop_last() =~= s.subrange(0, i));
}

/// Parses a decimal number of seconds, as `value.parse::<u64>().ok()` does.
pub fn parse_seconds(value: &str) -> (r: Option<u64>)
    ensures
        r == parse_u64_spec(value@),
{
    let n = value.unicode_len();
    let mut start: usize = 0;
    if n > 0 && value.get_char(0) == '+' {
        start = 1;
    }
    let ghost digits = unsigned_digits(value@);
    assert(digits =~= value@.subrange(start as int, n as int));
    if start == n {
        assert(!is_digit_run(digits));
        return None;
    }
    let mut acc: u64 = 0;
    let mut i: usize = start;
    while i < n
        invariant
            start <= i <= n,
            n == value@.len(),
            start < n,
            digits =~= value@.subrange(start as int, n as int),
            digits == unsigned_digits(value@),
            forall|k: int| start <= k < i ==> '0' <= #[trigger] value@[k] && value@[k] <= '9',
            acc as nat == digits_value(value@.subrange(start as int, i as int)),
        decreases n - i,
    {
        let c = value.get_char(i);
        if c < '0' || c > '9' {
            proof {
                assert(digits[i - start] == c);
                assert(!is_digit_run(digits));
            }
            return None;
        }
        let d = (c as u32 - 48) as u64;
        proof {
            let sub = value@.subrange(start as int, n as int);
            lemma_digits_value_step(sub, i - start);
            assert(sub.subrange(0, i - start + 1) =~= value@.subrange(start as int, i + 1));
            assert(sub.subrange(0, i - start) =~= value@.subrange(start as int, i as int));
        }
        match acc.checked_mul(10) {
            None => {
                proof {
                    if is_digit_run(digits) {
                        lemma_digits_value_prefix_bound(digits, i - start + 1);
                        assert(digits.subrange(0, i - start + 1) =~= value@.subrange(
                            start as int,
                            i + 1,
                        ));
                    }
                }
                return None;
            },
            Some(m) => match m.checked_add(d) {
                None => {
                    proof {
                        if is_digit_run(digits) {
                            lemma_digits_value_prefix_bound(digits, i - start + 1);
                            assert(digits.subrange(0, i - start + 1) =~= value@.subrange(
                                start as int,
                                i + 1,
                            ));
                        }
                    }
                    return None;
                },
                Some(v) => {
                    acc = v;
                },
            },
        }
        i = i + 1;
    }
    assert(value@.subrange(start as int, n as int) =~= digits);
    Some(acc)
}

/// A digit run is worth at least as much as any of its prefixes.
proof fn lemma_digits_value_prefix_bound(s: Seq<char>, k: int)
    requires
        0 <= k <= s.len(),
        forall|i: int| 0 <= i < s.len() ==> '0' <= #[trigger] s[i] && s[i] <= '9',
    ensures
        digits_value(s.subrange(0, k)) <= digits_value(s),
    decreases s.len() - k,
{
    if k < s.len() {
        lemma_digits_value_prefix_bound(s, k + 1);
        lemma_digits_value_step(s, k);
    } else {
        assert(s.subrange(0, k) =~= s);
    }
}

/// The decimal rendering of a number is a run of digits worth that number.
proof fn lemma_decimal_text_digits(n: nat)
    ensures
        is_digit_run(crate::text::decimal_text(n)),
        digits_value(crate::text::decimal_text(n)) == n,
    decreases n,
{
    let t = crate::text::decimal_text(n);
    let d = crate::text::digit_char(n % 10);
    assert((d as nat) == n % 10 + 48);
    if n < 10 {
        assert(t.drop_last() =~= Seq::<char>::empty());
        assert(t.last() == d);
        assert(digits_value(t.drop_last()) == 0);
        assert(digits_value(t) == n);
    } else {
        lemma_decimal_text_digits(n / 10);
        let u = crate::text::decimal_text(n / 10);
        assert(t.drop_last() =~= u);
        assert(t.last() == d);
        assert(forall|i: int| 0 <= i < u.len() ==> t[i] == u[i]);
        assert(digits_value(t) == digits_value(u) * 10 + n % 10);
        assert(digits_value(t) == n);
    }
}

/// Law: a `Retry-After` value written as a decimal number of seconds (as
/// `u64` renders it) reads back as that number; an empty value or one
/// with a character other than a digit (after an optional `+`) is refused.
pub proof fn lemma_retry_after_reads_decimal(secs: u64, s: Seq<char>)
    ensures
        parse_u64_spec(crate::text::decimal_text(secs as nat)) == Some(secs),
        s.len() == 0 ==> parse_u64_spec(s) is None,
        (exists|i: int| 0 < i < s.len() && !('0' <= #[trigger] s[i] && s[i] <= '9'))
            ==> parse_u64_spec(s) is None,
{
    lemma_decimal_text_digits(secs as nat);
    let t = crate::text::decimal_text(secs as nat);
    assert(t[0] != '+');
    assert(unsigned_digits(t) == t);
    if exists|i: int| 0 < i < s.len() && !('0' <= #[trigger] s[i] && s[i] <= '9') {
        let i = choose|i: int| 0 < i < s.len() && !('0' <= #[trigger] s[i] && s[i] <= '9');
        let d = unsigned_digits(s);
        if s.len() > 0 && s[0] == '+' {
            assert(d[i - 1] == s[i]);
        } else {
            assert(d[i] == s[i]);
        }
    }
}

/// Reads a `Retry-After` header as an integer number of seconds: `None` when
/// the header is absent (or not valid text) or is not such a number.
pub fn parse_retry_after(header: Option<&str>) -> (r: Option<u64>)
    ensures
        r == match header {
            Some(v) => parse_u64_spec(v@),
            None => None,
        },
{
    match header {
        Some(v) => parse_seconds(v),
        None => None,
    }
}

} // verus!

verus! {

/// How many times a request is retried and the base of the exponential
/// backoff between attempts.
#[derive(Clone, Copy, Debug, PartialEq, Eq)]
pub struct RetryPolicy {
    /// Number of retries after the first attempt.
    pub max_retries: u32,
    /// Base backoff delay, in nanoseconds.
    pub retry_backoff_nanos: u128,
}

/// What came back from one attempt at sending a request.
#[derive(Clone, Copy, Debug, PartialEq, Eq)]
pub enum SendOutcome {
    /// A response arrived, with this status and this `Retry-After` value
    /// (already read as seconds, when present and well formed).
    Response { status: u16, retry_after: Option<u64> },
    /// The attempt timed out.
    TimedOut,
    /// The attempt failed at the transport layer for another reason.
    Failed,
}

/// What to do after an attempt.
#[derive(Clone, Copy, Debug, PartialEq, Eq)]
pub enum RetryAction {
    /// Hand the response to the caller (it is checked for errors afterwards).
    Deliver,
    /// Wait this many nanoseconds, then send the request again.
    Retry { delay_nanos: u64 },
    /// Give up with a timeout error.
    FailTimeout,
    /// Give up with the transport error of the attempt.
    FailTransport,
}

/// The decision after attempt `attempt` (counted from 0).
pub open spec fn next_action_spec(policy: RetryPolicy, attempt: nat, outcome: SendOutcome) -> RetryAction {
    match outcome {
        SendOutcome::Response { status, retry_after } => {
            if is_retryable_status(status) && attempt < policy.max_retries {
                RetryAction::Retry {
                    delay_nanos: delay_spec(
                        attempt,
                        policy.retry_backoff_nanos as nat,
                        retry_after,
                    ) as u64,
                }
            } else {
                RetryAction::Deliver
            }
        },
        SendOutcome::TimedOut => {
            if attempt < policy.max_retries {
                RetryAction::Retry {
                    delay_nanos: delay_spec(attempt, policy.retry_backoff_nanos as nat, None) as u64,
                }
            } else {
                RetryAction::FailTimeout
            }
        },
        SendOutcome::Failed => RetryAction::FailTransport,
    }
}

/// Decides what follows attempt `attempt` of a request: a retryable status
/// (429, 500, 502, 503) or a timeout is retried after the backoff delay
/// while retries remain; any other response is delivered; a timeout on the
/// last attempt fails with a timeout; any other transport failure fails at
/// once.
pub fn next_action(policy: &RetryPolicy, attempt: u32, outcome: &SendOutcome) -> (a: RetryAction)
    ensures
        a == next_action_spec(*policy, attempt as nat, *outcome),
{
    match outcome {
        SendOutcome::Response { status, retry_after } => {
            if should_retry(*status) && attempt < policy.max_retries {
                let d = compute_delay(attempt, policy.retry_backoff_nanos, *retry_after);
                RetryAction::Retry { delay_nanos: d }
            } else {
                RetryAction::Deliver
            }
        },
        SendOutcome::TimedOut => {
            if attempt < policy.max_retries {
                let d = compute_delay(attempt, policy.retry_backoff_nanos, None);
                RetryAction::Retry { delay_nanos: d }
            } else {
                RetryAction::FailTimeout
            }
        },
        SendOutcome::Failed => RetryAction::FailTransport,
    }
}

/// The attempt at which a request ends, when attempt `start` and the ones
/// after it have the given outcomes: the first attempt whose decision is not
/// a retry (or the end of the outcomes).
pub open spec fn final_attempt(policy: RetryPolicy, outcomes: Seq<SendOutcome>, start: nat) -> nat
    decreases outcomes.len() - start,
{
    if start >= outcomes.len() {
        start
    } else if next_action_spec(policy, start, outcomes[start as int]) is Retry {
        final_attempt(policy, outcomes, start + 1)
    } else {
        start
    }
}

/// Law: no attempt at or beyond the last permitted one is retried.
pub proof fn lemma_no_retry_after_last_attempt(
    policy: RetryPolicy,
    attempt: nat,
    outcome: SendOutcome,
)
    requires
        attempt >= policy.max_retries,
    ensures
        !(next_action_spec(policy, attempt, outcome) is Retry),
{
}

/// Law: a request is sent at most `max_retries + 1` times, whatever the
/// outcomes of its attempts, and the last attempt ends it with a decision
/// other than a retry.
pub proof fn lemma_attempts_bounded(policy: RetryPolicy, outcomes: Seq<SendOutcome>)
    requires
        outcomes.len() > policy.max_retries,
    ensures
        final_attempt(policy, outcomes, 0) <= policy.max_retries,
        !(next_action_spec(policy, final_attempt(policy, outcomes, 0), outcomes[final_attempt(policy, outcomes, 0) as int]) is Retry),
{
    lemma_final_attempt_from(policy, outcomes, 0);
}

proof fn lemma_final_attempt_from(policy: RetryPolicy, outcomes: Seq<SendOutcome>, start: nat)
    requires
        outcomes.len() > policy.max_retries,
        start <= policy.max_retries,
    ensures
        start <= final_attempt(policy, outcomes, start) <= policy.max_retries,
        !(next_action_spec(policy, final_attempt(policy, outcomes, start), outcomes[final_attempt(policy, outcomes, start) as int]) is Retry),
    decreases outcomes.len() - start,
{
    if next_action_spec(policy, start, outcomes[start as int]) is Retry {
        lemma_final_attempt_from(policy, outcomes, start + 1);
    }
}

/// An outcome that is retried while retries remain: a retryable status or a
/// timeout.
pub open spec fn is_transient(outcome: SendOutcome) -> bool {
    match outcome {
        SendOutcome::Response { status, .. } => is_retryable_status(status),
        SendOutcome::TimedOut => true,
        SendOutcome::Failed => false,
    }
}

/// Law: when every attempt meets a transient failure, all retries are used:
/// the request ends at attempt `max_retries` (the `max_retries + 1`-th send),
/// delivering the last response or failing with a timeout.
pub proof fn lemma_transient_failures_use_all_retries(policy: RetryPolicy, outcomes: Seq<SendOutcome>)
    requires
        outcomes.len() > policy.max_retries,
        forall|i: int| 0 <= i < outcomes.len() ==> is_transient(#[trigger] outcomes[i]),
    ensures
        final_attempt(policy, outcomes, 0) == policy.max_retries,
        outcomes[policy.max_retries as int] is Response ==> next_action_spec(
            policy,
            policy.max_retries as nat,
            outcomes[policy.max_retries as int],
        ) == RetryAction::Deliver,
        outcomes[policy.max_retries as int] is TimedOut ==> next_action_spec(
            policy,
            policy.max_retries as nat,
            outcomes[policy.max_retries as int],
        ) == RetryAction::FailTimeout,
{
    lemma_transient_from(policy, outcomes, 0);
}

proof fn lemma_transient_from(policy: RetryPolicy, outcomes: Seq<SendOutcome>, start: nat)
    requires
        outcomes.len() > policy.max_retries,
        start <= policy.max_retries,
        forall|i: int| 0 <= i < outcomes.len() ==> is_transient(#[trigger] outcomes[i]),
    ensures
        final_attempt(policy, outcomes, start) == policy.max_retries,
    decreases policy.max_retries - start,
{
    assert(is_transient(outcomes[start as int]));
    if start < policy.max_retries {
        assert(next_action_spec(policy, start, outcomes[start as int]) is Retry);
        lemma_transient_from(policy, outcomes, start + 1);
    } else {
        assert(!(next_action_spec(policy, start, outcomes[start as int]) is Retry));
    }
}

/// Law: a response with status 429, 500, 502 or 503 that leaves retries is
/// retried after exactly `min(max(base * 2^attempt, Retry-After), 30 s)`:
/// the wait is never shorter than what the server asked for (up to the cap)
/// nor than the exponential backoff (up to the cap), and never longer than
/// 30 seconds.
pub proof fn lemma_retried_response_delay(
    policy: RetryPolicy,
    attempt: nat,
    status: u16,
    retry_after: Option<u64>,
)
    requires
        status == 429 || status == 500 || status == 502 || status == 503,
        attempt < policy.max_retries,
    ensures
        next_action_spec(policy, attempt, SendOutcome::Response { status, retry_after }) matches RetryAction::Retry { delay_nanos } && {
            let backoff: int = (policy.retry_backoff_nanos as nat * pow2(attempt)) as int;
            let cap: int = 30_000_000_000;
            &&& delay_nanos <= cap
            &&& (backoff <= cap ==> delay_nanos >= backoff)
            &&& (backoff > cap ==> delay_nanos == cap)
            &&& (retry_after matches Some(s) ==> delay_nanos >= if s * 1_000_000_000 <= cap {
                s * 1_000_000_000
            } else {
                cap
            })
            &&& (delay_nanos == cap || delay_nanos == backoff || (retry_after matches Some(s)
                && delay_nanos == s * 1_000_000_000))
        },
{
}

/// Law: a timed-out attempt that leaves retries is retried after
/// `min(base * 2^attempt, 30 s)`.
pub proof fn lemma_retried_timeout_delay(policy: RetryPolicy, attempt: nat)
    requires
        attempt < policy.max_retries,
    ensures
        next_action_spec(policy, attempt, SendOutcome::TimedOut) matches RetryAction::Retry { delay_nanos } && {
            let backoff = policy.retry_backoff_nanos as nat * pow2(attempt);
            &&& (backoff <= 30_000_000_000 ==> delay_nanos == backoff)
            &&& (backoff > 30_000_000_000 ==> delay_nanos == 30_000_000_000)
        },
{
}

/// Law: a response with any status other than 429, 500, 502 and 503 is
/// handed to the caller at once; a transport failure other than a timeout
/// fails at once; a timeout on the last permitted attempt fails as a timeout.
pub proof fn lemma_final_outcomes(policy: RetryPolicy, attempt: nat, status: u16, retry_after: Option<u64>)
    ensures
        !(status == 429 || status == 500 || status == 502 || status == 503) ==> next_action_spec(
            policy,
            attempt,
            SendOutcome::Response { status, retry_after },
        ) == RetryAction::Deliver,
        next_action_spec(policy, attempt, SendOutcome::Failed) == RetryAction::FailTransport,
        attempt >= policy.max_retries ==> next_action_spec(policy, attempt, SendOutcome::TimedOut)
            == RetryAction::FailTimeout,
{
}

/// Law: every wait between attempts is at most 30 seconds.
pub proof fn lemma_retry_delay_capped(policy: RetryPolicy, attempt: nat, outcome: SendOutcome)
    ensures
        next_action_spec(policy, attempt, outcome) matches RetryAction::Retry { delay_nanos }
            ==> delay_nanos <= MAX_RETRY_DELAY_NANOS,
{
}

/// Law: the backoff delay never shrinks from one attempt to a later one.
pub proof fn lemma_delay_monotone(a1: nat, a2: nat, base_nanos: nat, retry_after: Option<u64>)
    requires
        a1 <= a2,
    ensures
        delay_spec(a1, base_nanos, retry_after) <= delay_spec(a2, base_nanos, retry_after),
{
    lemma_pow2_monotone(a1, a2);
    assert(base_nanos * pow2(a1) <= base_nanos * pow2(a2)) by (nonlinear_arith)
        requires
            pow2(a1) <= pow2(a2),
    ;
}

/// Law: the delay honours the server's `Retry-After` up to the 30 second cap.
pub proof fn lemma_delay_honours_retry_after(attempt: nat, base_nanos: nat, secs: u64)
    ensures
        delay_spec(attempt, base_nanos, Some(secs)) >= min_nat(
            secs as nat * NANOS_PER_SEC as nat,
            MAX_RETRY_DELAY_NANOS as nat,
        ),
{
}

} // verus!
