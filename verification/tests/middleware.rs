use std::time::Duration;

use elevenlabs_sdk::middleware::{
    compute_delay, next_action, parse_retry_after, parse_seconds,
    should_retry, RetryAction, RetryPolicy, SendOutcome, MAX_RETRY_DELAY_NANOS,
};

fn delay(attempt: u32, base: Duration, retry_after: Option<u64>) -> Duration {
    Duration::from_nanos(compute_delay(attempt, base.as_nanos(), retry_after))
}

#[test]
fn should_retry_returns_true_for_retryable_statuses() {
    assert!(should_retry(http::StatusCode::TOO_MANY_REQUESTS.as_u16()));
    assert!(should_retry(http::StatusCode::INTERNAL_SERVER_ERROR.as_u16()));
    assert!(should_retry(http::StatusCode::BAD_GATEWAY.as_u16()));
    assert!(should_retry(http::StatusCode::SERVICE_UNAVAILABLE.as_u16()));
}

#[test]
fn should_retry_returns_false_for_non_retryable() {
    assert!(!should_retry(http::StatusCode::OK.as_u16()));
    assert!(!should_retry(http::StatusCode::BAD_REQUEST.as_u16()));
    assert!(!should_retry(http::StatusCode::UNAUTHORIZED.as_u16()));
    assert!(!should_retry(http::StatusCode::NOT_FOUND.as_u16()));
    assert!(!should_retry(http::StatusCode::FORBIDDEN.as_u16()));
}

#[test]
fn compute_delay_exponential_backoff() {
    let base = Duration::from_secs(1);
    assert_eq!(delay(0, base, None), Duration::from_secs(1));
    assert_eq!(delay(1, base, None), Duration::from_secs(2));
    assert_eq!(delay(2, base, None), Duration::from_secs(4));
    assert_eq!(delay(3, base, None), Duration::from_secs(8));
}

#[test]
fn compute_delay_caps_at_30_seconds() {
    let base = Duration::from_secs(1);
    assert_eq!(delay(10, base, None), Duration::from_secs(30));
}

#[test]
fn compute_delay_respects_retry_after() {
    let base = Duration::from_millis(100);
    // retry_after is larger than exponential — use retry_after
    assert_eq!(delay(0, base, Some(5)), Duration::from_secs(5));
    // exponential is larger than retry_after — use exponential
    assert_eq!(delay(0, Duration::from_secs(10), Some(5)), Duration::from_secs(10));
}

#[test]
fn compute_delay_retry_after_capped_at_30s() {
    let base = Duration::from_millis(100);
    assert_eq!(delay(0, base, Some(60)), Duration::from_secs(30));
}

#[test]
fn compute_delay_caps_huge_backoffs() {
    assert_eq!(compute_delay(u32::MAX, u128::MAX, None), MAX_RETRY_DELAY_NANOS);
    // 1 ns * 2^40 is about 18 minutes: capped at 30 s.
    assert_eq!(compute_delay(40, 1, None), MAX_RETRY_DELAY_NANOS);
    assert_eq!(compute_delay(34, 1, None), 17_179_869_184);
    assert_eq!(compute_delay(35, 1, None), MAX_RETRY_DELAY_NANOS);
    assert_eq!(compute_delay(u32::MAX, 1, None), MAX_RETRY_DELAY_NANOS);
    assert_eq!(compute_delay(u32::MAX, 0, None), 0);
    assert_eq!(compute_delay(u32::MAX, 0, Some(7)), 7_000_000_000);
    assert_eq!(compute_delay(0, 0, Some(u64::MAX)), MAX_RETRY_DELAY_NANOS);
    assert_eq!(compute_delay(3, 250_000_000, None), 2_000_000_000);
}

#[test]
fn compute_delay_is_monotone_in_attempt() {
    let base = Duration::from_millis(300).as_nanos();
    let mut previous = 0;
    for attempt in 0..40 {
        let d = compute_delay(attempt, base, Some(1));
        assert!(d >= previous);
        assert!(d >= 1_000_000_000);
        assert!(d <= MAX_RETRY_DELAY_NANOS);
        previous = d;
    }
}

#[test]
fn parse_retry_after_reads_seconds() {
    assert_eq!(parse_retry_after(Some("30")), Some(30));
    assert_eq!(parse_retry_after(Some("0")), Some(0));
    assert_eq!(parse_retry_after(Some("+7")), Some(7));
    assert_eq!(parse_retry_after(Some("18446744073709551615")), Some(u64::MAX));
    assert_eq!(parse_retry_after(None), None);
}

#[test]
fn parse_retry_after_rejects_other_text() {
    assert_eq!(parse_retry_after(Some("")), None);
    assert_eq!(parse_retry_after(Some("+")), None);
    assert_eq!(parse_retry_after(Some("-1")), None);
    assert_eq!(parse_retry_after(Some(" 5")), None);
    assert_eq!(parse_retry_after(Some("1.5")), None);
    assert_eq!(parse_retry_after(Some("Wed, 21 Oct 2015 07:28:00 GMT")), None);
    assert_eq!(parse_retry_after(Some("18446744073709551616")), None);
    assert_eq!(parse_seconds("99999999999999999999"), None);
}

#[test]
fn parse_seconds_agrees_with_std() {
    for text in ["0", "12", "+3", "007", "-0", "", "x1", "1x", "18446744073709551615", "18446744073709551616"] {
        assert_eq!(parse_seconds(text), text.parse::<u64>().ok(), "{text}");
    }
}

fn policy(max_retries: u32) -> RetryPolicy {
    RetryPolicy { max_retries, retry_backoff_nanos: Duration::from_millis(1).as_nanos() }
}

#[test]
fn next_action_retries_transient_statuses() {
    let p = policy(3);
    let resp = SendOutcome::Response { status: 429, retry_after: Some(0) };
    assert_eq!(next_action(&p, 0, &resp), RetryAction::Retry { delay_nanos: 1_000_000 });
    let resp = SendOutcome::Response { status: 500, retry_after: None };
    assert_eq!(next_action(&p, 2, &resp), RetryAction::Retry { delay_nanos: 4_000_000 });
    assert_eq!(next_action(&p, 3, &resp), RetryAction::Deliver);
}

#[test]
fn next_action_delivers_other_statuses() {
    let p = policy(3);
    for status in [200u16, 201, 400, 401, 404, 501, 504] {
        let resp = SendOutcome::Response { status, retry_after: Some(9) };
        assert_eq!(next_action(&p, 0, &resp), RetryAction::Deliver);
    }
}

#[test]
fn next_action_handles_timeouts_and_failures() {
    let p = policy(2);
    assert_eq!(
        next_action(&p, 1, &SendOutcome::TimedOut),
        RetryAction::Retry { delay_nanos: 2_000_000 }
    );
    assert_eq!(next_action(&p, 2, &SendOutcome::TimedOut), RetryAction::FailTimeout);
    assert_eq!(next_action(&p, 0, &SendOutcome::Failed), RetryAction::FailTransport);
}

#[test]
fn retry_loop_sends_at_most_max_retries_plus_one() {
    // Every attempt gets a 503: the loop stops after max_retries + 1 sends.
    for max_retries in 0..6u32 {
        let p = policy(max_retries);
        let mut sends = 0u32;
        let mut attempt = 0u32;
        loop {
            sends += 1;
            let outcome = SendOutcome::Response { status: 503, retry_after: None };
            match next_action(&p, attempt, &outcome) {
                RetryAction::Retry { delay_nanos } => {
                    assert!(delay_nanos <= MAX_RETRY_DELAY_NANOS);
                    attempt += 1;
                }
                other => {
                    assert_eq!(other, RetryAction::Deliver);
                    break;
                }
            }
        }
        assert_eq!(sends, max_retries + 1);
    }
}

#[test]
fn timeouts_use_all_retries_then_fail() {
    for max_retries in 0..4u32 {
        let p = policy(max_retries);
        let mut attempt = 0u32;
        let last = loop {
            match next_action(&p, attempt, &SendOutcome::TimedOut) {
                RetryAction::Retry { .. } => attempt += 1,
                other => break other,
            }
        };
        assert_eq!(attempt, max_retries);
        assert_eq!(last, RetryAction::FailTimeout);
    }
}

#[test]
fn retry_then_success_is_delivered() {
    // 429, 429, then 200 with three retries allowed: two waits, then delivery.
    let p = policy(3);
    let outcomes = [
        SendOutcome::Response { status: 429, retry_after: Some(0) },
        SendOutcome::Response { status: 429, retry_after: Some(0) },
        SendOutcome::Response { status: 200, retry_after: None },
    ];
    let actions: Vec<RetryAction> =
        outcomes.iter().enumerate().map(|(i, o)| next_action(&p, i as u32, o)).collect();
    assert_eq!(
        actions,
        vec![
            RetryAction::Retry { delay_nanos: 1_000_000 },
            RetryAction::Retry { delay_nanos: 2_000_000 },
            RetryAction::Deliver,
        ]
    );
}
