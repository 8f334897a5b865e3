use grok_search::error::{GrokError, TransportKind};
use grok_search::retry::{backoff_delay_ms, is_retryable, map_err, next_step, RetryPolicy, RetryState, RetryStep};

fn policy(max_attempts: u32, multiplier_milli: u32, max_wait_secs: u64) -> RetryPolicy {
    RetryPolicy { max_attempts, multiplier_milli, max_wait_secs }
}

#[test]
fn backoff_first_retry_is_one_second() {
    let p = policy(3, 2000, 10);
    assert_eq!(backoff_delay_ms(&p, 0, 1000), 1000);
    assert_eq!(backoff_delay_ms(&p, 0, 900), 900);
    assert_eq!(backoff_delay_ms(&p, 0, 1100), 1100);
}

#[test]
fn backoff_grows_geometrically() {
    let p = policy(5, 2000, 100);
    assert_eq!(backoff_delay_ms(&p, 1, 1000), 2000);
    assert_eq!(backoff_delay_ms(&p, 2, 1000), 4000);
    assert_eq!(backoff_delay_ms(&p, 3, 1000), 8000);
    let q = policy(5, 1500, 100);
    assert_eq!(backoff_delay_ms(&q, 2, 1000), 2250);
}

#[test]
fn backoff_is_capped_at_max_wait() {
    let p = policy(10, 2000, 10);
    assert_eq!(backoff_delay_ms(&p, 9, 1000), 10_000);
    assert_eq!(backoff_delay_ms(&p, 9, 1100), 11_000);
}

#[test]
fn backoff_has_a_floor() {
    let p = policy(5, 100, 10);
    assert_eq!(backoff_delay_ms(&p, 1, 1000), 100);
    assert_eq!(backoff_delay_ms(&p, 2, 900), 100);
}

#[test]
fn backoff_stays_within_bounds_for_every_attempt() {
    for &(m, w) in &[(100u32, 1u64), (1000, 10), (2000, 10), (10_000, 300)] {
        let p = policy(10, m, w);
        for attempt in 0..10u32 {
            let mut base: u64 = 1000u64.min(w * 1000);
            for _ in 0..attempt {
                base = (base * m as u64 / 1000).min(w * 1000);
            }
            for j in [900u64, 950, 1000, 1050, 1100] {
                let d = backoff_delay_ms(&p, attempt, j);
                assert!(d >= 100 && d <= w * 1100);
                if base * 1100 / 1000 >= 100 {
                    assert!(d >= base * 900 / 1000 && d <= base * 1100 / 1000);
                }
            }
            let drawn = p.backoff(attempt);
            assert!(drawn >= 100 && drawn <= w * 1100);
        }
    }
}

#[test]
fn retryable_classification() {
    assert!(is_retryable(&GrokError::Timeout(30)));
    assert!(is_retryable(&GrokError::Http { kind: TransportKind::Connect, message: "refused".to_string() }));
    assert!(is_retryable(&GrokError::Http { kind: TransportKind::Timeout, message: "slow".to_string() }));
    assert!(!is_retryable(&GrokError::Http { kind: TransportKind::Other, message: "dns".to_string() }));
    for s in [429u16, 500, 502, 503, 504] {
        assert!(is_retryable(&GrokError::Api { status: s, message: String::new() }));
    }
    for s in [400u16, 401, 403, 404, 501, 505] {
        assert!(!is_retryable(&GrokError::Api { status: s, message: String::new() }));
    }
    assert!(!is_retryable(&GrokError::JsonParse("bad".to_string())));
}

#[test]
fn transport_timeouts_become_request_timeouts() {
    assert!(matches!(map_err(TransportKind::Timeout, "t".to_string()), GrokError::Timeout(120)));
    match map_err(TransportKind::Connect, "refused".to_string()) {
        GrokError::Http { kind, message } => {
            assert_eq!(kind, TransportKind::Connect);
            assert_eq!(message, "refused");
        }
        other => panic!("unexpected {:?}", other),
    }
}

#[test]
fn terminal_error_stops_after_one_attempt() {
    let p = policy(3, 1000, 10);
    let mut st = RetryState::new();
    let step = st.on_failure(&p, GrokError::Api { status: 400, message: "bad request".to_string() });
    match step {
        RetryStep::Fail(GrokError::Api { status, message }) => {
            assert_eq!(status, 400);
            assert_eq!(message, "bad request");
        }
        other => panic!("unexpected {:?}", other),
    }
    assert_eq!(st.attempt, 0);
}

#[test]
fn retryable_errors_exhaust_all_attempts() {
    let p = policy(3, 1000, 10);
    let mut st = RetryState::new();
    let mut attempts = 0u32;
    loop {
        attempts += 1;
        match st.on_failure(&p, GrokError::Timeout(120)) {
            RetryStep::Retry { delay_ms } => assert!(delay_ms >= 900 && delay_ms <= 1100),
            RetryStep::Fail(e) => {
                match e {
                    GrokError::MaxRetries { attempts: n, last_error } => {
                        assert_eq!(n, 4);
                        assert_eq!(last_error, "Timeout after 120 seconds");
                    }
                    other => panic!("unexpected {:?}", other),
                }
                break;
            }
        }
    }
    assert_eq!(attempts, 4);
}

#[test]
fn next_step_uses_given_jitter() {
    let p = policy(3, 2000, 10);
    match next_step(&p, 1, GrokError::Api { status: 503, message: String::new() }, 1100) {
        RetryStep::Retry { delay_ms } => assert_eq!(delay_ms, 2200),
        other => panic!("unexpected {:?}", other),
    }
    match next_step(&p, 3, GrokError::Api { status: 503, message: "busy".to_string() }, 1000) {
        RetryStep::Fail(GrokError::MaxRetries { attempts, last_error }) => {
            assert_eq!(attempts, 4);
            assert_eq!(last_error, "API error (503): busy");
        }
        other => panic!("unexpected {:?}", other),
    }
}

#[test]
fn error_messages() {
    assert_eq!(GrokError::Timeout(30).message(), "Timeout after 30 seconds");
    assert_eq!(GrokError::Api { status: 404, message: "nope".to_string() }.message(), "API error (404): nope");
    assert_eq!(
        GrokError::MaxRetries { attempts: 4, last_error: "x".to_string() }.message(),
        "Max retries exceeded (4 attempts): x"
    );
    assert_eq!(GrokError::ConfigInvalid("k".to_string()).message(), "Configuration invalid: k");
    assert_eq!(GrokError::ConfigMissing("k".to_string()).message(), "Configuration missing: k");
    assert_eq!(GrokError::InvalidParam("p".to_string()).message(), "Invalid parameter: p");
    assert_eq!(
        GrokError::Http { kind: TransportKind::Other, message: "dns".to_string() }.message(),
        "HTTP error: dns"
    );
    assert_eq!(GrokError::JsonParse("j".to_string()).message(), "JSON parse error: j");
    assert_eq!(GrokError::Io("i".to_string()).message(), "I/O error: i");
    assert_eq!(
        GrokError::ConfigFile { path: "/tmp/c.json".to_string(), message: "denied".to_string() }.message(),
        "Config file error at /tmp/c.json: denied"
    );
}
