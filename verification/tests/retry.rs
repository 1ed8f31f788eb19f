use conjure_runtime::qos::Qos;
use conjure_runtime::retry::Idempotency;
use conjure_runtime::retry::Method;
use conjure_runtime::retry::Outcome;
use conjure_runtime::retry::RetryDecision;
use conjure_runtime::retry::RetryPolicy;
use conjure_runtime::retry::ServerQos;
use conjure_runtime::retry::TransportError;

fn policy(max_retries: u32, base: u64, cap: u64) -> RetryPolicy {
    RetryPolicy {
        max_retries,
        backoff_base: base,
        backoff_cap: cap,
        idempotency: Idempotency::ByMethod,
        server_qos: ServerQos::AutomaticRetry,
    }
}

const METHODS: [Method; 10] = [
    Method::Get,
    Method::Head,
    Method::Put,
    Method::Delete,
    Method::Options,
    Method::Trace,
    Method::Post,
    Method::Patch,
    Method::Connect,
    Method::Other,
];

#[test]
fn backoff_doubles_from_the_base_up_to_the_cap() {
    let p = policy(10, 250, 10000);
    assert_eq!(p.backoff_delay(1, 0), 250);
    assert_eq!(p.backoff_delay(2, 0), 500);
    assert_eq!(p.backoff_delay(3, 0), 1000);
    assert_eq!(p.backoff_delay(6, 0), 8000);
    assert_eq!(p.backoff_delay(7, 0), 10000);
    assert_eq!(p.backoff_delay(8, 0), 10000);
    assert_eq!(p.backoff_delay(64, 0), 10000);
    assert_eq!(p.backoff_delay(65, 0), 10000);
    assert_eq!(p.backoff_delay(u64::MAX, 0), 10000);
}

#[test]
fn jitter_is_the_sample_taken_below_the_base() {
    let p = policy(10, 250, 10000);
    assert_eq!(p.backoff_delay(1, 100), 350);
    assert_eq!(p.backoff_delay(1, 249), 499);
    assert_eq!(p.backoff_delay(1, 250), 250);
    assert_eq!(p.backoff_delay(1, 251), 251);
    assert_eq!(p.backoff_delay(7, 100), 10100);
    assert_eq!(p.backoff_delay(3, 777), 1027);
}

#[test]
fn the_same_sample_gives_the_same_delay() {
    let p = policy(10, 250, 10000);
    for attempt in 1..20u64 {
        for sample in [0u64, 1, 17, 249, 250, 1000, u64::MAX] {
            assert_eq!(p.backoff_delay(attempt, sample), p.backoff_delay(attempt, sample));
        }
    }
}

#[test]
fn backoff_stays_between_the_capped_exponential_and_a_base_above_it() {
    let p = policy(10, 100, 1000);
    for attempt in 1..12u64 {
        let exponential = 100u64.saturating_mul(1u64 << (attempt - 1));
        let capped = std::cmp::min(exponential, 1000);
        assert_eq!(p.backoff_delay(attempt, 0), capped);
        for sample in [1u64, 50, 99, 100, 12345, u64::MAX] {
            let delay = p.backoff_delay(attempt, sample);
            assert!(capped <= delay && delay < capped + 100);
            assert_eq!(delay, capped + sample % 100);
        }
    }
}

#[test]
fn backoff_at_the_limits_of_the_machine() {
    assert_eq!(policy(1, 0, 1000).backoff_delay(5, 12345), 0);
    assert_eq!(policy(1, 0, 0).backoff_delay(1, u64::MAX), 0);
    assert_eq!(policy(1, 500, 100).backoff_delay(1, 0), 100);
    assert_eq!(policy(1, 500, 100).backoff_delay(1, 499), 599);
    assert_eq!(policy(1, 7, 0).backoff_delay(3, 6), 6);
    assert_eq!(policy(1, u64::MAX, u64::MAX).backoff_delay(1, u64::MAX - 1), u64::MAX);
    assert_eq!(policy(1, 1, u64::MAX).backoff_delay(64, 0), 1u64 << 63);
    assert_eq!(policy(1, 1, u64::MAX).backoff_delay(65, 0), u64::MAX);
    assert_eq!(policy(1, 3, u64::MAX).backoff_delay(63, 0), 3u64 << 62);
    assert_eq!(policy(1, 3, u64::MAX).backoff_delay(64, 0), u64::MAX);
}

#[test]
fn which_methods_are_idempotent() {
    for m in METHODS {
        let expected = !matches!(m, Method::Post | Method::Patch | Method::Connect | Method::Other);
        assert_eq!(m.is_idempotent(), expected);
        assert_eq!(Idempotency::ByMethod.applies_to(m), expected);
        assert!(Idempotency::Always.applies_to(m));
        assert!(!Idempotency::Never.applies_to(m));
    }
}

#[test]
fn which_transport_failures_are_ambiguous() {
    assert!(!TransportError::Connect.is_ambiguous());
    assert!(!TransportError::Tls.is_ambiguous());
    assert!(TransportError::Timeout.is_ambiguous());
    assert!(TransportError::Io.is_ambiguous());
}

#[test]
fn by_method_retries_idempotent_methods_on_connect_failure() {
    let p = policy(2, 250, 10000);
    let outcome = Outcome::Transport(TransportError::Connect);
    for m in [Method::Get, Method::Head, Method::Put, Method::Delete] {
        let idempotent = p.idempotency.applies_to(m);
        assert_eq!(p.should_retry(1, idempotent, &outcome, 0), RetryDecision::Retry(250));
        assert_eq!(p.should_retry(2, idempotent, &outcome, 10), RetryDecision::Retry(510));
        assert_eq!(p.should_retry(3, idempotent, &outcome, 0), RetryDecision::GiveUp);
    }
}

#[test]
fn by_method_does_not_retry_post_and_patch_on_ambiguous_failure() {
    let p = policy(2, 250, 10000);
    for m in [Method::Post, Method::Patch] {
        let idempotent = p.idempotency.applies_to(m);
        for e in [TransportError::Timeout, TransportError::Io] {
            assert_eq!(
                p.should_retry(1, idempotent, &Outcome::Transport(e), 0),
                RetryDecision::GiveUp
            );
        }
        for e in [TransportError::Connect, TransportError::Tls] {
            assert_eq!(
                p.should_retry(1, idempotent, &Outcome::Transport(e), 0),
                RetryDecision::Retry(250)
            );
        }
        assert_eq!(
            p.should_retry(1, idempotent, &Outcome::Response(Qos::Unavailable), 0),
            RetryDecision::Retry(250)
        );
        assert_eq!(
            p.should_retry(1, idempotent, &Outcome::Response(Qos::Throttle(None)), 0),
            RetryDecision::Retry(250)
        );
    }
}

#[test]
fn idempotent_requests_are_retried_on_every_transport_failure() {
    let p = policy(2, 250, 10000);
    for e in [
        TransportError::Connect,
        TransportError::Timeout,
        TransportError::Tls,
        TransportError::Io,
    ] {
        assert!(p.is_retryable(true, &Outcome::Transport(e)));
        assert_eq!(p.should_retry(2, true, &Outcome::Transport(e), 0), RetryDecision::Retry(500));
    }
}

#[test]
fn a_throttle_uses_the_delay_of_the_server_if_there_is_one() {
    let p = policy(4, 250, 10000);
    assert_eq!(
        p.should_retry(1, false, &Outcome::Response(Qos::Throttle(Some(1000))), 99),
        RetryDecision::Retry(1000)
    );
    assert_eq!(
        p.should_retry(3, false, &Outcome::Response(Qos::Throttle(Some(0))), 99),
        RetryDecision::Retry(0)
    );
    assert_eq!(
        p.should_retry(3, false, &Outcome::Response(Qos::Throttle(None)), 99),
        RetryDecision::Retry(1099)
    );
    assert_eq!(
        p.should_retry(5, false, &Outcome::Response(Qos::Throttle(Some(1000))), 0),
        RetryDecision::GiveUp
    );
}

#[test]
fn success_and_service_errors_are_final() {
    let p = policy(4, 250, 10000);
    for idempotent in [true, false] {
        assert!(!p.is_retryable(idempotent, &Outcome::Response(Qos::Success)));
        assert!(!p.is_retryable(idempotent, &Outcome::Response(Qos::ServiceError)));
        assert_eq!(
            p.should_retry(1, idempotent, &Outcome::Response(Qos::ServiceError), 0),
            RetryDecision::GiveUp
        );
        assert_eq!(
            p.should_retry(1, idempotent, &Outcome::Response(Qos::Success), 0),
            RetryDecision::GiveUp
        );
        assert_eq!(
            p.should_retry(1, idempotent, &Outcome::Response(Qos::Redirect(b"/x".to_vec())), 5),
            RetryDecision::Retry(255)
        );
    }
}

#[test]
fn propagated_qos_signals_are_not_retried() {
    let mut p = policy(4, 250, 10000);
    p.server_qos = ServerQos::Propagate429And503ToCaller;
    assert!(!p.is_retryable(true, &Outcome::Response(Qos::Throttle(Some(5)))));
    assert!(!p.is_retryable(true, &Outcome::Response(Qos::Unavailable)));
    assert!(p.is_retryable(true, &Outcome::Response(Qos::Redirect(Vec::new()))));
    assert!(p.is_retryable(true, &Outcome::Transport(TransportError::Io)));
    assert_eq!(
        p.should_retry(1, true, &Outcome::Response(Qos::Unavailable), 0),
        RetryDecision::GiveUp
    );
}

#[test]
fn no_retries_means_one_attempt() {
    let p = policy(0, 250, 10000);
    assert_eq!(
        p.should_retry(1, true, &Outcome::Transport(TransportError::Connect), 0),
        RetryDecision::GiveUp
    );
}
