use conjure_runtime::qos::classify;
use conjure_runtime::qos::classify_response;
use conjure_runtime::qos::parse_delay_seconds;
use conjure_runtime::qos::seconds_to_millis;
use conjure_runtime::qos::Qos;
use hyper::header::HeaderMap;
use hyper::header::HeaderValue;
use hyper::StatusCode;

#[test]
fn retry_after_values() {
    assert_eq!(parse_delay_seconds(b"1"), Some(1));
    assert_eq!(parse_delay_seconds(b"0"), Some(0));
    assert_eq!(parse_delay_seconds(b"007"), Some(7));
    assert_eq!(parse_delay_seconds(b"120"), Some(120));
    assert_eq!(parse_delay_seconds(b"18446744073709551615"), Some(u64::MAX));
    assert_eq!(parse_delay_seconds(b"18446744073709551616"), None);
    assert_eq!(parse_delay_seconds(b"99999999999999999999999"), None);
    assert_eq!(parse_delay_seconds(b""), None);
    assert_eq!(parse_delay_seconds(b"1s"), None);
    assert_eq!(parse_delay_seconds(b" 1"), None);
    assert_eq!(parse_delay_seconds(b"-1"), None);
    assert_eq!(parse_delay_seconds(b"1.5"), None);
    assert_eq!(parse_delay_seconds(b"Wed, 21 Oct 2015 07:28:00 GMT"), None);
}

#[test]
fn seconds_become_milliseconds() {
    assert_eq!(seconds_to_millis(0), 0);
    assert_eq!(seconds_to_millis(1), 1000);
    assert_eq!(seconds_to_millis(18446744073709551), 18446744073709551000);
    assert_eq!(seconds_to_millis(18446744073709552), u64::MAX);
    assert_eq!(seconds_to_millis(u64::MAX), u64::MAX);
}

#[test]
fn statuses_and_their_signals() {
    for status in [200u16, 201, 204, 299] {
        assert_eq!(classify(status, None, None, true), Qos::Success);
    }
    assert_eq!(classify(429, Some(b"1".to_vec()), None, true), Qos::Throttle(Some(1000)));
    assert_eq!(classify(429, Some(b"soon".to_vec()), None, true), Qos::Throttle(None));
    assert_eq!(classify(429, None, None, false), Qos::Throttle(None));
    assert_eq!(classify(503, Some(b"1".to_vec()), None, true), Qos::Unavailable);
    assert_eq!(
        classify(308, None, Some(b"https://other/".to_vec()), true),
        Qos::Redirect(b"https://other/".to_vec())
    );
    assert_eq!(classify(308, None, Some(b"https://other/".to_vec()), false), Qos::ServiceError);
    assert_eq!(classify(308, None, None, true), Qos::ServiceError);
    assert_eq!(classify(300, None, Some(Vec::new()), true), Qos::Redirect(Vec::new()));
    assert_eq!(classify(399, None, Some(b"x".to_vec()), true), Qos::Redirect(b"x".to_vec()));
    for status in [100u16, 199, 400, 404, 428, 430, 500, 502, 504, 999] {
        assert_eq!(classify(status, Some(b"1".to_vec()), None, true), Qos::ServiceError);
    }
}

#[test]
fn a_response_head_is_classified_by_status_and_headers() {
    let mut headers = HeaderMap::new();
    assert_eq!(classify_response(StatusCode::OK, &headers, true), Qos::Success);
    assert_eq!(classify_response(StatusCode::TOO_MANY_REQUESTS, &headers, true), Qos::Throttle(None));
    headers.insert("Retry-After", HeaderValue::from_static("1"));
    headers.insert("Location", HeaderValue::from_static("https://b.example/"));
    assert_eq!(
        classify_response(StatusCode::TOO_MANY_REQUESTS, &headers, true),
        Qos::Throttle(Some(1000))
    );
    assert_eq!(classify_response(StatusCode::SERVICE_UNAVAILABLE, &headers, true), Qos::Unavailable);
    assert_eq!(
        classify_response(StatusCode::PERMANENT_REDIRECT, &headers, true),
        Qos::Redirect(b"https://b.example/".to_vec())
    );
    assert_eq!(
        classify_response(StatusCode::PERMANENT_REDIRECT, &headers, false),
        Qos::ServiceError
    );
    assert_eq!(classify_response(StatusCode::NOT_FOUND, &headers, true), Qos::ServiceError);
    assert_eq!(
        classify_response(StatusCode::INTERNAL_SERVER_ERROR, &headers, true),
        Qos::ServiceError
    );
}
