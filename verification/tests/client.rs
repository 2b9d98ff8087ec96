use std::time::Duration;

use klozeo::client::{
    backoff_millis, parse_api_error, retry_after_secs, update_rate_limit, ApiErrorBody, RetryDecision, RetryState,
    DEFAULT_BASE_URL,
};
use klozeo::text::{decimal_string, parse_u64};
use klozeo::{ApiError, ClientConfig, Error, RateLimitState};

#[test]
fn default_config() {
    let c = ClientConfig::default();
    assert_eq!(c.base_url, "https://app.klozeo.com/api/v1");
    assert_eq!(c.base_url, DEFAULT_BASE_URL);
    assert_eq!(c.timeout, Duration::from_secs(30));
    assert_eq!(c.timeout.as_secs(), 30);
    assert_eq!(c.max_retries, 3);
}

#[test]
fn builder_overrides_and_defaults() {
    let c = ClientConfig::builder()
        .base_url("https://custom.api.com")
        .timeout(Duration::from_secs(60))
        .max_retries(5)
        .build();
    assert_eq!(c.base_url, "https://custom.api.com");
    assert_eq!(c.timeout, Duration::from_secs(60));
    assert_eq!(c.max_retries, 5);

    let c = ClientConfig::builder().max_retries(0).build();
    assert_eq!(c.base_url, DEFAULT_BASE_URL);
    assert_eq!(c.timeout, Duration::from_secs(30));
    assert_eq!(c.max_retries, 0);
}

#[test]
fn empty_builder_builds_default() {
    let a = ClientConfig::builder().build();
    let b = ClientConfig::default();
    assert_eq!(a.base_url, b.base_url);
    assert_eq!(a.timeout, b.timeout);
    assert_eq!(a.max_retries, b.max_retries);
}

fn body(message: Option<&str>, code: Option<&str>, error: Option<&str>) -> ApiErrorBody {
    ApiErrorBody {
        message: message.map(String::from),
        code: code.map(String::from),
        error: error.map(String::from),
    }
}

#[test]
fn error_statuses_map_to_variants() {
    assert!(matches!(parse_api_error(404, body(None, None, None)), Error::NotFound));
    assert!(matches!(parse_api_error(401, body(Some("x"), None, None)), Error::Unauthorized));
    assert!(matches!(parse_api_error(403, body(None, None, None)), Error::Forbidden));
    assert!(matches!(parse_api_error(429, body(None, None, None)), Error::RateLimited { retry_after: 0 }));
    match parse_api_error(400, body(Some("name is required"), None, None)) {
        Error::BadRequest(m) => assert_eq!(m, "name is required"),
        other => panic!("unexpected {other:?}"),
    }
}

#[test]
fn other_statuses_become_api_errors() {
    match parse_api_error(500, body(None, None, None)) {
        Error::Api(e) => assert_eq!(
            e,
            ApiError { status_code: 500, message: "HTTP 500".to_string(), code: "unknown".to_string() }
        ),
        other => panic!("unexpected {other:?}"),
    }
    match parse_api_error(409, body(None, Some("conflict"), Some("duplicate lead"))) {
        Error::Api(e) => {
            assert_eq!(e.status_code, 409);
            assert_eq!(e.message, "duplicate lead");
            assert_eq!(e.code, "conflict");
        },
        other => panic!("unexpected {other:?}"),
    }
    match parse_api_error(418, body(Some("teapot"), None, Some("ignored"))) {
        Error::Api(e) => assert_eq!(e.message, "teapot"),
        other => panic!("unexpected {other:?}"),
    }
    match parse_api_error(400, body(None, None, None)) {
        Error::BadRequest(m) => assert_eq!(m, "HTTP 400"),
        other => panic!("unexpected {other:?}"),
    }
}

#[test]
fn api_error_display_text() {
    let e = ApiError { status_code: 502, message: "bad gateway".into(), code: "upstream".into() };
    assert_eq!(e.to_string(), "HTTP 502 — bad gateway (upstream)");
}

#[test]
fn retry_after_header() {
    assert_eq!(retry_after_secs(Some("12")), 12);
    assert_eq!(retry_after_secs(Some("+7")), 7);
    assert_eq!(retry_after_secs(None), 1);
    assert_eq!(retry_after_secs(Some("soon")), 1);
    assert_eq!(retry_after_secs(Some("")), 1);
    assert_eq!(retry_after_secs(Some("-3")), 1);
    assert_eq!(retry_after_secs(Some("18446744073709551616")), 1);
}

#[test]
fn parse_u64_matches_std() {
    for s in ["0", "42", "+42", "007", "18446744073709551615", "18446744073709551616", "", "+", "-1", " 1", "1 ", "1a", "++1"] {
        assert_eq!(parse_u64(s), s.parse::<u64>().ok(), "input {s:?}");
    }
}

#[test]
fn decimal_matches_std() {
    for n in [0u64, 7, 10, 99, 100, 12345, u64::MAX] {
        assert_eq!(decimal_string(n), n.to_string());
        assert_eq!(parse_u64(&decimal_string(n)), Some(n));
    }
}

#[test]
fn rate_limit_updates_only_when_both_headers_read() {
    let mut state = None;
    update_rate_limit(&mut state, Some("100"), Some("99"));
    assert_eq!(state, Some(RateLimitState { limit: 100, remaining: 99 }));
    update_rate_limit(&mut state, Some("100"), None);
    assert_eq!(state, Some(RateLimitState { limit: 100, remaining: 99 }));
    update_rate_limit(&mut state, Some("x"), Some("5"));
    assert_eq!(state, Some(RateLimitState { limit: 100, remaining: 99 }));
    update_rate_limit(&mut state, Some("100"), Some("98"));
    assert_eq!(state, Some(RateLimitState { limit: 100, remaining: 98 }));
    let mut empty = None;
    update_rate_limit(&mut empty, None, None);
    assert_eq!(empty, None);
}

#[test]
fn backoff_doubles() {
    assert_eq!(backoff_millis(0), 200);
    assert_eq!(backoff_millis(1), 400);
    assert_eq!(backoff_millis(3), 1600);
    assert_eq!(backoff_millis(56), 200 * (1u64 << 56));
}

#[test]
fn success_is_returned_at_once() {
    let mut s = RetryState::new(3);
    assert_eq!(s.on_response(200, None), RetryDecision::Success);
    assert_eq!(s.on_response(204, Some("5")), RetryDecision::Success);
}

#[test]
fn rate_limited_retries_then_fails() {
    let mut s = RetryState::new(2);
    assert_eq!(s.on_response(429, Some("3")), RetryDecision::WaitSecs(3));
    assert_eq!(s.on_response(429, None), RetryDecision::WaitSecs(1));
    assert_eq!(s.on_response(429, Some("9")), RetryDecision::RateLimited(9));
}

#[test]
fn server_errors_back_off_exponentially() {
    let mut s = RetryState::new(3);
    assert_eq!(s.on_response(500, None), RetryDecision::WaitMillis(400));
    assert_eq!(s.on_response(503, None), RetryDecision::WaitMillis(800));
    assert_eq!(s.on_response(502, None), RetryDecision::WaitMillis(1600));
    assert_eq!(s.on_response(500, None), RetryDecision::Failed);
}

#[test]
fn client_errors_are_not_retried() {
    let mut s = RetryState::new(3);
    assert_eq!(s.on_response(404, None), RetryDecision::Failed);
    assert_eq!(s.on_response(400, None), RetryDecision::Failed);
    assert_eq!(s.on_response(500, None), RetryDecision::WaitMillis(400));
}

#[test]
fn zero_retries_never_resends() {
    let mut s = RetryState::new(0);
    assert_eq!(s.on_response(500, None), RetryDecision::Failed);
    assert_eq!(s.on_response(429, Some("4")), RetryDecision::RateLimited(4));
}

#[test]
fn sends_at_most_budget_plus_one() {
    for max in 0u32..6 {
        let mut s = RetryState::new(max);
        let mut sends = 0;
        loop {
            sends += 1;
            let status = if sends % 2 == 0 { 429 } else { 503 };
            match s.on_response(status, None) {
                RetryDecision::WaitSecs(_) | RetryDecision::WaitMillis(_) => continue,
                _ => break,
            }
        }
        assert_eq!(sends, max + 1);
    }
}

#[test]
fn backoff_overflow_is_detected() {
    let mut s = RetryState::new(60);
    for _ in 0..56 {
        assert!(!s.backoff_overflows(500));
        assert!(matches!(s.on_response(500, None), RetryDecision::WaitMillis(_)));
    }
    assert!(s.backoff_overflows(500));
    assert!(!s.backoff_overflows(429));
    assert!(!s.backoff_overflows(404));
}

#[test]
fn cloned_config_keeps_its_timeout() {
    let c = ClientConfig::builder().timeout(Duration::from_millis(1500)).build();
    let d = c.clone();
    assert_eq!(d.timeout, Duration::from_millis(1500));
    assert_eq!(d.base_url, c.base_url);
}

#[test]
fn transport_and_json_errors_convert() {
    let json_err = serde_json::from_str::<u32>("not json").unwrap_err();
    assert!(matches!(Error::from(json_err), Error::Serde(_)));
    let net_err = reqwest::Client::new().get("not a url").build().unwrap_err();
    assert!(matches!(Error::from(net_err), Error::Network(_)));
    let api = ApiError { status_code: 500, message: "m".into(), code: "c".into() };
    match Error::from(api.clone()) {
        Error::Api(e) => assert_eq!(e, api),
        other => panic!("unexpected {other:?}"),
    }
}
