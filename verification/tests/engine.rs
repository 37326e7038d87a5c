//! The request engine: plan building, response interpretation, and the
//! retry policy.

use beeper_desktop_api::config::Config;
use beeper_desktop_api::engine::{
    build_request, interpret_response, is_success_status, strip_leading_slashes, HttpMethod,
    RetryState,
};
use beeper_desktop_api::error::{Error, ErrorEnvelope};

fn test_config() -> Config {
    Config {
        access_token: "test-token".to_string(),
        base_url: "http://localhost:23373".to_string(),
        timeout_ms: 5000,
        max_retries: 0,
        user_agent: "rust-sdk-test/1.0".to_string(),
    }
}

#[test]
fn build_request_resolves_path_against_base() {
    let plan = build_request(&test_config(), HttpMethod::Get, "/v0/get-accounts", &vec![], None)
        .unwrap();
    assert_eq!(plan.url, "http://localhost:23373/v0/get-accounts");
    assert!(matches!(plan.method, HttpMethod::Get));
    assert_eq!(plan.body, None);
}

#[test]
fn build_request_attaches_headers_in_order() {
    let plan = build_request(&test_config(), HttpMethod::Get, "/v0/get-accounts", &vec![], None)
        .unwrap();
    assert_eq!(
        plan.headers,
        vec![
            ("Authorization".to_string(), "Bearer test-token".to_string()),
            ("User-Agent".to_string(), "rust-sdk-test/1.0".to_string()),
            ("Accept".to_string(), "application/json".to_string()),
        ]
    );
}

#[test]
fn build_request_adds_content_type_only_with_body() {
    let plan = build_request(
        &test_config(),
        HttpMethod::Post,
        "/v0/send-message",
        &vec![],
        Some("{\"chatID\":\"c\"}".to_string()),
    )
    .unwrap();
    assert_eq!(plan.headers.len(), 4);
    assert_eq!(
        plan.headers[3],
        ("Content-Type".to_string(), "application/json".to_string())
    );
    assert_eq!(plan.body, Some("{\"chatID\":\"c\"}".to_string()));
}

#[test]
fn build_request_appends_encoded_query() {
    let query = vec![
        ("query".to_string(), "hello world".to_string()),
        ("limit".to_string(), "10".to_string()),
    ];
    let plan =
        build_request(&test_config(), HttpMethod::Get, "/v0/search-messages", &query, None)
            .unwrap();
    assert_eq!(
        plan.url,
        "http://localhost:23373/v0/search-messages?query=hello+world&limit=10"
    );
}

#[test]
fn build_request_normalizes_base_and_strips_leading_slashes() {
    let mut config = test_config();
    config.base_url = "http://localhost:23373/".to_string();
    let plan = build_request(&config, HttpMethod::Get, "v0/get-chat", &vec![], None).unwrap();
    assert_eq!(plan.url, "http://localhost:23373/v0/get-chat");
    let plan = build_request(&config, HttpMethod::Get, "///v0/get-chat", &vec![], None).unwrap();
    assert_eq!(plan.url, "http://localhost:23373/v0/get-chat");
}

#[test]
fn build_request_fails_with_url_error_on_bad_base() {
    let mut config = test_config();
    config.base_url = "not a url".to_string();
    let r = build_request(&config, HttpMethod::Get, "/v0/get-accounts", &vec![], None);
    assert!(matches!(r, Err(Error::Url { .. })));
}

#[test]
fn strip_leading_slashes_examples() {
    assert_eq!(strip_leading_slashes("/v0/get-accounts"), "v0/get-accounts");
    assert_eq!(strip_leading_slashes("v0/get-accounts"), "v0/get-accounts");
    assert_eq!(strip_leading_slashes("///x"), "x");
    assert_eq!(strip_leading_slashes(""), "");
    assert_eq!(strip_leading_slashes("///"), "");
}

#[test]
fn success_statuses_are_exactly_2xx() {
    assert!(!is_success_status(199));
    assert!(is_success_status(200));
    assert!(is_success_status(204));
    assert!(is_success_status(299));
    assert!(!is_success_status(300));
    assert!(!is_success_status(404));
}

#[test]
fn interpret_response_hands_back_2xx_bodies() {
    let r = interpret_response(200, "{\"ok\":true}".to_string(), None);
    assert_eq!(r.unwrap(), "{\"ok\":true}");
}

#[test]
fn interpret_response_classifies_non_2xx() {
    let env = Some(ErrorEnvelope {
        error: Some("Chat not found".to_string()),
        code: Some("CHAT_NOT_FOUND".to_string()),
        details: None,
    });
    let r = interpret_response(404, "raw".to_string(), env);
    match r.unwrap_err() {
        Error::NotFound { message, .. } => assert_eq!(message, "Chat not found"),
        other => panic!("expected not found, got {:?}", other),
    }
}

/// A server that always fails with a 500 exhausts the whole retry budget:
/// with `max_retries = n` the engine performs exactly `n + 1` exchanges.
#[test]
fn retry_budget_exhaustion_makes_n_plus_one_attempts() {
    for n in [0u32, 1, 2, 5] {
        let mut retry = RetryState::new(n);
        let mut attempts = 0u32;
        loop {
            // One exchange happens, and the server answers 500.
            attempts += 1;
            let error = interpret_response(500, "oops".to_string(), None).unwrap_err();
            match retry.on_failure(error.is_retryable()) {
                Some(_delay) => continue,
                None => break,
            }
        }
        assert_eq!(attempts, n + 1);
        assert!(matches!(
            interpret_response(500, "oops".to_string(), None).unwrap_err(),
            Error::InternalServer { .. }
        ));
    }
}

#[test]
fn backoff_grows_linearly_per_retry() {
    let mut retry = RetryState::new(3);
    let mut delays = Vec::new();
    while let Some(d) = retry.on_failure(true) {
        delays.push(d);
    }
    assert_eq!(delays, vec![1000, 2000, 3000]);
}

#[test]
fn non_retryable_errors_stop_immediately_even_with_budget() {
    let mut retry = RetryState::new(5);
    let auth = Error::authentication("no".to_string());
    assert_eq!(retry.on_failure(auth.is_retryable()), None);
}

/// A 200 response whose body does not parse becomes a serialization error
/// and is never retried, even with retry budget available.
#[test]
fn malformed_2xx_is_a_json_error_and_not_retried() {
    let body = "not json at all".to_string();
    // The engine hands the 2xx body back for decoding.
    let raw = interpret_response(200, body.clone(), None).unwrap();
    // The decode fails; the application wraps it as the Json variant.
    let parse_failed = serde_json::from_str::<serde_json::Value>("").is_err();
    assert!(parse_failed);
    assert_eq!(raw, body);
    let error = Error::Json { message: "expected value at line 1".to_string() };
    assert!(!error.is_retryable());
    let mut retry = RetryState::new(3);
    assert_eq!(retry.on_failure(error.is_retryable()), None);
}
