//! Status classification and retryability.

use beeper_desktop_api::error::{classify, Error, ErrorEnvelope, TransportKind};

fn envelope(message: &str, code: &str) -> Option<ErrorEnvelope> {
    Some(ErrorEnvelope {
        error: Some(message.to_string()),
        code: Some(code.to_string()),
        details: None,
    })
}

#[test]
fn classify_400_bad_request() {
    let e = classify(400, "raw".to_string(), envelope("bad field", "BAD"));
    match e {
        Error::BadRequest { message, code, .. } => {
            assert_eq!(message, "bad field");
            assert_eq!(code, Some("BAD".to_string()));
        }
        other => panic!("expected bad request, got {:?}", other),
    }
}

#[test]
fn classify_401_authentication() {
    let e = classify(401, "raw".to_string(), envelope("Invalid token", "INVALID_TOKEN"));
    match e {
        Error::Authentication { message, code, .. } => {
            assert_eq!(message, "Invalid token");
            assert_eq!(code, Some("INVALID_TOKEN".to_string()));
        }
        other => panic!("expected authentication error, got {:?}", other),
    }
}

#[test]
fn classify_403_permission_denied() {
    let e = classify(403, "raw".to_string(), envelope("no", "NO"));
    assert!(matches!(e, Error::PermissionDenied { .. }));
}

#[test]
fn classify_404_not_found() {
    let e = classify(404, "raw".to_string(), envelope("Chat not found", "CHAT_NOT_FOUND"));
    match e {
        Error::NotFound { message, .. } => assert_eq!(message, "Chat not found"),
        other => panic!("expected not found, got {:?}", other),
    }
}

#[test]
fn classify_409_conflict() {
    let e = classify(409, "raw".to_string(), envelope("conflict", "C"));
    assert!(matches!(e, Error::Conflict { .. }));
}

#[test]
fn classify_422_unprocessable() {
    let e = classify(422, "raw".to_string(), envelope("nope", "N"));
    assert!(matches!(e, Error::UnprocessableEntity { .. }));
}

#[test]
fn classify_429_rate_limit() {
    let e = classify(429, "raw".to_string(), envelope("Too many requests", "RATE_LIMITED"));
    match e {
        Error::RateLimit { message, .. } => assert_eq!(message, "Too many requests"),
        other => panic!("expected rate limit, got {:?}", other),
    }
}

#[test]
fn classify_5xx_internal_server() {
    for status in [500u16, 502, 503] {
        let e = classify(status, "raw".to_string(), envelope("Internal server error", "ISE"));
        match e {
            Error::InternalServer { message, .. } => assert_eq!(message, "Internal server error"),
            other => panic!("expected internal server error for {}, got {:?}", status, other),
        }
    }
}

#[test]
fn classify_other_statuses_fall_back_to_api() {
    for status in [100u16, 302, 418, 451] {
        let e = classify(status, "raw".to_string(), None);
        match e {
            Error::Api { status: s, message, .. } => {
                assert_eq!(s, status);
                assert_eq!(message, "raw");
            }
            other => panic!("expected generic api error for {}, got {:?}", status, other),
        }
    }
}

#[test]
fn classify_falls_back_to_raw_body_without_envelope() {
    let e = classify(500, "the whole body".to_string(), None);
    match e {
        Error::InternalServer { message, code, details } => {
            assert_eq!(message, "the whole body");
            assert_eq!(code, None);
            assert_eq!(details, None);
        }
        other => panic!("expected internal server error, got {:?}", other),
    }
}

#[test]
fn classify_falls_back_to_raw_body_when_error_field_absent() {
    let env = Some(ErrorEnvelope {
        error: None,
        code: Some("X".to_string()),
        details: Some(vec![("k".to_string(), "v".to_string())]),
    });
    let e = classify(404, "body text".to_string(), env);
    match e {
        Error::NotFound { message, code, details } => {
            assert_eq!(message, "body text");
            assert_eq!(code, Some("X".to_string()));
            assert_eq!(details, Some(vec![("k".to_string(), "v".to_string())]));
        }
        other => panic!("expected not found, got {:?}", other),
    }
}

fn http_error(kind: TransportKind) -> Error {
    Error::Http { kind, message: "transport".to_string() }
}

fn classified(status: u16) -> Error {
    classify(status, "m".to_string(), None)
}

#[test]
fn retryable_variants() {
    assert!(classified(409).is_retryable());
    assert!(classified(429).is_retryable());
    assert!(classified(500).is_retryable());
    assert!(classified(503).is_retryable());
    assert!(http_error(TransportKind::Connect).is_retryable());
    assert!(http_error(TransportKind::Timeout).is_retryable());
    assert!(http_error(TransportKind::Request).is_retryable());
}

#[test]
fn non_retryable_variants() {
    assert!(!classified(400).is_retryable());
    assert!(!classified(401).is_retryable());
    assert!(!classified(403).is_retryable());
    assert!(!classified(404).is_retryable());
    assert!(!classified(422).is_retryable());
    assert!(!Error::Config { message: "m".to_string() }.is_retryable());
    assert!(!(Error::Json { message: "m".to_string() }).is_retryable());
    assert!(!(Error::Url { message: "m".to_string() }).is_retryable());
    assert!(!http_error(TransportKind::Other).is_retryable());
}

#[test]
fn generic_api_error_retryable_only_for_408_and_5xx() {
    assert!(classified(408).is_retryable());
    assert!(!classified(418).is_retryable());
    assert!(!classified(302).is_retryable());
    // 5xx statuses map to InternalServer, so exercise the Api variant directly.
    let e = Error::Api {
        status: 501,
        message: "m".to_string(),
        code: None,
        details: None,
    };
    assert!(e.is_retryable());
}

#[test]
fn describe_renders_variant_prefix_and_message() {
    let e = classify(401, "r".to_string(), envelope("Invalid token", "T"));
    assert_eq!(e.describe(), "Authentication error: Invalid token");
    let e = classify(418, "teapot".to_string(), None);
    assert_eq!(e.describe(), "API error 418: teapot");
    let e = Error::config("access token is required".to_string());
    assert_eq!(e.describe(), "Configuration error: access token is required");
}

#[test]
fn constructors_build_expected_variants() {
    match Error::authentication("msg".to_string()) {
        Error::Authentication { message, code, details } => {
            assert_eq!(message, "msg");
            assert_eq!(code, None);
            assert_eq!(details, None);
        }
        other => panic!("expected authentication, got {:?}", other),
    }
    assert!(matches!(Error::config("c".to_string()), Error::Config { .. }));
}
