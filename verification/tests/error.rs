use elevenlabs_sdk::client::{
    api_key_header, check_status, check_status_with_reason, endpoint_url, parse_base_url,
};
use elevenlabs_sdk::error::ElevenLabsError;

#[test]
fn display_api_error() {
    let err = ElevenLabsError::Api {
        status: 422,
        message: "invalid voice id".to_owned(),
        body: Some("{\"detail\":\"not found\"}".to_owned()),
    };
    assert_eq!(err.error_text(), "API error (HTTP 422): invalid voice id");
}

#[test]
fn display_auth_error() {
    let err = ElevenLabsError::Auth("invalid api key".to_owned());
    assert_eq!(err.error_text(), "Authentication failed: invalid api key");
}

#[test]
fn display_rate_limited_with_retry() {
    let err = ElevenLabsError::RateLimited { retry_after: Some(30) };
    assert_eq!(err.error_text(), "Rate limited (retry after Some(30)s)");
}

#[test]
fn display_rate_limited_without_retry() {
    let err = ElevenLabsError::RateLimited { retry_after: None };
    assert_eq!(err.error_text(), "Rate limited (retry after Nones)");
}

#[test]
fn display_timeout() {
    let err = ElevenLabsError::Timeout;
    assert_eq!(err.error_text(), "Request timeout");
}

#[test]
fn display_validation_error() {
    let err = ElevenLabsError::Validation("text is empty".to_owned());
    assert_eq!(err.error_text(), "Invalid input: text is empty");
}

#[test]
fn display_invalid_url() {
    let err: ElevenLabsError = url::Url::parse("://bad").unwrap_err().into();
    assert!(err.error_text().starts_with("Invalid URL:"));
}

#[test]
fn from_serde_json_error() {
    let json_err: serde_json::Error =
        serde_json::from_str::<serde_json::Value>("not json").unwrap_err();
    let err: ElevenLabsError = json_err.into();
    assert!(err.error_text().starts_with("Deserialization error:"));
}

#[test]
fn from_url_parse_error() {
    let url_err: url::ParseError = url::Url::parse("://bad").unwrap_err();
    let err = ElevenLabsError::from(url_err);
    assert!(matches!(err, ElevenLabsError::InvalidUrl(_)));
}

#[test]
fn display_websocket_error() {
    let err = ElevenLabsError::WebSocket("connection refused".to_owned());
    assert_eq!(err.error_text(), "WebSocket error: connection refused");
}

#[test]
fn display_transport_error() {
    let err = ElevenLabsError::Transport("connection reset".to_owned());
    assert_eq!(err.error_text(), "Transport error: connection reset");
    let big = ElevenLabsError::Api { status: 503, message: String::new(), body: None };
    assert_eq!(big.error_text(), "API error (HTTP 503): ");
    let zero = ElevenLabsError::RateLimited { retry_after: Some(0) };
    assert_eq!(zero.error_text(), "Rate limited (retry after Some(0)s)");
}

#[test]
fn invalid_url_text_is_the_url_error() {
    let url_err = url::Url::parse("://bad").unwrap_err();
    let err = ElevenLabsError::InvalidUrl(url_err);
    assert_eq!(err.error_text(), format!("Invalid URL: {url_err}"));
    assert!(err.is_invalid_url());
    assert!(!ElevenLabsError::Timeout.is_invalid_url());
}

#[test]
fn check_status_passes_success() {
    assert!(check_status(200, None, String::new(), None).is_ok());
    assert!(check_status(204, Some(3), "x".to_owned(), Some("y".to_owned())).is_ok());
    assert!(check_status(299, None, String::new(), None).is_ok());
}

#[test]
fn check_status_maps_401_to_auth() {
    match check_status(401, None, "{}".to_owned(), Some("Invalid API key".to_owned())) {
        Err(ElevenLabsError::Auth(msg)) => assert_eq!(msg, "Invalid API key"),
        other => panic!("expected Auth error, got {other:?}"),
    }
    match check_status(401, None, String::new(), None) {
        Err(ElevenLabsError::Auth(msg)) => assert_eq!(msg, "invalid or missing API key"),
        other => panic!("expected Auth error, got {other:?}"),
    }
}

#[test]
fn check_status_maps_429_to_rate_limited() {
    match check_status(429, Some(30), "slow down".to_owned(), Some("ignored".to_owned())) {
        Err(ElevenLabsError::RateLimited { retry_after }) => assert_eq!(retry_after, Some(30)),
        other => panic!("expected RateLimited error, got {other:?}"),
    }
}

#[test]
fn check_status_maps_other_errors_to_api() {
    let body = "{\"detail\":\"Internal server error\"}".to_owned();
    match check_status(500, None, body.clone(), Some("Internal server error".to_owned())) {
        Err(ElevenLabsError::Api { status, message, body: b }) => {
            assert_eq!(status, 500);
            assert_eq!(message, "Internal server error");
            assert_eq!(b, Some(body));
        }
        other => panic!("expected Api error, got {other:?}"),
    }
    match check_status(404, None, String::new(), None) {
        Err(ElevenLabsError::Api { status, message, body }) => {
            assert_eq!(status, 404);
            assert_eq!(message, "Not Found");
            assert_eq!(body, None);
        }
        other => panic!("expected Api error, got {other:?}"),
    }
    match check_status(599, None, String::new(), None) {
        Err(ElevenLabsError::Api { message, .. }) => assert_eq!(message, "Unknown error"),
        other => panic!("expected Api error, got {other:?}"),
    }
    match check_status(42, None, String::new(), None) {
        Err(ElevenLabsError::Api { message, .. }) => assert_eq!(message, "Unknown error"),
        other => panic!("expected Api error, got {other:?}"),
    }
}

#[test]
fn api_key_header_accepts_printable_keys() {
    let value = api_key_header("test-key-123").unwrap();
    assert_eq!(value.as_bytes(), b"test-key-123");
    assert!(value.is_sensitive());
    assert!(api_key_header("with\ttab and space").is_ok());
}

#[test]
fn api_key_header_rejects_control_characters() {
    match api_key_header("bad\nkey") {
        Err(ElevenLabsError::Validation(msg)) => {
            assert_eq!(msg, "invalid API key header value: failed to parse header value")
        }
        other => panic!("expected Validation error, got {other:?}"),
    }
    assert!(api_key_header("del\u{7f}").is_err());
}

#[test]
fn base_url_and_endpoint_join() {
    let base = parse_base_url("https://api.elevenlabs.io").unwrap();
    assert_eq!(endpoint_url(&base, "/v1/voices").unwrap(), "https://api.elevenlabs.io/v1/voices");
    let nested = parse_base_url("http://127.0.0.1:8080/prefix/").unwrap();
    assert_eq!(endpoint_url(&nested, "/v1/models").unwrap(), "http://127.0.0.1:8080/v1/models");
    assert!(matches!(parse_base_url("://bad"), Err(ElevenLabsError::InvalidUrl(_))));
    assert!(matches!(parse_base_url("not a url"), Err(ElevenLabsError::InvalidUrl(_))));
}

#[test]
fn base_url_is_kept_in_serialized_form() {
    assert_eq!(parse_base_url("https://api.elevenlabs.io").unwrap(), "https://api.elevenlabs.io/");
    assert_eq!(parse_base_url("HTTP://Example.COM:80/a/../b").unwrap(), "http://example.com/b");
    let nested = parse_base_url("http://127.0.0.1:8080/prefix/").unwrap();
    assert_eq!(endpoint_url(&nested, "v1/models").unwrap(), "http://127.0.0.1:8080/prefix/v1/models");
    assert!(matches!(endpoint_url("not a url", "/v1"), Err(ElevenLabsError::InvalidUrl(_))));
}

#[test]
fn check_status_with_given_reason_phrase() {
    match check_status_with_reason(404, None, String::new(), None, Some("Gone Fishing")) {
        Err(ElevenLabsError::Api { status, message, body }) => {
            assert_eq!(status, 404);
            assert_eq!(message, "Gone Fishing");
            assert_eq!(body, None);
        }
        other => panic!("expected Api error, got {other:?}"),
    }
    match check_status_with_reason(503, None, "down".to_owned(), None, None) {
        Err(ElevenLabsError::Api { message, body, .. }) => {
            assert_eq!(message, "Unknown error");
            assert_eq!(body.as_deref(), Some("down"));
        }
        other => panic!("expected Api error, got {other:?}"),
    }
    match check_status_with_reason(502, None, String::new(), Some("upstream".to_owned()), Some("Bad Gateway")) {
        Err(ElevenLabsError::Api { message, .. }) => assert_eq!(message, "upstream"),
        other => panic!("expected Api error, got {other:?}"),
    }
    assert!(check_status_with_reason(201, None, String::new(), None, None).is_ok());
}
