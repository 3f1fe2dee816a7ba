use box_client::{
    truncate_lossy, validate_box_id, validate_file_path, Configuration, Duration, Error,
    ERROR_BODY_MAX,
};

fn ok<T>(r: Result<T, Error>) -> T {
    match r {
        Ok(v) => v,
        Err(e) => panic!("unexpected error: {}", e.debug_string()),
    }
}

#[test]
fn truncate_respects_utf8_boundaries() {
    // "é" is 2 bytes in UTF-8; force a mid-character cut point.
    let mut bytes = Vec::new();
    while bytes.len() < ERROR_BODY_MAX - 1 {
        bytes.extend_from_slice("a".as_bytes());
    }
    bytes.extend_from_slice("é".as_bytes());
    let out = truncate_lossy(&bytes);
    assert!(out.ends_with('…'));
    assert!(out.is_char_boundary(out.len() - '…'.len_utf8()));
}

#[test]
fn accepts_valid_box_id() {
    assert_eq!(validate_box_id("bx_23456789").ok(), Some("bx_23456789"));
    assert_eq!(validate_box_id("bx_abcdefgh").ok(), Some("bx_abcdefgh"));
}

#[test]
fn rejects_bad_box_id() {
    assert!(validate_box_id("bx_SHORT").is_err());
    assert!(validate_box_id("../etc/passwd").is_err());
    assert!(validate_box_id("bx_AAAAAAAA").is_err());
    assert!(validate_box_id("bx_23456789/../x").is_err());
}

#[test]
fn debug_redacts_token() {
    let cfg = ok(Configuration::new("box_secret_value_here"));
    let s = cfg.debug_string();
    assert!(s.contains("<redacted len="));
    assert!(!s.contains("box_secret"));
    assert!(!s.contains("secret_value"));
}

#[test]
fn rejects_empty_token() {
    assert!(Configuration::new("").is_err());
}

#[test]
fn rejects_remote_http_base_path() {
    let cfg = ok(Configuration::new("box_test_key"));
    assert!(cfg
        .clone()
        .with_base_path("http://evil.example/api")
        .is_err());
    assert!(cfg.with_base_path("http://127.0.0.1:8080").is_ok());
}

#[test]
fn command_http_timeout_covers_command_budget() {
    let cfg = ok(Configuration::new("box_test_key"));
    let t = cfg.http_timeout_for_command(Some(120));
    assert!(t >= Duration::from_secs(135));
}

#[test]
fn api_display_and_debug_omit_message_and_details() {
    let mut details = serde_json::Map::new();
    details.insert(
        "token".to_string(),
        serde_json::Value::String("also-secret".to_string()),
    );
    let err = Error::Api {
        status: 400,
        code: "bad_request".into(),
        message: "leaked-secret-token-xyz".into(),
        request_id: "req_1".into(),
        details: Some(serde_json::Value::Object(details)),
    };
    let display = err.display_string();
    assert!(display.contains("bad_request"));
    assert!(display.contains("req_1"));
    assert!(!display.contains("leaked-secret"));
    assert!(!display.contains("also-secret"));

    let debug = err.debug_string();
    assert!(debug.contains("message_len"));
    assert!(debug.contains("has_details"));
    assert!(!debug.contains("leaked-secret"));
    assert!(!debug.contains("also-secret"));

    assert_eq!(err.api_message(), Some("leaked-secret-token-xyz"));
    assert!(err.api_details().is_some());
}

#[test]
fn unexpected_display_and_debug_omit_body() {
    let err = Error::Unexpected("HTTP 500 — secret-in-body".into());
    assert!(!err.display_string().contains("secret-in-body"));
    assert!(!err.debug_string().contains("secret-in-body"));
    assert_eq!(err.unexpected_body(), Some("HTTP 500 — secret-in-body"));
}

#[test]
fn blank_file_path_is_refused() {
    assert!(validate_file_path("notes.txt").is_ok());
    match validate_file_path(" \t\u{3000}") {
        Err(Error::Config(m)) => assert_eq!(m, "file path must not be empty"),
        _ => panic!("expected a config error"),
    }
}
