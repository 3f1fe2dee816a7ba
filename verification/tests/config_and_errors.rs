use box_client::config::{redact_secret, trim_trailing_slashes, validate_base_path};
use box_client::{
    is_success, map_error, ApiErrorBody, ApiErrorDetail, CommandRequest, CommandResponse,
    Configuration, CreateBoxRequest, Duration, Error, FileWriteRequest, HostPortResponse,
};

fn ok<T>(r: Result<T, Error>) -> T {
    match r {
        Ok(v) => v,
        Err(e) => panic!("unexpected error: {}", e.debug_string()),
    }
}

fn config_message<T>(r: Result<T, Error>) -> String {
    match r {
        Err(Error::Config(m)) => m,
        Err(e) => panic!("expected a config error, got {}", e.debug_string()),
        Ok(_) => panic!("expected a config error"),
    }
}

fn envelope(code: Option<&str>, message: Option<&str>, nested: Option<ApiErrorDetail>) -> ApiErrorBody {
    ApiErrorBody {
        ok: false,
        type_: Some("box.error".into()),
        status: Some(404),
        code: code.map(str::to_string),
        message: message.map(str::to_string),
        request_id: Some("req_abc".into()),
        error: nested,
    }
}

#[test]
fn new_configuration_defaults() {
    let cfg = ok(Configuration::new("box_test_key"));
    assert_eq!(cfg.base_path, "https://ascii.dev/api/box/v1");
    assert_eq!(cfg.base_path, Configuration::DEFAULT_BASE_PATH);
    assert!(cfg.connect_timeout == Duration::from_secs(10));
    assert!(cfg.request_timeout == Duration::from_secs(60));
    assert!(cfg.command_timeout_slack == Duration::from_secs(15));
    assert_eq!(cfg.user_agent, "box_client/0.1.0");
    assert!(cfg.org.is_none());
    assert_eq!(config_message(Configuration::new(" \n")), "access token must not be empty");
}

#[test]
fn builders_change_one_field() {
    let cfg = ok(Configuration::new("k"))
        .with_timeout(Duration::from_secs(5))
        .with_connect_timeout(Duration::from_secs(2))
        .with_command_timeout_slack(Duration::from_secs(1))
        .with_user_agent("agent/1");
    assert!(cfg.request_timeout == Duration::from_secs(5));
    assert!(cfg.connect_timeout == Duration::from_secs(2));
    assert!(cfg.command_timeout_slack == Duration::from_secs(1));
    assert_eq!(cfg.user_agent, "agent/1");
    let cfg = cfg.with_request_timeout(Duration::from_secs(7));
    assert!(cfg.request_timeout == Duration::from_secs(7));
    // 30 s default + 1 s slack is above the 7 s request timeout.
    assert!(cfg.http_timeout_for_command(None) == Duration::from_secs(31));
    // Saturates at the largest span.
    let huge = cfg.with_command_timeout_slack(Duration::max_value());
    assert!(huge.http_timeout_for_command(Some(1)) == Duration::max_value());
}

#[test]
fn base_path_rules() {
    assert!(validate_base_path("https://example.com").is_ok());
    assert!(validate_base_path("http://localhost:3000").is_ok());
    assert!(validate_base_path("http://127.5.5.5/x").is_ok());
    assert_eq!(
        config_message(validate_base_path("ftp://example.com")),
        "base_path must be http(s), got ftp"
    );
    assert_eq!(
        config_message(validate_base_path("http://evil.example/api")),
        "base_path must use https (http only allowed for localhost), got `http://evil.example/api`"
    );
    // Loopback hosts as the URL parser writes them: the IPv6 loopback in brackets, and
    // IPv4 literals in 127.0.0.0/8; a DNS name that starts with `127.` is remote.
    assert!(validate_base_path("http://[::1]:8080").is_ok());
    assert!(validate_base_path("http://127.0.0.1:8080").is_ok());
    assert_eq!(
        config_message(validate_base_path("http://127.evil.example/api")),
        "base_path must use https (http only allowed for localhost), got `http://127.evil.example/api`"
    );
    assert_eq!(
        config_message(validate_base_path("http://[::2]:8080")),
        "base_path must use https (http only allowed for localhost), got `http://[::2]:8080`"
    );
    assert_eq!(
        config_message(validate_base_path("not a url")),
        "invalid base_path `not a url`: relative URL without a base"
    );
    assert_eq!(
        config_message(validate_base_path("https://")),
        "invalid base_path `https://`: empty host"
    );
    assert_eq!(trim_trailing_slashes("https://x.test//"), "https://x.test");
    let cfg = ok(ok(Configuration::new("k")).with_base_path("https://x.test/api/"));
    assert_eq!(cfg.base_path, "https://x.test/api");
}

#[test]
fn configuration_from_environment_values() {
    assert_eq!(
        config_message(Configuration::from_env_values(None, None, None)),
        "BOX_API_KEY is not set (create one with `box api-key create`)"
    );
    let cfg = ok(Configuration::from_env_values(Some("k"), Some(""), Some("")));
    assert_eq!(cfg.base_path, "https://ascii.dev/api/box/v1");
    assert!(cfg.org.is_none());
    let cfg = ok(Configuration::from_env_values(
        Some("k"),
        Some("https://box.test/v1/"),
        Some("team"),
    ));
    assert_eq!(cfg.base_path, "https://box.test/v1");
    assert_eq!(cfg.org.as_deref(), Some("team"));
    // A refused BOX_BASE_URL gives the base-path check's own error.
    assert_eq!(
        config_message(Configuration::from_env_values(Some("k"), Some("http://remote.test"), None)),
        "base_path must use https (http only allowed for localhost), got `http://remote.test`"
    );
    assert_eq!(
        config_message(Configuration::from_env_values(Some("k"), Some("ftp://box.test"), None)),
        "base_path must be http(s), got ftp"
    );
    assert_eq!(
        config_message(Configuration::from_env_values(Some("  "), Some("ftp://box.test"), None)),
        "access token must not be empty"
    );
}

#[test]
fn redaction_shows_length_only() {
    assert_eq!(redact_secret("abc"), "<redacted len=3>");
    assert_eq!(redact_secret("é"), "<redacted len=2>");
    assert_eq!(redact_secret(""), "<redacted len=0>");
}

#[test]
fn configuration_debug_text() {
    let cfg = ok(Configuration::new("box_secret_value_here")).with_org("team");
    assert_eq!(
        cfg.debug_string(),
        "Configuration { base_path: \"https://ascii.dev/api/box/v1\", access_token: \"<redacted len=21>\", org: Some(\"team\"), connect_timeout: 10s, request_timeout: 60s, command_timeout_slack: 15s, user_agent: \"box_client/0.1.0\" }"
    );
}

#[test]
fn error_texts() {
    assert_eq!(
        Error::InvalidBoxId("bad".into()).display_string(),
        "invalid box id `bad` (expected bx_ + 8 chars)"
    );
    assert_eq!(
        Error::InvalidBoxId("b\"d".into()).debug_string(),
        "InvalidBoxId(\"b\\\"d\")"
    );
    assert_eq!(Error::Config("x".into()).display_string(), "config: x");
    let timeout = Error::WaitTimeout { box_id: "bx_1".into(), last_state: "init".into() };
    assert_eq!(timeout.display_string(), "timeout waiting for box bx_1 (last state=init)");
    assert_eq!(timeout.debug_string(), "WaitTimeout { box_id: \"bx_1\", last_state: \"init\" }");
    let terminal = Error::BoxTerminal { box_id: "bx_1".into(), state: "error".into() };
    assert_eq!(terminal.display_string(), "box bx_1 entered terminal state error");
    let failed = Error::BoxFailed { box_id: "bx_1".into() };
    assert_eq!(failed.display_string(), "box bx_1 entered error state");
    assert_eq!(failed.debug_string(), "BoxFailed { box_id: \"bx_1\" }");
    let api = Error::Api {
        status: 404,
        code: "not_found".into(),
        message: "Box not found".into(),
        request_id: "req_abc".into(),
        details: None,
    };
    assert_eq!(api.display_string(), "api 404: not_found (request_id=req_abc)");
    assert_eq!(
        api.debug_string(),
        "Api { status: 404, code: \"not_found\", message_len: 13, request_id: \"req_abc\", has_details: false }"
    );
    assert_eq!(api.status(), Some(404));
    assert_eq!(api.unexpected_body(), None);
    assert_eq!(Error::Unexpected("body".into()).debug_string(), "Unexpected { body_len: 4 }");
    let serde = Error::Serde(serde_json::from_str::<u32>("x").unwrap_err());
    assert!(serde.display_string().starts_with("serde: "));
    assert!(serde.debug_string().starts_with("Serde("));
    assert_eq!(serde.api_message(), None);
}

#[test]
fn api_error_envelope_is_mapped() {
    let nested = ApiErrorDetail {
        code: Some("not_found".into()),
        message: Some("Box not found".into()),
        status: Some(404),
        details: None,
    };
    match map_error(404, Some(envelope(Some("top"), Some("top msg"), Some(nested))), b"{}") {
        Error::Api { status, code, message, request_id, details } => {
            assert_eq!(status, 404);
            assert_eq!(code, "not_found");
            assert_eq!(message, "Box not found");
            assert_eq!(request_id, "req_abc");
            assert!(details.is_none());
        }
        other => panic!("expected Api, got {}", other.debug_string()),
    }
    match map_error(409, Some(envelope(Some("box_starting"), None, None)), b"raw body") {
        Error::Api { code, message, .. } => {
            assert_eq!(code, "box_starting");
            assert_eq!(message, "raw body");
        }
        other => panic!("expected Api, got {}", other.debug_string()),
    }
    match map_error(500, Some(envelope(None, None, None)), b"") {
        Error::Api { code, .. } => assert_eq!(code, "unknown"),
        other => panic!("expected Api, got {}", other.debug_string()),
    }
}

#[test]
fn undecodable_error_body_keeps_status_line_and_body() {
    match map_error(404, None, b"nope") {
        Error::Unexpected(t) => assert_eq!(t, "HTTP 404 Not Found \u{2014} nope"),
        other => panic!("expected Unexpected, got {}", other.debug_string()),
    }
    match map_error(599, None, &[0x66, 0xff, 0x6f]) {
        Error::Unexpected(t) => {
            assert_eq!(t, "HTTP 599 <unknown status code> \u{2014} f\u{fffd}o")
        }
        other => panic!("expected Unexpected, got {}", other.debug_string()),
    }
    assert!(is_success(200));
    assert!(is_success(299));
    assert!(!is_success(300));
    assert!(!is_success(199));
}

#[test]
fn short_bodies_are_kept_whole() {
    assert_eq!(box_client::truncate_lossy(b"short body"), "short body");
    let exact = vec![b'a'; box_client::ERROR_BODY_MAX];
    assert_eq!(box_client::truncate_lossy(&exact).len(), box_client::ERROR_BODY_MAX);
    let over = vec![b'a'; box_client::ERROR_BODY_MAX + 1];
    let out = box_client::truncate_lossy(&over);
    assert_eq!(out.len(), box_client::ERROR_BODY_MAX + '\u{2026}'.len_utf8());
}

#[test]
fn request_renderings_hide_secrets() {
    let mut env = std::collections::HashMap::new();
    env.insert("TOKEN".to_string(), "sekrit".to_string());
    let create = CreateBoxRequest {
        env: Some(env),
        setup_script: Some("export SEKRIT=1".into()),
        ..CreateBoxRequest::ttl(60)
    };
    let text = create.debug_string();
    assert!(!text.contains("sekrit"));
    assert!(!text.contains("SEKRIT"));
    assert!(text.contains("env: Some(\"<redacted vars=1>\")"));
    assert!(text.contains("setup_script: Some(\"<redacted len=15>\")"));
    assert!(text.contains("ttl_seconds: Some(Some(60))"));

    let cmd = CommandRequest::new("echo sekrit").with_cwd("work");
    assert_eq!(
        cmd.debug_string(),
        "CommandRequest { command: \"<redacted len=11>\", cwd: Some(\"work\"), timeout_seconds: None, detached: None }"
    );

    let write = FileWriteRequest { path: "a.txt".into(), content: "sekrit".into(), encoding: None };
    assert_eq!(
        write.debug_string(),
        "FileWriteRequest { path: \"a.txt\", content: \"<redacted len=6>\", encoding: None }"
    );
}

#[test]
fn response_renderings_hide_secrets() {
    let out = CommandResponse {
        ok: true,
        type_: None,
        success: false,
        exit_code: Some(-1),
        signal: None,
        stdout: "sekrit".into(),
        stderr: String::new(),
        stdout_truncated: None,
        stderr_truncated: Some(false),
        timed_out: false,
        cwd: None,
        started_at: None,
        finished_at: None,
    };
    let text = out.debug_string();
    assert!(!text.contains("sekrit"));
    assert!(text.contains("exit_code: Some(-1)"));
    assert!(text.contains("stdout: \"<redacted len=6>\""));

    let host = HostPortResponse {
        ok: true,
        type_: Some("port.hosted".into()),
        success: Some(true),
        port: Some(3000),
        url: Some("https://example.on.ascii.dev?_token=sekrit".into()),
        is_protected: None,
        access: None,
    };
    assert_eq!(
        host.debug_string(),
        "HostPortResponse { ok: true, type_: Some(\"port.hosted\"), success: Some(true), port: Some(3000), url: Some(\"<redacted>\"), is_protected: None, access: None }"
    );
}

#[test]
fn renderings_depend_on_secret_lengths_only() {
    let a = ok(Configuration::new("token-AAAA"));
    let b = ok(Configuration::new("token-BBBB"));
    assert_eq!(a.debug_string(), b.debug_string());

    let api = |message: &str| Error::Api {
        status: 500,
        code: "internal".into(),
        message: message.into(),
        request_id: "req_9".into(),
        details: None,
    };
    assert_eq!(api("secret one").display_string(), api("secret two").display_string());
    assert_eq!(api("secret one").debug_string(), api("secret two").debug_string());
    assert_eq!(
        Error::Unexpected("body A".into()).debug_string(),
        Error::Unexpected("body B".into()).debug_string()
    );

    let host = |url: &str| HostPortResponse {
        ok: true,
        type_: None,
        success: None,
        port: Some(8080),
        url: Some(url.into()),
        is_protected: Some(true),
        access: Some("public".into()),
    };
    assert_eq!(
        host("https://a.test?_token=1").debug_string(),
        host("https://b.test?_token=2").debug_string()
    );
}
