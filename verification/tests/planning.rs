use box_client::{
    exec_command, read_text, retry_delay, stop_and_remove, text_content, wait_step, write_text,
    ApiRequest, BoxApi, BoxState, BoxesQuery, CommandRequest, Configuration, CreateBoxRequest,
    Duration, Error, HttpError, HttpMethod, RequestBody, WaitOptions, WaitStep,
};

fn ok<T>(r: Result<T, Error>) -> T {
    match r {
        Ok(v) => v,
        Err(e) => panic!("unexpected error: {}", e.debug_string()),
    }
}

fn api() -> BoxApi {
    BoxApi::new(ok(Configuration::new("box_test_key")))
}

fn pairs(v: &[(&str, &str)]) -> Vec<(String, String)> {
    v.iter().map(|(a, b)| (a.to_string(), b.to_string())).collect()
}

fn api_error(status: u16, code: &str) -> Error {
    Error::Api {
        status,
        code: code.to_string(),
        message: String::new(),
        request_id: String::new(),
        details: None,
    }
}

#[test]
fn get_plans_an_idempotent_call() {
    let req: ApiRequest = ok(api().get("bx_23456789"));
    assert_eq!(req.method, HttpMethod::Get);
    assert_eq!(req.url, "https://ascii.dev/api/box/v1/boxes/bx_23456789");
    assert_eq!(req.bearer_token, "box_test_key");
    assert_eq!(req.headers, pairs(&[("Accept", "application/json")]));
    assert!(req.query.is_empty());
    assert!(req.timeout.is_none());
    assert_eq!(req.max_attempts, 4);
    assert!(matches!(req.body, RequestBody::Empty));
}

#[test]
fn org_scope_adds_header_and_base_path_loses_trailing_slashes() {
    let cfg = ok(ok(Configuration::new("k")).with_base_path("http://localhost:8080/api//"))
        .with_org("team-a");
    let api = BoxApi::new(cfg);
    let req = api.me();
    assert_eq!(req.url, "http://localhost:8080/api/me");
    assert_eq!(
        req.headers,
        pairs(&[("Accept", "application/json"), ("X-Box-Org", "team-a")])
    );
}

#[test]
fn invalid_box_id_is_refused_before_any_call() {
    match api().command("bad", CommandRequest::new("true")) {
        Err(Error::InvalidBoxId(id)) => assert_eq!(id, "bad"),
        _ => panic!("expected InvalidBoxId"),
    }
}

#[test]
fn detached_command_is_refused() {
    let mut req = CommandRequest::new("sleep 1").with_timeout_seconds(30);
    req.detached = Some(true);
    match api().command("bx_23456789", req) {
        Err(Error::Config(m)) => {
            assert_eq!(m, "detached commands are not supported in box_client v0.1")
        }
        _ => panic!("expected a config error"),
    }
}

#[test]
fn exec_uses_thirty_second_budget_and_single_attempt() {
    let req = ok(api().exec("bx_23456789", "uname -a"));
    assert_eq!(req.method, HttpMethod::Post);
    assert_eq!(req.url, "https://ascii.dev/api/box/v1/boxes/bx_23456789/commands");
    assert_eq!(req.max_attempts, 1);
    // 30 s + 15 s slack is below the 60 s request timeout.
    assert!(req.timeout == Some(Duration::from_secs(60)));
    match req.body {
        RequestBody::Command(c) => {
            assert_eq!(c.command, "uname -a");
            assert_eq!(c.timeout_seconds, Some(30));
            assert!(c.cwd.is_none());
        }
        _ => panic!("expected a command body"),
    }
}

#[test]
fn exec_command_defaults_and_overrides() {
    let a = api();
    let req = ok(exec_command(&a, "bx_23456789", "pwd", Some("project"), Some(120)));
    assert!(req.timeout == Some(Duration::from_secs(135)));
    match req.body {
        RequestBody::Command(c) => {
            assert_eq!(c.cwd.as_deref(), Some("project"));
            assert_eq!(c.timeout_seconds, Some(120));
        }
        _ => panic!("expected a command body"),
    }
    let req = ok(exec_command(&a, "bx_23456789", "uname -a", None, None));
    match req.body {
        RequestBody::Command(c) => assert_eq!(c.timeout_seconds, Some(30)),
        _ => panic!("expected a command body"),
    }
}

#[test]
fn create_sends_idempotency_key_only_when_given() {
    let a = api();
    let req = a.create_with_idempotency(CreateBoxRequest::ttl(1800), Some("job-42"));
    assert_eq!(req.url, "https://ascii.dev/api/box/v1/boxes");
    assert_eq!(req.max_attempts, 1);
    assert_eq!(
        req.headers,
        pairs(&[("Accept", "application/json"), ("Idempotency-Key", "job-42")])
    );
    match req.body {
        RequestBody::CreateBox(c) => assert_eq!(c.ttl_seconds, Some(Some(1800))),
        _ => panic!("expected a create body"),
    }
    let req = a.create_with_idempotency(CreateBoxRequest::no_auto_stop(), Some(""));
    assert_eq!(req.headers, pairs(&[("Accept", "application/json")]));
    let req = a.create(CreateBoxRequest::no_auto_stop());
    assert_eq!(req.headers, pairs(&[("Accept", "application/json")]));
}

#[test]
fn boxes_query_becomes_parameters_in_field_order() {
    let q = BoxesQuery {
        state: Some("idle".into()),
        limit: Some(50),
        ..Default::default()
    };
    let req = api().boxes(Some(&q));
    assert_eq!(req.query, pairs(&[("limit", "50"), ("state", "idle")]));
    assert!(api().boxes(None).query.is_empty());
}

#[test]
fn file_helpers_plan_utf8_reads_and_writes() {
    let a = api();
    let req = ok(read_text(&a, "bx_23456789", "notes/result.txt"));
    assert_eq!(req.url, "https://ascii.dev/api/box/v1/boxes/bx_23456789/files");
    assert_eq!(
        req.query,
        pairs(&[("path", "notes/result.txt"), ("encoding", "utf8")])
    );
    assert_eq!(req.max_attempts, 4);
    let req = ok(write_text(&a, "bx_23456789", "notes/result.txt", "done\n"));
    assert_eq!(req.method, HttpMethod::Post);
    match req.body {
        RequestBody::WriteFile(w) => {
            assert_eq!(w.path, "notes/result.txt");
            assert_eq!(w.content, "done\n");
            assert_eq!(w.encoding.as_deref(), Some("utf8"));
        }
        _ => panic!("expected a write body"),
    }
    // A blank path is refused before the box id is looked at.
    match read_text(&a, "bad", "  ") {
        Err(Error::Config(m)) => assert_eq!(m, "file path must not be empty"),
        _ => panic!("expected a config error"),
    }
    assert_eq!(text_content(None), "");
    assert_eq!(text_content(Some("done\n".to_string())), "done\n");
}

#[test]
fn stop_resume_host_and_ssh_paths() {
    let a = api();
    let req = ok(stop_and_remove(&a, "bx_23456789"));
    assert_eq!(req.url, "https://ascii.dev/api/box/v1/boxes/bx_23456789/stop");
    assert!(matches!(req.body, RequestBody::Stop(ref s) if s.force.is_none()));
    let req = ok(a.resume("bx_23456789", None));
    assert_eq!(req.url, "https://ascii.dev/api/box/v1/boxes/bx_23456789/resume");
    let req = ok(a.host_port("bx_23456789", 3000));
    assert_eq!(req.url, "https://ascii.dev/api/box/v1/boxes/bx_23456789/host");
    assert!(matches!(req.body, RequestBody::HostPort(ref h) if h.port == 3000));
    let req = ok(a.ssh_key("bx_23456789", "ssh-ed25519 AAAA"));
    assert_eq!(req.url, "https://ascii.dev/api/box/v1/boxes/bx_23456789/sshkey");
    assert!(matches!(req.body, RequestBody::SshKey(ref k) if k.public_key == "ssh-ed25519 AAAA"));
    let req = ok(a.update("bx_23456789", Default::default()));
    assert_eq!(req.method, HttpMethod::Patch);
}

#[test]
fn retry_rule_backs_off_and_stops() {
    let busy = api_error(503, "unavailable");
    // A read is sent up to four times: three retries, 200 ms, 400 ms and 800 ms apart.
    assert!(retry_delay(4, 1, &busy) == Some(Duration::from_millis(200)));
    assert!(retry_delay(4, 2, &busy) == Some(Duration::from_millis(400)));
    assert!(retry_delay(4, 3, &busy) == Some(Duration::from_millis(800)));
    assert!(retry_delay(4, 4, &busy) == None);
    assert!(retry_delay(3, 3, &busy) == None);
    assert!(retry_delay(1, 1, &busy) == None);
    assert!(retry_delay(4, 1, &api_error(409, "box_starting")) == Some(Duration::from_millis(200)));
    assert!(retry_delay(4, 1, &api_error(409, "box_securing")) == Some(Duration::from_millis(200)));
    assert!(retry_delay(4, 1, &api_error(409, "conflict")) == None);
    assert!(retry_delay(4, 1, &api_error(404, "not_found")) == None);
    assert!(retry_delay(4, 1, &api_error(429, "rate_limited")) == Some(Duration::from_millis(200)));
}

#[test]
fn transport_failures_retry_on_timeout_or_connect_only() {
    let timeout = Error::Http(HttpError {
        is_timeout: true,
        is_connect: false,
        status: None,
        text: "timed out".into(),
        debug_text: "TimedOut".into(),
    });
    assert!(timeout.is_retryable());
    assert_eq!(timeout.status(), None);
    let other = Error::Http(HttpError {
        is_timeout: false,
        is_connect: false,
        status: Some(400),
        text: "bad".into(),
        debug_text: "Bad".into(),
    });
    assert!(!other.is_retryable());
    assert_eq!(other.status(), Some(400));
    assert_eq!(other.display_string(), "http: bad");
    assert_eq!(other.debug_string(), "Http(Bad)");
}

#[test]
fn wait_step_decisions() {
    let opts = WaitOptions::from_millis(5_000, 20);
    assert!(matches!(
        wait_step(&opts, "bx_23456789", Ok(BoxState::Ready), false),
        WaitStep::Ready
    ));
    assert!(matches!(
        wait_step(&opts, "bx_23456789", Ok(BoxState::Idle), true),
        WaitStep::Ready
    ));
    match wait_step(&opts, "bx_23456789", Ok(BoxState::Archiving), false) {
        WaitStep::Fail(Error::BoxTerminal { box_id, state }) => {
            assert_eq!(box_id, "bx_23456789");
            assert_eq!(state, "archiving");
        }
        _ => panic!("expected BoxTerminal"),
    }
    match wait_step(&opts, "bx_23456789", Ok(BoxState::Provisioning), false) {
        WaitStep::Sleep(d) => assert!(d == Duration::from_millis(20)),
        _ => panic!("expected another poll"),
    }
    match wait_step(&opts, "bx_23456789", Ok(BoxState::Provisioning), true) {
        WaitStep::Fail(Error::WaitTimeout { last_state, .. }) => {
            assert_eq!(last_state, "provisioning")
        }
        _ => panic!("expected WaitTimeout"),
    }
    assert!(matches!(
        wait_step(&opts, "bx_23456789", Err(api_error(502, "bad_gateway")), false),
        WaitStep::Sleep(_)
    ));
    assert!(matches!(
        wait_step(&opts, "bx_23456789", Err(api_error(502, "bad_gateway")), true),
        WaitStep::Fail(Error::Api { status: 502, .. })
    ));
    assert!(matches!(
        wait_step(&opts, "bx_23456789", Err(api_error(404, "not_found")), false),
        WaitStep::Fail(Error::Api { status: 404, .. })
    ));
    let d = WaitOptions::default();
    assert!(d.timeout == Duration::from_millis(300_000));
    assert!(d.poll_interval == Duration::from_millis(2_000));
    // Spans render as std renders a `Duration`.
    assert_eq!(d.debug_string(), "WaitOptions { timeout: 300s, poll_interval: 2s }");
    assert_eq!(
        WaitOptions::from_millis(1_500, 250).debug_string(),
        "WaitOptions { timeout: 1.5s, poll_interval: 250ms }"
    );
    assert_eq!(Duration::from_millis(200).debug_string(), "200ms");
}

#[test]
fn box_states_names_and_classes() {
    let all = [
        (BoxState::Init, "init"),
        (BoxState::Provisioning, "provisioning"),
        (BoxState::Provisioned, "provisioned"),
        (BoxState::Cloning, "cloning"),
        (BoxState::Ready, "ready"),
        (BoxState::Idle, "idle"),
        (BoxState::Running, "running"),
        (BoxState::Archiving, "archiving"),
        (BoxState::Archived, "archived"),
        (BoxState::Error, "error"),
        (BoxState::Unknown, "unknown"),
    ];
    for (state, name) in all.iter() {
        assert_eq!(state.as_str(), *name);
        assert_eq!(BoxState::from_name(name), *state);
        let operable = matches!(name, &"ready" | &"idle" | &"running");
        let terminal = matches!(name, &"archived" | &"archiving" | &"error");
        assert_eq!(state.is_operable(), operable);
        assert_eq!(state.is_terminal_failure(), terminal);
    }
    // Names outside the list, including other spellings, read as `Unknown`.
    assert_eq!(BoxState::from_name("hibernating"), BoxState::Unknown);
    assert_eq!(BoxState::from_name("Ready"), BoxState::Unknown);
    assert_eq!(BoxState::from_name(""), BoxState::Unknown);
}
