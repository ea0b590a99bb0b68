use std::collections::VecDeque;

use apx::sdk::api::apps::{
    build_ws_url, extract_origin, next_frame, origin_text, push_tail, source_allowed,
    validate_app, ws_target, App, ComputeState, ComputeStatus, FrameAction, FrameEvent,
};
use apx::sdk::api::serving_endpoints::{
    endpoint_path, EndpointConfig, EndpointReadyState, EndpointState, ServedEntity,
    ServingEndpoint,
};
use apx::sdk::auth::{cached_access_token, cli_failure, CachedToken, CliTokenResponse};
use apx::sdk::client::{api_error, request_url, status_is_success, user_agent_for};
use apx::sdk::config::{resolve_config, ConfigFileRead, DatabricksConfig};
use apx::sdk::config_parser::ConfigParser;
use apx::sdk::error::DatabricksError;
use apx::sdk::useragent::{sanitize, UserAgent, UserAgentEnvironment};
use apx::sdk::{extract_workspace_id, forwarded_user_header};

// ── config_parser ──────────────────────────────────────────────────────

#[test]
fn test_parse_empty() {
    let config = ConfigParser::parse_str("");
    assert!(config.profiles().is_empty());
    assert_eq!(config.list_profiles(), vec!["DEFAULT"]);
}

#[test]
fn test_parse_single_profile() {
    let content = "\
[my-profile]
host = https://my-workspace.cloud.databricks.com
token = dapiXXX
";
    let config = ConfigParser::parse_str(content);
    assert_eq!(config.profiles().len(), 1);
    assert_eq!(config.profiles()[0].name, "my-profile");
    assert_eq!(config.profiles()[0].host, "https://my-workspace.cloud.databricks.com");
}

#[test]
fn test_parse_multiple_profiles() {
    let content = "\
[DEFAULT]
host = https://default.cloud.databricks.com

[staging]
host = https://staging.cloud.databricks.com

[production]
host = https://production.cloud.databricks.com
";
    let config = ConfigParser::parse_str(content);
    assert_eq!(config.profiles().len(), 3);
    assert_eq!(config.list_profiles(), vec!["DEFAULT", "staging", "production"]);
}

#[test]
fn test_get_profile() {
    let content = "\
[DEFAULT]
host = https://default.cloud.databricks.com

[staging]
host = https://staging.cloud.databricks.com
";
    let config = ConfigParser::parse_str(content);
    let staging = config.get_profile("staging").expect("staging profile not found");
    assert_eq!(staging.host, "https://staging.cloud.databricks.com");
    assert!(config.get_profile("nonexistent").is_none());
}

#[test]
fn test_section_without_host_is_skipped() {
    let content = "\
[no-host]
token = dapiXXX

[has-host]
host = https://example.com
";
    let config = ConfigParser::parse_str(content);
    assert_eq!(config.profiles().len(), 1);
    assert_eq!(config.profiles()[0].name, "has-host");
}

#[test]
fn list_profiles_adds_default_once() {
    let config = ConfigParser::parse_str("[a]\nhost = x\n[a]\nhost = y\n");
    assert_eq!(config.list_profiles(), vec!["a", "DEFAULT"]);
    assert_eq!(config.get_profile("a").unwrap().host, "x");
}

#[test]
fn resolve_config_normalizes_host_and_reports_missing_profile() {
    let read = ConfigFileRead::Contents("[p]\nhost = example.com/\n".to_string());
    let cfg = resolve_config("p", None, "/cfg", read).unwrap();
    assert_eq!(cfg.profile, "p");
    assert_eq!(cfg.host, "https://example.com");
    let read = ConfigFileRead::Contents("[p]\nhost = example.com\n".to_string());
    let err = resolve_config("q", None, "/cfg", read).err().unwrap();
    assert!(matches!(err, DatabricksError::Config(_)));
}

#[test]
fn resolve_config_profile_without_host() {
    let read = ConfigFileRead::Contents("[p]\nhost =\n".to_string());
    match resolve_config("p", None, "/cfg", read) {
        Err(DatabricksError::Config(m)) => assert_eq!(m, "profile 'p' has no host configured"),
        other => panic!("unexpected {other:?}"),
    }
}

// ── useragent ──────────────────────────────────────────────────────────

fn env() -> UserAgentEnvironment {
    UserAgentEnvironment {
        sdk_version: "0.1.0".to_string(),
        rust_version: "1.80.0".to_string(),
        os: "linux".to_string(),
        upstream: None,
        upstream_version: None,
        runtime_version: None,
        cicd: None,
    }
}

#[test]
fn test_basic_user_agent() {
    let ua = UserAgent::new("apx", "0.3.0-rc1").with_auth("databricks-cli");
    let s = ua.header_value(&env());
    assert!(s.starts_with("apx/0.3.0-rc1"));
    assert!(s.contains("apx-databricks-sdk-rust/"));
    assert!(s.contains("rust/"));
    assert!(s.contains("os/linux"));
    assert!(s.contains("auth/databricks-cli"));
}

#[test]
fn test_extra_fields() {
    let ua = UserAgent::new("test", "1.0.0").with_auth("pat").with_extra("custom", "value");
    let s = ua.header_value(&env());
    assert!(s.contains("custom/value"));
}

#[test]
fn test_sanitize() {
    assert_eq!(sanitize("hello world!@#"), "helloworld");
    assert_eq!(sanitize("v1.2.3-rc1+build"), "v1.2.3-rc1+build");
    assert_eq!(sanitize("some_name"), "some_name");
}

#[test]
fn test_no_auth() {
    let ua = UserAgent::new("myapp", "2.0.0");
    let s = ua.header_value(&env());
    assert!(s.starts_with("myapp/2.0.0"));
    assert!(!s.contains("auth/"));
}

#[test]
fn user_agent_full_header() {
    let mut e = env();
    e.upstream = Some("apx cli".to_string());
    e.cicd = Some("github".to_string());
    let ua = UserAgent::new("p", "1").with_auth("pat").with_extra("k", "v");
    assert_eq!(
        ua.header_value(&e),
        "p/1 apx-databricks-sdk-rust/0.1.0 rust/1.80.0 os/linux auth/pat k/v upstream/apxcli cicd/github"
    );
}

// ── apps ───────────────────────────────────────────────────────────────

fn app(state: Option<ComputeState>, url: Option<&str>) -> App {
    App {
        name: "test-app".to_string(),
        url: url.map(|u| u.to_string()),
        compute_status: state.map(|s| ComputeStatus { state: s }),
    }
}

#[test]
fn validate_app_stopped() {
    let a = app(Some(ComputeState::Stopped), Some("https://test.databricks.app"));
    assert!(validate_app(&a).is_err());
}

#[test]
fn validate_app_no_url() {
    let a = app(Some(ComputeState::Active), None);
    assert!(validate_app(&a).is_err());
}

#[test]
fn validate_app_active_with_url() {
    let a = app(Some(ComputeState::Active), Some("https://test.databricks.app"));
    let result = validate_app(&a).unwrap();
    assert_eq!(result, "https://test.databricks.app");
}

#[test]
fn validate_app_all_terminal_states() {
    for state in [ComputeState::Stopped, ComputeState::Deleting, ComputeState::Error] {
        let a = app(Some(state), Some("https://test.databricks.app"));
        assert!(validate_app(&a).is_err(), "Expected error for terminal state {:?}", state);
    }
}

#[test]
fn validate_app_non_terminal_states() {
    for state in [ComputeState::Active, ComputeState::Starting, ComputeState::Unknown] {
        let a = app(Some(state), Some("https://test.databricks.app"));
        assert!(validate_app(&a).is_ok(), "Expected Ok for non-terminal state {:?}", state);
    }
}

#[test]
fn validate_app_messages() {
    let a = app(Some(ComputeState::Deleting), Some("https://x"));
    match validate_app(&a) {
        Err(DatabricksError::Validation(m)) => {
            assert_eq!(m, "App 'test-app' is in state Deleting and cannot produce logs")
        }
        _ => panic!("expected a validation error"),
    }
    let a = app(None, Some(""));
    match validate_app(&a) {
        Err(DatabricksError::Validation(m)) => {
            assert_eq!(m, "App 'test-app' has no URL \u{2014} it may not be deployed yet")
        }
        _ => panic!("expected a validation error"),
    }
}

#[test]
fn build_ws_url_https() {
    let result = build_ws_url("https://my-app.databricks.app").unwrap();
    assert_eq!(result, "wss://my-app.databricks.app/logz/stream");
}

#[test]
fn build_ws_url_http() {
    let result = build_ws_url("http://localhost:8080").unwrap();
    assert_eq!(result, "ws://localhost:8080/logz/stream");
}

#[test]
fn build_ws_url_trailing_slash() {
    let result = build_ws_url("https://my-app.databricks.app/").unwrap();
    assert_eq!(result, "wss://my-app.databricks.app/logz/stream");
}

#[test]
fn build_ws_url_bad_scheme() {
    let result = build_ws_url("ftp://something");
    assert!(result.is_err());
}

#[test]
fn ws_target_from_parts() {
    let (s, p) = ws_target(Ok(("https".to_string(), "/a/b//".to_string()))).unwrap();
    assert_eq!(s, "wss");
    assert_eq!(p, "/a/b/logz/stream");
    match ws_target(Ok(("ftp".to_string(), "/".to_string()))) {
        Err(DatabricksError::WebSocket(m)) => assert_eq!(m, "Unexpected app URL scheme: ftp"),
        _ => panic!("expected a WebSocket error"),
    }
    match ws_target(Err("relative URL without a base".to_string())) {
        Err(DatabricksError::WebSocket(m)) => {
            assert_eq!(m, "Invalid app URL: relative URL without a base")
        }
        _ => panic!("expected a WebSocket error"),
    }
}

#[test]
fn extract_origin_basic() {
    let result = extract_origin("https://my-app.databricks.app/some/path").unwrap();
    assert_eq!(result, "https://my-app.databricks.app");
}

#[test]
fn extract_origin_with_port() {
    let result = extract_origin("http://localhost:8080/path").unwrap();
    assert_eq!(result, "http://localhost:8080");
}

#[test]
fn origin_text_ports() {
    let o = origin_text(Ok(Some(("https".to_string(), "h".to_string(), 443)))).unwrap();
    assert_eq!(o, "https://h");
    let o = origin_text(Ok(Some(("wss".to_string(), "h".to_string(), 8443)))).unwrap();
    assert_eq!(o, "wss://h:8443");
    assert!(origin_text(Ok(None)).is_err());
}

#[test]
fn tail_buffer_respects_capacity() {
    let mut buffer: VecDeque<String> = VecDeque::with_capacity(3);
    for i in 0..5 {
        push_tail(&mut buffer, format!("line {i}"), 3);
    }
    assert_eq!(buffer.len(), 3);
    assert_eq!(buffer[0], "line 2");
    assert_eq!(buffer[1], "line 3");
    assert_eq!(buffer[2], "line 4");
}

#[test]
fn tail_buffer_zero_keeps_latest() {
    let mut buffer: VecDeque<u32> = VecDeque::new();
    for i in 0..4 {
        push_tail(&mut buffer, i, 0);
    }
    assert_eq!(buffer.len(), 1);
    assert_eq!(buffer[0], 3);
}

#[test]
fn source_filtering() {
    let sources = vec!["APP".to_string()];
    assert!(source_allowed(Some(&sources), "APP"));
    assert!(!source_allowed(Some(&sources), "SYSTEM"));
    assert!(source_allowed(None, "SYSTEM"));
}

#[test]
fn source_filtering_case_insensitive() {
    let sources = vec!["app".to_string()];
    assert!(source_allowed(Some(&sources), "APP"));
    assert!(!source_allowed(Some(&sources), "APPS"));
}

#[test]
fn frame_reader_steps() {
    let (seen, act) = next_frame(false, FrameEvent::Text("x".to_string()));
    assert!(seen);
    assert!(matches!(act, FrameAction::Buffer(t) if t == "x"));
    assert!(matches!(next_frame(false, FrameEvent::IdleTimeout), (false, FrameAction::Continue)));
    assert!(matches!(next_frame(true, FrameEvent::IdleTimeout), (true, FrameAction::Stop)));
    assert!(matches!(next_frame(true, FrameEvent::Binary), (true, FrameAction::Continue)));
    assert!(matches!(next_frame(false, FrameEvent::Close), (false, FrameAction::Stop)));
    match next_frame(false, FrameEvent::ReadError("boom".to_string())).1 {
        FrameAction::Fail(DatabricksError::WebSocket(m)) => assert_eq!(m, "Failed to read frame: boom"),
        _ => panic!("expected a failure"),
    }
}

// ── serving endpoints ──────────────────────────────────────────────────

fn endpoint(state: Option<EndpointState>, config: Option<EndpointConfig>) -> ServingEndpoint {
    ServingEndpoint { name: "test".to_string(), creator: None, state, task: None, config }
}

fn entity(name: &str) -> ServedEntity {
    ServedEntity { name: Some(name.to_string()), external_model: None }
}

#[test]
fn is_ready_true_when_ready() {
    let ep = endpoint(
        Some(EndpointState { ready: Some(EndpointReadyState::Ready), config_update: None }),
        None,
    );
    assert!(ep.is_ready());
}

#[test]
fn is_ready_false_when_not_ready() {
    let ep = endpoint(
        Some(EndpointState { ready: Some(EndpointReadyState::NotReady), config_update: None }),
        None,
    );
    assert!(!ep.is_ready());
}

#[test]
fn entities_prefers_served_entities() {
    let ep = endpoint(
        None,
        Some(EndpointConfig {
            served_entities: vec![entity("primary")],
            served_models: vec![entity("fallback")],
        }),
    );
    assert_eq!(ep.entities().len(), 1);
    assert_eq!(ep.entities()[0].name.as_deref(), Some("primary"));
}

#[test]
fn entities_falls_back_to_served_models() {
    let ep = endpoint(
        None,
        Some(EndpointConfig { served_entities: vec![], served_models: vec![entity("legacy")] }),
    );
    assert_eq!(ep.entities().len(), 1);
    assert_eq!(ep.entities()[0].name.as_deref(), Some("legacy"));
}

#[test]
fn endpoint_without_state_or_config() {
    let ep = endpoint(None, None);
    assert!(!ep.is_ready());
    assert!(ep.entities().is_empty());
    assert_eq!(endpoint_path("ep-1"), "/api/2.0/serving-endpoints/ep-1");
}

// ── workspace id, auth, client ─────────────────────────────────────────

#[test]
fn workspace_id_from_host() {
    assert_eq!(
        extract_workspace_id("https://adb-1234567890123456.7.azuredatabricks.net"),
        "1234567890123456"
    );
    assert_eq!(extract_workspace_id("https://example.com"), "placeholder");
    assert_eq!(extract_workspace_id("https://a-b-c.net"), "b");
    assert_eq!(forwarded_user_header("42", "https://adb-99.1.x"), "42@99");
}

#[test]
fn token_validity_window() {
    let t = CachedToken { access_token: "tok".to_string(), expires_at_secs: 1000, expires_at_nanos: 0 };
    assert!(t.is_valid_at(959, 999_999_999));
    assert!(!t.is_valid_at(960, 0));
    assert_eq!(cached_access_token(&Some(t.clone()), 900, 0), Some("tok".to_string()));
    assert_eq!(cached_access_token(&Some(t), 2000, 0), None);
    assert_eq!(cached_access_token(&None, 0, 0), None);
}

#[test]
fn token_from_cli_response() {
    let resp = CliTokenResponse {
        access_token: "abc".to_string(),
        token_type: "Bearer".to_string(),
        expiry: "2024-01-01T00:00:00Z".to_string(),
    };
    let t = CachedToken::from_response(resp).unwrap();
    assert_eq!(t.access_token, "abc");
    assert_eq!(t.expires_at_secs, 1_704_067_200);
    let bad = CliTokenResponse {
        access_token: "abc".to_string(),
        token_type: "Bearer".to_string(),
        expiry: "tomorrow".to_string(),
    };
    match CachedToken::from_response(bad) {
        Err(DatabricksError::Auth(m)) => assert!(m.starts_with("failed to parse token expiry 'tomorrow': ")),
        _ => panic!("expected an auth error"),
    }
}

#[test]
fn cli_failure_message() {
    match cli_failure(Some(2), "  oops \n") {
        DatabricksError::Auth(m) => assert_eq!(m, "databricks auth token failed (exit 2): oops"),
        _ => panic!("expected an auth error"),
    }
    match cli_failure(None, "") {
        DatabricksError::Auth(m) => assert_eq!(m, "databricks auth token failed (exit -1): "),
        _ => panic!("expected an auth error"),
    }
}

#[test]
fn client_pieces() {
    let cfg = DatabricksConfig {
        profile: "p".to_string(),
        host: "https://h".to_string(),
        product: None,
        product_version: None,
    };
    let ua = user_agent_for(&cfg);
    assert!(ua.header_value(&env()).starts_with("unknown/0.0.0 "));
    assert!(ua.header_value(&env()).contains(" auth/databricks-cli"));
    assert_eq!(request_url("https://h", "/api/2.0/x"), "https://h/api/2.0/x");
    assert!(status_is_success(204));
    assert!(!status_is_success(404));
    match api_error(404, None) {
        DatabricksError::Api { status, message, body } => {
            assert_eq!(status, 404);
            assert_eq!(message, "(no response body)");
            assert!(body.is_none());
        }
        _ => panic!("expected an API error"),
    }
}

#[test]
fn error_messages() {
    assert_eq!(DatabricksError::Auth("x".to_string()).message(), "authentication error: x");
    let e = DatabricksError::Api { status: 500, message: "m".to_string(), body: None };
    assert_eq!(e.message(), "API error (HTTP 500): m");
}

#[test]
fn stray_bracket_line_is_ignored() {
    let config = ConfigParser::parse_str("[a]\n  [  \nhost = x\n]\n");
    assert_eq!(config.profiles().len(), 1);
    assert_eq!(config.profiles()[0].name, "a");
    assert_eq!(config.profiles()[0].host, "x");
}

#[test]
fn client_config_and_headers() {
    let cfg = DatabricksConfig {
        profile: "p".to_string(),
        host: "https://h".to_string(),
        product: None,
        product_version: None,
    };
    let cfg = apx::sdk::client::config_with_product(cfg, "apx", "1.2");
    assert_eq!(cfg.product.as_deref(), Some("apx"));
    assert!(user_agent_for(&cfg).header_value(&env()).starts_with("apx/1.2 "));
    assert_eq!(apx::sdk::client::bearer_header("t"), "Bearer t");
    assert_eq!(apx::sdk::client::current_user_path(), "/api/2.0/preview/scim/v2/Me");
}

#[test]
fn token_validity_by_the_system_clock() {
    let far = CachedToken { access_token: "a".to_string(), expires_at_secs: i64::MAX, expires_at_nanos: 0 };
    assert!(far.is_valid());
    let past = CachedToken { access_token: "a".to_string(), expires_at_secs: 0, expires_at_nanos: 0 };
    assert!(!past.is_valid());
}

#[test]
fn token_validity_by_a_clock_reading() {
    let t = CachedToken { access_token: "a".to_string(), expires_at_secs: 100, expires_at_nanos: 0 };
    assert!(t.is_valid_by_clock(Some((0, 0))));
    assert!(t.is_valid_by_clock(Some((59, 999_999_999))));
    assert!(!t.is_valid_by_clock(Some((60, 0))));
    assert!(!t.is_valid_by_clock(None));
    assert!(!t.is_valid_by_clock(Some((u64::MAX, 0))));
}
