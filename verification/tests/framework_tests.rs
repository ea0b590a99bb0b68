use apx::framework::app_discovery::{self, convert_param_info, route_has_body_param, split_qualified_name};
use apx::framework::asgi::{
    asgi_event_type, classify_after_start, error_response, hex_val, outbound_response_head,
    percent_decode, recv_response_start, response_status, AsgiEvent, AsgiEventType,
    BodyStreamState, ResponseBodyKind, StreamPoll,
};
use apx::framework::bench_trace::RequestTraceBuilder;
use apx::framework::discovery::{
    self, http_method_str, parse_http_method, parse_param_source, parse_response_type,
    DiscoveryError,
};
use apx::framework::error::{find_in_error_chain, AppError, BodyParseKind};
use apx::framework::extract::{
    extract_cookie_value, extract_header_value, extract_path_value, extract_query_value,
    find_cookie, parse_bool, scalar_kind, ExtractError, ScalarConversion, ScalarKind,
};
use apx::framework::lifespan::{
    classify_send_event, receive_step, send_outcome, LifespanPhase, ReceiveAction, ReceiveState,
    SendEvent,
};
use apx::framework::plan::{step_key, DependencyStep, ResolvedKwargs};
use apx::framework::route::{HttpMethod, ParamInfo, ParamSource, ResponseType};

// ── discovery (App instance) ───────────────────────────────────────────

#[test]
fn discovery_parse_param_source_path() {
    assert_eq!(app_discovery::parse_param_source("path").unwrap(), ParamSource::Path);
}

#[test]
fn discovery_parse_param_source_query() {
    assert_eq!(app_discovery::parse_param_source("query").unwrap(), ParamSource::Query);
}

#[test]
fn discovery_parse_param_source_header() {
    assert_eq!(app_discovery::parse_param_source("header").unwrap(), ParamSource::Header);
}

#[test]
fn discovery_parse_param_source_cookie() {
    assert_eq!(app_discovery::parse_param_source("cookie").unwrap(), ParamSource::Cookie);
}

#[test]
fn discovery_parse_param_source_body() {
    assert_eq!(app_discovery::parse_param_source("body").unwrap(), ParamSource::Body);
}

#[test]
fn discovery_parse_param_source_raw_body() {
    assert_eq!(app_discovery::parse_param_source("raw_body").unwrap(), ParamSource::RawBody);
}

#[test]
fn discovery_parse_param_source_raw_request() {
    assert_eq!(
        app_discovery::parse_param_source("raw_request").unwrap(),
        ParamSource::RawRequest
    );
}

#[test]
fn discovery_parse_param_source_unknown() {
    let err = app_discovery::parse_param_source("unknown").unwrap_err();
    assert!(matches!(err, app_discovery::DiscoveryError::InvalidRoute(_)));
    let msg = err.message();
    assert!(msg.contains("unknown"));
}

#[test]
fn discovery_parse_response_type_model_valid() {
    let rt = app_discovery::parse_response_type("model:backend.models.Item").unwrap();
    match rt {
        ResponseType::Model { qualname, json_schema, status_code } => {
            assert_eq!(qualname.as_str(), "backend.models.Item");
            assert!(json_schema.is_none());
            assert_eq!(status_code, 200);
        }
        _ => panic!("expected Model"),
    }
}

#[test]
fn discovery_parse_response_type_model_invalid_qualname() {
    let err = app_discovery::parse_response_type("model:").unwrap_err();
    assert!(matches!(err, app_discovery::DiscoveryError::InvalidRoute(_)));
}

#[test]
fn discovery_parse_response_type_raw_fallback() {
    let rt = app_discovery::parse_response_type("raw_response").unwrap();
    assert!(matches!(rt, ResponseType::RawResponse));
}

#[test]
fn discovery_parse_response_type_anything_else_is_raw() {
    let rt = app_discovery::parse_response_type("something_else").unwrap();
    assert!(matches!(rt, ResponseType::RawResponse));
}

#[test]
fn convert_param_info_valid() {
    let param = ParamInfo {
        name: "item_id".to_owned(),
        type_qualname: "int".to_owned(),
        source: "path".to_owned(),
        required: true,
    };
    let manifest = convert_param_info(&param).unwrap();
    assert_eq!(manifest.name, "item_id");
    assert_eq!(manifest.type_qualname.as_str(), "int");
    assert_eq!(manifest.source, ParamSource::Path);
    assert!(manifest.required);
}

#[test]
fn convert_param_info_invalid_qualname() {
    let param = ParamInfo {
        name: "bad".to_owned(),
        type_qualname: String::new(),
        source: "path".to_owned(),
        required: true,
    };
    let err = convert_param_info(&param).unwrap_err();
    assert!(matches!(err, app_discovery::DiscoveryError::InvalidRoute(_)));
}

#[test]
fn convert_param_info_invalid_source() {
    let param = ParamInfo {
        name: "x".to_owned(),
        type_qualname: "int".to_owned(),
        source: "nonsense".to_owned(),
        required: false,
    };
    let err = convert_param_info(&param).unwrap_err();
    assert!(matches!(err, app_discovery::DiscoveryError::InvalidRoute(_)));
}

#[test]
fn discovery_discovery_error_display_python() {
    let err = app_discovery::DiscoveryError::Python("import failed".to_owned());
    assert!(err.message().contains("import failed"));
}

#[test]
fn discovery_discovery_error_display_no_app() {
    let err = app_discovery::DiscoveryError::NoApp("backend.app".to_owned());
    let msg = err.message();
    assert!(msg.contains("backend.app"));
    assert_eq!(msg, "no App instance found in module 'backend.app'");
}

#[test]
fn discovery_discovery_error_display_invalid_route() {
    let err = app_discovery::DiscoveryError::InvalidRoute("bad path".to_owned());
    assert!(err.message().contains("bad path"));
}

#[test]
fn split_qualified_name_cases() {
    let (m, c) = split_qualified_name("backend.app.ItemCreate").unwrap();
    assert_eq!(m, "backend.app");
    assert_eq!(c, "ItemCreate");
    let err = split_qualified_name("int").unwrap_err();
    assert_eq!(err.message(), "invalid route: qualified name 'int' has no module component");
}

#[test]
fn body_params_are_detected() {
    let p = |source: &str| {
        convert_param_info(&ParamInfo {
            name: "x".to_owned(),
            type_qualname: "int".to_owned(),
            source: source.to_owned(),
            required: true,
        })
        .unwrap()
    };
    assert!(!route_has_body_param(&[p("path"), p("query")]));
    assert!(route_has_body_param(&[p("path"), p("raw_request")]));
    assert!(!route_has_body_param(&[]));
}

// ── discovery (FastAPI) ────────────────────────────────────────────────

#[test]
fn mod_parse_param_source_path() {
    assert_eq!(parse_param_source("path").unwrap(), ParamSource::Path);
}

#[test]
fn mod_parse_param_source_query() {
    assert_eq!(parse_param_source("query").unwrap(), ParamSource::Query);
}

#[test]
fn mod_parse_param_source_header() {
    assert_eq!(parse_param_source("header").unwrap(), ParamSource::Header);
}

#[test]
fn mod_parse_param_source_cookie() {
    assert_eq!(parse_param_source("cookie").unwrap(), ParamSource::Cookie);
}

#[test]
fn mod_parse_param_source_body() {
    assert_eq!(parse_param_source("body").unwrap(), ParamSource::Body);
}

#[test]
fn mod_parse_param_source_raw_body() {
    assert_eq!(parse_param_source("raw_body").unwrap(), ParamSource::RawBody);
}

#[test]
fn mod_parse_param_source_raw_request() {
    assert_eq!(parse_param_source("raw_request").unwrap(), ParamSource::RawRequest);
}

#[test]
fn mod_parse_param_source_unknown() {
    let err = parse_param_source("unknown").unwrap_err();
    assert!(matches!(err, DiscoveryError::InvalidRoute(_)));
    assert!(err.message().contains("unknown"));
}

#[test]
fn mod_parse_response_type_model_valid() {
    let rt = parse_response_type("model:backend.models.Item").unwrap();
    match rt {
        ResponseType::Model { qualname, json_schema, status_code } => {
            assert_eq!(qualname.as_str(), "backend.models.Item");
            assert!(json_schema.is_none());
            assert_eq!(status_code, 200);
        }
        _ => panic!("expected Model"),
    }
}

#[test]
fn mod_parse_response_type_model_invalid_qualname() {
    let err = parse_response_type("model:").unwrap_err();
    assert!(matches!(err, DiscoveryError::InvalidRoute(_)));
}

#[test]
fn mod_parse_response_type_raw_fallback() {
    let rt = parse_response_type("raw_response").unwrap();
    assert!(matches!(rt, ResponseType::RawResponse));
}

#[test]
fn mod_parse_response_type_anything_else_is_raw() {
    let rt = parse_response_type("something_else").unwrap();
    assert!(matches!(rt, ResponseType::RawResponse));
}

#[test]
fn parse_http_method_all_valid() {
    assert_eq!(parse_http_method("GET").unwrap(), HttpMethod::Get);
    assert_eq!(parse_http_method("POST").unwrap(), HttpMethod::Post);
    assert_eq!(parse_http_method("PUT").unwrap(), HttpMethod::Put);
    assert_eq!(parse_http_method("DELETE").unwrap(), HttpMethod::Delete);
    assert_eq!(parse_http_method("PATCH").unwrap(), HttpMethod::Patch);
}

#[test]
fn parse_http_method_unknown() {
    let err = parse_http_method("OPTIONS").unwrap_err();
    assert!(matches!(err, DiscoveryError::InvalidRoute(_)));
    assert_eq!(err.message(), "invalid route: unknown HTTP method: OPTIONS");
}

#[test]
fn http_method_str_roundtrip() {
    for m in [HttpMethod::Get, HttpMethod::Post, HttpMethod::Put, HttpMethod::Delete, HttpMethod::Patch] {
        let s = http_method_str(m);
        assert_eq!(parse_http_method(s).unwrap(), m);
    }
}

#[test]
fn mod_discovery_error_display_python() {
    let err = DiscoveryError::Python("import failed".to_owned());
    assert!(err.message().contains("import failed"));
}

#[test]
fn mod_discovery_error_display_no_app() {
    let err = DiscoveryError::NoApp("backend.app".to_owned());
    let msg = err.message();
    assert!(msg.contains("backend.app"));
    assert_eq!(msg, "no FastAPI instance found in module 'backend.app'");
}

#[test]
fn mod_discovery_error_display_invalid_route() {
    let err = DiscoveryError::InvalidRoute("bad path".to_owned());
    assert!(err.message().contains("bad path"));
}

#[test]
fn fastapi_response_type_error_message() {
    match discovery::parse_response_type("model:") {
        Err(e) => assert_eq!(
            e.message(),
            "invalid route: response model '': qualified name must not be empty"
        ),
        Ok(_) => panic!("expected an error"),
    }
}

// ── errors ─────────────────────────────────────────────────────────────

#[test]
fn body_parse_kind_messages_are_safe() {
    let msg = BodyParseKind::InvalidJson.detail();
    assert!(!msg.contains("hyper"));
    assert!(!msg.contains("axum"));
}

#[test]
fn app_error_internal_does_not_leak() {
    let err = AppError::Internal("secret db password: hunter2".to_owned());
    let detail = err.client_detail();
    assert_eq!(detail.as_deref(), Some("An unexpected error occurred"));
}

#[test]
fn app_error_status_codes() {
    assert_eq!(
        AppError::Validation(vec![]).status_code(),
        http::StatusCode::UNPROCESSABLE_ENTITY.as_u16()
    );
    assert_eq!(
        AppError::Internal("x".to_owned()).status_code(),
        http::StatusCode::INTERNAL_SERVER_ERROR.as_u16()
    );
    assert_eq!(AppError::Timeout.status_code(), http::StatusCode::REQUEST_TIMEOUT.as_u16());
    assert_eq!(
        AppError::BodyParse(BodyParseKind::BodyTooLarge).status_code(),
        http::StatusCode::BAD_REQUEST.as_u16()
    );
}

#[test]
fn body_parse_kind_detail_too_large() {
    let msg = BodyParseKind::BodyTooLarge.detail();
    assert!(msg.contains("maximum allowed size"));
}

#[test]
fn body_parse_kind_detail_unsupported_content_type() {
    let msg = BodyParseKind::UnsupportedContentType.detail();
    assert!(msg.contains("application/json"));
}

#[test]
fn client_detail_timeout() {
    let detail = AppError::Timeout.client_detail();
    assert!(detail.unwrap().contains("processing time"));
}

#[test]
fn client_detail_validation() {
    let detail = AppError::Validation(vec![]).client_detail();
    assert!(detail.unwrap().contains("validation failed"));
}

#[test]
fn client_detail_body_parse_variants() {
    let detail = AppError::BodyParse(BodyParseKind::InvalidJson).client_detail();
    assert!(detail.unwrap().contains("not valid JSON"));
    let detail = AppError::BodyParse(BodyParseKind::BodyTooLarge).client_detail();
    assert!(detail.unwrap().contains("maximum allowed size"));
    let detail = AppError::BodyParse(BodyParseKind::UnsupportedContentType).client_detail();
    assert!(detail.unwrap().contains("application/json"));
}

#[test]
fn find_in_error_chain_not_found() {
    assert!(find_in_error_chain(&[]).is_none());
    assert!(find_in_error_chain(&[false, false]).is_none());
}

#[test]
fn find_in_error_chain_positive() {
    assert_eq!(find_in_error_chain(&[true]), Some(0));
}

#[test]
fn find_in_error_chain_depth_two() {
    assert_eq!(find_in_error_chain(&[false, true]), Some(1));
}

#[test]
fn find_in_error_chain_stops_at_depth_limit() {
    let mut chain = vec![false; 10];
    chain.push(true);
    assert!(find_in_error_chain(&chain).is_none());
}

#[test]
fn into_response_internal() {
    let p = AppError::Internal("secret".to_owned()).problem_detail();
    assert_eq!(p.status, 500);
    assert_eq!(p.problem_type, "about:blank");
    assert_eq!(p.detail.as_deref(), Some("An unexpected error occurred"));
    assert!(!p.title.contains("secret"));
    assert!(p.errors.is_empty());
}

#[test]
fn into_response_timeout() {
    let p = AppError::Timeout.problem_detail();
    assert_eq!(p.status, 408);
    assert_eq!(p.title, "Request Timeout");
}

#[test]
fn into_response_validation() {
    let item = apx::framework::error::ValidationErrorItem {
        loc: vec!["body".to_owned(), "name".to_owned()],
        msg: "Field required".to_owned(),
        error_type: "missing".to_owned(),
    };
    let p = AppError::Validation(vec![item]).problem_detail();
    assert_eq!(p.status, 422);
    assert_eq!(p.errors.len(), 1);
}

// ── ASGI rules ─────────────────────────────────────────────────────────

#[test]
fn dispatch_error_response_internal() {
    let (status, body) = error_response(&AppError::Internal("db connection failed".to_owned()));
    assert_eq!(status, http::StatusCode::INTERNAL_SERVER_ERROR.as_u16());
    assert_eq!(body, "Internal Server Error");
}

#[test]
fn dispatch_error_response_timeout() {
    let (status, body) = error_response(&AppError::Timeout);
    assert_eq!(status, http::StatusCode::REQUEST_TIMEOUT.as_u16());
    assert_eq!(body, "request timeout");
}

#[test]
fn asgi_dispatch_error_response_internal() {
    let (status, body) = error_response(&AppError::Internal("db connection failed".to_owned()));
    assert_eq!(status, 500);
    assert_eq!(body.as_bytes(), b"Internal Server Error");
}

#[test]
fn asgi_dispatch_error_response_timeout() {
    let (status, body) = error_response(&AppError::Timeout);
    assert_eq!(status, 408);
    assert_eq!(body.as_bytes(), b"request timeout");
}

#[test]
fn recv_response_start_success() {
    let ev = AsgiEvent::ResponseStart { status: 201, headers: vec![(b"x-custom".to_vec(), b"val".to_vec())] };
    let (status, headers) = recv_response_start(Some(ev)).unwrap();
    assert_eq!(status, 201);
    assert_eq!(headers[0].1, b"val".to_vec());
}

#[test]
fn recv_response_start_body_before_start() {
    let ev = AsgiEvent::response_body(b"oops".to_vec(), Some(false));
    assert!(recv_response_start(Some(ev)).is_err());
}

#[test]
fn recv_response_start_channel_closed() {
    assert!(recv_response_start(None).is_err());
}

#[test]
fn classify_fixed_single_body() {
    let ev = AsgiEvent::response_body(b"hello".to_vec(), Some(false));
    match classify_after_start(200, Some(ev)).unwrap() {
        (200, ResponseBodyKind::Fixed(b)) => assert_eq!(b, b"hello".to_vec()),
        _ => panic!("expected a fixed body"),
    }
}

#[test]
fn classify_streaming_body() {
    let ev = AsgiEvent::response_body(b"chunk".to_vec(), Some(true));
    assert!(matches!(classify_after_start(200, Some(ev)).unwrap(), (200, ResponseBodyKind::Stream(_))));
}

#[test]
fn classify_empty_body_channel_closed() {
    match classify_after_start(1000, None).unwrap() {
        (500, ResponseBodyKind::Fixed(b)) => assert!(b.is_empty()),
        _ => panic!("expected an empty fixed body with status 500"),
    }
}

#[test]
fn classify_missing_response_start() {
    assert!(classify_after_start(200, Some(AsgiEvent::ws_close(None))).is_err());
}

#[test]
fn asgi_body_stream_multiple_chunks() {
    let mut s = BodyStreamState::new(None);
    assert!(matches!(s.poll_local(), StreamPoll::Wait));
    let c1 = s.on_event(Some(AsgiEvent::response_body(b"hel".to_vec(), Some(true))));
    assert!(matches!(c1, StreamPoll::Chunk(b) if b == b"hel".to_vec()));
    let c2 = s.on_event(Some(AsgiEvent::response_body(b"lo".to_vec(), None)));
    assert!(matches!(c2, StreamPoll::Chunk(b) if b == b"lo".to_vec()));
    assert!(matches!(s.poll_local(), StreamPoll::End));
}

#[test]
fn asgi_body_stream_initial_chunk() {
    let mut s = BodyStreamState::new(Some(b"world".to_vec()));
    assert!(matches!(s.poll_local(), StreamPoll::Chunk(b) if b == b"world".to_vec()));
    assert!(matches!(s.poll_local(), StreamPoll::Wait));
    assert!(matches!(s.on_event(None), StreamPoll::End));
    assert!(matches!(s.poll_local(), StreamPoll::End));
}

#[test]
fn event_types_and_defaults() {
    assert_eq!(asgi_event_type("http.response.start").unwrap(), AsgiEventType::ResponseStart);
    assert_eq!(asgi_event_type("websocket.close").unwrap(), AsgiEventType::WsClose);
    assert_eq!(asgi_event_type("bogus").unwrap_err(), "unsupported ASGI event type: bogus");
    assert!(matches!(AsgiEvent::ws_close(None), AsgiEvent::WsClose { code: 1000 }));
    assert!(matches!(AsgiEvent::ws_close(Some(4001)), AsgiEvent::WsClose { code: 4001 }));
}

#[test]
fn build_outbound_response_json() {
    let (s, ct) = outbound_response_head(200, 11);
    assert_eq!(s, 200);
    assert_eq!(ct, Some("application/json"));
}

#[test]
fn build_outbound_response_empty() {
    let (s, ct) = outbound_response_head(204, 0);
    assert_eq!(s, 204);
    assert!(ct.is_none());
    assert_eq!(response_status(42), 500);
}

#[test]
fn percent_decoding() {
    assert_eq!(percent_decode("hello%20world"), "hello world");
    assert_eq!(percent_decode("plain"), "plain");
    assert_eq!(percent_decode("bad%zzhex"), "bad%zzhex");
    assert_eq!(percent_decode("trail%4"), "trail%4");
    assert_eq!(percent_decode("%C3%A9t%C3%A9"), "\u{e9}t\u{e9}");
    assert_eq!(percent_decode("%FF"), "%FF");
    assert_eq!(hex_val(b'a'), Some(10));
    assert_eq!(hex_val(b'F'), Some(15));
    assert_eq!(hex_val(b'g'), None);
}

// ── lifespan ───────────────────────────────────────────────────────────

#[test]
fn lifespan_receive_sequence() {
    let (s1, a1) = receive_step(ReceiveState::Startup);
    assert_eq!(a1, ReceiveAction::Startup);
    let (s2, a2) = receive_step(s1);
    assert_eq!(a2, ReceiveAction::AwaitShutdown);
    let (s3, a3) = receive_step(s2);
    assert_eq!(a3, ReceiveAction::Pend);
    assert_eq!(s3, ReceiveState::Done);
}

#[test]
fn lifespan_send_events() {
    let ev = classify_send_event("lifespan.startup.failed", Some("boom".to_owned())).unwrap();
    let (phase, result) = send_outcome(ev);
    assert_eq!(phase, LifespanPhase::Startup);
    assert_eq!(result, "failed:boom");
    let ev = classify_send_event("lifespan.shutdown.complete", None).unwrap();
    assert!(matches!(ev, SendEvent::ShutdownComplete));
    assert_eq!(send_outcome(ev), (LifespanPhase::Shutdown, "complete".to_owned()));
    assert_eq!(
        classify_send_event("lifespan.other", None).err().unwrap(),
        "unsupported lifespan event type: lifespan.other"
    );
}

// ── parameter lookup ───────────────────────────────────────────────────

fn pairs(p: &[(&str, &str)]) -> Vec<(String, String)> {
    p.iter().map(|(k, v)| (k.to_string(), v.to_string())).collect()
}

#[test]
fn path_and_query_lookup() {
    let pp = pairs(&[("id", "1"), ("id", "2")]);
    assert_eq!(extract_path_value(&pp, "id", true).unwrap(), Some("1"));
    assert_eq!(extract_query_value(&pp, "id", true).unwrap(), Some("2"));
    assert_eq!(extract_path_value(&pp, "x", false).unwrap(), None);
    match extract_path_value(&pp, "x", true) {
        Err(ExtractError::BadRequest(m)) => assert_eq!(m, "missing path parameter: x"),
        _ => panic!("expected a bad request"),
    }
    match extract_query_value(&pp, "q", true) {
        Err(ExtractError::Validation(items)) => {
            assert_eq!(items[0].loc, vec!["query".to_owned(), "q".to_owned()]);
            assert_eq!(items[0].msg, "Field required");
            assert_eq!(items[0].error_type, "missing");
        }
        _ => panic!("expected a validation error"),
    }
}

#[test]
fn header_lookup() {
    assert_eq!(extract_header_value(Some(b"abc\tdef"), "x-a", true).unwrap(), Some("abc\tdef".to_owned()));
    match extract_header_value(Some(&[0xC3, 0xA9]), "x-a", true) {
        Err(ExtractError::BadRequest(m)) => assert_eq!(m, "header 'x-a' contains non-ASCII characters"),
        _ => panic!("expected a bad request"),
    }
    match extract_header_value(None, "x-a", true) {
        Err(ExtractError::Validation(items)) => assert_eq!(items[0].msg, "missing required header: x-a"),
        _ => panic!("expected a validation error"),
    }
    assert_eq!(extract_header_value(None, "x-a", false).unwrap(), None);
}

#[test]
fn cookie_lookup() {
    assert_eq!(find_cookie("a=1; session = abc ;b=2", "session"), Some("abc".to_owned()));
    assert_eq!(find_cookie("a=1;a=2", "a"), Some("1".to_owned()));
    assert_eq!(find_cookie("novalue; x=", "x"), Some(String::new()));
    assert_eq!(find_cookie("", "a"), None);
    match extract_cookie_value(None, "sid", true) {
        Err(ExtractError::Validation(items)) => assert_eq!(items[0].msg, "missing required cookie: sid"),
        _ => panic!("expected a validation error"),
    }
    assert_eq!(extract_cookie_value(Some("sid=9"), "sid", true).unwrap(), Some("9".to_owned()));
}

#[test]
fn scalar_rules() {
    assert_eq!(ScalarConversion::from_type_name("int"), ScalarConversion::Int);
    assert_eq!(ScalarConversion::from_type_name("bool"), ScalarConversion::Str);
    match ScalarConversion::Int.conversion_error("abc") {
        ExtractError::BadRequest(m) => assert_eq!(m, "path param is not a valid integer: abc"),
        _ => panic!("expected a bad request"),
    }
    assert_eq!(scalar_kind("bool"), ScalarKind::Bool);
    assert_eq!(scalar_kind("str"), ScalarKind::Str);
    assert!(parse_bool("true") && parse_bool("True") && parse_bool("1") && parse_bool("yes"));
    assert!(!parse_bool("false") && !parse_bool("TRUE"));
}

// ── plan ───────────────────────────────────────────────────────────────

#[test]
fn resolved_kwargs_populated() {
    let mut kw: ResolvedKwargs<u32> = ResolvedKwargs::with_capacity(2);
    kw.insert("a".to_owned(), 1);
    kw.insert("b".to_owned(), 2);
    assert!(kw.contains_key("a"));
    assert_eq!(kw.get("b"), Some(&2));
    assert_eq!(kw.get("c"), None);
    let vs = kw.values_for(&["b".to_owned(), "a".to_owned()]).unwrap();
    assert_eq!(vs, vec![&2, &1]);
}

#[test]
fn resolved_kwargs_missing_input() {
    let mut kw: ResolvedKwargs<u32> = ResolvedKwargs::with_capacity(1);
    kw.insert("a".to_owned(), 1);
    match kw.values_for(&["a".to_owned(), "zz".to_owned()]) {
        Err(AppError::Internal(m)) => assert_eq!(m, "kwarg 'zz' not resolved by plan"),
        _ => panic!("expected an internal error"),
    }
}

#[test]
fn plan_step_keys() {
    let s = DependencyStep::ResolveLifecycle { dep_qualname: "m.dep".to_owned(), target_kwarg: "db".to_owned() };
    assert_eq!(step_key(&s, false).unwrap(), "db");
    let c = DependencyStep::CallPython { target_kwarg: "u".to_owned(), inputs: vec![], is_async: false };
    assert_eq!(step_key(&c, true).unwrap(), "u");
    assert!(step_key(&c, false).is_err());
    match step_key(&DependencyStep::ResolveNative, true) {
        Err(AppError::Internal(m)) => assert_eq!(m, "native dependency resolution not yet supported"),
        _ => panic!("expected an internal error"),
    }
}

// ── bench trace ────────────────────────────────────────────────────────

#[test]
fn test_request_trace_serializes() {
    let trace = RequestTraceBuilder::new("GET".to_owned(), "/api/echo".to_owned())
        .body_collect(10)
        .gil_acquire(20)
        .scope_build(30)
        .app_call(40)
        .submit(50)
        .response_wait(60)
        .build(210, 200);
    assert_eq!(trace.record_type, "rust_req");
    assert_eq!(trace.method, "GET");
    assert_eq!(trace.path, "/api/echo");
    assert_eq!(trace.status, 200);
    assert_eq!(trace.total_us, 210);
    assert_eq!(trace.body_collect_us, 10);
    assert_eq!(trace.submit_us, 50);
}
