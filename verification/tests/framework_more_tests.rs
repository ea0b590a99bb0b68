use apx::framework::binding::{request_scheme, response_error_type};
use apx::framework::plan::{resolve_lifecycle, LifecycleCache, PlanExecutorDispatch};
use std::sync::Arc;
use apx::framework::asgi::{receive_event, ws_receive_event, ReceiveBody, WsIncomingEvent};
use apx::framework::binding::{
    adapter_source, bind_targets, body_validator_names, bound_strategy, dispatch_for,
    infra_error_response, AdapterSource, DispatchStrategy, Dispatcher, EndpointKey, RouteKey,
};
use apx::framework::direct::{
    classify_handler_error, convert_scalar, find_cookie_direct, parse_i64, query_param,
    result_status, wire_name, DirectScalar, HandlerFailure,
};
use apx::framework::discovery::{
    handler_kind_for, module_qualname, response_type_for, route_methods, HandlerKind,
    RouteMetadata,
};
use apx::framework::error::AppError;
use apx::framework::event_loop::{schedule_check, task_outcome, OnceSlot};
use apx::framework::route::{HttpMethod, ParamInfo, QualName, ResponseType};
use apx::framework::scheduling::{
    classify_yielded, drain_step, driver_thread_name, take_last, thread_ids_after_spawns, AwaitableKind,
    DrainAction, DrainPhase,
};
use apx::framework::scope::{http_scope, ws_scope, ProtocolVersion, ScopeRequest};

#[test]
fn parse_i64_matches_std() {
    for s in [
        "0", "42", "-42", "+7", "9223372036854775807", "-9223372036854775808",
        "9223372036854775808", "-9223372036854775809", "", "-", "+", "12a", " 1", "--1", "+-1",
        "007", "99999999999999999999999",
    ] {
        assert_eq!(parse_i64(s), s.parse::<i64>().ok(), "input {s:?}");
    }
}

#[test]
fn convert_scalar_int() {
    assert!(matches!(convert_scalar("42", "int").unwrap(), DirectScalar::Int(42)));
}

#[test]
fn convert_scalar_str() {
    assert!(matches!(convert_scalar("hello", "str").unwrap(), DirectScalar::Str(s) if s == "hello"));
}

#[test]
fn convert_scalar_float() {
    match convert_scalar("2.72", "float").unwrap() {
        DirectScalar::Float(t) => assert!((t.parse::<f64>().unwrap() - 2.72).abs() < f64::EPSILON),
        _ => panic!("expected a float"),
    }
}

#[test]
fn convert_scalar_bool_true() {
    assert!(matches!(convert_scalar("true", "bool").unwrap(), DirectScalar::Bool(true)));
}

#[test]
fn convert_scalar_bool_false() {
    assert!(matches!(convert_scalar("false", "bool").unwrap(), DirectScalar::Bool(false)));
}

#[test]
fn convert_scalar_invalid_int() {
    assert!(convert_scalar("abc", "int").is_err());
}

#[test]
fn direct_cookie_lookup() {
    assert_eq!(find_cookie_direct("a=1; sid= x ", "sid"), Some("x".to_owned()));
    assert_eq!(find_cookie_direct("a=1;sid=2", "sid"), None);
    assert_eq!(find_cookie_direct("", "sid"), None);
    assert_eq!(find_cookie_direct("sid=1; sid=2", "sid"), Some("1".to_owned()));
}

#[test]
fn direct_query_lookup() {
    assert_eq!(query_param(b"a=1&b=hello%20world&a=2", "b"), Some("hello world".to_owned()));
    assert_eq!(query_param(b"a=1&a=2", "a"), Some("1".to_owned()));
    assert_eq!(query_param(b"q=a+b", "q"), Some("a b".to_owned()));
    assert_eq!(query_param(b"", "a"), None);
    let alias = Some("x-id".to_owned());
    assert_eq!(wire_name("id", &alias), "x-id");
    assert_eq!(wire_name("id", &None), "id");
}

#[test]
fn result_status_rules() {
    let model = ResponseType::Model { qualname: QualName::new("m.M").unwrap(), json_schema: None, status_code: 201 };
    assert_eq!(result_status(true, &model), 201);
    assert_eq!(result_status(false, &model), 201);
    assert_eq!(result_status(true, &ResponseType::RawResponse), 204);
    assert_eq!(result_status(false, &ResponseType::RawResponse), 200);
}

#[test]
fn handler_error_rules() {
    match classify_handler_error(true, None, None, "x".to_owned()) {
        HandlerFailure::Http { status, detail } => {
            assert_eq!(status, 500);
            assert_eq!(detail, "Internal Server Error");
        }
        _ => panic!("expected an HTTP failure"),
    }
    assert!(matches!(classify_handler_error(false, Some(404), None, "boom".to_owned()), HandlerFailure::Internal(m) if m == "boom"));
}

#[test]
fn binding_rules() {
    let routes = vec![
        RouteKey { websocket: false, path: "/a".to_owned(), method: HttpMethod::Get },
        RouteKey { websocket: true, path: "/ws".to_owned(), method: HttpMethod::Get },
    ];
    let endpoints = vec![
        EndpointKey { path: "/a".to_owned(), methods: vec!["GET".to_owned(), "HEAD".to_owned()] },
        EndpointKey { path: "/a".to_owned(), methods: vec!["GET".to_owned()] },
    ];
    let ws = vec!["/ws".to_owned()];
    assert_eq!(bind_targets(&routes, &endpoints, &ws).unwrap(), vec![1, 0]);
    let missing = vec![RouteKey { websocket: false, path: "/b".to_owned(), method: HttpMethod::Post }];
    let err = bind_targets(&missing, &endpoints, &ws).unwrap_err();
    assert_eq!(err.message(), "invalid route: handler not found for POST /b");
    let missing_ws = vec![RouteKey { websocket: true, path: "/x".to_owned(), method: HttpMethod::Get }];
    assert_eq!(
        bind_targets(&missing_ws, &endpoints, &ws).unwrap_err().message(),
        "invalid route: ws handler not found for /x"
    );
    assert_eq!(bound_strategy(DispatchStrategy::Direct, false), DispatchStrategy::AsgiBridge);
    assert_eq!(bound_strategy(DispatchStrategy::Direct, true), DispatchStrategy::Direct);
    assert_eq!(DispatchStrategy::default_strategy(), DispatchStrategy::AsgiBridge);
}

#[test]
fn dispatch_for_asgi_bridge() {
    assert_eq!(dispatch_for(DispatchStrategy::AsgiBridge), Dispatcher::AsgiBridge);
}

#[test]
fn dispatch_for_direct() {
    assert_eq!(dispatch_for(DispatchStrategy::Direct), Dispatcher::Direct);
}

#[test]
fn dispatch_for_default_is_asgi_bridge() {
    assert_eq!(dispatch_for(DispatchStrategy::default_strategy()), Dispatcher::AsgiBridge);
}

#[test]
fn handle_infra_error_timeout() {
    assert_eq!(infra_error_response(true).0, 408);
}

#[test]
fn handle_infra_error_other() {
    assert_eq!(infra_error_response(false), (503, "Service temporarily unavailable"));
}

#[test]
fn adapter_and_validators() {
    let model = ResponseType::Model { qualname: QualName::new("app.models.Item").unwrap(), json_schema: None, status_code: 200 };
    assert_eq!(adapter_source(&model, true), AdapterSource::Live);
    assert_eq!(adapter_source(&model, false), AdapterSource::Import("app.models.Item".to_owned()));
    let builtin = ResponseType::Model { qualname: QualName::new("dict").unwrap(), json_schema: None, status_code: 200 };
    assert_eq!(adapter_source(&builtin, false), AdapterSource::NoAdapter);
    assert_eq!(adapter_source(&ResponseType::RawResponse, true), AdapterSource::NoAdapter);
    let p = |name: &str, source: &str| {
        apx::framework::app_discovery::convert_param_info(&ParamInfo {
            name: name.to_owned(),
            type_qualname: "m.T".to_owned(),
            source: source.to_owned(),
            required: true,
        })
        .unwrap()
    };
    assert_eq!(body_validator_names(&[p("a", "body"), p("b", "query"), p("c", "body")]), vec!["a", "c"]);
}

#[test]
fn fastapi_discovery_rules() {
    assert_eq!(module_qualname("builtins", "dict"), "dict");
    assert_eq!(module_qualname("", "X"), "X");
    assert_eq!(module_qualname("app.main", "handler"), "app.main.handler");
    assert_eq!(route_methods(&["GET".to_owned(), "POST".to_owned()]).unwrap(), vec![HttpMethod::Get, HttpMethod::Post]);
    assert!(route_methods(&["GET".to_owned(), "HEAD".to_owned()]).is_err());
    assert_eq!(handler_kind_for(false, true), HandlerKind::SSE);
    assert_eq!(handler_kind_for(false, false), HandlerKind::RequestResponse);
    assert!(matches!(response_type_for(true, false, "x").unwrap(), ResponseType::RawResponse));
    assert!(matches!(response_type_for(false, true, "x").unwrap(), ResponseType::StreamingResponse));
    assert!(response_type_for(false, false, "").is_err());
    let meta = RouteMetadata::from_attrs("/p".to_owned(), None, None, None, None, None, None, None, None);
    assert_eq!(meta.status_code, 200);
    assert!(meta.include_in_schema);
    assert!(!meta.deprecated);
    assert!(meta.methods.is_empty());
}

#[test]
fn scheduling_rules() {
    assert_eq!(classify_yielded(true, true, true, true, true), AwaitableKind::YieldNone);
    assert_eq!(classify_yielded(false, false, false, true, true), AwaitableKind::Coroutine);
    assert_eq!(classify_yielded(false, false, false, false, true), AwaitableKind::AsyncioFuture);
    assert_eq!(classify_yielded(false, false, false, false, false), AwaitableKind::Unknown);
    assert_eq!(drain_step(DrainPhase::Draining, 3, false), (false, DrainAction::Reschedule));
    assert_eq!(drain_step(DrainPhase::Draining, 0, false), (true, DrainAction::Recheck));
    assert_eq!(drain_step(DrainPhase::Rechecking, 1, true), (false, DrainAction::Reschedule));
    assert_eq!(drain_step(DrainPhase::Rechecking, 0, true), (true, DrainAction::Idle));
    let (ids, next) = thread_ids_after_spawns(5, &[true, true, true]);
    assert_eq!(ids, vec![5, 6, 7]);
    assert_eq!(next, 8);
    let (ids, next) = thread_ids_after_spawns(8, &[true, false, true]);
    assert_eq!(ids, vec![8, 10]);
    assert_eq!(next, 11);
    let (ids, next) = thread_ids_after_spawns(11, &[]);
    assert!(ids.is_empty());
    assert_eq!(next, 11);
    assert_eq!(driver_thread_name(7), "apx-driver-7");
    let mut threads = vec![1, 2, 3, 4];
    assert_eq!(take_last(&mut threads, 3), vec![2, 3, 4]);
    assert_eq!(threads, vec![1]);
    assert_eq!(take_last(&mut threads, 9), vec![1]);
    assert!(threads.is_empty());
}

#[test]
fn scope_contents() {
    let req = ScopeRequest {
        method: "GET".to_owned(),
        path: "/items/a%20b".to_owned(),
        query_string: b"x=1".to_vec(),
        protocol: ProtocolVersion::H2,
        headers: vec![(b"host".to_vec(), b"h".to_vec())],
        server: ("127.0.0.1".to_owned(), 8080),
        client: Some(("10.0.0.1".to_owned(), 5555)),
        path_params: vec![("id".to_owned(), "a%2Fb".to_owned())],
    };
    let s = http_scope(req);
    assert_eq!(s.scope_type, "http");
    assert_eq!(s.asgi_version, "3.0");
    assert_eq!(s.spec_version, "2.3");
    assert_eq!(s.http_version, "2");
    assert_eq!(s.method.as_deref(), Some("GET"));
    assert_eq!(s.path, "/items/a b");
    assert_eq!(s.raw_path, b"/items/a%20b".to_vec());
    assert_eq!(s.path_params, vec![("id".to_owned(), "a/b".to_owned())]);
    assert_eq!(s.client, Some(("10.0.0.1".to_owned(), 5555)));
    let ws = ws_scope(ScopeRequest {
        method: "GET".to_owned(),
        path: "/ws".to_owned(),
        query_string: vec![],
        protocol: ProtocolVersion::Http11,
        headers: vec![],
        server: ("0.0.0.0".to_owned(), 1),
        client: None,
        path_params: vec![],
    });
    assert_eq!(ws.scope_type, "websocket");
    assert_eq!(ws.scheme, "ws");
    assert!(ws.method.is_none());
    assert_eq!(ws.http_version, "1.1");
}

#[test]
fn receive_events() {
    let e = receive_event(Some(b"hi".to_vec()));
    assert_eq!(e.event_type, "http.request");
    assert_eq!(e.more_body, Some(false));
    assert_eq!(receive_event(None).event_type, "http.disconnect");
    let mut rb = ReceiveBody { body: Some(b"x".to_vec()) };
    assert!(rb.take_event().is_some());
    assert!(rb.take_event().is_none());
    let w = ws_receive_event(None);
    assert_eq!(w.event_type, "websocket.disconnect");
    assert_eq!(w.code, Some(1000));
    let w = ws_receive_event(Some(WsIncomingEvent::Receive { text: Some("t".to_owned()), bytes: None }));
    assert_eq!(w.event_type, "websocket.receive");
    assert_eq!(w.text.as_deref(), Some("t"));
    assert_eq!(ws_receive_event(Some(WsIncomingEvent::Connect)).event_type, "websocket.connect");
}

#[test]
fn event_loop_rules() {
    assert!(schedule_check(true).is_ok());
    assert!(matches!(schedule_check(false), Err(AppError::Internal(m)) if m == "event loop is not running"));
    assert!(matches!(task_outcome(true, Ok::<u8, String>(1)), Err(AppError::Internal(m)) if m == "task cancelled"));
    assert_eq!(task_outcome(false, Ok::<u8, String>(1)).unwrap(), 1);
    assert!(matches!(task_outcome::<u8>(false, Err("oops".to_owned())), Err(AppError::Internal(m)) if m == "oops"));
    let mut slot = OnceSlot { pending: Some(3) };
    assert_eq!(slot.take_sender(), Some(3));
    assert_eq!(slot.take_sender(), None);
}

#[test]
fn lifecycle_cache_lookup_and_missing_dependency() {
    let cache = LifecycleCache::from_entries(vec![
        ("app.deps.get_db".to_string(), 1u32),
        ("app.deps.get_settings".to_string(), 2u32),
    ]);
    assert_eq!(cache.get("app.deps.get_settings"), Some(&2));
    assert_eq!(resolve_lifecycle(&cache, "app.deps.get_db").ok(), Some(&1));
    match resolve_lifecycle(&cache, "app.deps.other") {
        Err(AppError::Internal(m)) => {
            assert_eq!(m, "lifecycle dependency 'app.deps.other' not found in cache")
        }
        other => panic!("unexpected {other:?}"),
    }
    let empty: LifecycleCache<u32> = LifecycleCache::empty();
    assert!(empty.get("x").is_none());
    let shared = Arc::new(cache);
    let dispatch = PlanExecutorDispatch::new(Arc::clone(&shared));
    assert!(Arc::ptr_eq(&dispatch.lifecycle_cache, &shared));
}

#[test]
fn telemetry_scheme_and_error_type() {
    assert_eq!(request_scheme(Some("https")), "https");
    assert_eq!(request_scheme(None), "http");
    assert_eq!(response_error_type(503), Some("503".to_string()));
    assert_eq!(response_error_type(500), Some("500".to_string()));
    assert_eq!(response_error_type(499), None);
    assert_eq!(response_error_type(200), None);
}
