//! Binding a route manifest to the live app: which endpoint serves each
//! route, which dispatcher it gets, and what its direct-dispatch context
//! needs.
use vstd::prelude::*;
use crate::framework::discovery::{method_name, DiscoveryError, DiscoveryErrorView};
use crate::framework::route::{HttpMethod, ParamManifest, ParamSource, ResponseType};
use crate::text::{concat2, concat3, decimal, str_eq, u64_to_string};

verus! {

/// How a route's requests are dispatched.
#[derive(Debug, Clone, Copy, PartialEq, Eq, Structural)]
pub enum DispatchStrategy {
    /// Call the handler directly, without ASGI.
    Direct,
    /// Go through the full ASGI pipeline.
    AsgiBridge,
}

impl DispatchStrategy {
    /// The default strategy: the ASGI bridge.
    pub fn default_strategy() -> (r: DispatchStrategy)
        ensures
            r == DispatchStrategy::AsgiBridge,
    {
        DispatchStrategy::AsgiBridge
    }
}

/// The strategy a route is bound with: a direct route whose context could
/// not be built falls back to the ASGI bridge.
pub fn bound_strategy(requested: DispatchStrategy, context_built: bool) -> (r: DispatchStrategy)
    ensures
        r == (if requested == DispatchStrategy::Direct && !context_built {
            DispatchStrategy::AsgiBridge
        } else {
            requested
        }),
{
    match requested {
        DispatchStrategy::Direct => if context_built {
            DispatchStrategy::Direct
        } else {
            DispatchStrategy::AsgiBridge
        },
        DispatchStrategy::AsgiBridge => DispatchStrategy::AsgiBridge,
    }
}

/// A manifest route to bind.
#[derive(Debug, Clone)]
pub struct RouteKey {
    /// Whether the route is a WebSocket route.
    pub websocket: bool,
    pub path: String,
    pub method: HttpMethod,
}

/// An HTTP route of the live app: its path and the method names it serves.
#[derive(Debug, Clone)]
pub struct EndpointKey {
    pub path: String,
    pub methods: Vec<String>,
}

/// Whether endpoint `e` serves `method` at `path`.
pub open spec fn serves(e: EndpointKey, path: Seq<char>, method: Seq<char>) -> bool {
    e.path@ == path && exists|k: int| 0 <= k < e.methods@.len() && #[trigger] e.methods@[k]@ == method
}

/// The endpoint that serves `method` at `path`: the last one listed (a
/// later registration replaces an earlier one).
pub open spec fn endpoint_for(es: Seq<EndpointKey>, path: Seq<char>, method: Seq<char>) -> Option<int> {
    if exists|j: int| 0 <= j < es.len() && serves(#[trigger] es[j], path, method) {
        Some(choose|j: int|
            0 <= j < es.len() && serves(#[trigger] es[j], path, method) && forall|l: int|
                j < l < es.len() ==> !serves(#[trigger] es[l], path, method))
    } else {
        None
    }
}

/// The WebSocket route at `path`: the last one listed.
pub open spec fn ws_route_for(ws: Seq<String>, path: Seq<char>) -> Option<int> {
    if exists|j: int| 0 <= j < ws.len() && #[trigger] ws[j]@ == path {
        Some(choose|j: int|
            0 <= j < ws.len() && #[trigger] ws[j]@ == path && forall|l: int| j < l < ws.len() ==> ws[l]@ != path)
    } else {
        None
    }
}

/// What binding one route gives: the index of its endpoint (among the
/// WebSocket routes for a WebSocket route), or the error message.
pub open spec fn bind_target(r: RouteKey, es: Seq<EndpointKey>, ws: Seq<String>) -> Result<int, Seq<char>> {
    if r.websocket {
        match ws_route_for(ws, r.path@) {
            Some(j) => Ok(j),
            None => Err("ws handler not found for "@ + r.path@),
        }
    } else {
        match endpoint_for(es, r.path@, method_name(r.method)) {
            Some(j) => Ok(j),
            None => Err("handler not found for "@ + method_name(r.method) + " "@ + r.path@),
        }
    }
}

fn serves_exec(e: &EndpointKey, path: &str, method: &str) -> (r: bool)
    ensures
        r == serves(*e, path@, method@),
{
    if !str_eq(e.path.as_str(), path) {
        return false;
    }
    let mut k: usize = 0;
    while k < e.methods.len()
        invariant
            k <= e.methods.len(),
            e.path@ == path@,
            forall|m: int| 0 <= m < k ==> e.methods@[m]@ != method@,
        decreases e.methods.len() - k,
    {
        if str_eq(e.methods[k].as_str(), method) {
            return true;
        }
        k = k + 1;
    }
    false
}

fn find_endpoint(es: &[EndpointKey], path: &str, method: &str) -> (r: Option<usize>)
    ensures
        match endpoint_for(es@, path@, method@) {
            Some(j) => r matches Some(x) && x as int == j,
            None => r is None,
        },
{
    let mut i: usize = es.len();
    while i > 0
        invariant
            i <= es.len(),
            forall|l: int| i <= l < es.len() ==> !serves(#[trigger] es@[l], path@, method@),
        decreases i,
    {
        if serves_exec(&es[i - 1], path, method) {
            proof {
                let j = choose|j: int|
                    0 <= j < es@.len() && serves(#[trigger] es@[j], path@, method@) && forall|l: int|
                        j < l < es@.len() ==> !serves(#[trigger] es@[l], path@, method@);
                assert(serves(es@[i - 1], path@, method@));
                if j < i - 1 {
                    assert(!serves(es@[i - 1], path@, method@));
                } else if j > i - 1 {
                    assert(!serves(es@[j], path@, method@));
                }
            }
            return Some(i - 1);
        }
        i = i - 1;
    }
    None
}

fn find_ws(ws: &[String], path: &str) -> (r: Option<usize>)
    ensures
        match ws_route_for(ws@, path@) {
            Some(j) => r matches Some(x) && x as int == j,
            None => r is None,
        },
{
    let mut i: usize = ws.len();
    while i > 0
        invariant
            i <= ws.len(),
            forall|l: int| i <= l < ws.len() ==> ws@[l]@ != path@,
        decreases i,
    {
        if str_eq(ws[i - 1].as_str(), path) {
            proof {
                let j = choose|j: int|
                    0 <= j < ws@.len() && #[trigger] ws@[j]@ == path@ && forall|l: int|
                        j < l < ws@.len() ==> ws@[l]@ != path@;
                assert(ws@[i - 1]@ == path@);
                if j < i - 1 {
                    assert(ws@[i - 1]@ != path@);
                } else if j > i - 1 {
                    assert(ws@[j]@ != path@);
                }
            }
            return Some(i - 1);
        }
        i = i - 1;
    }
    None
}

/// Bind every manifest route: for each, the index of the endpoint that
/// serves it (the last one registered for its path and method, or for its
/// path among the WebSocket routes), or the error for the first route
/// that has none.
pub fn bind_targets(routes: &[RouteKey], endpoints: &[EndpointKey], ws_paths: &[String]) -> (r: Result<Vec<usize>, DiscoveryError>)
    ensures
        match r {
            Ok(v) => v@.len() == routes@.len() && forall|i: int|
                0 <= i < routes@.len() ==> bind_target(#[trigger] routes@[i], endpoints@, ws_paths@)
                    == Ok::<int, Seq<char>>(v@[i] as int),
            Err(e) => exists|i: int|
                0 <= i < routes@.len() && (forall|k: int|
                    0 <= k < i ==> bind_target(#[trigger] routes@[k], endpoints@, ws_paths@) is Ok)
                    && (bind_target(#[trigger] routes@[i], endpoints@, ws_paths@) matches Err(m) && e@
                    == DiscoveryErrorView::InvalidRoute(m)),
        },
{
    let mut out: Vec<usize> = Vec::new();
    let mut i: usize = 0;
    while i < routes.len()
        invariant
            i <= routes.len(),
            out@.len() == i,
            forall|k: int|
                0 <= k < i ==> bind_target(#[trigger] routes@[k], endpoints@, ws_paths@) == Ok::<int, Seq<char>>(
                    out@[k] as int,
                ),
        decreases routes.len() - i,
    {
        let route = &routes[i];
        if route.websocket {
            match find_ws(ws_paths, route.path.as_str()) {
                Some(j) => {
                    out.push(j);
                    assert(bind_target(routes@[i as int], endpoints@, ws_paths@) == Ok::<int, Seq<char>>(j as int));
                },
                None => {
                    let e = DiscoveryError::InvalidRoute(concat2("ws handler not found for ", route.path.as_str()));
                    assert(bind_target(routes@[i as int], endpoints@, ws_paths@) is Err);
                    return Err(e);
                },
            }
        } else {
            let m = crate::framework::discovery::http_method_str(route.method);
            match find_endpoint(endpoints, route.path.as_str(), m) {
                Some(j) => {
                    out.push(j);
                    assert(bind_target(routes@[i as int], endpoints@, ws_paths@) == Ok::<int, Seq<char>>(j as int));
                },
                None => {
                    let mut msg = concat3("handler not found for ", m, " ");
                    msg.append(route.path.as_str());
                    let e = DiscoveryError::InvalidRoute(msg);
                    assert(bind_target(routes@[i as int], endpoints@, ws_paths@) is Err);
                    return Err(e);
                },
            }
        }
        i = i + 1;
    }
    Ok(out)
}

/// Where the response adapter of a direct route comes from.
#[derive(Debug, PartialEq, Eq)]
pub enum AdapterSource {
    /// No adapter: the result is serialized with `json.dumps`.
    NoAdapter,
    /// The live response model of the endpoint.
    Live,
    /// The model imported by its qualified name.
    Import(String),
}

/// The adapter source of a route: none without a response model; the live
/// model when the endpoint has one; else the model imported by name when
/// the name has a module part; else none.
pub fn adapter_source(response_type: &ResponseType, has_live_model: bool) -> (r: AdapterSource)
    ensures
        match *response_type {
            ResponseType::Model { qualname, .. } => if has_live_model {
                r == AdapterSource::Live
            } else if qualname@.contains('.') {
                r matches AdapterSource::Import(q) && q@ == qualname@
            } else {
                r == AdapterSource::NoAdapter
            },
            _ => r == AdapterSource::NoAdapter,
        },
{
    match response_type {
        ResponseType::Model { qualname, .. } => {
            if has_live_model {
                return AdapterSource::Live;
            }
            let v = crate::text::chars_of(qualname.as_str());
            let n = v.len();
            let d = crate::text::find_char(&v, 0, n, '.');
            if d < n {
                assert(v@[d as int] == '.');
                AdapterSource::Import(String::from_str(qualname.as_str()))
            } else {
                proof {
                    assert(v@.subrange(0, n as int) =~= v@);
                    assert(!v@.contains('.'));
                }
                AdapterSource::NoAdapter
            }
        },
        _ => AdapterSource::NoAdapter,
    }
}

/// The names of the parameters read from the body, in order: each gets a
/// validator.
pub open spec fn body_param_names(ps: Seq<ParamManifest>) -> Seq<Seq<char>>
    decreases ps.len(),
{
    if ps.len() == 0 {
        Seq::empty()
    } else {
        let rest = body_param_names(ps.drop_last());
        if ps.last().source == ParamSource::Body {
            rest.push(ps.last().name@)
        } else {
            rest
        }
    }
}

/// The names of the parameters read from the body, in order.
pub fn body_validator_names(params: &[ParamManifest]) -> (r: Vec<String>)
    ensures
        r@.map_values(|s: String| s@) == body_param_names(params@),
{
    let mut out: Vec<String> = Vec::new();
    let mut i: usize = 0;
    while i < params.len()
        invariant
            i <= params.len(),
            out@.map_values(|s: String| s@) == body_param_names(params@.take(i as int)),
        decreases params.len() - i,
    {
        let ghost before = out@;
        assert(params@.take(i + 1).drop_last() =~= params@.take(i as int));
        if params[i].source == ParamSource::Body {
            out.push(params[i].name.clone());
            assert(out@.map_values(|s: String| s@) =~= before.map_values(|s: String| s@).push(params@[i as int].name@));
        }
        i = i + 1;
    }
    assert(params@.take(params.len() as int) =~= params@);
    out
}

/// The dispatcher a route's strategy selects.
#[derive(Debug, Clone, Copy, PartialEq, Eq, Structural)]
pub enum Dispatcher {
    Direct,
    AsgiBridge,
}

/// The dispatcher for a strategy: direct routes bypass ASGI.
pub fn dispatch_for(strategy: DispatchStrategy) -> (r: Dispatcher)
    ensures
        r == (if strategy == DispatchStrategy::Direct {
            Dispatcher::Direct
        } else {
            Dispatcher::AsgiBridge
        }),
{
    match strategy {
        DispatchStrategy::Direct => Dispatcher::Direct,
        DispatchStrategy::AsgiBridge => Dispatcher::AsgiBridge,
    }
}

/// The answer to an infrastructure error: a timeout is answered as
/// [`crate::framework::error::AppError::Timeout`] (408); a full
/// concurrency limit with 503 and a fixed text.
pub fn infra_error_response(is_timeout: bool) -> (r: (u16, &'static str))
    ensures
        is_timeout ==> r.0 == 408 && r.1@ == "Request Timeout"@,
        !is_timeout ==> r.0 == 503 && r.1@ == "Service temporarily unavailable"@,
{
    if is_timeout {
        (408, "Request Timeout")
    } else {
        (503, "Service temporarily unavailable")
    }
}

/// The scheme a request is recorded under: the one its URI names, or
/// `http` when the URI names none (a plain HTTP server).
pub fn request_scheme<'a>(uri_scheme: Option<&'a str>) -> (r: &'a str)
    ensures
        match uri_scheme {
            Some(sc) => r@ == sc@,
            None => r@ == "http"@,
        },
{
    match uri_scheme {
        Some(sc) => sc,
        None => "http",
    }
}

/// The `error.type` recorded for a response status: the status in decimal
/// for a server error (500 and above), none below.
pub fn response_error_type(status: u16) -> (r: Option<String>)
    ensures
        status >= 500 ==> (r matches Some(t) && t@ == decimal(status as nat)),
        status < 500 ==> r is None,
{
    if status >= 500 {
        Some(u64_to_string(status as u64))
    } else {
        None
    }
}

} // verus!
