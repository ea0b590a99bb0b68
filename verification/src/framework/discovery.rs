//! Discovery of a FastAPI app's routes: the parsing of the metadata the
//! Python side reports (parameter sources, response types, HTTP methods).
use vstd::prelude::*;
use crate::framework::route::{HttpMethod, ParamSource, QualName, ResponseType};
use crate::text::{concat2, concat3, str_eq};

verus! {

/// Errors during app discovery.
#[derive(Debug)]
pub enum DiscoveryError {
    /// Python import or attribute access failed.
    Python(String),
    /// The module does not contain a FastAPI instance.
    NoApp(String),
    /// Route manifest extraction failed.
    InvalidRoute(String),
}

/// Mathematical model of a [`DiscoveryError`].
pub enum DiscoveryErrorView {
    Python(Seq<char>),
    NoApp(Seq<char>),
    InvalidRoute(Seq<char>),
}

impl View for DiscoveryError {
    type V = DiscoveryErrorView;

    open spec fn view(&self) -> DiscoveryErrorView {
        match self {
            DiscoveryError::Python(m) => DiscoveryErrorView::Python(m@),
            DiscoveryError::NoApp(m) => DiscoveryErrorView::NoApp(m@),
            DiscoveryError::InvalidRoute(m) => DiscoveryErrorView::InvalidRoute(m@),
        }
    }
}

/// The rendering of a discovery error.
pub open spec fn discovery_error_text(e: DiscoveryErrorView) -> Seq<char> {
    match e {
        DiscoveryErrorView::Python(m) => "python error: "@ + m,
        DiscoveryErrorView::NoApp(m) => "no FastAPI instance found in module '"@ + m + "'"@,
        DiscoveryErrorView::InvalidRoute(m) => "invalid route: "@ + m,
    }
}

impl DiscoveryError {
    /// The rendering of this error.
    pub fn message(&self) -> (r: String)
        ensures
            r@ == discovery_error_text(self@),
    {
        match self {
            DiscoveryError::Python(m) => concat2("python error: ", m.as_str()),
            DiscoveryError::NoApp(m) => concat3("no FastAPI instance found in module '", m.as_str(), "'"),
            DiscoveryError::InvalidRoute(m) => concat2("invalid route: ", m.as_str()),
        }
    }
}

/// The parameter source a name stands for.
pub open spec fn param_source_named(s: Seq<char>) -> Option<ParamSource> {
    if s == "path"@ {
        Some(ParamSource::Path)
    } else if s == "query"@ {
        Some(ParamSource::Query)
    } else if s == "header"@ {
        Some(ParamSource::Header)
    } else if s == "cookie"@ {
        Some(ParamSource::Cookie)
    } else if s == "body"@ {
        Some(ParamSource::Body)
    } else if s == "raw_body"@ {
        Some(ParamSource::RawBody)
    } else if s == "raw_request"@ {
        Some(ParamSource::RawRequest)
    } else {
        None
    }
}

/// The parameter source a name stands for, if any.
pub fn param_source_of(s: &str) -> (r: Option<ParamSource>)
    ensures
        r == param_source_named(s@),
{
    if str_eq(s, "path") {
        Some(ParamSource::Path)
    } else if str_eq(s, "query") {
        Some(ParamSource::Query)
    } else if str_eq(s, "header") {
        Some(ParamSource::Header)
    } else if str_eq(s, "cookie") {
        Some(ParamSource::Cookie)
    } else if str_eq(s, "body") {
        Some(ParamSource::Body)
    } else if str_eq(s, "raw_body") {
        Some(ParamSource::RawBody)
    } else if str_eq(s, "raw_request") {
        Some(ParamSource::RawRequest)
    } else {
        None
    }
}

/// Parse a param source string to [`ParamSource`].
pub fn parse_param_source(source: &str) -> (r: Result<ParamSource, DiscoveryError>)
    ensures
        match param_source_named(source@) {
            Some(p) => r == Ok::<ParamSource, DiscoveryError>(p),
            None => r matches Err(e) && e@ == DiscoveryErrorView::InvalidRoute(
                "unknown param source: "@ + source@,
            ),
        },
{
    match param_source_of(source) {
        Some(p) => Ok(p),
        None => Err(DiscoveryError::InvalidRoute(concat2("unknown param source: ", source))),
    }
}

/// The text after `model:` when `s` starts with it.
pub open spec fn model_qualname_text(s: Seq<char>) -> Option<Seq<char>> {
    if s.len() >= 6 && s.subrange(0, 6) == "model:"@ {
        Some(s.subrange(6, s.len() as int))
    } else {
        None
    }
}

/// `s` without its `model:` prefix, when it has one.
pub fn strip_model_prefix(s: &str) -> (r: Option<String>)
    ensures
        match model_qualname_text(s@) {
            Some(t) => r matches Some(x) && x@ == t,
            None => r is None,
        },
{
    let v = crate::text::chars_of(s);
    proof {
        reveal_strlit("model:");
    }
    if v.len() >= 6 && v[0] == 'm' && v[1] == 'o' && v[2] == 'd' && v[3] == 'e' && v[4] == 'l'
        && v[5] == ':' {
        assert(v@.subrange(0, 6) =~= "model:"@);
        Some(crate::text::string_of_range(&v, 6, v.len()))
    } else {
        proof {
            if v@.len() >= 6 && v@.subrange(0, 6) == "model:"@ {
                assert(v@.subrange(0, 6)[0] == 'm');
                assert(v@.subrange(0, 6)[1] == 'o');
                assert(v@.subrange(0, 6)[2] == 'd');
                assert(v@.subrange(0, 6)[3] == 'e');
                assert(v@.subrange(0, 6)[4] == 'l');
                assert(v@.subrange(0, 6)[5] == ':');
            }
        }
        None
    }
}

/// What `parse_response_type` answers: a model (its name, no schema, status
/// 200) after a `model:` prefix, the error for an empty model name, and a
/// raw response otherwise.
pub open spec fn response_type_ok(r: ResponseType, s: Seq<char>) -> bool {
    match model_qualname_text(s) {
        Some(q) => q.len() > 0 && (r matches ResponseType::Model { qualname, json_schema, status_code }
            && qualname@ == q && json_schema is None && status_code == 200),
        None => r is RawResponse,
    }
}

/// Parse a response type string from Python.
pub fn parse_response_type(s: &str) -> (r: Result<ResponseType, DiscoveryError>)
    ensures
        match r {
            Ok(t) => response_type_ok(t, s@),
            Err(e) => model_qualname_text(s@) matches Some(q) && q.len() == 0 && e@
                == DiscoveryErrorView::InvalidRoute(
                "response model '"@ + q + "': "@ + "qualified name must not be empty"@,
            ),
        },
        (model_qualname_text(s@) matches Some(q) && q.len() == 0) <==> r is Err,
{
    match strip_model_prefix(s) {
        Some(q) => match QualName::new(q.as_str()) {
            Ok(qualname) => Ok(ResponseType::Model { qualname, json_schema: None, status_code: 200 }),
            Err(e) => {
                let mut m = concat3("response model '", q.as_str(), "': ");
                m.append(e.as_str());
                Err(DiscoveryError::InvalidRoute(m))
            },
        },
        None => Ok(ResponseType::RawResponse),
    }
}

/// The HTTP method a name stands for.
pub open spec fn method_named(s: Seq<char>) -> Option<HttpMethod> {
    if s == "GET"@ {
        Some(HttpMethod::Get)
    } else if s == "POST"@ {
        Some(HttpMethod::Post)
    } else if s == "PUT"@ {
        Some(HttpMethod::Put)
    } else if s == "DELETE"@ {
        Some(HttpMethod::Delete)
    } else if s == "PATCH"@ {
        Some(HttpMethod::Patch)
    } else {
        None
    }
}

/// The upper-case name of a method.
pub open spec fn method_name(m: HttpMethod) -> Seq<char> {
    match m {
        HttpMethod::Get => "GET"@,
        HttpMethod::Post => "POST"@,
        HttpMethod::Put => "PUT"@,
        HttpMethod::Delete => "DELETE"@,
        HttpMethod::Patch => "PATCH"@,
    }
}

/// Parse an HTTP method string (e.g. `"GET"`) to [`HttpMethod`].
pub fn parse_http_method(s: &str) -> (r: Result<HttpMethod, DiscoveryError>)
    ensures
        match method_named(s@) {
            Some(m) => r == Ok::<HttpMethod, DiscoveryError>(m),
            None => r matches Err(e) && e@ == DiscoveryErrorView::InvalidRoute(
                "unknown HTTP method: "@ + s@,
            ),
        },
{
    if str_eq(s, "GET") {
        Ok(HttpMethod::Get)
    } else if str_eq(s, "POST") {
        Ok(HttpMethod::Post)
    } else if str_eq(s, "PUT") {
        Ok(HttpMethod::Put)
    } else if str_eq(s, "DELETE") {
        Ok(HttpMethod::Delete)
    } else if str_eq(s, "PATCH") {
        Ok(HttpMethod::Patch)
    } else {
        Err(DiscoveryError::InvalidRoute(concat2("unknown HTTP method: ", s)))
    }
}

/// Return the uppercase string for an [`HttpMethod`].
pub fn http_method_str(m: HttpMethod) -> (r: &'static str)
    ensures
        r@ == method_name(m),
{
    match m {
        HttpMethod::Get => "GET",
        HttpMethod::Post => "POST",
        HttpMethod::Put => "PUT",
        HttpMethod::Delete => "DELETE",
        HttpMethod::Patch => "PATCH",
    }
}

/// Printing a method and parsing the text back gives the method again.
pub proof fn law_http_method_roundtrip(m: HttpMethod)
    ensures
        method_named(method_name(m)) == Some(m),
{
    reveal_strlit("GET");
    reveal_strlit("POST");
    reveal_strlit("PUT");
    reveal_strlit("DELETE");
    reveal_strlit("PATCH");
    assert("GET"@.len() == 3 && "PUT"@.len() == 3 && "POST"@.len() == 4);
    assert("PATCH"@.len() == 5 && "DELETE"@.len() == 6);
    assert("GET"@[0] != "PUT"@[0]);
}

/// Parsing accepts exactly the five method names, and each accepted text
/// is the name of the method it gives.
pub proof fn law_http_method_parse_inverse(s: Seq<char>)
    ensures
        method_named(s) matches Some(m) ==> method_name(m) == s,
{
}

/// The kind of a route's handler.
#[derive(Debug, Clone, Copy, PartialEq, Eq, Structural)]
pub enum HandlerKind {
    /// A handler that answers with one response.
    RequestResponse,
    /// A handler that streams server-sent events.
    SSE,
    /// A WebSocket handler.
    WebSocket,
}

/// The kind of an HTTP handler: a handler annotated to return a streaming
/// response, or an async generator, streams events; any other answers once.
pub fn handler_kind_for(returns_streaming_response: bool, is_async_generator: bool) -> (r: HandlerKind)
    ensures
        r == (if returns_streaming_response || is_async_generator {
            HandlerKind::SSE
        } else {
            HandlerKind::RequestResponse
        }),
{
    if returns_streaming_response || is_async_generator {
        HandlerKind::SSE
    } else {
        HandlerKind::RequestResponse
    }
}

/// The response type of a route from its response model: none gives a raw
/// response, a streaming response class a streaming response, any other
/// model the model named by its qualified name (an error when empty).
pub fn response_type_for(model_is_none: bool, model_is_streaming: bool, model_qualname: &str) -> (r: Result<ResponseType, DiscoveryError>)
    ensures
        model_is_none ==> (r matches Ok(ResponseType::RawResponse)),
        !model_is_none && model_is_streaming ==> (r matches Ok(ResponseType::StreamingResponse)),
        !model_is_none && !model_is_streaming && model_qualname@.len() > 0 ==> (r matches Ok(
            ResponseType::Model { qualname, json_schema, status_code },
        ) && qualname@ == model_qualname@ && json_schema is None && status_code == 200),
        !model_is_none && !model_is_streaming && model_qualname@.len() == 0 ==> (r matches Err(e) && e@
            == DiscoveryErrorView::InvalidRoute(
            "response model '"@ + model_qualname@ + "': "@ + "qualified name must not be empty"@,
        )),
{
    if model_is_none {
        return Ok(ResponseType::RawResponse);
    }
    if model_is_streaming {
        return Ok(ResponseType::StreamingResponse);
    }
    match QualName::new(model_qualname) {
        Ok(qualname) => Ok(ResponseType::Model { qualname, json_schema: None, status_code: 200 }),
        Err(e) => {
            let mut m = concat3("response model '", model_qualname, "': ");
            m.append(e.as_str());
            Err(DiscoveryError::InvalidRoute(m))
        },
    }
}

/// The qualified name of a Python object from its `__module__` and
/// `__qualname__`: builtins (and objects without a module) by their bare
/// name, others as `module.qualname`.
pub fn module_qualname(module: &str, qualname: &str) -> (r: String)
    ensures
        r@ == (if module@ == "builtins"@ || module@.len() == 0 {
            qualname@
        } else {
            module@ + "."@ + qualname@
        }),
{
    if str_eq(module, "builtins") || module.is_empty() {
        String::from_str(qualname)
    } else {
        concat3(module, ".", qualname)
    }
}

/// A handler's qualified name, or the error for an empty one.
pub fn handler_qualname(full: &str) -> (r: Result<QualName, DiscoveryError>)
    ensures
        full@.len() > 0 ==> (r matches Ok(q) && q@ == full@),
        full@.len() == 0 ==> (r matches Err(e) && e@ == DiscoveryErrorView::InvalidRoute(
            "handler qualname '"@ + full@ + "': "@ + "qualified name must not be empty"@,
        )),
{
    match QualName::new(full) {
        Ok(q) => Ok(q),
        Err(e) => {
            let mut m = concat3("handler qualname '", full, "': ");
            m.append(e.as_str());
            Err(DiscoveryError::InvalidRoute(m))
        },
    }
}

/// Scalar metadata of a FastAPI route, with FastAPI's defaults applied.
#[derive(Debug, Clone)]
pub struct RouteMetadata {
    pub path: String,
    pub methods: Vec<String>,
    pub status_code: u16,
    pub tags: Vec<String>,
    pub summary: Option<String>,
    pub description: Option<String>,
    pub deprecated: bool,
    pub include_in_schema: bool,
    pub operation_id: Option<String>,
}

impl RouteMetadata {
    /// The metadata from the attributes a route has: no methods or tags
    /// when unset, status 200, not deprecated, included in the schema.
    pub fn from_attrs(
        path: String,
        methods: Option<Vec<String>>,
        status_code: Option<u16>,
        tags: Option<Vec<String>>,
        summary: Option<String>,
        description: Option<String>,
        deprecated: Option<bool>,
        include_in_schema: Option<bool>,
        operation_id: Option<String>,
    ) -> (r: RouteMetadata)
        ensures
            r.path == path,
            r.methods@ == match methods {
                Some(m) => m@,
                None => Seq::empty(),
            },
            r.status_code == match status_code {
                Some(c) => c,
                None => 200u16,
            },
            r.tags@ == match tags {
                Some(t) => t@,
                None => Seq::empty(),
            },
            r.summary == summary,
            r.description == description,
            r.deprecated == match deprecated {
                Some(d) => d,
                None => false,
            },
            r.include_in_schema == match include_in_schema {
                Some(i) => i,
                None => true,
            },
            r.operation_id == operation_id,
    {
        RouteMetadata {
            path,
            methods: match methods {
                Some(m) => m,
                None => Vec::new(),
            },
            status_code: match status_code {
                Some(c) => c,
                None => 200,
            },
            tags: match tags {
                Some(t) => t,
                None => Vec::new(),
            },
            summary,
            description,
            deprecated: match deprecated {
                Some(d) => d,
                None => false,
            },
            include_in_schema: match include_in_schema {
                Some(i) => i,
                None => true,
            },
            operation_id,
        }
    }
}

/// The methods of a route, one manifest entry each: every name parsed in
/// order, or the error for the first unknown one.
pub fn route_methods(methods: &[String]) -> (r: Result<Vec<HttpMethod>, DiscoveryError>)
    ensures
        match r {
            Ok(v) => v@.len() == methods@.len() && forall|i: int|
                0 <= i < methods@.len() ==> method_named(#[trigger] methods@[i]@) == Some(v@[i]),
            Err(e) => exists|i: int|
                0 <= i < methods@.len() && method_named(#[trigger] methods@[i]@) is None && (forall|k: int|
                    0 <= k < i ==> method_named(#[trigger] methods@[k]@) is Some) && e@
                    == DiscoveryErrorView::InvalidRoute("unknown HTTP method: "@ + methods@[i]@),
        },
{
    let mut out: Vec<HttpMethod> = Vec::new();
    let mut i: usize = 0;
    while i < methods.len()
        invariant
            i <= methods.len(),
            out@.len() == i,
            forall|k: int| 0 <= k < i ==> method_named(#[trigger] methods@[k]@) == Some(out@[k]),
        decreases methods.len() - i,
    {
        match parse_http_method(methods[i].as_str()) {
            Ok(m) => {
                out.push(m);
            },
            Err(e) => {
                return Err(e);
            },
        }
        i = i + 1;
    }
    Ok(out)
}

} // verus!
