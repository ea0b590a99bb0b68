//! The contents of ASGI scopes: what an HTTP, WebSocket or lifespan scope
//! holds for a request, before it is handed to Python.
use vstd::prelude::*;
use vstd::utf8::encode_utf8;
use crate::framework::asgi::{percent_decode, percent_decoded};

verus! {

/// The HTTP protocol version of a request.
#[derive(Debug, Clone, Copy, PartialEq, Eq, Structural)]
pub enum ProtocolVersion {
    Http10,
    Http11,
    H2,
}

impl ProtocolVersion {
    /// The version as ASGI writes it.
    pub open spec fn asgi_text(self) -> Seq<char> {
        match self {
            ProtocolVersion::Http10 => "1.0"@,
            ProtocolVersion::Http11 => "1.1"@,
            ProtocolVersion::H2 => "2"@,
        }
    }

    /// The version as ASGI writes it.
    pub fn as_asgi_version(self) -> (r: &'static str)
        ensures
            r@ == self.asgi_text(),
    {
        match self {
            ProtocolVersion::Http10 => "1.0",
            ProtocolVersion::Http11 => "1.1",
            ProtocolVersion::H2 => "2",
        }
    }
}

/// What a scope is built from.
#[derive(Debug)]
pub struct ScopeRequest {
    pub method: String,
    /// The raw (percent-encoded) path.
    pub path: String,
    pub query_string: Vec<u8>,
    pub protocol: ProtocolVersion,
    pub headers: Vec<(Vec<u8>, Vec<u8>)>,
    /// Server address: IP text and port.
    pub server: (String, u16),
    /// Client address, when known.
    pub client: Option<(String, u16)>,
    /// Raw (percent-encoded) path parameters.
    pub path_params: Vec<(String, String)>,
}

/// An ASGI scope's contents.
#[derive(Debug)]
pub struct AsgiScope {
    pub scope_type: &'static str,
    pub asgi_version: &'static str,
    pub spec_version: &'static str,
    pub scheme: &'static str,
    pub root_path: &'static str,
    pub http_version: &'static str,
    /// The method (HTTP scopes only).
    pub method: Option<String>,
    /// The decoded path.
    pub path: String,
    /// The path's raw bytes.
    pub raw_path: Vec<u8>,
    pub query_string: Vec<u8>,
    pub headers: Vec<(Vec<u8>, Vec<u8>)>,
    pub server: (String, u16),
    pub client: Option<(String, u16)>,
    /// Path parameters with decoded values.
    pub path_params: Vec<(String, String)>,
}

/// The path parameters with their values decoded.
pub open spec fn decoded_params(ps: Seq<(String, String)>, out: Seq<(String, String)>) -> bool {
    out.len() == ps.len() && forall|i: int|
        0 <= i < ps.len() ==> #[trigger] out[i].0@ == ps[i].0@ && out[i].1@ == percent_decoded(ps[i].1@)
}

fn decode_params(ps: Vec<(String, String)>) -> (r: Vec<(String, String)>)
    ensures
        decoded_params(ps@, r@),
{
    let mut out: Vec<(String, String)> = Vec::new();
    let mut i: usize = 0;
    while i < ps.len()
        invariant
            i <= ps.len(),
            out@.len() == i,
            forall|k: int|
                0 <= k < i ==> #[trigger] out@[k].0@ == ps@[k].0@ && out@[k].1@ == percent_decoded(ps@[k].1@),
        decreases ps.len() - i,
    {
        let k = ps[i].0.clone();
        let v = percent_decode(ps[i].1.as_str());
        out.push((k, v));
        i = i + 1;
    }
    out
}

fn path_bytes(path: &str) -> (r: Vec<u8>)
    ensures
        r@ == encode_utf8(path@),
{
    let b = path.as_bytes();
    let mut v: Vec<u8> = Vec::new();
    let mut i: usize = 0;
    while i < b.len()
        invariant
            i <= b.len(),
            v@ == b@.subrange(0, i as int),
        decreases b.len() - i,
    {
        v.push(b[i]);
        assert(b@.subrange(0, i + 1) =~= b@.subrange(0, i as int).push(b@[i as int]));
        i = i + 1;
    }
    assert(b@.subrange(0, b@.len() as int) =~= b@);
    v
}

/// The scope of an HTTP request: type `http`, ASGI 3.0 (spec 2.3), scheme
/// `http`, empty root path, the protocol's version, the method, the decoded
/// path with its raw bytes, and the request's query string, headers,
/// addresses and decoded path parameters.
pub fn http_scope(req: ScopeRequest) -> (r: AsgiScope)
    ensures
        r.scope_type@ == "http"@,
        r.asgi_version@ == "3.0"@,
        r.spec_version@ == "2.3"@,
        r.scheme@ == "http"@,
        r.root_path@ == ""@,
        r.http_version@ == req.protocol.asgi_text(),
        r.method matches Some(m) && m@ == req.method@,
        r.path@ == percent_decoded(req.path@),
        r.raw_path@ == encode_utf8(req.path@),
        r.query_string@ == req.query_string@,
        r.headers@ == req.headers@,
        r.server == req.server,
        r.client == req.client,
        decoded_params(req.path_params@, r.path_params@),
{
    let path = percent_decode(req.path.as_str());
    let raw_path = path_bytes(req.path.as_str());
    let http_version = req.protocol.as_asgi_version();
    let path_params = decode_params(req.path_params);
    AsgiScope {
        scope_type: "http",
        asgi_version: "3.0",
        spec_version: "2.3",
        scheme: "http",
        root_path: "",
        http_version,
        method: Some(req.method),
        path,
        raw_path,
        query_string: req.query_string,
        headers: req.headers,
        server: req.server,
        client: req.client,
        path_params,
    }
}

/// The scope of a WebSocket request: as an HTTP scope, with type
/// `websocket`, scheme `ws` and no method.
pub fn ws_scope(req: ScopeRequest) -> (r: AsgiScope)
    ensures
        r.scope_type@ == "websocket"@,
        r.asgi_version@ == "3.0"@,
        r.spec_version@ == "2.3"@,
        r.scheme@ == "ws"@,
        r.root_path@ == ""@,
        r.http_version@ == req.protocol.asgi_text(),
        r.method is None,
        r.path@ == percent_decoded(req.path@),
        r.raw_path@ == encode_utf8(req.path@),
        r.query_string@ == req.query_string@,
        r.headers@ == req.headers@,
        r.server == req.server,
        r.client == req.client,
        decoded_params(req.path_params@, r.path_params@),
{
    let path = percent_decode(req.path.as_str());
    let raw_path = path_bytes(req.path.as_str());
    let http_version = req.protocol.as_asgi_version();
    let path_params = decode_params(req.path_params);
    AsgiScope {
        scope_type: "websocket",
        asgi_version: "3.0",
        spec_version: "2.3",
        scheme: "ws",
        root_path: "",
        http_version,
        method: None,
        path,
        raw_path,
        query_string: req.query_string,
        headers: req.headers,
        server: req.server,
        client: req.client,
        path_params,
    }
}

/// The lifespan scope: type `lifespan`, ASGI 3.0 with spec 2.4, and an
/// empty state.
pub fn lifespan_scope() -> (r: (&'static str, &'static str, &'static str))
    ensures
        r.0@ == "lifespan"@,
        r.1@ == "3.0"@,
        r.2@ == "2.4"@,
{
    ("lifespan", "3.0", "2.4")
}

/// The event `receive` hands out first in the lifespan protocol.
pub fn startup_event_type() -> (r: &'static str)
    ensures
        r@ == "lifespan.startup"@,
{
    "lifespan.startup"
}

} // verus!
