//! Route metadata: HTTP methods, parameter sources, qualified names,
//! response types and parameter manifests.
use vstd::prelude::*;

verus! {

/// The HTTP methods a route can be bound to.
#[derive(Debug, Clone, Copy, PartialEq, Eq, Structural)]
pub enum HttpMethod {
    Get,
    Post,
    Put,
    Delete,
    Patch,
}

/// Where a handler parameter is read from.
#[derive(Debug, Clone, Copy, PartialEq, Eq, Structural)]
pub enum ParamSource {
    Path,
    Query,
    Header,
    Cookie,
    Body,
    RawBody,
    RawRequest,
}

/// A dotted Python qualified name (e.g. `backend.models.Item`); never empty.
#[derive(Debug)]
pub struct QualName {
    name: String,
}

impl View for QualName {
    type V = Seq<char>;

    closed spec fn view(&self) -> Seq<char> {
        self.name@
    }
}

impl Clone for QualName {
    fn clone(&self) -> (r: Self)
        ensures
            r@ == self@,
    {
        proof {
            use_type_invariant(self);
        }
        QualName { name: self.name.clone() }
    }
}

impl QualName {
    #[verifier::type_invariant]
    spec fn well_formed(self) -> bool {
        self.name@.len() > 0
    }

    /// A qualified name from its text, or the error for an empty text.
    pub fn new(s: &str) -> (r: Result<QualName, String>)
        ensures
            s@.len() > 0 ==> (r matches Ok(q) && q@ == s@),
            s@.len() == 0 ==> (r matches Err(e) && e@ == "qualified name must not be empty"@),
            r is Ok <==> s@.len() > 0,
    {
        let v = crate::text::chars_of(s);
        if v.len() == 0 {
            Err(String::from_str("qualified name must not be empty"))
        } else {
            Ok(QualName { name: String::from_str(s) })
        }
    }

    /// The qualified name's text, which is never empty.
    pub fn as_str(&self) -> (r: &str)
        ensures
            r@ == self@,
            r@.len() > 0,
    {
        proof {
            use_type_invariant(self);
        }
        self.name.as_str()
    }
}

/// What a handler returns.
#[derive(Debug, Clone)]
pub enum ResponseType {
    /// A model instance, serialized as JSON.
    Model {
        /// The model's qualified name.
        qualname: QualName,
        /// The model's rendered JSON schema, when known.
        json_schema: Option<String>,
        /// The status code of a successful response.
        status_code: u16,
    },
    /// A streaming response.
    StreamingResponse,
    /// A raw response object.
    RawResponse,
}

/// The manifest of one handler parameter.
#[derive(Debug, Clone)]
pub struct ParamManifest {
    pub name: String,
    pub source: ParamSource,
    pub type_qualname: QualName,
    pub required: bool,
    /// The rendered JSON schema, when known.
    pub json_schema: Option<String>,
    /// The wire name, when it differs from `name`.
    pub alias: Option<String>,
    /// The default value as rendered JSON, when there is one.
    pub default_json: Option<String>,
}

/// Parameter metadata as the Python side reports it.
#[derive(Debug, Clone)]
pub struct ParamInfo {
    pub name: String,
    pub type_qualname: String,
    pub source: String,
    pub required: bool,
}

} // verus!
