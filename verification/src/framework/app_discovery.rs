//! Discovery of an `App` instance's routes: the parsing of the route
//! metadata it reports, and the rules applied when routes are bound.
use vstd::prelude::*;
use crate::framework::discovery::{model_qualname_text, param_source_named, param_source_of, strip_model_prefix};
use crate::framework::route::{ParamInfo, ParamManifest, ParamSource, QualName, ResponseType};
use crate::text::{chars_of, concat2, concat3, string_of_range};

verus! {

/// Errors during app discovery.
#[derive(Debug)]
pub enum DiscoveryError {
    /// Python import or attribute access failed.
    Python(String),
    /// The module does not contain an `App` instance.
    NoApp(String),
    /// Route manifest extraction failed.
    InvalidRoute(String),
}

/// Mathematical model of a [`DiscoveryError`].
pub enum DiscoveryErrorView {
    Python(Seq<char>),
    NoApp(Seq<char>),
    InvalidRoute(Seq<char>),
}

impl View for DiscoveryError {
    type V = DiscoveryErrorView;

    open spec fn view(&self) -> DiscoveryErrorView {
        match self {
            DiscoveryError::Python(m) => DiscoveryErrorView::Python(m@),
            DiscoveryError::NoApp(m) => DiscoveryErrorView::NoApp(m@),
            DiscoveryError::InvalidRoute(m) => DiscoveryErrorView::InvalidRoute(m@),
        }
    }
}

/// The rendering of a discovery error.
pub open spec fn discovery_error_text(e: DiscoveryErrorView) -> Seq<char> {
    match e {
        DiscoveryErrorView::Python(m) => "python error: "@ + m,
        DiscoveryErrorView::NoApp(m) => "no App instance found in module '"@ + m + "'"@,
        DiscoveryErrorView::InvalidRoute(m) => "invalid route: "@ + m,
    }
}

impl DiscoveryError {
    /// The rendering of this error.
    pub fn message(&self) -> (r: String)
        ensures
            r@ == discovery_error_text(self@),
    {
        match self {
            DiscoveryError::Python(m) => concat2("python error: ", m.as_str()),
            DiscoveryError::NoApp(m) => concat3("no App instance found in module '", m.as_str(), "'"),
            DiscoveryError::InvalidRoute(m) => concat2("invalid route: ", m.as_str()),
        }
    }
}

/// Parse a param source string to [`ParamSource`].
pub fn parse_param_source(source: &str) -> (r: Result<ParamSource, DiscoveryError>)
    ensures
        match param_source_named(source@) {
            Some(p) => r == Ok::<ParamSource, DiscoveryError>(p),
            None => r matches Err(e) && e@ == DiscoveryErrorView::InvalidRoute(
                "unknown param source: "@ + source@,
            ),
        },
{
    match param_source_of(source) {
        Some(p) => Ok(p),
        None => Err(DiscoveryError::InvalidRoute(concat2("unknown param source: ", source))),
    }
}

/// Parse a response type string from Python: a model (its name, no schema,
/// status 200) after a `model:` prefix, a raw response otherwise.
pub fn parse_response_type(s: &str) -> (r: Result<ResponseType, DiscoveryError>)
    ensures
        match r {
            Ok(t) => crate::framework::discovery::response_type_ok(t, s@),
            Err(e) => model_qualname_text(s@) matches Some(q) && q.len() == 0 && e@
                == DiscoveryErrorView::InvalidRoute(
                "response model '"@ + q + "': "@ + "qualified name must not be empty"@,
            ),
        },
        (model_qualname_text(s@) matches Some(q) && q.len() == 0) <==> r is Err,
{
    match strip_model_prefix(s) {
        Some(q) => match QualName::new(q.as_str()) {
            Ok(qualname) => Ok(ResponseType::Model { qualname, json_schema: None, status_code: 200 }),
            Err(e) => {
                let mut m = concat3("response model '", q.as_str(), "': ");
                m.append(e.as_str());
                Err(DiscoveryError::InvalidRoute(m))
            },
        },
        None => Ok(ResponseType::RawResponse),
    }
}

/// Convert the parameter metadata the Python side reports into a
/// [`ParamManifest`]: the type name must not be empty, then the source must
/// be known; the manifest has no schema, alias or default.
pub fn convert_param_info(param: &ParamInfo) -> (r: Result<ParamManifest, DiscoveryError>)
    ensures
        param.type_qualname@.len() == 0 ==> (r matches Err(e) && e@
            == DiscoveryErrorView::InvalidRoute(
            "param '"@ + param.name@ + "' type '"@ + param.type_qualname@
                + "': "@ + "qualified name must not be empty"@,
        )),
        param.type_qualname@.len() > 0 && param_source_named(param.source@) is None ==> (r matches Err(
            e,
        ) && e@ == DiscoveryErrorView::InvalidRoute("unknown param source: "@ + param.source@)),
        param.type_qualname@.len() > 0 && param_source_named(param.source@) is Some ==> (r matches Ok(m)
            && m.name@ == param.name@ && Some(m.source) == param_source_named(param.source@) && m.type_qualname@ == param.type_qualname@
            && m.required == param.required && m.json_schema is None && m.alias is None
            && m.default_json is None),
{
    let type_qualname = match QualName::new(param.type_qualname.as_str()) {
        Ok(q) => q,
        Err(e) => {
            let mut m = concat3("param '", param.name.as_str(), "' type '");
            m.append(param.type_qualname.as_str());
            m.append("': ");
            m.append(e.as_str());
            return Err(DiscoveryError::InvalidRoute(m));
        },
    };
    let source = match parse_param_source(param.source.as_str()) {
        Ok(s) => s,
        Err(e) => {
            return Err(e);
        },
    };
    Ok(ParamManifest {
        name: param.name.clone(),
        source,
        type_qualname,
        required: param.required,
        json_schema: None,
        alias: None,
        default_json: None,
    })
}

/// Whether a route takes its request body: one of its parameters is read
/// from the body, the raw body or the raw request.
pub fn route_has_body_param(params: &[ParamManifest]) -> (r: bool)
    ensures
        r == exists|i: int|
            0 <= i < params@.len() && (#[trigger] params@[i].source == ParamSource::Body
                || params@[i].source == ParamSource::RawBody || params@[i].source
                == ParamSource::RawRequest),
{
    let mut i: usize = 0;
    while i < params.len()
        invariant
            i <= params.len(),
            forall|j: int|
                0 <= j < i ==> !(#[trigger] params@[j].source == ParamSource::Body
                    || params@[j].source == ParamSource::RawBody || params@[j].source
                    == ParamSource::RawRequest),
        decreases params.len() - i,
    {
        match params[i].source {
            ParamSource::Body | ParamSource::RawBody | ParamSource::RawRequest => {
                return true;
            },
            _ => {},
        }
        i = i + 1;
    }
    false
}

/// Split at the last `.`: the module path and the attribute name.
pub open spec fn last_dot_split(s: Seq<char>) -> Option<(Seq<char>, Seq<char>)> {
    if exists|i: int| 0 <= i < s.len() && s[i] == '.' {
        let i = choose|i: int|
            0 <= i < s.len() && s[i] == '.' && forall|j: int| i < j < s.len() ==> s[j] != '.';
        Some((s.subrange(0, i), s.subrange(i + 1, s.len() as int)))
    } else {
        None
    }
}

proof fn lemma_last_dot(s: Seq<char>, i: int)
    requires
        0 <= i < s.len(),
        s[i] == '.',
        forall|j: int| i < j < s.len() ==> s[j] != '.',
    ensures
        last_dot_split(s) == Some((s.subrange(0, i), s.subrange(i + 1, s.len() as int))),
{
    let k = choose|k: int|
        0 <= k < s.len() && s[k] == '.' && forall|j: int| k < j < s.len() ==> s[j] != '.';
    assert(0 <= k < s.len() && s[k] == '.');
    if k < i {
        assert(s[i] != '.');
    } else if k > i {
        assert(s[k] != '.');
    }
}

/// The module path and class name of a qualified name (split at its last
/// `.`), or the error for a name without a module component.
pub fn split_qualified_name(qualname: &str) -> (r: Result<(String, String), DiscoveryError>)
    ensures
        match last_dot_split(qualname@) {
            Some((m, c)) => r matches Ok((rm, rc)) && rm@ == m && rc@ == c,
            None => r matches Err(e) && e@ == DiscoveryErrorView::InvalidRoute(
                "qualified name '"@ + qualname@ + "' has no module component"@,
            ),
        },
{
    let v = chars_of(qualname);
    let mut i: usize = v.len();
    while i > 0 && v[i - 1] != '.'
        invariant
            i <= v.len(),
            v@ == qualname@,
            forall|j: int| i <= j < v.len() ==> v@[j] != '.',
        decreases i,
    {
        i = i - 1;
    }
    if i == 0 {
        proof {
            assert(!exists|k: int| 0 <= k < v@.len() && v@[k] == '.');
        }
        return Err(DiscoveryError::InvalidRoute(concat3("qualified name '", qualname, "' has no module component")));
    }
    proof {
        lemma_last_dot(v@, i - 1);
    }
    Ok((string_of_range(&v, 0, i - 1), string_of_range(&v, i, v.len())))
}

} // verus!
