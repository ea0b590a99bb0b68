//! The pieces of an authenticated REST call: the User-Agent of a client,
//! the request URL, and the reading of a response's status.
use vstd::prelude::*;
use crate::sdk::config::DatabricksConfig;
use crate::sdk::error::{DatabricksError, DatabricksErrorView};
use crate::sdk::useragent::{sanitized, UserAgent};
use crate::text::concat2;

verus! {

/// The product named in the User-Agent of a client for `config`.
pub open spec fn agent_product(config: DatabricksConfig) -> Seq<char> {
    match config.product {
        Some(p) => p@,
        None => "unknown"@,
    }
}

/// The product version named in the User-Agent of a client for `config`.
pub open spec fn agent_product_version(config: DatabricksConfig) -> Seq<char> {
    match config.product_version {
        Some(v) => v@,
        None => "0.0.0"@,
    }
}

/// The User-Agent of a client for `config`: its product and version
/// (`unknown` and `0.0.0` when unset) and the `databricks-cli` auth type.
pub fn user_agent_for(config: &DatabricksConfig) -> (r: UserAgent)
    ensures
        r@.product == sanitized(agent_product(*config)),
        r@.product_version == sanitized(agent_product_version(*config)),
        r@.auth_type == Some(sanitized("databricks-cli"@)),
        r@.extras.len() == 0,
{
    let product: &str = match &config.product {
        Some(p) => p.as_str(),
        None => "unknown",
    };
    let version: &str = match &config.product_version {
        Some(v) => v.as_str(),
        None => "0.0.0",
    };
    UserAgent::new(product, version).with_auth("databricks-cli")
}

/// The URL of a REST call: the host followed by the path.
pub fn request_url(host: &str, path: &str) -> (r: String)
    ensures
        r@ == host@ + path@,
{
    concat2(host, path)
}

/// Whether an HTTP status code is a success (200 to 299), as
/// `http::StatusCode::is_success` answers.
pub fn status_is_success(status: u16) -> (r: bool)
    ensures
        r == (200 <= status && status < 300),
{
    200 <= status && status < 300
}

/// The error for a response with a non-success status: the body read from
/// it, or `(no response body)` when it could not be read.
pub fn api_error(status: u16, body: Option<String>) -> (r: DatabricksError)
    ensures
        r@ == (DatabricksErrorView::Api {
            status,
            message: match body {
                Some(b) => b@,
                None => "(no response body)"@,
            },
            body: None,
        }),
{
    let message = match body {
        Some(b) => b,
        None => String::from_str("(no response body)"),
    };
    DatabricksError::Api { status, message, body: None }
}

/// A configuration with the product and version named in the User-Agent.
pub fn config_with_product(config: DatabricksConfig, product: &str, product_version: &str) -> (r: DatabricksConfig)
    ensures
        r.profile == config.profile,
        r.host == config.host,
        r.product matches Some(p) && p@ == product@,
        r.product_version matches Some(v) && v@ == product_version@,
{
    let mut c = config;
    c.product = Some(String::from_str(product));
    c.product_version = Some(String::from_str(product_version));
    c
}

/// The REST path of the current user (SCIM `/Me`).
pub fn current_user_path() -> (r: &'static str)
    ensures
        r@ == "/api/2.0/preview/scim/v2/Me"@,
{
    "/api/2.0/preview/scim/v2/Me"
}

/// The `Authorization` header value for a token.
pub fn bearer_header(token: &str) -> (r: String)
    ensures
        r@ == "Bearer "@ + token@,
{
    concat2("Bearer ", token)
}

} // verus!
