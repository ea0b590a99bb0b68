//! Errors returned by the Databricks SDK.
use vstd::prelude::*;
use crate::text::{concat2, decimal, u64_to_string};

verus! {

/// Errors returned by the Databricks SDK.
///
/// The transport, file-system and JSON variants carry the rendered message of
/// the underlying error.
#[derive(Debug)]
pub enum DatabricksError {
    /// Authentication failure (e.g. invalid or expired token).
    Auth(String),
    /// Non-success HTTP response from the Databricks API.
    Api {
        /// HTTP status code.
        status: u16,
        /// Human-readable error message.
        message: String,
        /// Optional raw response body.
        body: Option<String>,
    },
    /// Configuration error (missing profile, missing host, etc.).
    Config(String),
    /// Databricks CLI invocation failure.
    Cli(String),
    /// WebSocket connection or protocol error.
    WebSocket(String),
    /// Input validation error.
    Validation(String),
    /// Underlying HTTP transport error.
    Http(String),
    /// File-system or I/O error.
    Io(String),
    /// JSON serialization or deserialization error.
    Json(String),
}

/// Mathematical model of a [`DatabricksError`].
pub enum DatabricksErrorView {
    Auth(Seq<char>),
    Api { status: u16, message: Seq<char>, body: Option<Seq<char>> },
    Config(Seq<char>),
    Cli(Seq<char>),
    WebSocket(Seq<char>),
    Validation(Seq<char>),
    Http(Seq<char>),
    Io(Seq<char>),
    Json(Seq<char>),
}

impl View for DatabricksError {
    type V = DatabricksErrorView;

    open spec fn view(&self) -> DatabricksErrorView {
        match self {
            DatabricksError::Auth(m) => DatabricksErrorView::Auth(m@),
            DatabricksError::Api { status, message, body } => DatabricksErrorView::Api {
                status: *status,
                message: message@,
                body: match body {
                    Some(b) => Some(b@),
                    None => None,
                },
            },
            DatabricksError::Config(m) => DatabricksErrorView::Config(m@),
            DatabricksError::Cli(m) => DatabricksErrorView::Cli(m@),
            DatabricksError::WebSocket(m) => DatabricksErrorView::WebSocket(m@),
            DatabricksError::Validation(m) => DatabricksErrorView::Validation(m@),
            DatabricksError::Http(m) => DatabricksErrorView::Http(m@),
            DatabricksError::Io(m) => DatabricksErrorView::Io(m@),
            DatabricksError::Json(m) => DatabricksErrorView::Json(m@),
        }
    }
}

/// The human-readable rendering of an error.
pub open spec fn error_text(e: DatabricksErrorView) -> Seq<char> {
    match e {
        DatabricksErrorView::Auth(m) => "authentication error: "@ + m,
        DatabricksErrorView::Api { status, message, .. } => "API error (HTTP "@ + decimal(
            status as nat,
        ) + "): "@ + message,
        DatabricksErrorView::Config(m) => "configuration error: "@ + m,
        DatabricksErrorView::Cli(m) => "CLI error: "@ + m,
        DatabricksErrorView::WebSocket(m) => "WebSocket error: "@ + m,
        DatabricksErrorView::Validation(m) => "validation error: "@ + m,
        DatabricksErrorView::Http(m) => "HTTP error: "@ + m,
        DatabricksErrorView::Io(m) => "I/O error: "@ + m,
        DatabricksErrorView::Json(m) => "JSON error: "@ + m,
    }
}

impl DatabricksError {
    /// The human-readable rendering of this error.
    pub fn message(&self) -> (r: String)
        ensures
            r@ == error_text(self@),
    {
        match self {
            DatabricksError::Auth(m) => concat2("authentication error: ", m.as_str()),
            DatabricksError::Api { status, message, .. } => {
                let mut r = String::from_str("API error (HTTP ");
                let code = u64_to_string(*status as u64);
                r.append(code.as_str());
                r.append("): ");
                r.append(message.as_str());
                r
            },
            DatabricksError::Config(m) => concat2("configuration error: ", m.as_str()),
            DatabricksError::Cli(m) => concat2("CLI error: ", m.as_str()),
            DatabricksError::WebSocket(m) => concat2("WebSocket error: ", m.as_str()),
            DatabricksError::Validation(m) => concat2("validation error: ", m.as_str()),
            DatabricksError::Http(m) => concat2("HTTP error: ", m.as_str()),
            DatabricksError::Io(m) => concat2("I/O error: ", m.as_str()),
            DatabricksError::Json(m) => concat2("JSON error: ", m.as_str()),
        }
    }
}

} // verus!
