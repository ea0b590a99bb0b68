//! Structured errors and RFC 9457 problem details. Internal errors never
//! reach clients: only fixed, safe messages do.
use vstd::prelude::*;

verus! {

/// RFC 9457 problem detail response body.
#[derive(Debug)]
pub struct ProblemDetail {
    /// Problem type URI (`about:blank` unless stated).
    pub problem_type: String,
    /// Short human-readable summary.
    pub title: String,
    /// HTTP status code.
    pub status: u16,
    /// Detailed human-readable explanation.
    pub detail: Option<String>,
    /// URI reference identifying the specific occurrence.
    pub instance: Option<String>,
    /// Structured validation errors (only for 422 responses).
    pub errors: Vec<ValidationErrorItem>,
}

/// Structured validation error, safe to include in a response.
#[derive(Debug, Clone)]
pub struct ValidationErrorItem {
    /// Location path, e.g. `["body", "name"]`.
    pub loc: Vec<String>,
    /// Human-readable message, e.g. `Field required`.
    pub msg: String,
    /// Error type code, e.g. `missing`.
    pub error_type: String,
}

/// Body parse failure: a fixed set of safe messages.
#[derive(Debug, Clone, Copy, PartialEq, Eq, Structural)]
pub enum BodyParseKind {
    /// JSON syntax error.
    InvalidJson,
    /// Request body exceeded the configured limit.
    BodyTooLarge,
    /// Content-Type is not `application/json`.
    UnsupportedContentType,
}

impl BodyParseKind {
    /// The client-facing message of each kind.
    pub open spec fn message(self) -> Seq<char> {
        match self {
            BodyParseKind::InvalidJson => "Request body is not valid JSON"@,
            BodyParseKind::BodyTooLarge => "Request body exceeds the maximum allowed size"@,
            BodyParseKind::UnsupportedContentType => "Content-Type must be application/json"@,
        }
    }

    /// Human-readable detail message for the client.
    pub fn detail(self) -> (r: &'static str)
        ensures
            r@ == self.message(),
    {
        match self {
            BodyParseKind::InvalidJson => "Request body is not valid JSON",
            BodyParseKind::BodyTooLarge => "Request body exceeds the maximum allowed size",
            BodyParseKind::UnsupportedContentType => "Content-Type must be application/json",
        }
    }
}

/// How deep the source chain of an error is searched.
pub const MAX_ERROR_CHAIN_DEPTH: usize = 10;

/// Where a wanted error sits in a source chain: `found[i]` tells whether
/// the `i`-th source (the direct source first) is of the wanted type. Only
/// the first `MAX_ERROR_CHAIN_DEPTH` sources are looked at; the answer is
/// the first match among them.
pub fn find_in_error_chain(found: &[bool]) -> (r: Option<usize>)
    ensures
        match r {
            Some(i) => i < found.len() && i < MAX_ERROR_CHAIN_DEPTH && found@[i as int]
                && forall|j: int| 0 <= j < i ==> !found@[j],
            None => forall|j: int|
                0 <= j < found.len() && j < MAX_ERROR_CHAIN_DEPTH ==> !found@[j],
        },
{
    let mut i: usize = 0;
    while i < found.len() && i < MAX_ERROR_CHAIN_DEPTH
        invariant
            i <= found.len(),
            i <= MAX_ERROR_CHAIN_DEPTH,
            forall|j: int| 0 <= j < i ==> !found@[j],
        decreases found.len() - i,
    {
        if found[i] {
            return Some(i);
        }
        i = i + 1;
    }
    None
}

/// Application error that becomes an RFC 9457 response.
#[derive(Debug)]
pub enum AppError {
    /// Validation failed (422): structured, safe to return.
    Validation(Vec<ValidationErrorItem>),
    /// Exception in the handler (500): the detail is logged, never sent.
    Internal(String),
    /// Body parse error (400): fixed messages only.
    BodyParse(BodyParseKind),
    /// Request timeout (408).
    Timeout,
}

impl AppError {
    /// The status code of each error.
    pub open spec fn status(&self) -> u16 {
        match self {
            AppError::Validation(_) => 422,
            AppError::BodyParse(_) => 400,
            AppError::Internal(_) => 500,
            AppError::Timeout => 408,
        }
    }

    /// The problem title of each error.
    pub open spec fn title_text(&self) -> Seq<char> {
        match self {
            AppError::Validation(_) => "Validation Error"@,
            AppError::BodyParse(_) => "Bad Request"@,
            AppError::Internal(_) => "Internal Server Error"@,
            AppError::Timeout => "Request Timeout"@,
        }
    }

    /// The client-safe detail of each error; it never depends on the text
    /// of an internal error.
    pub open spec fn detail_text(&self) -> Seq<char> {
        match self {
            AppError::BodyParse(kind) => kind.message(),
            AppError::Timeout => "The request exceeded the allowed processing time"@,
            AppError::Internal(_) => "An unexpected error occurred"@,
            AppError::Validation(_) => "Request validation failed"@,
        }
    }

    /// The HTTP status code.
    pub fn status_code(&self) -> (r: u16)
        ensures
            r == self.status(),
    {
        match self {
            AppError::Validation(_) => 422,
            AppError::BodyParse(_) => 400,
            AppError::Internal(_) => 500,
            AppError::Timeout => 408,
        }
    }

    /// The RFC 9457 problem title.
    pub fn title(&self) -> (r: &'static str)
        ensures
            r@ == self.title_text(),
    {
        match self {
            AppError::Validation(_) => "Validation Error",
            AppError::BodyParse(_) => "Bad Request",
            AppError::Internal(_) => "Internal Server Error",
            AppError::Timeout => "Request Timeout",
        }
    }

    /// The client-safe detail message.
    pub fn client_detail(&self) -> (r: Option<String>)
        ensures
            r matches Some(d) && d@ == self.detail_text(),
    {
        match self {
            AppError::BodyParse(kind) => Some(String::from_str(kind.detail())),
            AppError::Timeout => Some(String::from_str("The request exceeded the allowed processing time")),
            AppError::Internal(_) => Some(String::from_str("An unexpected error occurred")),
            AppError::Validation(_) => Some(String::from_str("Request validation failed")),
        }
    }

    /// The problem detail sent for this error: type `about:blank`, the
    /// title, status and safe detail, and the validation items of a
    /// validation error (none for the others).
    pub fn problem_detail(self) -> (r: ProblemDetail)
        ensures
            r.problem_type@ == "about:blank"@,
            r.title@ == self.title_text(),
            r.status == self.status(),
            r.detail matches Some(d) && d@ == self.detail_text(),
            r.instance is None,
            match self {
                AppError::Validation(items) => r.errors@ == items@,
                _ => r.errors@.len() == 0,
            },
    {
        let status = self.status_code();
        let title = String::from_str(self.title());
        let detail = self.client_detail();
        let errors = match self {
            AppError::Validation(items) => items,
            _ => Vec::new(),
        };
        ProblemDetail {
            problem_type: String::from_str("about:blank"),
            title,
            status,
            detail,
            instance: None,
            errors,
        }
    }
}

/// The content type of problem detail responses.
pub fn problem_json_content_type() -> (r: &'static str)
    ensures
        r@ == "application/problem+json"@,
{
    "application/problem+json"
}

/// The body sent when a problem detail cannot be serialized.
pub fn fallback_problem_body() -> (r: &'static str)
    ensures
        r@ == "{\"type\":\"about:blank\",\"title\":\"Internal Server Error\",\"status\":500}"@,
{
    "{\"type\":\"about:blank\",\"title\":\"Internal Server Error\",\"status\":500}"
}

/// No internal error text ever reaches the client: two internal errors
/// with any messages get the same status, title and detail.
pub proof fn law_internal_detail_is_opaque(a: String, b: String)
    ensures
        AppError::Internal(a).status() == AppError::Internal(b).status(),
        AppError::Internal(a).title_text() == AppError::Internal(b).title_text(),
        AppError::Internal(a).detail_text() == AppError::Internal(b).detail_text(),
{
}

} // verus!
