//! Apps: the REST model, the checks made before a log stream is opened, the
//! stream URL and origin, the decisions of the frame reader and the tail
//! buffer of log entries.
use vstd::prelude::*;
use std::collections::VecDeque;
use std::time::Duration;
use crate::sdk::error::{DatabricksError, DatabricksErrorView};
use crate::text::{
    chars_of, concat2, concat3, decimal, trim_end_char, trim_end_matches, u64_to_string, views,
};

verus! {

broadcast use vstd::std_specs::vecdeque::group_vec_dequeue_axioms;

// ── REST model ──────────────────────────────────────────────────────────

/// The compute state of an app.
#[derive(Debug, Clone, Copy, PartialEq, Eq, Structural)]
pub enum ComputeState {
    Active,
    Starting,
    Stopping,
    Stopped,
    Deleting,
    Error,
    /// A state this library does not know.
    Unknown,
}

impl ComputeState {
    /// The states in which an app cannot produce logs.
    pub open spec fn terminal(self) -> bool {
        self is Stopped || self is Deleting || self is Error
    }

    /// The variant's name as written in messages.
    pub open spec fn label(self) -> Seq<char> {
        match self {
            ComputeState::Active => "Active"@,
            ComputeState::Starting => "Starting"@,
            ComputeState::Stopping => "Stopping"@,
            ComputeState::Stopped => "Stopped"@,
            ComputeState::Deleting => "Deleting"@,
            ComputeState::Error => "Error"@,
            ComputeState::Unknown => "Unknown"@,
        }
    }

    /// Whether the app is stopped, being deleted or failed.
    pub fn is_terminal(&self) -> (r: bool)
        ensures
            r == self.terminal(),
    {
        match self {
            ComputeState::Stopped | ComputeState::Deleting | ComputeState::Error => true,
            _ => false,
        }
    }

    /// The variant's name as written in messages.
    pub fn name(&self) -> (r: &'static str)
        ensures
            r@ == self.label(),
    {
        match self {
            ComputeState::Active => "Active",
            ComputeState::Starting => "Starting",
            ComputeState::Stopping => "Stopping",
            ComputeState::Stopped => "Stopped",
            ComputeState::Deleting => "Deleting",
            ComputeState::Error => "Error",
            ComputeState::Unknown => "Unknown",
        }
    }
}

/// The compute status of an app.
#[derive(Debug, Clone, Copy)]
pub struct ComputeStatus {
    pub state: ComputeState,
}

/// App metadata as returned by `GET /api/2.0/apps/{name}`.
#[derive(Debug, Clone)]
pub struct App {
    pub name: String,
    pub url: Option<String>,
    pub compute_status: Option<ComputeStatus>,
}

/// The parameters of a log fetch.
#[derive(Debug)]
pub struct AppLogsArgs<'a> {
    /// The app whose logs are read.
    pub app_name: &'a str,
    /// How many of the latest entries are kept.
    pub tail_lines: usize,
    /// The search term sent as the first frame.
    pub search: Option<&'a str>,
    /// The sources kept (compared without ASCII case); all when `None`.
    pub sources: Option<&'a [String]>,
    /// The time after which the stream is closed.
    pub timeout: Duration,
    /// The silence after a first entry that ends the backlog.
    pub idle_timeout: Option<Duration>,
}

/// The REST path of an app.
pub fn app_path(name: &str) -> (r: String)
    ensures
        r@ == "/api/2.0/apps/"@ + name@,
{
    concat2("/api/2.0/apps/", name)
}

// ── Checks before the stream is opened ──────────────────────────────────

/// What `validate_app` answers: the error message, or the app URL.
pub open spec fn app_check(
    name: Seq<char>,
    url: Option<Seq<char>>,
    status: Option<ComputeStatus>,
) -> Result<Seq<char>, Seq<char>> {
    if status is Some && status->0.state.terminal() {
        Err("App '"@ + name + "' is in state "@ + status->0.state.label() + " and cannot produce logs"@)
    } else if url is Some && url->0.len() > 0 {
        Ok(url->0)
    } else {
        Err("App '"@ + name + "' has no URL \u{2014} it may not be deployed yet"@)
    }
}

/// The URL of an app that can produce logs: a validation error when its
/// compute state is terminal, or when it has no (or an empty) URL.
pub fn validate_app(app: &App) -> (r: Result<&str, DatabricksError>)
    ensures
        match app_check(
            app.name@,
            match app.url {
                Some(u) => Some(u@),
                None => None,
            },
            app.compute_status,
        ) {
            Ok(u) => r matches Ok(s) && s@ == u,
            Err(m) => r matches Err(e) && e@ == DatabricksErrorView::Validation(m),
        },
{
    match &app.compute_status {
        Some(cs) => {
            if cs.state.is_terminal() {
                let mut m = concat3("App '", app.name.as_str(), "' is in state ");
                m.append(cs.state.name());
                m.append(" and cannot produce logs");
                return Err(DatabricksError::Validation(m));
            }
        },
        None => {},
    }
    match &app.url {
        Some(u) => {
            if !u.as_str().is_empty() {
                return Ok(u.as_str());
            }
        },
        None => {},
    }
    Err(DatabricksError::Validation(concat3("App '", app.name.as_str(), "' has no URL \u{2014} it may not be deployed yet")))
}

// ── Stream URL and origin ───────────────────────────────────────────────

/// Name for what `url::Url::parse` gives for a text, taken as its scheme
/// and path, or the rendered parse error.
pub uninterp spec fn url_parsed(s: Seq<char>) -> Result<(Seq<char>, Seq<char>), Seq<char>>;

/// Name for the serialization of the URL parsed from `s` once its scheme is
/// set to `scheme` and its path to `path` with `url::Url::set_scheme` and
/// `url::Url::set_path`; `None` when the text does not parse or the scheme
/// is refused.
pub uninterp spec fn url_rewritten(s: Seq<char>, scheme: Seq<char>, path: Seq<char>) -> Option<Seq<char>>;

/// Name for what `url::Url::origin` gives for the URL parsed from `s`:
/// `Ok(Some((scheme, host, port)))` for a tuple origin, `Ok(None)` for an
/// opaque one, or the rendered parse error.
pub uninterp spec fn url_origin(s: Seq<char>) -> Result<Option<(Seq<char>, Seq<char>, u16)>, Seq<char>>;

/// Calls `url::Url::parse` and reads `scheme()` and `path()` of the result,
/// or renders the `url::ParseError`. The contract says only that the answer
/// is the one named by `url_parsed`, a function of the text alone.
#[verifier::external_body]
fn parse_url_parts(s: &str) -> (r: Result<(String, String), String>)
    ensures
        match r {
            Ok((a, b)) => url_parsed(s@) == Ok::<(Seq<char>, Seq<char>), Seq<char>>((a@, b@)),
            Err(e) => url_parsed(s@) == Err::<(Seq<char>, Seq<char>), Seq<char>>(e@),
        },
{
    match url::Url::parse(s) {
        Ok(u) => Ok((u.scheme().to_string(), u.path().to_string())),
        Err(e) => Err(format!("{e}")),
    }
}

/// Parses `s` with `url::Url::parse`, then calls `set_scheme` and
/// `set_path` and serializes the URL. The contract says only that the answer
/// is the one named by `url_rewritten`, a function of the three texts alone.
#[verifier::external_body]
fn rewrite_url(s: &str, scheme: &str, path: &str) -> (r: Option<String>)
    ensures
        match r {
            Some(t) => url_rewritten(s@, scheme@, path@) == Some(t@),
            None => url_rewritten(s@, scheme@, path@) == None::<Seq<char>>,
        },
{
    let mut u = url::Url::parse(s).ok()?;
    u.set_scheme(scheme).ok()?;
    u.set_path(path);
    Some(u.to_string())
}

/// Parses `s` with `url::Url::parse` and calls `origin()`, taking a tuple
/// origin apart into its scheme, rendered host and port. The contract says
/// only that the answer is the one named by `url_origin`, a function of the
/// text alone.
#[verifier::external_body]
fn origin_parts(s: &str) -> (r: Result<Option<(String, String, u16)>, String>)
    ensures
        match r {
            Ok(Some((a, b, p))) => url_origin(s@) == Ok::<Option<(Seq<char>, Seq<char>, u16)>, Seq<char>>(Some((a@, b@, p))),
            Ok(None) => url_origin(s@) == Ok::<Option<(Seq<char>, Seq<char>, u16)>, Seq<char>>(None),
            Err(e) => url_origin(s@) == Err::<Option<(Seq<char>, Seq<char>, u16)>, Seq<char>>(e@),
        },
{
    match url::Url::parse(s) {
        Ok(u) => match u.origin() {
            url::Origin::Tuple(scheme, host, port) => Ok(Some((scheme, host.to_string(), port))),
            url::Origin::Opaque(_) => Ok(None),
        },
        Err(e) => Err(format!("{e}")),
    }
}

/// The WebSocket scheme for an app URL scheme.
pub open spec fn ws_scheme(scheme: Seq<char>) -> Option<Seq<char>> {
    if scheme == "https"@ {
        Some("wss"@)
    } else if scheme == "http"@ {
        Some("ws"@)
    } else {
        None
    }
}

/// The scheme and path of the log stream, from the parsed app URL: the
/// WebSocket scheme, and the path without trailing `/` followed by
/// `/logz/stream`.
pub open spec fn ws_target_of(parsed: Result<(Seq<char>, Seq<char>), Seq<char>>) -> Result<(Seq<char>, Seq<char>), DatabricksErrorView> {
    match parsed {
        Err(e) => Err(DatabricksErrorView::WebSocket("Invalid app URL: "@ + e)),
        Ok((scheme, path)) => match ws_scheme(scheme) {
            None => Err(DatabricksErrorView::WebSocket("Unexpected app URL scheme: "@ + scheme)),
            Some(ws) => Ok((ws, trim_end_char(path, '/') + "/logz/stream"@)),
        },
    }
}

/// The stream URL, from the rewritten app URL.
pub open spec fn ws_url_of(rewritten: Option<Seq<char>>) -> Result<Seq<char>, DatabricksErrorView> {
    match rewritten {
        Some(u) => Ok(u),
        None => Err(DatabricksErrorView::WebSocket("Failed to set WS scheme"@)),
    }
}

/// The scheme and path of the log stream for a parsed app URL (its scheme
/// and path, or the parse error).
pub fn ws_target(parsed: Result<(String, String), String>) -> (r: Result<(String, String), DatabricksError>)
    ensures
        match ws_target_of(match parsed {
            Ok((a, b)) => Ok((a@, b@)),
            Err(e) => Err(e@),
        }) {
            Ok((s, p)) => r matches Ok((rs, rp)) && rs@ == s && rp@ == p,
            Err(e) => r matches Err(re) && re@ == e,
        },
{
    match parsed {
        Err(e) => Err(DatabricksError::WebSocket(concat2("Invalid app URL: ", e.as_str()))),
        Ok((scheme, path)) => {
            let v = chars_of(scheme.as_str());
            let ws: &str = if v.len() == 5 && v[0] == 'h' && v[1] == 't' && v[2] == 't' && v[3] == 'p' && v[4] == 's' {
                proof {
                    assert(scheme@ =~= "https"@) by { reveal_strlit("https"); }
                }
                "wss"
            } else if v.len() == 4 && v[0] == 'h' && v[1] == 't' && v[2] == 't' && v[3] == 'p' {
                proof {
                    reveal_strlit("https");
                    assert(scheme@ =~= "http"@) by { reveal_strlit("http"); }
                }
                "ws"
            } else {
                proof {
                    reveal_strlit("https");
                    reveal_strlit("http");
                    assert(scheme@ != "https"@);
                    assert(scheme@ != "http"@);
                }
                return Err(DatabricksError::WebSocket(concat2("Unexpected app URL scheme: ", scheme.as_str())));
            };
            let mut p = trim_end_matches(path.as_str(), '/');
            p.append("/logz/stream");
            Ok((String::from_str(ws), p))
        },
    }
}

/// The stream URL for a rewritten app URL.
pub fn ws_url(rewritten: Option<String>) -> (r: Result<String, DatabricksError>)
    ensures
        match ws_url_of(match rewritten {
            Some(u) => Some(u@),
            None => None,
        }) {
            Ok(u) => r matches Ok(s) && s@ == u,
            Err(e) => r matches Err(re) && re@ == e,
        },
{
    match rewritten {
        Some(u) => Ok(u),
        None => Err(DatabricksError::WebSocket(String::from_str("Failed to set WS scheme"))),
    }
}

/// The WebSocket URL of an app's log stream: `https` becomes `wss`, `http`
/// becomes `ws`, and `/logz/stream` is appended to the path.
pub fn build_ws_url(app_url: &str) -> (r: Result<String, DatabricksError>)
    ensures
        match ws_target_of(url_parsed(app_url@)) {
            Err(e) => r matches Err(re) && re@ == e,
            Ok((s, p)) => match ws_url_of(url_rewritten(app_url@, s, p)) {
                Ok(u) => r matches Ok(t) && t@ == u,
                Err(e) => r matches Err(re) && re@ == e,
            },
        },
{
    let parsed = parse_url_parts(app_url);
    let (scheme, path) = match ws_target(parsed) {
        Ok(t) => t,
        Err(e) => {
            return Err(e);
        },
    };
    ws_url(rewrite_url(app_url, scheme.as_str(), path.as_str()))
}

/// The default port of a scheme (0 for a scheme without one).
pub open spec fn default_port(scheme: Seq<char>) -> u16 {
    if scheme == "https"@ || scheme == "wss"@ {
        443
    } else if scheme == "http"@ || scheme == "ws"@ {
        80
    } else {
        0
    }
}

/// The `Origin` header value for an app URL's origin.
pub open spec fn origin_text_of(origin: Result<Option<(Seq<char>, Seq<char>, u16)>, Seq<char>>) -> Result<Seq<char>, DatabricksErrorView> {
    match origin {
        Err(e) => Err(DatabricksErrorView::WebSocket("Invalid app URL: "@ + e)),
        Ok(None) => Err(DatabricksErrorView::WebSocket("App URL has opaque origin"@)),
        Ok(Some((scheme, host, port))) => if port == default_port(scheme) {
            Ok(scheme + "://"@ + host)
        } else {
            Ok(scheme + "://"@ + host + ":"@ + decimal(port as nat))
        },
    }
}

fn is_literal(s: &str, lit: &str) -> (r: bool)
    ensures
        r == (s@ == lit@),
{
    crate::text::str_eq(s, lit)
}

/// The default port of a scheme (0 for a scheme without one).
pub fn scheme_default_port(scheme: &str) -> (r: u16)
    ensures
        r == default_port(scheme@),
{
    if is_literal(scheme, "https") || is_literal(scheme, "wss") {
        443
    } else if is_literal(scheme, "http") || is_literal(scheme, "ws") {
        80
    } else {
        0
    }
}

/// The `Origin` header value for the origin of an app URL: the scheme and
/// host, with the port only where it differs from the scheme's default.
pub fn origin_text(origin: Result<Option<(String, String, u16)>, String>) -> (r: Result<String, DatabricksError>)
    ensures
        match origin_text_of(match origin {
            Ok(Some((a, b, p))) => Ok(Some((a@, b@, p))),
            Ok(None) => Ok(None),
            Err(e) => Err(e@),
        }) {
            Ok(t) => r matches Ok(s) && s@ == t,
            Err(e) => r matches Err(re) && re@ == e,
        },
{
    match origin {
        Err(e) => Err(DatabricksError::WebSocket(concat2("Invalid app URL: ", e.as_str()))),
        Ok(None) => Err(DatabricksError::WebSocket(String::from_str("App URL has opaque origin"))),
        Ok(Some((scheme, host, port))) => {
            let mut t = concat3(scheme.as_str(), "://", host.as_str());
            if port != scheme_default_port(scheme.as_str()) {
                t.append(":");
                let d = u64_to_string(port as u64);
                t.append(d.as_str());
            }
            Ok(t)
        },
    }
}

/// The `Origin` header value for an app URL.
pub fn extract_origin(app_url: &str) -> (r: Result<String, DatabricksError>)
    ensures
        match origin_text_of(url_origin(app_url@)) {
            Ok(t) => r matches Ok(s) && s@ == t,
            Err(e) => r matches Err(re) && re@ == e,
        },
{
    origin_text(origin_parts(app_url))
}

// ── Frame reader decisions ──────────────────────────────────────────────

/// What the frame reader saw.
#[derive(Debug)]
pub enum FrameEvent {
    /// A text frame.
    Text(String),
    /// A binary frame (heartbeats included).
    Binary,
    /// A close frame.
    Close,
    /// Any other frame.
    Other,
    /// The stream ended.
    Ended,
    /// Reading failed, with the rendered error.
    ReadError(String),
    /// Nothing arrived within the idle timeout.
    IdleTimeout,
}

/// What the frame reader does next.
#[derive(Debug)]
pub enum FrameAction {
    /// Parse and buffer this text, then read on.
    Buffer(String),
    /// Read on.
    Continue,
    /// Stop reading; the backlog is complete.
    Stop,
    /// Stop with this error.
    Fail(DatabricksError),
}

/// One step of the frame reader, from whether a text frame was seen before
/// and what was read now, to whether one has been seen and what to do. An
/// idle timeout ends reading only once a text frame has arrived.
pub fn next_frame(received_any: bool, event: FrameEvent) -> (r: (bool, FrameAction))
    ensures
        match event {
            FrameEvent::Text(t) => r.0 && (r.1 matches FrameAction::Buffer(b) && b@ == t@),
            FrameEvent::ReadError(m) => r.0 == received_any && (r.1 matches FrameAction::Fail(e)
                && e@ == DatabricksErrorView::WebSocket("Failed to read frame: "@ + m@)),
            FrameEvent::Close | FrameEvent::Ended => r.0 == received_any && r.1 is Stop,
            FrameEvent::Binary | FrameEvent::Other => r.0 == received_any && r.1 is Continue,
            FrameEvent::IdleTimeout => r.0 == received_any && (if received_any {
                r.1 is Stop
            } else {
                r.1 is Continue
            }),
        },
{
    match event {
        FrameEvent::Text(t) => (true, FrameAction::Buffer(t)),
        FrameEvent::ReadError(m) => (
            received_any,
            FrameAction::Fail(DatabricksError::WebSocket(concat2("Failed to read frame: ", m.as_str()))),
        ),
        FrameEvent::Close | FrameEvent::Ended => (received_any, FrameAction::Stop),
        FrameEvent::Binary | FrameEvent::Other => (received_any, FrameAction::Continue),
        FrameEvent::IdleTimeout => if received_any {
            (received_any, FrameAction::Stop)
        } else {
            (received_any, FrameAction::Continue)
        },
    }
}

// ── Source filter and tail buffer ───────────────────────────────────────

/// A character folded to ASCII lower case, by code point.
pub open spec fn ascii_fold(c: char) -> int {
    if 'A' <= c && c <= 'Z' {
        (c as u32) + 32
    } else {
        c as u32 as int
    }
}

/// Equality up to ASCII case (what `str::eq_ignore_ascii_case` tests).
pub open spec fn eq_ascii_ci(a: Seq<char>, b: Seq<char>) -> bool {
    a.len() == b.len() && forall|i: int| 0 <= i < a.len() ==> ascii_fold(#[trigger] a[i]) == ascii_fold(b[i])
}

fn fold(c: char) -> (r: u32)
    ensures
        r as int == ascii_fold(c),
{
    if 'A' <= c && c <= 'Z' {
        (c as u32) + 32
    } else {
        c as u32
    }
}

/// Whether two strings are equal up to ASCII case.
pub fn eq_ignore_ascii_case(a: &str, b: &str) -> (r: bool)
    ensures
        r == eq_ascii_ci(a@, b@),
{
    let x = chars_of(a);
    let y = chars_of(b);
    if x.len() != y.len() {
        return false;
    }
    let mut i: usize = 0;
    while i < x.len()
        invariant
            i <= x.len(),
            x.len() == y.len(),
            x@ == a@,
            y@ == b@,
            forall|k: int| 0 <= k < i ==> ascii_fold(#[trigger] x@[k]) == ascii_fold(y@[k]),
        decreases x.len() - i,
    {
        if fold(x[i]) != fold(y[i]) {
            return false;
        }
        i = i + 1;
    }
    true
}

/// Whether a log entry from `source` is kept: always without a source
/// list, else when the list holds the source up to ASCII case.
pub open spec fn source_kept(sources: Option<Seq<Seq<char>>>, source: Seq<char>) -> bool {
    match sources {
        None => true,
        Some(list) => listed_ci(list, source),
    }
}

/// Whether `list` holds `source` up to ASCII case.
pub open spec fn listed_ci(list: Seq<Seq<char>>, source: Seq<char>) -> bool {
    exists|i: int| 0 <= i < list.len() && eq_ascii_ci(#[trigger] list[i], source)
}

/// A text with every ASCII letter folded to lower case.
pub open spec fn ascii_folded(s: Seq<char>) -> Seq<int> {
    s.map_values(|c: char| ascii_fold(c))
}

proof fn lemma_eq_ci_folded(a: Seq<char>, b: Seq<char>)
    ensures
        eq_ascii_ci(a, b) <==> ascii_folded(a) == ascii_folded(b),
{
    if eq_ascii_ci(a, b) {
        assert(ascii_folded(a) =~= ascii_folded(b));
    }
    if ascii_folded(a) == ascii_folded(b) {
        assert(ascii_folded(a).len() == a.len());
        assert(ascii_folded(b).len() == b.len());
        assert forall|i: int| 0 <= i < a.len() implies ascii_fold(#[trigger] a[i]) == ascii_fold(b[i]) by {
            assert(ascii_folded(a)[i] == ascii_folded(b)[i]);
        }
    }
}

/// Without a source list every entry is kept; with one, an entry is kept
/// exactly when some listed source, at any position of the list, equals
/// its source once ASCII letters are folded to lower case.
pub proof fn law_source_filter(list: Seq<Seq<char>>, source: Seq<char>)
    ensures
        source_kept(None, source),
        source_kept(Some(list), source) <==> exists|i: int|
            0 <= i < list.len() && ascii_folded(#[trigger] list[i]) == ascii_folded(source),
{
    if source_kept(Some(list), source) {
        let i = choose|i: int| 0 <= i < list.len() && eq_ascii_ci(#[trigger] list[i], source);
        lemma_eq_ci_folded(list[i], source);
    }
    if exists|i: int| 0 <= i < list.len() && ascii_folded(#[trigger] list[i]) == ascii_folded(source) {
        let i = choose|i: int| 0 <= i < list.len() && ascii_folded(#[trigger] list[i]) == ascii_folded(source);
        lemma_eq_ci_folded(list[i], source);
        assert(eq_ascii_ci(list[i], source));
    }
}

/// Whether a log entry from `source` is kept by the source filter.
pub fn source_allowed(sources: Option<&[String]>, source: &str) -> (r: bool)
    ensures
        r == source_kept(
            match sources {
                Some(l) => Some(views(l@)),
                None => None,
            },
            source@,
        ),
{
    match sources {
        None => true,
        Some(list) => {
            let ghost vs = views(list@);
            let mut i: usize = 0;
            while i < list.len()
                invariant
                    i <= list.len(),
                    vs == views(list@),
                    sources == Some(list),
                    forall|k: int| 0 <= k < i ==> !eq_ascii_ci(#[trigger] vs[k], source@),
                decreases list.len() - i,
            {
                assert(vs[i as int] == list@[i as int]@);
                if eq_ignore_ascii_case(list[i].as_str(), source) {
                    assert(eq_ascii_ci(vs[i as int], source@));
                    assert(listed_ci(vs, source@));
                    return true;
                }
                i = i + 1;
            }
            false
        },
    }
}

/// The buffer after one entry is added: the oldest entry leaves first when
/// the buffer already holds `tail` entries or more.
pub open spec fn tail_push<T>(b: Seq<T>, x: T, tail: nat) -> Seq<T> {
    if b.len() >= tail && b.len() > 0 {
        b.subrange(1, b.len() as int).push(x)
    } else {
        b.push(x)
    }
}

/// Adds an entry to the tail buffer, dropping the oldest one when the
/// buffer already holds `tail_lines` entries or more.
pub fn push_tail<T>(buffer: &mut VecDeque<T>, entry: T, tail_lines: usize)
    ensures
        final(buffer)@ == tail_push(old(buffer)@, entry, tail_lines as nat),
{
    if buffer.len() >= tail_lines {
        let _ = buffer.pop_front();
    }
    buffer.push_back(entry);
}

/// The buffer after adding every entry of `s`, in order, to an empty one.
pub open spec fn tail_fill<T>(s: Seq<T>, tail: nat) -> Seq<T>
    decreases s.len(),
{
    if s.len() == 0 {
        Seq::empty()
    } else {
        tail_push(tail_fill(s.drop_last(), tail), s.last(), tail)
    }
}

/// How many entries the tail buffer keeps: `tail`, and at least one.
pub open spec fn tail_keep(tail: nat) -> nat {
    if tail == 0 {
        1
    } else {
        tail
    }
}

/// Filling an empty tail buffer with a run of entries leaves exactly the
/// last `tail` of them (at least the last one), oldest first.
pub proof fn law_tail_buffer_keeps_latest<T>(s: Seq<T>, tail: nat)
    ensures
        tail_fill(s, tail) == s.subrange(
            s.len() - (if s.len() < tail_keep(tail) {
                s.len() as int
            } else {
                tail_keep(tail) as int
            }),
            s.len() as int,
        ),
    decreases s.len(),
{
    if s.len() > 0 {
        let p = s.drop_last();
        law_tail_buffer_keeps_latest(p, tail);
        let k = tail_keep(tail) as int;
        let b = tail_fill(p, tail);
        if p.len() < k {
            assert(b =~= p);
            if p.len() >= tail && p.len() > 0 {
                assert(false);
            }
            assert(tail_push(b, s.last(), tail) =~= s.subrange(0, s.len() as int));
        } else {
            assert(b =~= p.subrange(p.len() - k, p.len() as int));
            assert(b.len() == k);
            assert(b.len() >= tail && b.len() > 0);
            assert(tail_push(b, s.last(), tail) =~= s.subrange(s.len() - k, s.len() as int));
        }
    }
}

} // verus!
