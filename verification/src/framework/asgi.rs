//! ASGI event rules: the events an app sends, the order they must come in,
//! how a response is classified as fixed or streaming, the body stream, the
//! error responses of the dispatcher, and percent decoding of paths.
use vstd::prelude::*;
use vstd::utf8::{decode_utf8, encode_utf8, valid_utf8};
use crate::framework::error::AppError;
use crate::text::{concat2, str_eq};

verus! {

/// An event sent by an ASGI app.
#[derive(Debug)]
pub enum AsgiEvent {
    /// `http.response.start`: status code and headers.
    ResponseStart { status: u16, headers: Vec<(Vec<u8>, Vec<u8>)> },
    /// `http.response.body`: a body chunk and whether more follow.
    ResponseBody { body: Vec<u8>, more_body: bool },
    /// `websocket.accept`: optional subprotocol and headers.
    WsAccept { subprotocol: Option<String>, headers: Vec<(Vec<u8>, Vec<u8>)> },
    /// `websocket.send`: a text or binary frame.
    WsSend { text: Option<String>, bytes: Option<Vec<u8>> },
    /// `websocket.close`: the close code.
    WsClose { code: u16 },
}

impl AsgiEvent {
    /// `http.response.body`; `more_body` is false when absent.
    pub fn response_body(body: Vec<u8>, more_body: Option<bool>) -> (r: AsgiEvent)
        ensures
            r matches AsgiEvent::ResponseBody { body: b, more_body: m } && b@ == body@ && m == (
            more_body == Some(true)),
    {
        let m = match more_body {
            Some(b) => b,
            None => false,
        };
        AsgiEvent::ResponseBody { body, more_body: m }
    }

    /// `websocket.close`; the code is 1000 when absent.
    pub fn ws_close(code: Option<u16>) -> (r: AsgiEvent)
        ensures
            r matches AsgiEvent::WsClose { code: c } && c == match code {
                Some(c) => c,
                None => 1000u16,
            },
    {
        let c = match code {
            Some(c) => c,
            None => 1000,
        };
        AsgiEvent::WsClose { code: c }
    }
}

/// The kinds of event an app may send.
#[derive(Debug, Clone, Copy, PartialEq, Eq, Structural)]
pub enum AsgiEventType {
    ResponseStart,
    ResponseBody,
    WsAccept,
    WsSend,
    WsClose,
}

/// The event kind a `type` value names.
pub open spec fn event_type_named(t: Seq<char>) -> Option<AsgiEventType> {
    if t == "http.response.start"@ {
        Some(AsgiEventType::ResponseStart)
    } else if t == "http.response.body"@ {
        Some(AsgiEventType::ResponseBody)
    } else if t == "websocket.accept"@ {
        Some(AsgiEventType::WsAccept)
    } else if t == "websocket.send"@ {
        Some(AsgiEventType::WsSend)
    } else if t == "websocket.close"@ {
        Some(AsgiEventType::WsClose)
    } else {
        None
    }
}

/// The event kind of a send event's `type`, or the error for an
/// unsupported one.
pub fn asgi_event_type(t: &str) -> (r: Result<AsgiEventType, String>)
    ensures
        match event_type_named(t@) {
            Some(k) => r matches Ok(x) && x == k,
            None => r matches Err(e) && e@ == "unsupported ASGI event type: "@ + t@,
        },
{
    if str_eq(t, "http.response.start") {
        Ok(AsgiEventType::ResponseStart)
    } else if str_eq(t, "http.response.body") {
        Ok(AsgiEventType::ResponseBody)
    } else if str_eq(t, "websocket.accept") {
        Ok(AsgiEventType::WsAccept)
    } else if str_eq(t, "websocket.send") {
        Ok(AsgiEventType::WsSend)
    } else if str_eq(t, "websocket.close") {
        Ok(AsgiEventType::WsClose)
    } else {
        Err(concat2("unsupported ASGI event type: ", t))
    }
}

// ── Events handed to the app ───────────────────────────────────────────

/// An HTTP `receive` event: `http.request` with the whole body (no more to
/// come), or `http.disconnect`.
#[derive(Debug)]
pub struct ReceiveEvent {
    pub event_type: &'static str,
    /// The body (`http.request` only).
    pub body: Option<Vec<u8>>,
    /// Whether more body follows (`http.request` only; always false).
    pub more_body: Option<bool>,
}

/// The receive event for a buffered body, or the disconnect event.
pub fn receive_event(body: Option<Vec<u8>>) -> (r: ReceiveEvent)
    ensures
        match body {
            Some(b) => r.event_type@ == "http.request"@ && (r.body matches Some(x) && x@ == b@)
                && r.more_body == Some(false),
            None => r.event_type@ == "http.disconnect"@ && r.body is None && r.more_body is None,
        },
{
    match body {
        Some(b) => ReceiveEvent { event_type: "http.request", body: Some(b), more_body: Some(false) },
        None => ReceiveEvent { event_type: "http.disconnect", body: None, more_body: None },
    }
}

/// The body an HTTP `receive` callable still holds: handed out once, then
/// the callable pends forever.
#[derive(Debug)]
pub struct ReceiveBody {
    pub body: Option<Vec<u8>>,
}

impl ReceiveBody {
    /// One call of `receive`: the request event with the body the first
    /// time, nothing (pend) afterwards.
    pub fn take_event(&mut self) -> (r: Option<ReceiveEvent>)
        ensures
            final(self).body is None,
            match old(self).body {
                Some(b) => r matches Some(e) && e.event_type@ == "http.request"@ && (e.body matches Some(
                    x,
                ) && x@ == b@),
                None => r is None,
            },
    {
        match self.body.take() {
            Some(b) => Some(receive_event(Some(b))),
            None => None,
        }
    }
}

/// An event from a WebSocket client.
#[derive(Debug)]
pub enum WsIncomingEvent {
    /// `websocket.connect`.
    Connect,
    /// `websocket.receive`: a text or binary frame.
    Receive { text: Option<String>, bytes: Option<Vec<u8>> },
    /// `websocket.disconnect` with its close code.
    Disconnect { code: u16 },
}

/// A WebSocket `receive` event as handed to the app.
#[derive(Debug)]
pub struct WsReceiveEvent {
    pub event_type: &'static str,
    pub text: Option<String>,
    pub bytes: Option<Vec<u8>>,
    pub code: Option<u16>,
}

/// The receive event for a client event; a closed channel reads as a
/// disconnect with code 1000.
pub fn ws_receive_event(event: Option<WsIncomingEvent>) -> (r: WsReceiveEvent)
    ensures
        match event {
            Some(WsIncomingEvent::Connect) => r.event_type@ == "websocket.connect"@ && r.text is None
                && r.bytes is None && r.code is None,
            Some(WsIncomingEvent::Receive { text, bytes }) => r.event_type@ == "websocket.receive"@
                && r.text == text && r.bytes == bytes && r.code is None,
            Some(WsIncomingEvent::Disconnect { code }) => r.event_type@ == "websocket.disconnect"@
                && r.text is None && r.bytes is None && r.code == Some(code),
            None => r.event_type@ == "websocket.disconnect"@ && r.text is None && r.bytes is None
                && r.code == Some(1000u16),
        },
{
    match event {
        Some(WsIncomingEvent::Connect) => WsReceiveEvent { event_type: "websocket.connect", text: None, bytes: None, code: None },
        Some(WsIncomingEvent::Receive { text, bytes }) => WsReceiveEvent { event_type: "websocket.receive", text, bytes, code: None },
        Some(WsIncomingEvent::Disconnect { code }) => WsReceiveEvent { event_type: "websocket.disconnect", text: None, bytes: None, code: Some(code) },
        None => WsReceiveEvent { event_type: "websocket.disconnect", text: None, bytes: None, code: Some(1000) },
    }
}

// ── Response start and classification ──────────────────────────────────

/// The status and headers of the first event of a response, or the
/// protocol error when the first event is not a response start.
pub fn recv_response_start(event: Option<AsgiEvent>) -> (r: Result<(u16, Vec<(Vec<u8>, Vec<u8>)>), AppError>)
    ensures
        match event {
            Some(AsgiEvent::ResponseStart { status, headers }) => r matches Ok((s, h)) && s == status
                && h@ == headers@,
            Some(AsgiEvent::ResponseBody { .. }) => r matches Err(AppError::Internal(m)) && m@
                == "ASGI protocol error: received body before response start"@,
            Some(_) => r matches Err(AppError::Internal(m)) && m@
                == "ASGI protocol error: unexpected event before response start"@,
            None => r matches Err(AppError::Internal(m)) && m@
                == "ASGI protocol error: channel closed before response start"@,
        },
{
    match event {
        Some(AsgiEvent::ResponseStart { status, headers }) => Ok((status, headers)),
        Some(AsgiEvent::ResponseBody { .. }) => Err(AppError::Internal(String::from_str("ASGI protocol error: received body before response start"))),
        Some(_) => Err(AppError::Internal(String::from_str("ASGI protocol error: unexpected event before response start"))),
        None => Err(AppError::Internal(String::from_str("ASGI protocol error: channel closed before response start"))),
    }
}

/// Calls `http::StatusCode::from_u16`, which accepts exactly the codes from
/// 100 to 999, and reads the code back with `as_u16`.
#[verifier::external_body]
fn status_code_from_u16(code: u16) -> (r: Option<u16>)
    ensures
        r == (if 100 <= code && code <= 999 {
            Some(code)
        } else {
            None::<u16>
        }),
{
    http::StatusCode::from_u16(code).ok().map(|s| s.as_u16())
}

/// The status sent for a status code an app gave: the code itself when it
/// is a valid HTTP status (100 to 999), else 500.
pub open spec fn sent_status(code: u16) -> u16 {
    if 100 <= code && code <= 999 {
        code
    } else {
        500
    }
}

/// The status sent for a status code an app gave.
pub fn response_status(code: u16) -> (r: u16)
    ensures
        r == sent_status(code),
{
    match status_code_from_u16(code) {
        Some(c) => c,
        None => 500,
    }
}

/// The body of a classified response.
#[derive(Debug)]
pub enum ResponseBodyKind {
    /// The whole body.
    Fixed(Vec<u8>),
    /// A stream that starts with this chunk.
    Stream(Vec<u8>),
}

/// Classification of a response from the event after its start: a last
/// body chunk gives a fixed body, a chunk with more to come a stream, a
/// closed channel an empty fixed body, anything else a protocol error.
pub fn classify_after_start(status: u16, next: Option<AsgiEvent>) -> (r: Result<(u16, ResponseBodyKind), AppError>)
    ensures
        match next {
            Some(AsgiEvent::ResponseBody { body, more_body }) => r matches Ok((s, k)) && s
                == sent_status(status) && (if more_body {
                k matches ResponseBodyKind::Stream(c) && c@ == body@
            } else {
                k matches ResponseBodyKind::Fixed(b) && b@ == body@
            }),
            Some(_) => r matches Err(AppError::Internal(m)) && m@
                == "ASGI protocol error: unexpected event after response start"@,
            None => r matches Ok((s, k)) && s == sent_status(status) && (k matches ResponseBodyKind::Fixed(b)
                && b@.len() == 0),
        },
{
    let s = response_status(status);
    match next {
        Some(AsgiEvent::ResponseBody { body, more_body }) => if more_body {
            Ok((s, ResponseBodyKind::Stream(body)))
        } else {
            Ok((s, ResponseBodyKind::Fixed(body)))
        },
        Some(_) => Err(AppError::Internal(String::from_str("ASGI protocol error: unexpected event after response start"))),
        None => Ok((s, ResponseBodyKind::Fixed(Vec::new()))),
    }
}

// ── Body stream ─────────────────────────────────────────────────────────

/// What a poll of the body stream gives.
#[derive(Debug)]
pub enum StreamPoll {
    /// A chunk of the body.
    Chunk(Vec<u8>),
    /// The end of the body.
    End,
    /// Wait for the app's next event.
    Wait,
}

/// The state of a streaming body: whether it has ended, and the chunk
/// that was read while classifying the response.
#[derive(Debug)]
pub struct BodyStreamState {
    pub done: bool,
    pub initial_chunk: Option<Vec<u8>>,
}

impl BodyStreamState {
    /// A stream that first yields `initial_chunk`, when there is one.
    pub fn new(initial_chunk: Option<Vec<u8>>) -> (r: Self)
        ensures
            !r.done,
            r.initial_chunk == initial_chunk,
    {
        BodyStreamState { done: false, initial_chunk }
    }

    /// The part of a poll that needs no event: an ended stream stays ended,
    /// else the initial chunk comes first, else the stream waits for an
    /// event.
    pub fn poll_local(&mut self) -> (r: StreamPoll)
        ensures
            old(self).done ==> (r is End && *final(self) == *old(self)),
            !old(self).done && old(self).initial_chunk is Some ==> (r matches StreamPoll::Chunk(c)
                && c == old(self).initial_chunk->0 && !final(self).done
                && final(self).initial_chunk is None),
            !old(self).done && old(self).initial_chunk is None ==> (r is Wait && *final(self)
                == *old(self)),
    {
        if self.done {
            return StreamPoll::End;
        }
        match self.initial_chunk.take() {
            Some(c) => StreamPoll::Chunk(c),
            None => StreamPoll::Wait,
        }
    }

    /// The rest of a poll, from the app's next event: a body chunk is
    /// yielded (the stream ends after a last chunk); anything else, or a
    /// closed channel, ends the stream.
    pub fn on_event(&mut self, event: Option<AsgiEvent>) -> (r: StreamPoll)
        ensures
            final(self).initial_chunk == old(self).initial_chunk,
            match event {
                Some(AsgiEvent::ResponseBody { body, more_body }) => (r matches StreamPoll::Chunk(c)
                    && c@ == body@) && final(self).done == (old(self).done || !more_body),
                _ => r is End && final(self).done,
            },
    {
        match event {
            Some(AsgiEvent::ResponseBody { body, more_body }) => {
                if !more_body {
                    self.done = true;
                }
                StreamPoll::Chunk(body)
            },
            _ => {
                self.done = true;
                StreamPoll::End
            },
        }
    }
}

// ── Error responses ─────────────────────────────────────────────────────

/// The status and plain-text body the dispatcher sends for an internal
/// error or a timeout; the internal message is never sent.
pub fn error_response(err: &AppError) -> (r: (u16, &'static str))
    requires
        err is Internal || err is Timeout,
    ensures
        r.0 == err.status(),
        err is Timeout ==> r.1@ == "request timeout"@,
        err is Internal ==> r.1@ == "Internal Server Error"@,
{
    match err {
        AppError::Timeout => (err.status_code(), "request timeout"),
        _ => (err.status_code(), "Internal Server Error"),
    }
}

/// The content type of the dispatcher's error responses.
pub fn error_content_type() -> (r: &'static str)
    ensures
        r@ == "text/plain"@,
{
    "text/plain"
}

/// The status and content type of a handler's JSON response: the status
/// when valid (else 500), and `application/json` only for a non-empty body.
pub fn outbound_response_head(status: u16, body_len: usize) -> (r: (u16, Option<&'static str>))
    ensures
        r.0 == sent_status(status),
        body_len > 0 ==> (r.1 matches Some(t) && t@ == "application/json"@),
        body_len == 0 ==> r.1 is None,
{
    let s = response_status(status);
    if body_len > 0 {
        (s, Some("application/json"))
    } else {
        (s, None)
    }
}

// ── Percent decoding ────────────────────────────────────────────────────

/// The value of an ASCII hex digit.
pub open spec fn hex_digit(b: u8) -> Option<u8> {
    if 48 <= b && b <= 57 {
        Some((b - 48) as u8)
    } else if 97 <= b && b <= 102 {
        Some((b - 87) as u8)
    } else if 65 <= b && b <= 70 {
        Some((b - 55) as u8)
    } else {
        None
    }
}

/// Convert an ASCII hex digit to its 4-bit value.
pub fn hex_val(b: u8) -> (r: Option<u8>)
    ensures
        r == hex_digit(b),
{
    if 48 <= b && b <= 57 {
        Some(b - 48)
    } else if 97 <= b && b <= 102 {
        Some(b - 87)
    } else if 65 <= b && b <= 70 {
        Some(b - 55)
    } else {
        None
    }
}

/// Bytes with every `%` followed by two hex digits replaced by the byte
/// they name; any other `%` (bad digits, or too close to the end) is kept
/// as it is, with what follows it.
pub open spec fn pct_decode(b: Seq<u8>) -> Seq<u8>
    decreases b.len(),
{
    if b.len() == 0 {
        b
    } else if b[0] == 37 {
        if b.len() >= 3 {
            if hex_digit(b[1]) is Some && hex_digit(b[2]) is Some {
                seq![(hex_digit(b[1])->0 * 16 + hex_digit(b[2])->0) as u8] + pct_decode(
                    b.subrange(3, b.len() as int),
                )
            } else {
                b.subrange(0, 3) + pct_decode(b.subrange(3, b.len() as int))
            }
        } else {
            b
        }
    } else {
        seq![b[0]] + pct_decode(b.subrange(1, b.len() as int))
    }
}

/// What `percent_decode` gives for a text: the text itself without a `%`,
/// else its UTF-8 bytes decoded and read as UTF-8, or the text itself when
/// they are not valid UTF-8.
pub open spec fn percent_decoded(s: Seq<char>) -> Seq<char> {
    let b = encode_utf8(s);
    if !b.contains(37u8) {
        s
    } else if valid_utf8(pct_decode(b)) {
        decode_utf8(pct_decode(b))
    } else {
        s
    }
}

/// Calls `String::from_utf8`, which gives a string exactly when the bytes
/// are valid UTF-8; the string's characters are the bytes decoded.
#[verifier::external_body]
fn string_from_utf8(v: Vec<u8>) -> (r: Option<String>)
    ensures
        r is Some <==> valid_utf8(v@),
        r matches Some(s) ==> s@ == decode_utf8(v@),
{
    String::from_utf8(v).ok()
}

fn decode_bytes(b: &[u8]) -> (r: Vec<u8>)
    ensures
        r@ == pct_decode(b@),
{
    let mut out: Vec<u8> = Vec::new();
    let mut i: usize = 0;
    let n = b.len();
    assert(b@.subrange(0, n as int) =~= b@);
    assert(out@ + pct_decode(b@) =~= pct_decode(b@));
    while i < n
        invariant
            i <= n,
            n == b@.len(),
            pct_decode(b@) == out@ + pct_decode(b@.subrange(i as int, n as int)),
        decreases n - i,
    {
        let ghost rest = b@.subrange(i as int, n as int);
        let ghost before = out@;
        if b[i] == 37 {
            if n - i > 2 {
                assert(rest[0] == b@[i as int] && rest[1] == b@[i + 1] && rest[2] == b@[i + 2]);
                assert(rest.subrange(3, rest.len() as int) =~= b@.subrange(i + 3, n as int));
                match (hex_val(b[i + 1]), hex_val(b[i + 2])) {
                    (Some(h), Some(l)) => {
                        out.push(h * 16 + l);
                        assert(out@ =~= before + seq![(h * 16 + l) as u8]);
                    },
                    _ => {
                        out.push(b[i]);
                        out.push(b[i + 1]);
                        out.push(b[i + 2]);
                        assert(rest.subrange(0, 3) =~= seq![b@[i as int], b@[i + 1], b@[i + 2]]);
                        assert(out@ =~= before + rest.subrange(0, 3));
                    },
                }
                assert(pct_decode(b@) == out@ + pct_decode(b@.subrange(i + 3, n as int)));
                i = i + 3;
            } else {
                assert(rest[0] == b@[i as int]);
                assert(pct_decode(rest) == rest);
                let i0 = i;
                while i < n
                    invariant
                        i0 <= i <= n,
                        n == b@.len(),
                        out@ == before + b@.subrange(i0 as int, i as int),
                    decreases n - i,
                {
                    out.push(b[i]);
                    assert(b@.subrange(i0 as int, i + 1) =~= b@.subrange(i0 as int, i as int).push(b@[i as int]));
                    i = i + 1;
                }
                return out;
            }
        } else {
            assert(rest[0] == b@[i as int]);
            assert(rest.subrange(1, rest.len() as int) =~= b@.subrange(i + 1, n as int));
            out.push(b[i]);
            assert(out@ =~= before + seq![b@[i as int]]);
            i = i + 1;
        }
    }
    assert(b@.subrange(n as int, n as int) =~= Seq::<u8>::empty());
    assert(out@ + Seq::<u8>::empty() =~= out@);
    out
}

/// Decode percent-encoded UTF-8 text (e.g. `hello%20world` gives
/// `hello world`); text that does not decode to valid UTF-8 is kept as is.
pub fn percent_decode(input: &str) -> (r: String)
    ensures
        r@ == percent_decoded(input@),
{
    let b = input.as_bytes();
    let mut i: usize = 0;
    while i < b.len() && b[i] != 37
        invariant
            i <= b.len(),
            b@ == encode_utf8(input@),
            forall|k: int| 0 <= k < i ==> b@[k] != 37u8,
        decreases b.len() - i,
    {
        i = i + 1;
    }
    if i == b.len() {
        proof {
            assert(!b@.contains(37u8));
        }
        return String::from_str(input);
    }
    assert(b@[i as int] == 37u8);
    let decoded = decode_bytes(b);
    match string_from_utf8(decoded) {
        Some(s) => s,
        None => String::from_str(input),
    }
}

} // verus!
