use vstd::prelude::*;
use vstd::string::*;

use crate::json::JsonValue;
use crate::text::{concat, decimal, decimal_string, same_text};

verus! {

/// A failure of a transport call.
#[derive(Debug)]
pub enum TransportError {
    /// The call could not be completed on the wire.
    Http(String),
    /// The call completed but its answer broke the protocol.
    Protocol(String),
}

pub open spec fn http_prefix() -> Seq<char> {
    "http transport error: "@
}

pub open spec fn protocol_prefix() -> Seq<char> {
    "transport protocol error: "@
}

impl TransportError {
    /// The text of the error.
    pub open spec fn text(&self) -> Seq<char> {
        match self {
            TransportError::Http(m) => http_prefix() + m@,
            TransportError::Protocol(m) => protocol_prefix() + m@,
        }
    }

    /// Whether this is a protocol error with message `m`.
    pub open spec fn is_protocol(&self, m: Seq<char>) -> bool {
        self is Protocol && self->Protocol_0@ == m
    }

    pub fn to_string(&self) -> (r: String)
        ensures
            r@ == self.text(),
    {
        match self {
            TransportError::Http(m) => concat("http transport error: ", m.as_str()),
            TransportError::Protocol(m) => concat("transport protocol error: ", m.as_str()),
        }
    }
}

/// The operations that the scenarios run against a gateway.
///
/// Each operation is described by a relation between what is sent and what
/// came back. By default a transport admits any answer, as a gateway on the
/// wire does; an implementation may narrow the relation, a fixture to the
/// one answer it gives. What the scenarios conclude is stated over these
/// relations, for every transport.
pub trait ConformanceTransport {
    /// `reply` is an answer this transport gives to a fetch of `path`.
    open spec fn fetches(&self, path: Seq<char>, reply: Result<JsonValue, TransportError>) -> bool {
        true
    }

    /// `reply` is an answer this transport gives to submitting `body` to `path`.
    open spec fn submits(
        &self,
        path: Seq<char>,
        body: JsonValue,
        reply: Result<(u16, JsonValue), TransportError>,
    ) -> bool {
        true
    }

    /// `reply` is a first reply this transport gives to a session opened with
    /// `frame`.
    open spec fn probes(&self, frame: JsonValue, reply: Result<JsonValue, TransportError>) -> bool {
        true
    }

    /// `replies` is an outcome this transport gives to a session that sends
    /// `frames`.
    open spec fn exchanges(
        &self,
        frames: Seq<JsonValue>,
        replies: Result<Vec<JsonValue>, TransportError>,
    ) -> bool {
        true
    }

    /// One request/response call; any status other than success is an error.
    fn get_json(&self, path: &str) -> (r: Result<JsonValue, TransportError>)
        ensures
            self.fetches(path@, r),
    ;

    /// Submits `body`; a non-success status is a valid result.
    fn post_json(&self, path: &str, body: &JsonValue) -> (r: Result<(u16, JsonValue), TransportError>)
        ensures
            self.submits(path@, *body, r),
    ;

    /// Opens a session, sends one frame and returns the first reply.
    fn websocket_first_response(&self, frame: &JsonValue) -> (r: Result<JsonValue, TransportError>)
        ensures
            self.probes(*frame, r),
    ;

    /// Opens a session and sends the frames one at a time, collecting one
    /// reply for each.
    fn websocket_exchange(&self, frames: &[JsonValue]) -> (r: Result<Vec<JsonValue>, TransportError>)
        ensures
            self.exchanges(frames@, r),
    ;
}

/// Whether `c` has the Unicode White_Space property: tab through carriage
/// return, space, next line, no-break space, ogham space mark, the spaces
/// from en quad to hair space, the line and paragraph separators, narrow
/// no-break space, medium mathematical space and ideographic space.
pub open spec fn unicode_white_space(c: char) -> bool {
    let u = c as u32;
    ||| 0x9 <= u <= 0xd
    ||| u == 0x20
    ||| u == 0x85
    ||| u == 0xa0
    ||| u == 0x1680
    ||| 0x2000 <= u <= 0x200a
    ||| u == 0x2028
    ||| u == 0x2029
    ||| u == 0x202f
    ||| u == 0x205f
    ||| u == 0x3000
}

pub open spec fn trim_start(s: Seq<char>) -> Seq<char>
    decreases s.len(),
{
    if s.len() > 0 && unicode_white_space(s[0]) {
        trim_start(s.drop_first())
    } else {
        s
    }
}

pub open spec fn trim_end(s: Seq<char>) -> Seq<char>
    decreases s.len(),
{
    if s.len() > 0 && unicode_white_space(s.last()) {
        trim_end(s.drop_last())
    } else {
        s
    }
}

/// `s` without leading and trailing white space.
pub open spec fn trimmed(s: Seq<char>) -> Seq<char> {
    trim_end(trim_start(s))
}

/// Relies on str::trim: it removes leading and trailing characters with the
/// Unicode White_Space property.
#[verifier::external_body]
fn trim(s: &str) -> (r: &str)
    ensures
        r@ == trimmed(s@),
        r@.len() > 0 ==> !unicode_white_space(r@[0]) && !unicode_white_space(r@.last()),
{
    s.trim()
}

/// `s` without trailing slashes.
pub open spec fn without_trailing_slashes(s: Seq<char>) -> Seq<char>
    decreases s.len(),
{
    if s.len() > 0 && s.last() == '/' {
        without_trailing_slashes(s.drop_last())
    } else {
        s
    }
}

pub open spec fn has_prefix(s: Seq<char>, p: Seq<char>) -> bool {
    p.len() <= s.len() && s.subrange(0, p.len() as int) == p
}

/// Whether `s` begins with `p`.
pub fn starts_with(s: &str, p: &str) -> (r: bool)
    ensures
        r == has_prefix(s@, p@),
{
    let n = s.unicode_len();
    let k = p.unicode_len();
    if k > n {
        false
    } else {
        same_text(s.substring_char(0, k), p)
    }
}

fn strip_trailing_slashes(s: &str) -> (r: &str)
    ensures
        r@ == without_trailing_slashes(s@),
{
    let mut end = s.unicode_len();
    assert(s@.subrange(0, end as int) == s@);
    while end > 0 && s.get_char(end - 1) == '/'
        invariant
            end <= s@.len(),
            without_trailing_slashes(s@) == without_trailing_slashes(s@.subrange(0, end as int)),
        decreases end,
    {
        assert(s@.subrange(0, end as int).drop_last() == s@.subrange(0, end as int - 1));
        end = end - 1;
    }
    s.substring_char(0, end)
}

/// The base URL a transport is given, trimmed and without trailing slashes.
pub open spec fn normalized_base(input: Seq<char>) -> Seq<char> {
    without_trailing_slashes(trimmed(input))
}

pub open spec fn is_http_url(s: Seq<char>) -> bool {
    has_prefix(s, "http://"@) || has_prefix(s, "https://"@)
}

/// Normalizes a base URL that is already trimmed: refuses it when empty,
/// drops trailing slashes and requires an HTTP scheme.
pub fn normalize_trimmed_base_url(t: &str) -> (r: Result<String, TransportError>)
    ensures
        t@.len() == 0 ==> r is Err && r->Err_0.is_protocol("base URL cannot be empty"@),
        t@.len() > 0 && !is_http_url(without_trailing_slashes(t@)) ==> r is Err
            && r->Err_0.is_protocol("base URL must start with http:// or https://"@),
        t@.len() > 0 && is_http_url(without_trailing_slashes(t@)) ==> r is Ok && r->Ok_0@
            == without_trailing_slashes(t@),
{
    if t.unicode_len() == 0 {
        return Err(TransportError::Protocol(String::from_str("base URL cannot be empty")));
    }
    let without = strip_trailing_slashes(t);
    if !(starts_with(without, "http://") || starts_with(without, "https://")) {
        return Err(
            TransportError::Protocol(
                String::from_str("base URL must start with http:// or https://"),
            ),
        );
    }
    Ok(String::from_str(without))
}

/// Trims the base URL, drops trailing slashes and requires an HTTP scheme.
pub fn normalize_base_url(input: String) -> (r: Result<String, TransportError>)
    ensures
        trimmed(input@).len() == 0 ==> r is Err && r->Err_0.is_protocol(
            "base URL cannot be empty"@,
        ),
        trimmed(input@).len() > 0 && !is_http_url(normalized_base(input@)) ==> r is Err
            && r->Err_0.is_protocol("base URL must start with http:// or https://"@),
        trimmed(input@).len() > 0 && is_http_url(normalized_base(input@)) ==> r is Ok
            && r->Ok_0@ == normalized_base(input@),
{
    normalize_trimmed_base_url(trim(input.as_str()))
}

/// `path` with a leading slash.
pub fn normalize_path(path: &str) -> (r: String)
    ensures
        has_prefix(path@, "/"@) ==> r@ == path@,
        !has_prefix(path@, "/"@) ==> r@ == "/"@ + path@,
{
    if starts_with(path, "/") {
        String::from_str(path)
    } else {
        concat("/", path)
    }
}

/// The socket address for a base URL: the scheme mapped to its socket
/// counterpart and `/ws` appended.
pub open spec fn socket_url(base: Seq<char>) -> Seq<char> {
    if has_prefix(base, "http://"@) {
        "ws://"@ + base.subrange(7, base.len() as int) + "/ws"@
    } else if has_prefix(base, "https://"@) {
        "wss://"@ + base.subrange(8, base.len() as int) + "/ws"@
    } else {
        base + "/ws"@
    }
}

pub fn websocket_url(base_url: &str) -> (r: String)
    ensures
        r@ == socket_url(base_url@),
{
    proof {
        reveal_strlit("http://");
        reveal_strlit("https://");
    }
    let n = base_url.unicode_len();
    if starts_with(base_url, "http://") {
        let host = base_url.substring_char(7, n);
        let mut s = concat("ws://", host);
        s.append("/ws");
        s
    } else if starts_with(base_url, "https://") {
        let host = base_url.substring_char(8, n);
        let mut s = concat("wss://", host);
        s.append("/ws");
        s
    } else {
        concat(base_url, "/ws")
    }
}

/// The kinds of frame a message socket delivers.
#[derive(Debug, Clone, Copy, PartialEq, Eq, Structural)]
pub enum SocketFrame {
    Text,
    Binary,
    Ping,
    Pong,
    Close,
    Raw,
}

/// What a reader waiting for a reply does with a frame.
#[derive(Debug, Clone, Copy, PartialEq, Eq, Structural)]
pub enum ReadStep {
    /// Decode the frame as the JSON reply.
    Decode,
    /// Answer the keep-alive and keep reading.
    AnswerPing,
    /// Ignore the frame and keep reading.
    Skip,
}

/// The step for each frame kind: text is the reply, keep-alives are answered
/// or ignored and not counted, and a close or a binary frame ends the wait
/// with a protocol error.
pub fn read_step(frame: SocketFrame) -> (r: Result<ReadStep, TransportError>)
    ensures
        frame == SocketFrame::Text <==> r == Ok::<ReadStep, TransportError>(ReadStep::Decode),
        frame == SocketFrame::Ping <==> r == Ok::<ReadStep, TransportError>(ReadStep::AnswerPing),
        (frame == SocketFrame::Pong || frame == SocketFrame::Raw) <==> r == Ok::<
            ReadStep,
            TransportError,
        >(ReadStep::Skip),
        frame == SocketFrame::Close ==> r is Err && r->Err_0.is_protocol(
            "websocket closed before response"@,
        ),
        frame == SocketFrame::Binary ==> r is Err && r->Err_0.is_protocol(
            "unexpected binary websocket frame"@,
        ),
{
    match frame {
        SocketFrame::Text => Ok(ReadStep::Decode),
        SocketFrame::Ping => Ok(ReadStep::AnswerPing),
        SocketFrame::Pong => Ok(ReadStep::Skip),
        SocketFrame::Raw => Ok(ReadStep::Skip),
        SocketFrame::Close => Err(
            TransportError::Protocol(String::from_str("websocket closed before response")),
        ),
        SocketFrame::Binary => Err(
            TransportError::Protocol(String::from_str("unexpected binary websocket frame")),
        ),
    }
}

/// An exchange needs at least one frame.
pub fn check_frame_count(count: usize) -> (r: Result<(), TransportError>)
    ensures
        r is Ok <==> count > 0,
        count == 0 ==> r is Err && r->Err_0.is_protocol(
            "websocket exchange requires at least one frame"@,
        ),
{
    if count == 0 {
        Err(
            TransportError::Protocol(
                String::from_str("websocket exchange requires at least one frame"),
            ),
        )
    } else {
        Ok(())
    }
}

/// A fetch succeeds only with status 200; any other status is a protocol
/// error naming it and the path.
pub fn check_fetch_status(status: u16, path: &str) -> (r: Result<(), TransportError>)
    ensures
        r is Ok <==> status == 200,
        status != 200 ==> r is Err && r->Err_0.is_protocol(
            "unexpected status "@ + decimal(status as nat) + " for "@ + path@,
        ),
{
    if status == 200 {
        Ok(())
    } else {
        let mut m = concat("unexpected status ", decimal_string(status as u128).as_str());
        m.append(" for ");
        m.append(path);
        Err(TransportError::Protocol(m))
    }
}

} // verus!
