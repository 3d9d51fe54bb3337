//! Decisions of the Streamable HTTP transport: `POST /mcp`, `GET /mcp` and
//! `DELETE /mcp`. The HTTP server hands these functions the request's headers and
//! body as plain values and performs what they decide.

use vstd::prelude::*;
use vstd::string::StringExecFns;

use crate::json::{JsonModel, JsonValue};
use crate::mcp::handler::error_reply;
use crate::mcp::protocol::{JsonRpcError, JsonRpcRequest, JsonRpcResponse};
use crate::mcp::session::{
    allows, is_uuid_v4_text, lifecycle_allows, lifecycle_refusal, new_session_id, refusal, SessionInfo,
    SessionState, SessionTable,
};
use crate::text::{contains_text, lowercase, occurs_in, text_equal, to_lowercase};

verus! {

/// The body of an HTTP reply.
#[derive(Debug)]
pub enum ReplyBody {
    /// No body.
    Empty,
    /// A plain-text body.
    Text(String),
    /// One JSON-RPC response, sent as JSON.
    Json(JsonRpcResponse),
    /// A batch of JSON-RPC responses, sent as a JSON array.
    JsonBatch(Vec<JsonRpcResponse>),
}

/// An HTTP reply: status code, the `Mcp-Session-Id` header if one is sent, and body.
#[derive(Debug)]
pub struct HttpReply {
    pub status: u16,
    pub session_id: Option<String>,
    pub body: ReplyBody,
}

/// `r` is a plain-text reply with this status and text, without session header.
pub open spec fn text_reply(r: HttpReply, status: u16, text: Seq<char>) -> bool {
    &&& r.status == status
    &&& r.session_id is None
    &&& r.body matches ReplyBody::Text(t) && t@ == text
}

fn plain(status: u16, text: &str) -> (r: HttpReply)
    ensures
        text_reply(r, status, text@),
{
    HttpReply { status, session_id: None, body: ReplyBody::Text(String::from_str(text)) }
}

/// A header's value mentions `value`, compared with the header value in lower case
/// (an absent header mentions nothing).
pub open spec fn header_has(header: Option<Seq<char>>, value: Seq<char>) -> bool {
    header matches Some(h) && occurs_in(lowercase(h), value)
}

/// Decides whether the header value mentions `value` (see [`header_has`]).
pub fn header_contains(header: Option<&str>, value: &str) -> (r: bool)
    ensures
        r == header_has(crate::seqs::opt_text(header), value@),
{
    match header {
        Some(h) => {
            let low = to_lowercase(h);
            contains_text(low.as_str(), value)
        },
        None => false,
    }
}

/// `resp` refuses `request` with "Invalid Request" and this detail.
pub open spec fn refuses(resp: JsonRpcResponse, request: JsonRpcRequest, detail: Seq<char>) -> bool {
    error_reply(resp, request.reply_id(), -32600, "Invalid Request"@, detail)
}

/// Checks whether the request is allowed given the current session state: `None`
/// lets it proceed; otherwise the "Invalid Request" error response to send back,
/// for an unknown session or a method the session's state does not allow.
pub fn check_lifecycle(sessions: &SessionTable, session_id: &str, request: &JsonRpcRequest) -> (r: Option<JsonRpcResponse>)
    ensures
        !sessions@.dom().contains(session_id@) ==> (r matches Some(resp) && refuses(resp, *request, "Session not found"@)),
        sessions@.dom().contains(session_id@) ==> {
            let state = sessions@[session_id@].state;
            if lifecycle_allows(state, request.method@) {
                r is None
            } else {
                r matches Some(resp) && refuses(resp, *request, lifecycle_refusal(state))
            }
        },
{
    match sessions.get(session_id) {
        None => Some(JsonRpcResponse::error(request.response_id(), JsonRpcError::invalid_request("Session not found"))),
        Some(info) => {
            if allows(info.state, request.method.as_str()) {
                None
            } else {
                let detail = refusal(info.state);
                Some(JsonRpcResponse::error(request.response_id(), JsonRpcError::invalid_request(detail.as_str())))
            }
        },
    }
}

/// The message names the method `initialize`.
pub open spec fn names_initialize(m: JsonValue) -> bool {
    m.field("method"@) matches Some(x) && x.text_of() == Some("initialize"@)
}

fn is_initialize(m: &JsonValue) -> (r: bool)
    ensures
        r == names_initialize(*m),
{
    match m.get("method") {
        Some(x) => match x.as_str() {
            Some(t) => text_equal(t, "initialize"),
            None => false,
        },
        None => false,
    }
}

/// What the first phase of `POST /mcp` decided.
#[derive(Debug)]
pub enum PostStart {
    /// Answer at once with this reply.
    Reply(HttpReply),
    /// Process these messages in order; `true` when the body was a batch (array).
    Messages(Vec<JsonValue>, bool),
}

/// The messages a parsed body holds: the elements of an array (a batch), or the
/// value itself.
pub open spec fn body_messages(v: JsonValue) -> Seq<JsonValue> {
    match v {
        JsonValue::Array(items) => items@,
        _ => seq![v],
    }
}

/// First phase of `POST /mcp`: checks the `Content-Type` and `Accept` headers, the
/// body's JSON (`body` is the parsed body or the parser's message), and, unless some
/// message is an `initialize`, that the `Mcp-Session-Id` header names a live session.
pub fn start_post(
    content_type: Option<&str>,
    accept: Option<&str>,
    session_header: Option<&str>,
    body: std::result::Result<JsonValue, String>,
    sessions: &SessionTable,
) -> (r: PostStart)
    ensures
        !header_has(crate::seqs::opt_text(content_type), "application/json"@) ==> (r matches PostStart::Reply(h)
            && text_reply(h, 415, "Content-Type must be application/json"@)),
        header_has(crate::seqs::opt_text(content_type), "application/json"@)
            && !header_has(crate::seqs::opt_text(accept), "application/json"@) ==> (r matches PostStart::Reply(h)
            && text_reply(h, 406, "Accept must include application/json"@)),
        header_has(crate::seqs::opt_text(content_type), "application/json"@)
            && header_has(crate::seqs::opt_text(accept), "application/json"@) ==> match body {
            Err(e) => {
                &&& r matches PostStart::Reply(h)
                &&& h.status == 200 && h.session_id is None
                &&& h.body matches ReplyBody::Json(resp)
                    && error_reply(resp, JsonModel::Null, -32700, "Parse error"@, e@)
            },
            Ok(v) => {
                let msgs = body_messages(v);
                let has_init = exists|i: int| 0 <= i < msgs.len() && names_initialize(#[trigger] msgs[i]);
                if !has_init && session_header is None {
                    r matches PostStart::Reply(h) && text_reply(h, 400, "Missing Mcp-Session-Id header"@)
                } else if !has_init && !sessions@.dom().contains(session_header.unwrap()@) {
                    r matches PostStart::Reply(h) && text_reply(h, 404, "Session not found"@)
                } else {
                    r matches PostStart::Messages(m, batch) && m@ == msgs && batch == (v is Array)
                }
            },
        },
{
    if !header_contains(content_type, "application/json") {
        return PostStart::Reply(plain(415, "Content-Type must be application/json"));
    }
    if !header_contains(accept, "application/json") {
        return PostStart::Reply(plain(406, "Accept must include application/json"));
    }
    let parsed = match body {
        Ok(v) => v,
        Err(e) => {
            let resp = JsonRpcResponse::error(JsonValue::Null, JsonRpcError::parse_error(e.as_str()));
            return PostStart::Reply(HttpReply { status: 200, session_id: None, body: ReplyBody::Json(resp) });
        },
    };
    let ghost whole = parsed;
    let is_batch = parsed.is_array();
    let messages: Vec<JsonValue> = match parsed {
        JsonValue::Array(items) => items,
        other => {
            let mut one: Vec<JsonValue> = Vec::new();
            one.push(other);
            one
        },
    };
    assert(messages@ =~= body_messages(whole));
    let mut has_init = false;
    let mut i: usize = 0;
    while i < messages.len()
        invariant
            i <= messages.len(),
            has_init == exists|j: int| 0 <= j < i && names_initialize(#[trigger] messages@[j]),
        decreases messages.len() - i,
    {
        if is_initialize(&messages[i]) {
            has_init = true;
        }
        i = i + 1;
    }
    if !has_init {
        match session_header {
            None => {
                return PostStart::Reply(plain(400, "Missing Mcp-Session-Id header"));
            },
            Some(sid) => {
                if !sessions.contains(sid) {
                    return PostStart::Reply(plain(404, "Session not found"));
                }
            },
        }
    }
    PostStart::Messages(messages, is_batch)
}

/// What to do with one message of a `POST /mcp` body.
#[derive(Debug)]
pub enum MessagePlan {
    /// Add this response to the reply.
    Respond(JsonRpcResponse),
    /// Dispatch this request to the handler; its response joins the reply unless
    /// the request is a notification.
    Dispatch(JsonRpcRequest),
    /// Nothing to add.
    Skip,
}

/// The session a session info describes once a new session is opened.
pub open spec fn fresh_session() -> SessionInfo {
    SessionInfo { state: SessionState::Initializing, sse_active: false, stream_unclaimed: true }
}

/// What `plan_message` does with one message of a body, decoded as `decoded`: a
/// message that is not a request is answered with "Parse error" and changes
/// nothing; a request is planned by [`plan_for_request`].
pub open spec fn message_step(
    before: Map<Seq<char>, SessionInfo>,
    after: Map<Seq<char>, SessionInfo>,
    session_header: Option<&str>,
    created_before: Option<String>,
    created_after: Option<String>,
    decoded: std::result::Result<JsonRpcRequest, String>,
    r: MessagePlan,
) -> bool {
    match decoded {
        Err(d) => {
            &&& r matches MessagePlan::Respond(resp)
                && error_reply(resp, JsonModel::Null, -32700, "Parse error"@, d@)
            &&& after == before
            &&& created_after == created_before
        },
        Ok(request) => plan_for_request(before, after, session_header, created_before, created_after, request, r),
    }
}

/// A whole `POST /mcp` body planned message by message, in order: `tables[i]` and
/// `created[i]` are the sessions and the session opened so far before message `i`,
/// and `plans[i]` is the plan of message `i` (decoded as `decoded[i]`).
pub open spec fn body_run(
    session_header: Option<&str>,
    tables: Seq<Map<Seq<char>, SessionInfo>>,
    created: Seq<Option<String>>,
    decoded: Seq<std::result::Result<JsonRpcRequest, String>>,
    plans: Seq<MessagePlan>,
) -> bool {
    &&& tables.len() == decoded.len() + 1
    &&& created.len() == decoded.len() + 1
    &&& plans.len() == decoded.len()
    &&& forall|i: int| 0 <= i < decoded.len() ==> #[trigger] message_step(
        tables[i],
        tables[i + 1],
        session_header,
        created[i],
        created[i + 1],
        decoded[i],
        plans[i],
    )
}

/// What a message's plan adds to the reply, `handled` being the handler's response
/// to it when it is a dispatched request: a dispatched notification adds nothing.
pub open spec fn plan_reply(plan: MessagePlan, handled: JsonRpcResponse) -> Seq<JsonRpcResponse> {
    match plan {
        MessagePlan::Respond(resp) => seq![resp],
        MessagePlan::Skip => Seq::empty(),
        MessagePlan::Dispatch(req) => if req.id is Some { seq![handled] } else { Seq::empty() },
    }
}

/// The responses that messages `lo` up to `hi` (excluded) add to the reply, in order.
pub open spec fn replies_between(
    plans: Seq<MessagePlan>,
    handled: Seq<JsonRpcResponse>,
    lo: int,
    hi: int,
) -> Seq<JsonRpcResponse>
    decreases hi - lo,
{
    if lo >= hi {
        Seq::empty()
    } else {
        plan_reply(plans[lo], handled[lo]) + replies_between(plans, handled, lo + 1, hi)
    }
}

/// Plans one message of a `POST /mcp` body, given the outcome of decoding it as a
/// request (the request, or the decoder's message). `session_header` is the
/// request's `Mcp-Session-Id`; `created` holds the session opened by an earlier
/// `initialize` of the same body. A message that is not a request is answered with
/// "Parse error"; an `initialize` opens a new session (in state `Initializing`), a
/// `notifications/initialized` allowed by the lifecycle makes the session `Ready`,
/// and every other request allowed by the lifecycle is dispatched. Refusals are
/// answered, except to notifications.
pub fn plan_message(
    sessions: &mut SessionTable,
    session_header: Option<&str>,
    created: &mut Option<String>,
    decoded: std::result::Result<JsonRpcRequest, String>,
) -> (r: MessagePlan)
    ensures
        message_step(old(sessions)@, final(sessions)@, session_header, *old(created), *final(created), decoded, r),
{
    let request = match decoded {
        Ok(req) => req,
        Err(d) => {
            return MessagePlan::Respond(JsonRpcResponse::error(JsonValue::Null, JsonRpcError::parse_error(d.as_str())));
        },
    };
    let notification = request.is_notification();
    if text_equal(request.method.as_str(), "initialize") {
        let sid = new_session_id();
        let copy = String::from_str(sid.as_str());
        sessions.insert(copy, SessionInfo { state: SessionState::Initializing, sse_active: false, stream_unclaimed: true });
        *created = Some(sid);
        return MessagePlan::Dispatch(request);
    }
    let sid: &str = match session_header {
        Some(s) => s,
        None => match created {
            Some(s) => s.as_str(),
            None => {
                if notification {
                    return MessagePlan::Skip;
                }
                return MessagePlan::Respond(JsonRpcResponse::error(
                    request.response_id(),
                    JsonRpcError::invalid_request("No session"),
                ));
            },
        },
    };
    let sid_owned = String::from_str(sid);
    match check_lifecycle(sessions, sid_owned.as_str(), &request) {
        Some(err) => {
            if notification {
                MessagePlan::Skip
            } else {
                MessagePlan::Respond(err)
            }
        },
        None => {
            if text_equal(request.method.as_str(), "notifications/initialized") {
                sessions.set_state(sid_owned.as_str(), SessionState::Ready);
                MessagePlan::Skip
            } else {
                MessagePlan::Dispatch(request)
            }
        },
    }
}

/// What `plan_message` does with the request `request`.
pub open spec fn plan_for_request(
    before: Map<Seq<char>, SessionInfo>,
    after: Map<Seq<char>, SessionInfo>,
    session_header: Option<&str>,
    created_before: Option<String>,
    created_after: Option<String>,
    request: JsonRpcRequest,
    r: MessagePlan,
) -> bool {
    let method = request.method@;
    let sid: Option<Seq<char>> = match session_header {
        Some(s) => Some(s@),
        None => match created_before {
            Some(c) => Some(c@),
            None => None,
        },
    };
    if method == "initialize"@ {
        &&& r == MessagePlan::Dispatch(request)
        &&& created_after matches Some(s) && is_uuid_v4_text(s@) && after == before.insert(s@, fresh_session())
    } else {
        &&& created_after == created_before
        &&& match sid {
            None => {
                &&& after == before
                &&& if request.id is None {
                    r is Skip
                } else {
                    r matches MessagePlan::Respond(resp)
                        && error_reply(resp, request.reply_id(), -32600, "Invalid Request"@, "No session"@)
                }
            },
            Some(s) => {
                if !before.dom().contains(s) || !lifecycle_allows(before[s].state, method) {
                    &&& after == before
                    &&& if request.id is None {
                        r is Skip
                    } else {
                        r matches MessagePlan::Respond(resp) && error_reply(
                            resp,
                            request.reply_id(),
                            -32600,
                            "Invalid Request"@,
                            if !before.dom().contains(s) { "Session not found"@ } else { lifecycle_refusal(before[s].state) },
                        )
                    }
                } else if method == "notifications/initialized"@ {
                    &&& r is Skip
                    &&& after == before.insert(s, SessionInfo { state: SessionState::Ready, ..before[s] })
                } else {
                    &&& after == before
                    &&& r == MessagePlan::Dispatch(request)
                }
            },
        }
    }
}

/// Last phase of `POST /mcp`: with no responses (only notifications) the reply is
/// `202 Accepted` without body; otherwise `200` with the responses, as an array
/// for a batch body and as a single response otherwise. The header carries the
/// session an `initialize` opened, if any.
pub fn finish_post(responses: Vec<JsonRpcResponse>, is_batch: bool, created: Option<String>) -> (r: HttpReply)
    ensures
        r.session_id == created,
        responses@.len() == 0 ==> r.status == 202 && r.body is Empty,
        responses@.len() > 0 && is_batch ==> r.status == 200 && r.body == ReplyBody::JsonBatch(responses),
        responses@.len() > 0 && !is_batch ==> r.status == 200 && r.body == ReplyBody::Json(responses@[0]),
{
    if responses.len() == 0 {
        HttpReply { status: 202, session_id: created, body: ReplyBody::Empty }
    } else if is_batch {
        HttpReply { status: 200, session_id: created, body: ReplyBody::JsonBatch(responses) }
    } else {
        let mut responses = responses;
        let first = responses.remove(0);
        HttpReply { status: 200, session_id: created, body: ReplyBody::Json(first) }
    }
}

/// Why `GET /mcp` may not open the stream of session `sid`, if it may not: the
/// status and text of the refusal.
pub open spec fn stream_refusal(sessions: Map<Seq<char>, SessionInfo>, sid: Seq<char>) -> Option<(u16, Seq<char>)> {
    if !sessions.dom().contains(sid) {
        Some((404u16, "Session not found"@))
    } else if sessions[sid].sse_active {
        Some((409u16, "SSE stream already active for this session"@))
    } else if !sessions[sid].stream_unclaimed {
        Some((409u16, "SSE stream already claimed"@))
    } else {
        None
    }
}

/// The sessions once the stream of `sid` is open and claimed.
pub open spec fn with_stream_open(sessions: Map<Seq<char>, SessionInfo>, sid: Seq<char>) -> Map<Seq<char>, SessionInfo> {
    sessions.insert(sid, SessionInfo { sse_active: true, stream_unclaimed: false, ..sessions[sid] })
}

/// The sessions once the stream of `sid` has closed (nothing changes for a session
/// that no longer exists).
pub open spec fn with_stream_closed(sessions: Map<Seq<char>, SessionInfo>, sid: Seq<char>) -> Map<Seq<char>, SessionInfo> {
    if sessions.dom().contains(sid) {
        sessions.insert(sid, SessionInfo { sse_active: false, ..sessions[sid] })
    } else {
        sessions
    }
}

/// `GET /mcp`: opens the passive SSE stream of the session named by the
/// `Mcp-Session-Id` header. On success the session's stream is marked open and
/// claimed, and its id is returned.
pub fn open_stream(accept: Option<&str>, session_header: Option<&str>, sessions: &mut SessionTable) -> (r: std::result::Result<String, HttpReply>)
    ensures
        !header_has(crate::seqs::opt_text(accept), "text/event-stream"@) ==> (r matches Err(h)
            && text_reply(h, 406, "Accept must be text/event-stream"@) && final(sessions)@ == old(sessions)@),
        header_has(crate::seqs::opt_text(accept), "text/event-stream"@) ==> match session_header {
            None => r matches Err(h) && text_reply(h, 400, "Missing Mcp-Session-Id header"@)
                && final(sessions)@ == old(sessions)@,
            Some(sid) => match stream_refusal(old(sessions)@, sid@) {
                Some((status, text)) => r matches Err(h) && text_reply(h, status, text)
                    && final(sessions)@ == old(sessions)@,
                None => r matches Ok(s) && s@ == sid@ && final(sessions)@ == with_stream_open(old(sessions)@, sid@),
            },
        },
{
    if !header_contains(accept, "text/event-stream") {
        return Err(plain(406, "Accept must be text/event-stream"));
    }
    let sid = match session_header {
        Some(s) => s,
        None => {
            return Err(plain(400, "Missing Mcp-Session-Id header"));
        },
    };
    match sessions.get(sid) {
        None => Err(plain(404, "Session not found")),
        Some(info) => {
            if info.sse_active {
                Err(plain(409, "SSE stream already active for this session"))
            } else if !info.stream_unclaimed {
                Err(plain(409, "SSE stream already claimed"))
            } else {
                sessions.insert(String::from_str(sid), SessionInfo { sse_active: true, stream_unclaimed: false, ..info });
                Ok(String::from_str(sid))
            }
        },
    }
}

/// The client closed the session's SSE stream: the stream is no longer open (if the
/// session still exists).
pub fn stream_closed(sessions: &mut SessionTable, session_id: &str)
    ensures
        final(sessions)@ == with_stream_closed(old(sessions)@, session_id@),
{
    match sessions.get(session_id) {
        Some(info) => {
            sessions.insert(String::from_str(session_id), SessionInfo { sse_active: false, ..info });
        },
        None => {},
    }
}

/// `DELETE /mcp`: terminates the session named by the `Mcp-Session-Id` header.
pub fn delete_session(session_header: Option<&str>, sessions: &mut SessionTable) -> (r: HttpReply)
    ensures
        match session_header {
            None => text_reply(r, 400, "Missing Mcp-Session-Id header"@) && final(sessions)@ == old(sessions)@,
            Some(sid) => {
                &&& final(sessions)@ == old(sessions)@.remove(sid@)
                &&& if old(sessions)@.dom().contains(sid@) {
                    text_reply(r, 200, "Session terminated"@)
                } else {
                    text_reply(r, 404, "Session not found"@)
                }
            },
        },
{
    match session_header {
        None => plain(400, "Missing Mcp-Session-Id header"),
        Some(sid) => {
            if sessions.remove(sid) {
                plain(200, "Session terminated")
            } else {
                plain(404, "Session not found")
            }
        },
    }
}

} // verus!
