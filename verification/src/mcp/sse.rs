//! Decisions of the SSE transport: `GET /sse` opens a session and its event stream,
//! `POST /message?sessionId=...` receives JSON-RPC messages whose responses travel
//! back over the stream.

use vstd::prelude::*;
use vstd::string::StringExecFns;

use crate::json::{JsonModel, JsonValue};
use crate::mcp::handler::error_reply;
use crate::mcp::protocol::{JsonRpcError, JsonRpcRequest, JsonRpcResponse};
use crate::mcp::session::{
    allows, is_uuid_v4_text, lifecycle_allows, lifecycle_refusal, new_session_id, refusal, SessionInfo,
    SessionState, SessionTable,
};
use crate::mcp::streamable::refuses;
use crate::text::text_equal;

verus! {

/// A refusal of a message: the HTTP status and body to answer with, and the
/// JSON-RPC error to push to the session's stream, if any.
#[derive(Debug)]
pub struct SseRejection {
    pub status: u16,
    pub body: String,
    pub notify: Option<JsonRpcResponse>,
}

/// `a` accepts the message (`202`, empty body) and pushes an error response with
/// this reply id, code, message and detail to the stream.
pub open spec fn accepted_notice(a: SseRejection, id: JsonModel, code: int, message: Seq<char>, detail: Seq<char>) -> bool {
    &&& a.status == 202
    &&& a.body@.len() == 0
    &&& a.notify matches Some(resp) && error_reply(resp, id, code, message, detail)
}

/// The session an SSE connection opens: uninitialized, its stream in use.
pub open spec fn sse_session() -> SessionInfo {
    SessionInfo { state: SessionState::Uninitialized, sse_active: true, stream_unclaimed: false }
}

/// `GET /sse`: opens a new session and returns its id and the endpoint URI that
/// the first event announces, `/message?sessionId={id}`.
pub fn open_sse_session(sessions: &mut SessionTable) -> (r: (String, String))
    ensures
        is_uuid_v4_text(r.0@),
        r.1@ == "/message?sessionId="@ + r.0@,
        final(sessions)@ == old(sessions)@.insert(r.0@, sse_session()),
{
    let sid = new_session_id();
    sessions.insert(
        String::from_str(sid.as_str()),
        SessionInfo { state: SessionState::Uninitialized, sse_active: true, stream_unclaimed: false },
    );
    let endpoint = String::from_str("/message?sessionId=").concat(sid.as_str());
    (sid, endpoint)
}

/// Checks whether the request is allowed given the session's state: `None` lets it
/// proceed. An unknown session is answered `404 Session not found`; a method the
/// state does not allow is accepted (`202`, empty body) and its "Invalid Request"
/// error is pushed to the session's stream.
pub fn enforce_lifecycle(sessions: &SessionTable, session_id: &str, request: &JsonRpcRequest) -> (r: Option<SseRejection>)
    ensures
        !sessions@.dom().contains(session_id@) ==> (r matches Some(rej) && rej.status == 404
            && rej.body@ == "Session not found"@ && rej.notify is None),
        sessions@.dom().contains(session_id@) ==> {
            let state = sessions@[session_id@].state;
            if lifecycle_allows(state, request.method@) {
                r is None
            } else {
                &&& r matches Some(rej)
                &&& rej.status == 202
                &&& rej.body@.len() == 0
                &&& rej.notify matches Some(resp) && refuses(resp, *request, lifecycle_refusal(state))
            }
        },
{
    match sessions.get(session_id) {
        None => Some(SseRejection { status: 404, body: String::from_str("Session not found"), notify: None }),
        Some(info) => {
            if allows(info.state, request.method.as_str()) {
                None
            } else {
                let detail = refusal(info.state);
                let resp = JsonRpcResponse::error(request.response_id(), JsonRpcError::invalid_request(detail.as_str()));
                Some(SseRejection { status: 202, body: String::new(), notify: Some(resp) })
            }
        },
    }
}

/// What to do with a `POST /message` body.
#[derive(Debug)]
pub enum SsePlan {
    /// Answer with this status and body, pushing the response to the stream if any.
    Answer(SseRejection),
    /// Dispatch the request; push its response unless it is a notification; answer `202`.
    Dispatch(JsonRpcRequest),
}

/// `POST /message?sessionId=...`: plans a message for session `session_id`, given
/// the outcome of decoding the body as a request (the request, or the decoder's
/// message). `initialize` moves the session to `Initializing` and is dispatched;
/// `notifications/initialized` moves it to `Ready` and is only accepted.
pub fn plan_sse_message(
    sessions: &mut SessionTable,
    session_id: &str,
    decoded: std::result::Result<JsonRpcRequest, String>,
) -> (r: SsePlan)
    ensures
        !old(sessions)@.dom().contains(session_id@) ==> {
            &&& r matches SsePlan::Answer(a) && a.status == 404 && a.body@ == "Session not found"@ && a.notify is None
            &&& final(sessions)@ == old(sessions)@
        },
        old(sessions)@.dom().contains(session_id@) ==> match decoded {
            Err(e) => {
                &&& r matches SsePlan::Answer(a) && accepted_notice(a, JsonModel::Null, -32700, "Parse error"@, e@)
                &&& final(sessions)@ == old(sessions)@
            },
            Ok(request) => {
                let state = old(sessions)@[session_id@].state;
                let method = request.method@;
                if !lifecycle_allows(state, method) {
                    &&& r matches SsePlan::Answer(a) && accepted_notice(
                            a,
                            request.reply_id(),
                            -32600,
                            "Invalid Request"@,
                            lifecycle_refusal(state),
                        )
                    &&& final(sessions)@ == old(sessions)@
                } else if method == "initialize"@ {
                    &&& r == SsePlan::Dispatch(request)
                    &&& final(sessions)@ == old(sessions)@.insert(
                        session_id@,
                        SessionInfo { state: SessionState::Initializing, ..old(sessions)@[session_id@] },
                    )
                } else if method == "notifications/initialized"@ {
                    &&& r matches SsePlan::Answer(a) && a.status == 202 && a.body@.len() == 0 && a.notify is None
                    &&& final(sessions)@ == old(sessions)@.insert(
                        session_id@,
                        SessionInfo { state: SessionState::Ready, ..old(sessions)@[session_id@] },
                    )
                } else {
                    &&& r == SsePlan::Dispatch(request)
                    &&& final(sessions)@ == old(sessions)@
                }
            },
        },
{
    if !sessions.contains(session_id) {
        return SsePlan::Answer(SseRejection { status: 404, body: String::from_str("Session not found"), notify: None });
    }
    let request = match decoded {
        Ok(req) => req,
        Err(e) => {
            let resp = JsonRpcResponse::error(JsonValue::Null, JsonRpcError::parse_error(e.as_str()));
            return SsePlan::Answer(SseRejection { status: 202, body: String::new(), notify: Some(resp) });
        },
    };
    match enforce_lifecycle(sessions, session_id, &request) {
        Some(rejection) => {
            return SsePlan::Answer(rejection);
        },
        None => {},
    }
    if text_equal(request.method.as_str(), "initialize") {
        sessions.set_state(session_id, SessionState::Initializing);
        SsePlan::Dispatch(request)
    } else if text_equal(request.method.as_str(), "notifications/initialized") {
        sessions.set_state(session_id, SessionState::Ready);
        SsePlan::Answer(SseRejection { status: 202, body: String::new(), notify: None })
    } else {
        SsePlan::Dispatch(request)
    }
}

} // verus!
