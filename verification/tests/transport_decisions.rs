use mcp_server_playground::mcp::sse::{open_sse_session, plan_sse_message, SsePlan};
use mcp_server_playground::mcp::streamable::{
    delete_session, finish_post, open_stream, plan_message, start_post, stream_closed, MessagePlan,
    PostStart, ReplyBody,
};
use mcp_server_playground::{
    JsonNumber, JsonRpcError, JsonRpcRequest, JsonRpcResponse, JsonValue, SessionInfo, SessionState, SessionTable,
};

fn obj(pairs: Vec<(&str, JsonValue)>) -> JsonValue {
    JsonValue::Object(pairs.into_iter().map(|(k, v)| (k.to_string(), v)).collect())
}

fn s(t: &str) -> JsonValue {
    JsonValue::String(t.to_string())
}

fn msg(method: &str, id: Option<u64>) -> JsonValue {
    let mut pairs = vec![("jsonrpc", s("2.0")), ("method", s(method))];
    if let Some(n) = id {
        pairs.push(("id", JsonValue::Number(JsonNumber::PosInt(n))));
    }
    obj(pairs)
}

fn req(method: &str, id: Option<u64>) -> Result<JsonRpcRequest, String> {
    Ok(JsonRpcRequest {
        jsonrpc: "2.0".to_string(),
        id: id.map(|n| JsonValue::Number(JsonNumber::PosInt(n))),
        method: method.to_string(),
        params: None,
    })
}

fn text(r: &ReplyBody) -> String {
    match r {
        ReplyBody::Text(t) => t.clone(),
        other => panic!("unexpected {other:?}"),
    }
}

fn table_with(id: &str, state: SessionState) -> SessionTable {
    let mut t = SessionTable::new();
    t.insert(id.to_string(), SessionInfo { state, sse_active: false, stream_unclaimed: true });
    t
}

const JSON: Option<&str> = Some("application/json");
const BOTH: Option<&str> = Some("application/json, text/event-stream");

#[test]
fn post_checks_headers() {
    let t = SessionTable::new();
    match start_post(Some("text/plain"), BOTH, None, Ok(msg("initialize", Some(1))), &t) {
        PostStart::Reply(h) => {
            assert_eq!(h.status, 415);
            assert_eq!(text(&h.body), "Content-Type must be application/json");
        }
        other => panic!("unexpected {other:?}"),
    }
    match start_post(JSON, Some("text/event-stream"), None, Ok(msg("initialize", Some(1))), &t) {
        PostStart::Reply(h) => assert_eq!(h.status, 406),
        other => panic!("unexpected {other:?}"),
    }
}

#[test]
fn post_parse_error_is_json_rpc_error() {
    let t = SessionTable::new();
    match start_post(JSON, BOTH, None, Err("expected value at line 1 column 1".to_string()), &t) {
        PostStart::Reply(h) => {
            assert_eq!(h.status, 200);
            match h.body {
                ReplyBody::Json(resp) => {
                    assert_eq!(resp.id, JsonValue::Null);
                    assert_eq!(resp.error.unwrap().code, -32700);
                }
                other => panic!("unexpected {other:?}"),
            }
        }
        other => panic!("unexpected {other:?}"),
    }
}

#[test]
fn post_requires_session_unless_initializing() {
    let t = table_with("abc", SessionState::Ready);
    match start_post(JSON, BOTH, None, Ok(msg("tools/list", Some(1))), &t) {
        PostStart::Reply(h) => {
            assert_eq!(h.status, 400);
            assert_eq!(text(&h.body), "Missing Mcp-Session-Id header");
        }
        other => panic!("unexpected {other:?}"),
    }
    match start_post(JSON, BOTH, Some("zzz"), Ok(msg("tools/list", Some(1))), &t) {
        PostStart::Reply(h) => assert_eq!(h.status, 404),
        other => panic!("unexpected {other:?}"),
    }
    match start_post(JSON, BOTH, Some("abc"), Ok(msg("tools/list", Some(1))), &t) {
        PostStart::Messages(m, batch) => {
            assert_eq!(m.len(), 1);
            assert!(!batch);
        }
        other => panic!("unexpected {other:?}"),
    }
    let batch = JsonValue::Array(vec![msg("initialize", Some(1)), msg("notifications/initialized", None)]);
    match start_post(JSON, BOTH, None, Ok(batch), &t) {
        PostStart::Messages(m, batch) => {
            assert_eq!(m.len(), 2);
            assert!(batch);
        }
        other => panic!("unexpected {other:?}"),
    }
}

#[test]
fn handshake_in_one_batch() {
    let mut t = SessionTable::new();
    let mut created: Option<String> = None;
    match plan_message(&mut t, None, &mut created, req("initialize", Some(1))) {
        MessagePlan::Dispatch(req) => assert_eq!(req.method, "initialize"),
        other => panic!("unexpected {other:?}"),
    }
    let sid = created.clone().unwrap();
    assert_eq!(sid.len(), 36);
    assert_eq!(t.get(&sid).unwrap().state, SessionState::Initializing);
    match plan_message(&mut t, None, &mut created, req("tools/list", Some(2))) {
        MessagePlan::Respond(resp) => {
            let e = resp.error.unwrap();
            assert_eq!(e.code, -32600);
            assert!(e.data.unwrap().as_str().unwrap().contains("Initialization in progress"));
        }
        other => panic!("unexpected {other:?}"),
    }
    match plan_message(&mut t, None, &mut created, req("notifications/initialized", None)) {
        MessagePlan::Skip => {}
        other => panic!("unexpected {other:?}"),
    }
    assert_eq!(t.get(&sid).unwrap().state, SessionState::Ready);
    match plan_message(&mut t, Some(sid.as_str()), &mut created, req("tools/list", Some(3))) {
        MessagePlan::Dispatch(req) => assert_eq!(req.method, "tools/list"),
        other => panic!("unexpected {other:?}"),
    }
}

#[test]
fn two_initializes_open_two_sessions() {
    let mut t = SessionTable::new();
    let mut created: Option<String> = None;
    plan_message(&mut t, None, &mut created, req("initialize", Some(1)));
    let first = created.clone().unwrap();
    plan_message(&mut t, None, &mut created, req("initialize", Some(2)));
    let second = created.clone().unwrap();
    assert_ne!(first, second);
    assert!(t.contains(&first) && t.contains(&second));
}

#[test]
fn plan_message_without_session() {
    let mut t = SessionTable::new();
    let mut created: Option<String> = None;
    match plan_message(&mut t, None, &mut created, req("tools/list", Some(1))) {
        MessagePlan::Respond(resp) => {
            assert_eq!(resp.error.unwrap().data.unwrap().as_str(), Some("No session"));
        }
        other => panic!("unexpected {other:?}"),
    }
    match plan_message(&mut t, None, &mut created, req("notifications/cancelled", None)) {
        MessagePlan::Skip => {}
        other => panic!("unexpected {other:?}"),
    }
    match plan_message(&mut t, None, &mut created, Err("missing field `jsonrpc`".to_string())) {
        MessagePlan::Respond(resp) => {
            assert_eq!(resp.id, JsonValue::Null);
            let e = resp.error.unwrap();
            assert_eq!((e.code, e.message.as_str()), (-32700, "Parse error"));
            assert_eq!(e.data.unwrap().as_str(), Some("missing field `jsonrpc`"));
        }
        other => panic!("unexpected {other:?}"),
    }
    assert!(created.is_none());
}

#[test]
fn finish_post_shapes() {
    let none = finish_post(Vec::new(), false, Some("sid".to_string()));
    assert_eq!(none.status, 202);
    assert_eq!(none.session_id.as_deref(), Some("sid"));
    let r = || JsonRpcResponse::error(JsonValue::Null, JsonRpcError::internal_error("x"));
    let single = finish_post(vec![r()], false, None);
    assert_eq!(single.status, 200);
    assert!(matches!(single.body, ReplyBody::Json(_)));
    let batch = finish_post(vec![r(), r()], true, None);
    match batch.body {
        ReplyBody::JsonBatch(v) => assert_eq!(v.len(), 2),
        other => panic!("unexpected {other:?}"),
    }
}

#[test]
fn get_stream_once() {
    let mut t = table_with("abc", SessionState::Ready);
    assert_eq!(open_stream(Some("text/html"), Some("abc"), &mut t).unwrap_err().status, 406);
    assert_eq!(open_stream(Some("text/event-stream"), None, &mut t).unwrap_err().status, 400);
    assert_eq!(open_stream(Some("text/event-stream"), Some("x"), &mut t).unwrap_err().status, 404);
    assert_eq!(open_stream(Some("text/event-stream"), Some("abc"), &mut t).unwrap(), "abc");
    let again = open_stream(Some("text/event-stream"), Some("abc"), &mut t).unwrap_err();
    assert_eq!(again.status, 409);
    assert_eq!(text(&again.body), "SSE stream already active for this session");
    stream_closed(&mut t, "abc");
    let claimed = open_stream(Some("text/event-stream"), Some("abc"), &mut t).unwrap_err();
    assert_eq!(text(&claimed.body), "SSE stream already claimed");
}

#[test]
fn delete_session_then_unknown() {
    let mut t = table_with("abc", SessionState::Ready);
    assert_eq!(delete_session(None, &mut t).status, 400);
    let first = delete_session(Some("abc"), &mut t);
    assert_eq!((first.status, text(&first.body)), (200, "Session terminated".to_string()));
    let second = delete_session(Some("abc"), &mut t);
    assert_eq!((second.status, text(&second.body)), (404, "Session not found".to_string()));
    match start_post(JSON, BOTH, Some("abc"), Ok(msg("tools/list", Some(1))), &t) {
        PostStart::Reply(h) => assert_eq!(h.status, 404),
        other => panic!("unexpected {other:?}"),
    }
    assert_eq!(open_stream(Some("text/event-stream"), Some("abc"), &mut t).unwrap_err().status, 404);
    let mut created = None;
    match plan_message(&mut t, Some("abc"), &mut created, req("tools/list", Some(7))) {
        MessagePlan::Respond(resp) => {
            assert_eq!(resp.id, JsonValue::Number(JsonNumber::PosInt(7)));
            let e = resp.error.unwrap();
            assert_eq!((e.code, e.message.as_str()), (-32600, "Invalid Request"));
            assert_eq!(e.data.unwrap().as_str(), Some("Session not found"));
        }
        other => panic!("unexpected {other:?}"),
    }
    assert!(created.is_none());
    assert!(!t.contains("abc"));
}

#[test]
fn sse_session_lifecycle() {
    let mut t = SessionTable::new();
    let (sid, endpoint) = open_sse_session(&mut t);
    assert_eq!(endpoint, format!("/message?sessionId={sid}"));
    assert_eq!(t.get(&sid).unwrap().state, SessionState::Uninitialized);
    match plan_sse_message(&mut t, "nope", req("initialize", Some(1))) {
        SsePlan::Answer(a) => assert_eq!((a.status, a.body.as_str()), (404, "Session not found")),
        other => panic!("unexpected {other:?}"),
    }
    match plan_sse_message(&mut t, &sid, Err("bad json".to_string())) {
        SsePlan::Answer(a) => {
            assert_eq!(a.status, 202);
            assert_eq!(a.notify.unwrap().error.unwrap().code, -32700);
        }
        other => panic!("unexpected {other:?}"),
    }
    match plan_sse_message(&mut t, &sid, req("initialize", Some(1))) {
        SsePlan::Dispatch(req) => assert_eq!(req.method, "initialize"),
        other => panic!("unexpected {other:?}"),
    }
    assert_eq!(t.get(&sid).unwrap().state, SessionState::Initializing);
    match plan_sse_message(&mut t, &sid, req("notifications/initialized", None)) {
        SsePlan::Answer(a) => assert!(a.status == 202 && a.notify.is_none()),
        other => panic!("unexpected {other:?}"),
    }
    assert_eq!(t.get(&sid).unwrap().state, SessionState::Ready);
}

#[test]
fn session_table_operations() {
    let mut t = SessionTable::new();
    assert!(!t.contains("a"));
    t.insert("a".to_string(), SessionInfo { state: SessionState::Uninitialized, sse_active: false, stream_unclaimed: true });
    t.insert("b".to_string(), SessionInfo { state: SessionState::Ready, sse_active: true, stream_unclaimed: false });
    t.set_state("a", SessionState::Initializing);
    assert_eq!(t.get("a").unwrap().state, SessionState::Initializing);
    assert!(t.get("a").unwrap().stream_unclaimed);
    t.set_state("zzz", SessionState::Ready);
    assert!(!t.contains("zzz"));
    assert!(t.remove("a"));
    assert!(!t.remove("a"));
    assert!(t.contains("b"));
    t.clear();
    assert!(!t.contains("b"));
}

fn assert_uuid_v4_text(id: &str) {
    let chars: Vec<char> = id.chars().collect();
    assert_eq!(chars.len(), 36);
    for (i, c) in chars.iter().enumerate() {
        if [8, 13, 18, 23].contains(&i) {
            assert_eq!(*c, '-');
        } else {
            assert!(c.is_ascii_digit() || ('a'..='f').contains(c), "{id}");
        }
    }
    assert_eq!(chars[14], '4');
    assert!(['8', '9', 'a', 'b'].contains(&chars[19]), "{id}");
}

#[test]
fn session_ids_are_hyphenated_v4_uuids() {
    let mut t = SessionTable::new();
    let mut created: Option<String> = None;
    let mut ids: Vec<String> = Vec::new();
    for n in 0..20 {
        plan_message(&mut t, None, &mut created, req("initialize", Some(n)));
        let id = created.clone().unwrap();
        assert_uuid_v4_text(&id);
        ids.push(id);
    }
    let (sse_id, _) = open_sse_session(&mut t);
    assert_uuid_v4_text(&sse_id);
    ids.sort();
    ids.dedup();
    assert_eq!(ids.len(), 20);
}

#[test]
fn post_messages_never_move_a_session_back() {
    let mut t = table_with("abc", SessionState::Ready);
    let mut created: Option<String> = None;
    match plan_message(&mut t, Some("abc"), &mut created, req("notifications/initialized", None)) {
        MessagePlan::Skip => {}
        other => panic!("unexpected {other:?}"),
    }
    assert_eq!(t.get("abc").unwrap().state, SessionState::Ready);
    match plan_message(&mut t, Some("abc"), &mut created, req("initialize", Some(1))) {
        MessagePlan::Dispatch(r) => assert_eq!(r.method, "initialize"),
        other => panic!("unexpected {other:?}"),
    }
    let fresh = created.clone().unwrap();
    assert_ne!(fresh, "abc");
    assert_eq!(t.get("abc").unwrap().state, SessionState::Ready);
    assert_eq!(t.get(&fresh).unwrap().state, SessionState::Initializing);
}

fn run_body(messages: Vec<Result<JsonRpcRequest, String>>) -> (Vec<String>, SessionTable, Option<String>) {
    let mut t = table_with("abc", SessionState::Ready);
    let mut created: Option<String> = None;
    let mut out = Vec::new();
    for m in messages {
        let plan = plan_message(&mut t, Some("abc"), &mut created, m);
        out.push(match plan {
            MessagePlan::Respond(r) => format!("respond {}", r.error.map(|e| e.code).unwrap_or(0)),
            MessagePlan::Skip => "skip".to_string(),
            MessagePlan::Dispatch(r) => format!("dispatch {}", r.method),
        });
    }
    (out, t, created)
}

#[test]
fn non_request_in_a_body_changes_nothing_else() {
    let with = run_body(vec![
        req("tools/list", Some(1)),
        Err("missing field `method`".to_string()),
        req("notifications/initialized", None),
        req("tools/call", Some(2)),
    ]);
    let without = run_body(vec![
        req("tools/list", Some(1)),
        req("notifications/initialized", None),
        req("tools/call", Some(2)),
    ]);
    assert_eq!(with.0, vec!["dispatch tools/list", "respond -32700", "skip", "dispatch tools/call"]);
    let mut expected = with.0.clone();
    expected.remove(1);
    assert_eq!(without.0, expected);
    assert_eq!(with.2, without.2);
    assert_eq!(with.1.get("abc"), without.1.get("abc"));
}
