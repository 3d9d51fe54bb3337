use mcp_server_playground::mcp::sse::enforce_lifecycle;
use mcp_server_playground::mcp::streamable::{check_lifecycle, header_contains};
use mcp_server_playground::{JsonNumber, JsonRpcRequest, JsonValue, SessionInfo, SessionState, SessionTable};

fn setup_session(state: SessionState) -> (SessionTable, String) {
    let session_id = "test-session-id".to_string();
    let mut store = SessionTable::new();
    store.insert(
        session_id.clone(),
        SessionInfo { state, sse_active: false, stream_unclaimed: false },
    );
    (store, session_id)
}

fn make_request(method: &str) -> JsonRpcRequest {
    JsonRpcRequest {
        jsonrpc: "2.0".to_string(),
        id: Some(JsonValue::Number(JsonNumber::PosInt(1))),
        method: method.to_string(),
        params: None,
    }
}

fn error_detail(resp: &mcp_server_playground::JsonRpcResponse) -> (i32, String) {
    let err = resp.error.as_ref().expect("Should be error response");
    let detail = err.data.as_ref().unwrap().as_str().unwrap().to_string();
    (err.code, detail)
}

#[test]
fn test_session_state_default() {
    let info = SessionInfo { state: SessionState::default(), sse_active: false, stream_unclaimed: true };
    assert_eq!(info.state, SessionState::Uninitialized);
    assert!(!info.sse_active);
    assert!(info.stream_unclaimed);
}

#[test]
fn test_session_state_transitions() {
    assert_ne!(SessionState::Uninitialized, SessionState::Initializing);
    assert_ne!(SessionState::Initializing, SessionState::Ready);
    assert_ne!(SessionState::Uninitialized, SessionState::Ready);
}

#[test]
fn test_session_store_is_send_sync() {
    fn assert_send_sync<T: Send + Sync>() {}
    assert_send_sync::<SessionTable>();
}

#[test]
fn streamable_handler_test_reject_before_initialize() {
    let (store, session_id) = setup_session(SessionState::Uninitialized);
    let request = make_request("tools/list");
    let result = check_lifecycle(&store, &session_id, &request);
    assert!(result.is_some(), "Should reject tools/list before initialize");
    let (code, detail) = error_detail(&result.unwrap());
    assert_eq!(code, -32600);
    assert!(detail.contains("Server not initialized"));
}

#[test]
fn streamable_handler_test_allow_initialize_when_uninitialized() {
    let (store, session_id) = setup_session(SessionState::Uninitialized);
    let request = make_request("initialize");
    let result = check_lifecycle(&store, &session_id, &request);
    assert!(result.is_none(), "Should allow initialize when Uninitialized");
}

#[test]
fn streamable_handler_test_reject_during_initializing() {
    let (store, session_id) = setup_session(SessionState::Initializing);
    let request = make_request("tools/list");
    let result = check_lifecycle(&store, &session_id, &request);
    assert!(result.is_some(), "Should reject tools/list during Initializing");
    let (code, detail) = error_detail(&result.unwrap());
    assert_eq!(code, -32600);
    assert!(detail.contains("Initialization in progress"));
}

#[test]
fn streamable_handler_test_allow_initialized_notification() {
    let (store, session_id) = setup_session(SessionState::Initializing);
    let request = JsonRpcRequest {
        jsonrpc: "2.0".to_string(),
        id: None,
        method: "notifications/initialized".to_string(),
        params: None,
    };
    let result = check_lifecycle(&store, &session_id, &request);
    assert!(result.is_none(), "Should allow notifications/initialized during Initializing");
}

#[test]
fn streamable_handler_test_ping_always_allowed() {
    for state in [SessionState::Uninitialized, SessionState::Initializing, SessionState::Ready] {
        let (store, session_id) = setup_session(state);
        let request = make_request("ping");
        let result = check_lifecycle(&store, &session_id, &request);
        assert!(result.is_none(), "ping should be allowed in state {state:?}");
    }
}

#[test]
fn streamable_handler_test_all_methods_allowed_when_ready() {
    let (store, session_id) = setup_session(SessionState::Ready);
    for method in ["tools/list", "tools/call", "initialize", "anything"] {
        let request = make_request(method);
        let result = check_lifecycle(&store, &session_id, &request);
        assert!(result.is_none(), "{method} should be allowed when Ready");
    }
}

#[test]
fn test_unknown_session_returns_error() {
    let store = SessionTable::new();
    let request = make_request("initialize");
    let result = check_lifecycle(&store, "nonexistent", &request);
    assert!(result.is_some());
    let (code, detail) = error_detail(&result.unwrap());
    assert_eq!(code, -32600);
    assert!(detail.contains("Session not found"));
}

#[test]
fn test_header_contains() {
    let content_type = Some("application/json");
    let accept = Some("application/json, text/event-stream");
    assert!(header_contains(content_type, "application/json"));
    assert!(header_contains(accept, "application/json"));
    assert!(header_contains(accept, "text/event-stream"));
    assert!(!header_contains(accept, "text/html"));
    assert!(!header_contains(None, "value"));
}

#[test]
fn header_contains_ignores_case_of_header_value() {
    assert!(header_contains(Some("Application/JSON; charset=utf-8"), "application/json"));
}

#[test]
fn sse_handler_test_reject_before_initialize() {
    let (store, session_id) = setup_session(SessionState::Uninitialized);
    let request = make_request("tools/list");
    let result = enforce_lifecycle(&store, &session_id, &request);
    assert!(result.is_some(), "Should reject tools/list before initialize");
    let rejection = result.unwrap();
    assert_eq!(rejection.status, 202);
    let (_, detail) = error_detail(rejection.notify.as_ref().unwrap());
    assert!(detail.contains("Server not initialized"));
}

#[test]
fn sse_handler_test_allow_initialize_when_uninitialized() {
    let (store, session_id) = setup_session(SessionState::Uninitialized);
    let request = make_request("initialize");
    let result = enforce_lifecycle(&store, &session_id, &request);
    assert!(result.is_none(), "Should allow initialize when Uninitialized");
}

#[test]
fn sse_handler_test_reject_during_initializing() {
    let (store, session_id) = setup_session(SessionState::Initializing);
    let request = make_request("tools/list");
    let result = enforce_lifecycle(&store, &session_id, &request);
    assert!(result.is_some(), "Should reject tools/list during Initializing");
    let rejection = result.unwrap();
    let (_, detail) = error_detail(rejection.notify.as_ref().unwrap());
    assert!(detail.contains("Initialization in progress"));
}

#[test]
fn sse_handler_test_allow_initialized_notification() {
    let (store, session_id) = setup_session(SessionState::Initializing);
    let request = JsonRpcRequest {
        jsonrpc: "2.0".to_string(),
        id: None,
        method: "notifications/initialized".to_string(),
        params: None,
    };
    let result = enforce_lifecycle(&store, &session_id, &request);
    assert!(result.is_none(), "Should allow notifications/initialized during Initializing");
}

#[test]
fn sse_handler_test_ping_always_allowed() {
    for state in [SessionState::Uninitialized, SessionState::Initializing, SessionState::Ready] {
        let (store, session_id) = setup_session(state);
        let request = make_request("ping");
        let result = enforce_lifecycle(&store, &session_id, &request);
        assert!(result.is_none(), "ping should be allowed in state {state:?}");
    }
}

#[test]
fn sse_handler_test_all_methods_allowed_when_ready() {
    let (store, session_id) = setup_session(SessionState::Ready);
    for method in ["tools/list", "tools/call", "initialize", "anything"] {
        let request = make_request(method);
        let result = enforce_lifecycle(&store, &session_id, &request);
        assert!(result.is_none(), "{method} should be allowed when Ready");
    }
}

#[test]
fn test_unknown_session_returns_not_found() {
    let store = SessionTable::new();
    let request = make_request("initialize");
    let result = enforce_lifecycle(&store, "nonexistent", &request);
    assert!(result.is_some());
    let rejection = result.unwrap();
    assert_eq!(rejection.status, 404);
    assert!(rejection.body.contains("Session not found"));
}
