use mcp_server_playground::mcp::handler::{
    accept_call_params, find_tool, initialize_result, reply_to_dispatched, route, tool_call_response,
    tools_list_response,
};
use mcp_server_playground::{
    CallToolParams, CallToolResult, Content, Error, InputSchema, JsonNumber, JsonRpcError, JsonRpcRequest,
    JsonRpcResponse, JsonValue, Route, RpcResult, ToolDefinition,
};

fn obj(pairs: Vec<(&str, JsonValue)>) -> JsonValue {
    JsonValue::Object(pairs.into_iter().map(|(k, v)| (k.to_string(), v)).collect())
}

fn s(t: &str) -> JsonValue {
    JsonValue::String(t.to_string())
}

fn request(method: &str, id: Option<u64>, params: Option<JsonValue>) -> JsonRpcRequest {
    JsonRpcRequest {
        jsonrpc: "2.0".to_string(),
        id: id.map(|n| JsonValue::Number(JsonNumber::PosInt(n))),
        method: method.to_string(),
        params,
    }
}

fn detail(e: &JsonRpcError) -> String {
    e.data.as_ref().unwrap().as_str().unwrap().to_string()
}

#[test]
fn standard_error_codes() {
    let cases = [
        (JsonRpcError::parse_error("a"), -32700, "Parse error"),
        (JsonRpcError::invalid_request("b"), -32600, "Invalid Request"),
        (JsonRpcError::method_not_found("c"), -32601, "Method not found"),
        (JsonRpcError::invalid_params("d"), -32602, "Invalid params"),
        (JsonRpcError::internal_error("e"), -32603, "Internal error"),
    ];
    for (err, code, message) in cases.iter() {
        assert_eq!(err.code, *code);
        assert_eq!(err.message, *message);
    }
    assert_eq!(detail(&cases[3].0), "d");
}

#[test]
fn responses_carry_version_and_id() {
    let ok = JsonRpcResponse::success(JsonValue::Number(JsonNumber::PosInt(7)), RpcResult::Value(JsonValue::Null));
    assert_eq!(ok.jsonrpc, "2.0");
    assert_eq!(ok.id, JsonValue::Number(JsonNumber::PosInt(7)));
    assert!(ok.error.is_none());
    let err = JsonRpcResponse::error(JsonValue::Null, JsonRpcError::internal_error("boom"));
    assert!(err.result.is_none());
    assert_eq!(err.error.unwrap().code, -32603);
}

#[test]
fn content_and_tool_results() {
    assert_eq!(Content::text("hi"), Content::Text { text: "hi".to_string() });
    let ok = CallToolResult::text("done");
    assert_eq!(ok.content, vec![Content::Text { text: "done".to_string() }]);
    assert_eq!(ok.is_error, None);
    let bad = CallToolResult::error("failed");
    assert_eq!(bad.content, vec![Content::Text { text: "failed".to_string() }]);
    assert_eq!(bad.is_error, Some(true));
}

#[test]
fn tool_definition_and_schema() {
    let def = ToolDefinition::new("calendar", "Query calendar events", InputSchema::object());
    assert_eq!(def.name, "calendar");
    assert_eq!(def.description, "Query calendar events");
    assert_eq!(def.input_schema.schema_type, "object");
    assert_eq!(def.input_schema.properties, JsonValue::Object(Vec::new()));
    assert!(def.input_schema.required.is_empty());
}

#[test]
fn error_messages_name_their_kind() {
    assert_eq!(Error::ToolError("x".to_string()).message(), "Tool execution error: x");
    assert_eq!(Error::IoError("disk".to_string()).message(), "I/O error: disk");
    assert_eq!(Error::JsonError("bad".to_string()).message(), "JSON serialization/deserialization error: bad");
    assert_eq!(Error::ProtocolError("p".to_string()).message(), "MCP protocol error: p");
    assert_eq!(Error::DataNotFoundError("f".to_string()).message(), "Data file not found: f");
    assert_eq!(Error::InvalidRequestError("r".to_string()).message(), "Invalid request: r");
}

#[test]
fn requests_without_id_are_notifications() {
    assert!(request("notifications/initialized", None, None).is_notification());
    assert!(!request("ping", Some(1), None).is_notification());
    assert_eq!(request("ping", None, None).response_id(), JsonValue::Null);
    assert_eq!(request("ping", Some(4), None).response_id(), JsonValue::Number(JsonNumber::PosInt(4)));
}

#[test]
fn route_initialized_notification_answers_empty_object() {
    match route(&request("notifications/initialized", None, None)) {
        Route::Reply(resp) => {
            assert_eq!(resp.id, JsonValue::Null);
            assert_eq!(resp.result, Some(RpcResult::Value(JsonValue::Object(Vec::new()))));
        }
        other => panic!("unexpected {other:?}"),
    }
}

#[test]
fn route_tools() {
    match route(&request("tools/list", Some(2), None)) {
        Route::ListTools(id) => assert_eq!(id, JsonValue::Number(JsonNumber::PosInt(2))),
        other => panic!("unexpected {other:?}"),
    }
    let params = obj(vec![("name", s("contacts")), ("arguments", obj(vec![("action", s("favorite_contacts"))]))]);
    match route(&request("tools/call", Some(3), Some(params))) {
        Route::CallTool(id, p) => {
            assert_eq!(id, JsonValue::Number(JsonNumber::PosInt(3)));
            assert_eq!(p.get("name").and_then(|v| v.as_str()), Some("contacts"));
            assert_eq!(
                p.get("arguments").and_then(|a| a.get("action")).and_then(|v| v.as_str()),
                Some("favorite_contacts")
            );
        }
        other => panic!("unexpected {other:?}"),
    }
}

#[test]
fn route_tools_call_invalid_params() {
    match route(&request("tools/call", Some(5), None)) {
        Route::Reply(resp) => {
            let e = resp.error.unwrap();
            assert_eq!(e.code, -32602);
            assert_eq!(detail(&e), "Missing params");
        }
        other => panic!("unexpected {other:?}"),
    }
    let undecodable = accept_call_params(JsonValue::Number(JsonNumber::PosInt(6)), Err("missing field `name`".to_string()));
    match undecodable {
        Err(resp) => {
            assert_eq!(resp.id, JsonValue::Number(JsonNumber::PosInt(6)));
            let e = resp.error.unwrap();
            assert_eq!((e.code, e.message.as_str()), (-32602, "Invalid params"));
            assert_eq!(detail(&e), "missing field `name`");
        }
        other => panic!("unexpected {other:?}"),
    }
}

#[test]
fn accepted_call_params_keep_id_and_params() {
    let params = CallToolParams { name: "contacts".to_string(), arguments: JsonValue::Null };
    match accept_call_params(JsonValue::Number(JsonNumber::PosInt(8)), Ok(params)) {
        Ok((id, p)) => {
            assert_eq!(id, JsonValue::Number(JsonNumber::PosInt(8)));
            assert_eq!(p, CallToolParams { name: "contacts".to_string(), arguments: JsonValue::Null });
        }
        other => panic!("unexpected {other:?}"),
    }
}

#[test]
fn route_unknown_method() {
    match route(&request("resources/list", Some(9), None)) {
        Route::Reply(resp) => {
            let e = resp.error.unwrap();
            assert_eq!(e.code, -32601);
            assert_eq!(e.message, "Method not found");
            assert_eq!(detail(&e), "resources/list");
        }
        other => panic!("unexpected {other:?}"),
    }
}

#[test]
fn tool_call_failures_are_successful_responses() {
    let resp = tool_call_response(JsonValue::Null, Err(Error::ToolError("Unknown tool: x".to_string())));
    assert!(resp.error.is_none());
    match resp.result {
        Some(RpcResult::ToolCall(r)) => {
            assert_eq!(r.is_error, Some(true));
            assert_eq!(r.content, vec![Content::Text { text: "Tool execution error: Unknown tool: x".to_string() }]);
        }
        other => panic!("unexpected {other:?}"),
    }
    let ok = tool_call_response(JsonValue::Null, Ok(CallToolResult::text("[]")));
    assert_eq!(ok.result, Some(RpcResult::ToolCall(CallToolResult::text("[]"))));
}

#[test]
fn tools_list_carries_definitions() {
    let defs = vec![ToolDefinition::new("a", "b", InputSchema::object())];
    match tools_list_response(JsonValue::Null, defs).result {
        Some(RpcResult::ToolList(l)) => assert_eq!(l.tools[0].name, "a"),
        other => panic!("unexpected {other:?}"),
    }
}

#[test]
fn find_tool_by_name() {
    let names = vec!["calendar".to_string(), "contacts".to_string(), "contacts".to_string()];
    assert_eq!(find_tool(&names, "contacts").unwrap(), 1);
    match find_tool(&names, "weather") {
        Err(Error::ToolError(m)) => assert_eq!(m, "Unknown tool: weather"),
        other => panic!("unexpected {other:?}"),
    }
}

#[test]
fn json_get_and_copy() {
    let v = obj(vec![("a", JsonValue::Array(vec![JsonValue::Bool(true), s("x")])), ("n", JsonValue::Number(JsonNumber::Float(1.5f64.to_bits())))]);
    assert_eq!(v.get("a").unwrap().is_array(), true);
    assert_eq!(v.get("n").unwrap().as_u64(), None);
    assert_eq!(v.get("missing"), None);
    assert_eq!(s("q").get("a"), None);
    assert_eq!(v.deep_copy(), v);
}

#[test]
fn dispatched_notifications_add_no_reply() {
    let resp = JsonRpcResponse::success(JsonValue::Null, RpcResult::Value(JsonValue::Null));
    assert!(reply_to_dispatched(&request("tools/list", None, None), resp).is_none());
    let resp = JsonRpcResponse::success(JsonValue::Number(JsonNumber::PosInt(2)), RpcResult::Value(JsonValue::Null));
    let kept = reply_to_dispatched(&request("tools/list", Some(2), None), resp).unwrap();
    assert_eq!(kept.id, JsonValue::Number(JsonNumber::PosInt(2)));
}

#[test]
fn list_and_call_responses_are_version_two() {
    assert_eq!(tools_list_response(JsonValue::Null, Vec::new()).jsonrpc, "2.0");
    let failed = tool_call_response(
        JsonValue::Number(JsonNumber::PosInt(3)),
        Err(Error::ToolError("Unknown tool: nope".to_string())),
    );
    assert_eq!(failed.jsonrpc, "2.0");
    assert_eq!(failed.id, JsonValue::Number(JsonNumber::PosInt(3)));
    assert!(failed.error.is_none());
}
