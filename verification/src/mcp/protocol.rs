//! JSON-RPC 2.0 wire types.

use vstd::prelude::*;
use vstd::string::StringExecFns;

use crate::json::JsonValue;
use crate::mcp::tools::{CallToolResult, InitializeResult, ListToolsResult};

verus! {

/// JSON-RPC 2.0 error object.
#[derive(Debug, PartialEq)]
pub struct JsonRpcError {
    pub code: i32,
    pub message: String,
    pub data: Option<JsonValue>,
}

/// `e` has this code and message, and carries `detail` as a JSON string in `data`.
pub open spec fn error_is(e: JsonRpcError, code: int, message: Seq<char>, detail: Seq<char>) -> bool {
    &&& e.code == code
    &&& e.message@ == message
    &&& e.data matches Some(d) && d.text_of() == Some(detail)
}

impl JsonRpcError {
    fn standard(code: i32, message: &str, detail: &str) -> (r: Self)
        ensures
            error_is(r, code as int, message@, detail@),
    {
        JsonRpcError {
            code,
            message: String::from_str(message),
            data: Some(JsonValue::String(String::from_str(detail))),
        }
    }

    /// Standard JSON-RPC error: Parse error (-32700).
    pub fn parse_error(detail: &str) -> (r: Self)
        ensures
            error_is(r, -32700, "Parse error"@, detail@),
    {
        Self::standard(-32700, "Parse error", detail)
    }

    /// Standard JSON-RPC error: Invalid request (-32600).
    pub fn invalid_request(detail: &str) -> (r: Self)
        ensures
            error_is(r, -32600, "Invalid Request"@, detail@),
    {
        Self::standard(-32600, "Invalid Request", detail)
    }

    /// Standard JSON-RPC error: Method not found (-32601).
    pub fn method_not_found(method: &str) -> (r: Self)
        ensures
            error_is(r, -32601, "Method not found"@, method@),
    {
        Self::standard(-32601, "Method not found", method)
    }

    /// Standard JSON-RPC error: Invalid params (-32602).
    pub fn invalid_params(detail: &str) -> (r: Self)
        ensures
            error_is(r, -32602, "Invalid params"@, detail@),
    {
        Self::standard(-32602, "Invalid params", detail)
    }

    /// Standard JSON-RPC error: Internal error (-32603).
    pub fn internal_error(detail: &str) -> (r: Self)
        ensures
            error_is(r, -32603, "Internal error"@, detail@),
    {
        Self::standard(-32603, "Internal error", detail)
    }
}

/// JSON-RPC 2.0 request; a request without `id` is a notification.
#[derive(Debug, PartialEq)]
pub struct JsonRpcRequest {
    pub jsonrpc: String,
    pub id: Option<JsonValue>,
    pub method: String,
    pub params: Option<JsonValue>,
}

impl JsonRpcRequest {
    /// The id a response to this request carries: its own, or JSON `null`.
    pub open spec fn reply_id(self) -> crate::json::JsonModel {
        match self.id {
            Some(v) => v.model(),
            None => crate::json::JsonModel::Null,
        }
    }

    /// A copy of this request's id for a response, JSON `null` when it has none.
    pub fn response_id(&self) -> (r: JsonValue)
        ensures
            r.model() == self.reply_id(),
    {
        match &self.id {
            Some(v) => v.deep_copy(),
            None => JsonValue::Null,
        }
    }

    /// Whether the request is a notification (has no id).
    pub fn is_notification(&self) -> (r: bool)
        ensures
            r == (self.id is None),
    {
        self.id.is_none()
    }
}

/// JSON-RPC 2.0 notification (no id field).
#[derive(Debug, PartialEq)]
pub struct JsonRpcNotification {
    pub jsonrpc: String,
    pub method: String,
    pub params: Option<JsonValue>,
}

/// The `result` member of a successful response.
#[derive(Debug, PartialEq)]
pub enum RpcResult {
    /// A plain JSON value.
    Value(JsonValue),
    /// The result of `initialize`.
    Initialize(InitializeResult),
    /// The result of `tools/list`.
    ToolList(ListToolsResult),
    /// The result of `tools/call`.
    ToolCall(CallToolResult),
}

/// JSON-RPC 2.0 response: exactly one of `result` and `error` is present.
#[derive(Debug, PartialEq)]
pub struct JsonRpcResponse {
    pub jsonrpc: String,
    pub id: JsonValue,
    pub result: Option<RpcResult>,
    pub error: Option<JsonRpcError>,
}

impl JsonRpcResponse {
    /// A success response carrying `result`.
    pub fn success(id: JsonValue, result: RpcResult) -> (r: Self)
        ensures
            r.jsonrpc@ == "2.0"@,
            r.id == id,
            r.result == Some(result),
            r.error is None,
    {
        JsonRpcResponse { jsonrpc: String::from_str("2.0"), id, result: Some(result), error: None }
    }

    /// An error response carrying `error`.
    pub fn error(id: JsonValue, error: JsonRpcError) -> (r: Self)
        ensures
            r.jsonrpc@ == "2.0"@,
            r.id == id,
            r.result is None,
            r.error == Some(error),
    {
        JsonRpcResponse { jsonrpc: String::from_str("2.0"), id, result: None, error: Some(error) }
    }
}

} // verus!
