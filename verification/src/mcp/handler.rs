//! Routing of JSON-RPC requests to the MCP methods, and the responses they produce.

use vstd::prelude::*;
use vstd::string::StringExecFns;

use crate::error::{tool_error, Error};
use crate::json::{JsonModel, JsonValue};
use crate::mcp::protocol::{error_is, JsonRpcError, JsonRpcRequest, JsonRpcResponse, RpcResult};
use crate::mcp::tools::{
    CallToolParams, CallToolResult, InitializeResult, ListToolsResult,
    ServerCapabilities, ServerInfo, ToolDefinition, ToolsCapability,
};
use crate::text::text_equal;

verus! {

/// `ir` describes this server: protocol `2025-03-26`, tools supported without
/// list-change notifications, name `mcp-server-playground`, version `0.1.0`.
pub open spec fn is_server_description(ir: InitializeResult) -> bool {
    &&& ir.protocol_version@ == "2025-03-26"@
    &&& ir.capabilities == ServerCapabilities { tools: Some(ToolsCapability { list_changed: Some(false) }) }
    &&& ir.server_info.name@ == "mcp-server-playground"@
    &&& ir.server_info.version@ == "0.1.0"@
}

/// `resp` answers a request whose reply id is `id` with the error `code`, `message`
/// and `detail`.
pub open spec fn error_reply(resp: JsonRpcResponse, id: JsonModel, code: int, message: Seq<char>, detail: Seq<char>) -> bool {
    &&& resp.jsonrpc@ == "2.0"@
    &&& resp.id.model() == id
    &&& resp.result is None
    &&& resp.error matches Some(e) && error_is(e, code, message, detail)
}

/// `resp` answers a request whose reply id is `id` successfully.
pub open spec fn success_reply(resp: JsonRpcResponse, id: JsonModel) -> bool {
    &&& resp.jsonrpc@ == "2.0"@
    &&& resp.id.model() == id
    &&& resp.error is None
    &&& resp.result is Some
}

/// The result of the `initialize` method.
pub fn initialize_result() -> (r: InitializeResult)
    ensures
        is_server_description(r),
{
    InitializeResult {
        protocol_version: String::from_str("2025-03-26"),
        capabilities: ServerCapabilities { tools: Some(ToolsCapability { list_changed: Some(false) }) },
        server_info: ServerInfo {
            name: String::from_str("mcp-server-playground"),
            version: String::from_str("0.1.0"),
        },
    }
}

/// The method names the server knows are pairwise different.
pub proof fn lemma_method_names_distinct()
    ensures
        "initialize"@ != "notifications/initialized"@,
        "initialize"@ != "tools/list"@,
        "initialize"@ != "tools/call"@,
        "notifications/initialized"@ != "tools/list"@,
        "notifications/initialized"@ != "tools/call"@,
        "tools/list"@ != "tools/call"@,
{
    reveal_strlit("initialize");
    reveal_strlit("notifications/initialized");
    reveal_strlit("tools/list");
    reveal_strlit("tools/call");
    assert("initialize"@[0] != "tools/call"@[0]);
    assert("tools/list"@[6] != "tools/call"@[6]);
}

/// Where a request goes.
#[derive(Debug)]
pub enum Route {
    /// The response is known without consulting the tools.
    Reply(JsonRpcResponse),
    /// `tools/list`: answer with the definitions of the registered tools.
    ListTools(JsonValue),
    /// `tools/call`: the id to answer with, and the parameters, to be decoded as
    /// [`CallToolParams`] and handed to [`accept_call_params`].
    CallTool(JsonValue, JsonValue),
}

/// Routes a request by its method: `initialize` is answered with the server
/// description, `notifications/initialized` with an empty object, `tools/list` and
/// `tools/call` go to the tools (a `tools/call` without parameters is answered with
/// "Invalid params"), and any other method with "Method not found".
pub fn route(request: &JsonRpcRequest) -> (r: Route)
    ensures
        request.method@ == "initialize"@ ==> {
            &&& r matches Route::Reply(resp)
            &&& success_reply(resp, request.reply_id())
            &&& resp.result matches Some(RpcResult::Initialize(ir)) && is_server_description(ir)
        },
        request.method@ == "notifications/initialized"@ ==> {
            &&& r matches Route::Reply(resp)
            &&& success_reply(resp, request.reply_id())
            &&& resp.result matches Some(RpcResult::Value(v)) && v.model() == JsonModel::Object(Seq::empty())
        },
        request.method@ == "tools/list"@ ==> (r matches Route::ListTools(id) && id.model() == request.reply_id()),
        request.method@ == "tools/call"@ ==> match request.params {
            None => r matches Route::Reply(resp)
                && error_reply(resp, request.reply_id(), -32602, "Invalid params"@, "Missing params"@),
            Some(p) => r matches Route::CallTool(id, q) && id.model() == request.reply_id()
                && q.model() == p.model(),
        },
        !(request.method@ == "initialize"@ || request.method@ == "notifications/initialized"@
            || request.method@ == "tools/list"@ || request.method@ == "tools/call"@) ==> {
            &&& r matches Route::Reply(resp)
            &&& error_reply(resp, request.reply_id(), -32601, "Method not found"@, request.method@)
        },
{
    proof { lemma_method_names_distinct(); }
    let id = request.response_id();
    let method = request.method.as_str();
    if text_equal(method, "initialize") {
        Route::Reply(JsonRpcResponse::success(id, RpcResult::Initialize(initialize_result())))
    } else if text_equal(method, "notifications/initialized") {
        Route::Reply(JsonRpcResponse::success(id, RpcResult::Value(JsonValue::Object(Vec::new()))))
    } else if text_equal(method, "tools/list") {
        Route::ListTools(id)
    } else if text_equal(method, "tools/call") {
        match &request.params {
            None => Route::Reply(JsonRpcResponse::error(id, JsonRpcError::invalid_params("Missing params"))),
            Some(p) => Route::CallTool(id, p.deep_copy()),
        }
    } else {
        Route::Reply(JsonRpcResponse::error(id, JsonRpcError::method_not_found(method)))
    }
}

/// The step of `tools/call` after its parameters were decoded: call the tool with
/// them, or, when they could not be decoded, answer "Invalid params" with the
/// decoder's message.
pub fn accept_call_params(
    id: JsonValue,
    decoded: std::result::Result<CallToolParams, String>,
) -> (r: std::result::Result<(JsonValue, CallToolParams), JsonRpcResponse>)
    ensures
        match decoded {
            Ok(p) => r == Ok::<(JsonValue, CallToolParams), JsonRpcResponse>((id, p)),
            Err(d) => r matches Err(resp) && error_reply(resp, id.model(), -32602, "Invalid params"@, d@),
        },
{
    match decoded {
        Ok(p) => Ok((id, p)),
        Err(d) => Err(JsonRpcResponse::error(id, JsonRpcError::invalid_params(d.as_str()))),
    }
}

/// The response to `tools/list`, given the registered tools' definitions.
pub fn tools_list_response(id: JsonValue, tools: Vec<ToolDefinition>) -> (r: JsonRpcResponse)
    ensures
        r.jsonrpc@ == "2.0"@,
        r.id == id,
        r.error is None,
        r.result matches Some(RpcResult::ToolList(l)) && l.tools == tools,
{
    JsonRpcResponse::success(id, RpcResult::ToolList(ListToolsResult { tools }))
}

/// The response to `tools/call`, given what the tool returned. A tool failure is
/// not a protocol error: it is answered as a success whose result is an error
/// result carrying the error's text.
pub fn tool_call_response(id: JsonValue, outcome: Result<CallToolResult, Error>) -> (r: JsonRpcResponse)
    ensures
        r.jsonrpc@ == "2.0"@,
        r.id == id,
        r.error is None,
        match outcome {
            Ok(res) => r.result == Some(RpcResult::ToolCall(res)),
            Err(e) => r.result matches Some(RpcResult::ToolCall(res))
                && res.single_text(e.text()) && res.is_error == Some(true),
        },
{
    match outcome {
        Ok(res) => JsonRpcResponse::success(id, RpcResult::ToolCall(res)),
        Err(e) => {
            let text = e.message();
            JsonRpcResponse::success(id, RpcResult::ToolCall(CallToolResult::error(text.as_str())))
        },
    }
}

/// What a dispatched request adds to the reply, given the handler's response: the
/// response, unless the request is a notification (has no id), which is answered
/// with nothing.
pub fn reply_to_dispatched(request: &JsonRpcRequest, response: JsonRpcResponse) -> (r: Option<JsonRpcResponse>)
    ensures
        r is None <==> request.id is None,
        r is Some ==> r == Some(response),
{
    if request.is_notification() {
        None
    } else {
        Some(response)
    }
}

/// The first position in `names` holding `name`.
pub open spec fn first_named(names: Seq<String>, name: Seq<char>, i: int) -> bool {
    &&& 0 <= i < names.len()
    &&& names[i]@ == name
    &&& forall|j: int| 0 <= j < i ==> #[trigger] names[j]@ != name
}

/// Finds the tool called `name` among the registered tools' names (the first one,
/// if several share it); an unknown name is the tool error "Unknown tool: {name}".
pub fn find_tool(names: &Vec<String>, name: &str) -> (r: Result<usize, Error>)
    ensures
        match r {
            Ok(i) => first_named(names@, name@, i as int),
            Err(_) => {
                &&& forall|j: int| 0 <= j < names@.len() ==> #[trigger] names@[j]@ != name@
                &&& tool_error(r, "Unknown tool: "@ + name@)
            },
        },
{
    let mut i: usize = 0;
    while i < names.len()
        invariant
            i <= names.len(),
            forall|j: int| 0 <= j < i ==> #[trigger] names@[j]@ != name@,
        decreases names.len() - i,
    {
        if text_equal(names[i].as_str(), name) {
            return Ok(i);
        }
        i = i + 1;
    }
    Err(Error::ToolError(String::from_str("Unknown tool: ").concat(name)))
}

} // verus!
