//! MCP protocol layer: JSON-RPC types, tool results, request routing, session
//! lifecycle and the transport decisions.

pub mod handler;
pub mod protocol;
pub mod session;
pub mod sse;
pub mod streamable;
pub mod tools;


pub use handler::Route;
pub use session::{SessionInfo, SessionState, SessionTable};
pub use protocol::{
    JsonRpcError, JsonRpcNotification, JsonRpcRequest, JsonRpcResponse, RpcResult,
};

pub use tools::{
    CallToolParams, CallToolResult, Content, InitializeResult, InputSchema, ListToolsResult,
    ServerCapabilities, ServerInfo, ToolDefinition, ToolsCapability,
};
