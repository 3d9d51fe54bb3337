//! MCP server playground: calendar and contacts tools served over the Model
//! Context Protocol (JSON-RPC 2.0 over Streamable HTTP, or over SSE), with the
//! queries, the request routing and the session lifecycle verified.

pub mod calendar;
pub mod contacts;
pub mod error;
pub mod json;
pub mod laws;
pub mod mcp;
pub mod schema;
pub mod seqs;
pub mod text;

pub use calendar::{CalendarReply, CalendarTool};
pub use contacts::{ContactsReply, ContactsTool};
pub use error::{Error, Result};
pub use json::{JsonNumber, JsonValue};
pub use mcp::{
    CallToolParams, CallToolResult, Content, InitializeResult, InputSchema, JsonRpcError,
    JsonRpcNotification, JsonRpcRequest, JsonRpcResponse, ListToolsResult, Route, RpcResult,
    ServerCapabilities, ServerInfo, SessionInfo, SessionState, SessionTable, ToolDefinition,
    ToolsCapability,
};
