//! MCP tool and server description types.

use vstd::prelude::*;
use vstd::string::StringExecFns;

use crate::json::{JsonModel, JsonValue};

verus! {

/// Content block inside a tool result.
#[derive(Debug, Clone, PartialEq, Eq)]
pub enum Content {
    Text { text: String },
}

impl Content {
    /// Create a text content block.
    pub fn text(text: &str) -> (r: Self)
        ensures
            r matches Content::Text { text: t } && t@ == text@,
    {
        Content::Text { text: String::from_str(text) }
    }
}

/// The result returned by a tool invocation.
#[derive(Debug, Clone, PartialEq, Eq)]
pub struct CallToolResult {
    pub content: Vec<Content>,
    pub is_error: Option<bool>,
}

impl CallToolResult {
    /// `self` holds exactly one text block with this text.
    pub open spec fn single_text(self, text: Seq<char>) -> bool {
        &&& self.content@.len() == 1
        &&& self.content@[0] matches Content::Text { text: t } && t@ == text
    }

    /// Create a successful text result.
    pub fn text(text: &str) -> (r: Self)
        ensures
            r.single_text(text@),
            r.is_error is None,
    {
        let mut content: Vec<Content> = Vec::new();
        content.push(Content::text(text));
        CallToolResult { content, is_error: None }
    }

    /// Create an error result.
    pub fn error(message: &str) -> (r: Self)
        ensures
            r.single_text(message@),
            r.is_error == Some(true),
    {
        let mut content: Vec<Content> = Vec::new();
        content.push(Content::text(message));
        CallToolResult { content, is_error: Some(true) }
    }
}

/// JSON Schema of a tool's input: its type, its property descriptions (a JSON
/// object) and the names of the required properties.
#[derive(Debug, PartialEq)]
pub struct InputSchema {
    pub schema_type: String,
    pub properties: JsonValue,
    pub required: Vec<String>,
}

impl InputSchema {
    /// The schema of an object with no declared properties.
    pub fn object() -> (r: Self)
        ensures
            r.schema_type@ == "object"@,
            r.properties matches JsonValue::Object(m) && m@.len() == 0,
            r.required@.len() == 0,
    {
        InputSchema {
            schema_type: String::from_str("object"),
            properties: JsonValue::Object(Vec::new()),
            required: Vec::new(),
        }
    }
}

/// Describes a tool that the MCP server exposes to clients.
#[derive(Debug, PartialEq)]
pub struct ToolDefinition {
    pub name: String,
    pub description: String,
    pub input_schema: InputSchema,
}

impl ToolDefinition {
    /// Create a new tool definition.
    pub fn new(name: &str, description: &str, input_schema: InputSchema) -> (r: Self)
        ensures
            r.name@ == name@,
            r.description@ == description@,
            r.input_schema == input_schema,
    {
        ToolDefinition {
            name: String::from_str(name),
            description: String::from_str(description),
            input_schema,
        }
    }
}

/// Result of `tools/list`.
#[derive(Debug, PartialEq)]
pub struct ListToolsResult {
    pub tools: Vec<ToolDefinition>,
}

/// Parameters of `tools/call`: the tool's name and its arguments (JSON `null`
/// when the request gives none).
#[derive(Debug, PartialEq)]
pub struct CallToolParams {
    pub name: String,
    pub arguments: JsonValue,
}

/// Declares that the server supports tools.
#[derive(Debug, Clone, Copy, PartialEq, Eq)]
pub struct ToolsCapability {
    pub list_changed: Option<bool>,
}

/// MCP server capabilities declared during initialization.
#[derive(Debug, Clone, Copy, PartialEq, Eq)]
pub struct ServerCapabilities {
    pub tools: Option<ToolsCapability>,
}

/// Information about the MCP server.
#[derive(Debug, Clone, PartialEq, Eq)]
pub struct ServerInfo {
    pub name: String,
    pub version: String,
}

/// The result of the `initialize` method.
#[derive(Debug, Clone, PartialEq, Eq)]
pub struct InitializeResult {
    pub protocol_version: String,
    pub capabilities: ServerCapabilities,
    pub server_info: ServerInfo,
}

} // verus!
