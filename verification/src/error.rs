//! Errors of the MCP server.

use vstd::prelude::*;
use vstd::string::StringExecFns;

verus! {

/// All error kinds of the server; each carries its detail text.
#[derive(Debug, PartialEq, Eq)]
pub enum Error {
    IoError(String),
    JsonError(String),
    ProtocolError(String),
    ToolError(String),
    DataNotFoundError(String),
    InvalidRequestError(String),
}

/// `Result` with the server's [`Error`].
pub type Result<T> = std::result::Result<T, Error>;

impl Error {
    /// The human-readable text of the error: a prefix naming its kind, then the detail.
    pub open spec fn text(&self) -> Seq<char> {
        match self {
            Error::IoError(d) => "I/O error: "@ + d@,
            Error::JsonError(d) => "JSON serialization/deserialization error: "@ + d@,
            Error::ProtocolError(d) => "MCP protocol error: "@ + d@,
            Error::ToolError(d) => "Tool execution error: "@ + d@,
            Error::DataNotFoundError(d) => "Data file not found: "@ + d@,
            Error::InvalidRequestError(d) => "Invalid request: "@ + d@,
        }
    }

    /// Renders the error as text (see [`Error::text`]).
    pub fn message(&self) -> (r: String)
        ensures
            r@ == self.text(),
    {
        match self {
            Error::IoError(d) => String::from_str("I/O error: ").concat(d.as_str()),
            Error::JsonError(d) => String::from_str("JSON serialization/deserialization error: ").concat(d.as_str()),
            Error::ProtocolError(d) => String::from_str("MCP protocol error: ").concat(d.as_str()),
            Error::ToolError(d) => String::from_str("Tool execution error: ").concat(d.as_str()),
            Error::DataNotFoundError(d) => String::from_str("Data file not found: ").concat(d.as_str()),
            Error::InvalidRequestError(d) => String::from_str("Invalid request: ").concat(d.as_str()),
        }
    }
}

/// `r` is a tool error with this message.
pub open spec fn tool_error<T>(r: Result<T>, message: Seq<char>) -> bool {
    r matches Err(Error::ToolError(m)) && m@ == message
}

} // verus!
