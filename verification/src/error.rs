//! The error type shared by every fallible operation of the gateway.

use vstd::prelude::*;

verus! {

/// Central error type for all gateway operations. Where an outside library
/// reported the failure, its message is carried as text.
#[derive(Debug, Clone, PartialEq, Eq)]
pub enum IronclawError {
    /// Failed to parse a YAML profile.
    ProfileParse { path: String, message: String },
    /// Failed to read a profile file from disk.
    ProfileIo { path: String, message: String },
    /// WebSocket connection or communication error.
    WebSocket(String),
    /// Google Cloud authentication failure.
    Auth(String),
    /// Session not found in the registry.
    SessionNotFound(String),
    /// Agent profile not found in the registry.
    AgentNotFound(String),
    /// Generic internal error.
    Internal(String),
}

impl IronclawError {
    /// The human-readable message of an error.
    pub open spec fn message_spec(&self) -> Seq<char> {
        match self {
            IronclawError::ProfileParse { path, message } => "Failed to parse profile '"@ + path@
                + "': "@ + message@,
            IronclawError::ProfileIo { path, message } => "Failed to read profile '"@ + path@
                + "': "@ + message@,
            IronclawError::WebSocket(msg) => "WebSocket error: "@ + msg@,
            IronclawError::Auth(msg) => "Auth error: "@ + msg@,
            IronclawError::SessionNotFound(id) => "Session not found: "@ + id@,
            IronclawError::AgentNotFound(id) => "Agent profile not found: "@ + id@,
            IronclawError::Internal(msg) => "Internal error: "@ + msg@,
        }
    }

    /// The human-readable message of this error.
    pub fn message(&self) -> (text: String)
        ensures
            text@ == self.message_spec(),
    {
        match self {
            IronclawError::ProfileParse { path, message } => {
                let text = String::from_str("Failed to parse profile '");
                let text = text.concat(path.as_str());
                let text = text.concat("': ");
                text.concat(message.as_str())
            },
            IronclawError::ProfileIo { path, message } => {
                let text = String::from_str("Failed to read profile '");
                let text = text.concat(path.as_str());
                let text = text.concat("': ");
                text.concat(message.as_str())
            },
            IronclawError::WebSocket(msg) => String::from_str("WebSocket error: ").concat(
                msg.as_str(),
            ),
            IronclawError::Auth(msg) => String::from_str("Auth error: ").concat(msg.as_str()),
            IronclawError::SessionNotFound(id) => String::from_str("Session not found: ").concat(
                id.as_str(),
            ),
            IronclawError::AgentNotFound(id) => String::from_str(
                "Agent profile not found: ",
            ).concat(id.as_str()),
            IronclawError::Internal(msg) => String::from_str("Internal error: ").concat(
                msg.as_str(),
            ),
        }
    }

    /// The error for a failed JSON encoding or decoding, given the JSON
    /// library's message.
    pub fn from_json_error(detail: &str) -> (error: IronclawError)
        ensures
            error matches IronclawError::Internal(msg) && msg@ == "JSON serialization error: "@
                + detail@,
    {
        IronclawError::Internal(String::from_str("JSON serialization error: ").concat(detail))
    }
}

} // verus!
