//! Web <-> Vertex AI bridge logic: a JSON protocol for direct website
//! integration, carrying raw base64 PCM16 at 16 kHz.

use crate::error::IronclawError;
use crate::models::RealtimeInput;
use crate::platform::{json_error_text, optional_text_view, parse_web_json, web_json_fields};
use crate::text::{concat, text_equals};
use vstd::prelude::*;

verus! {

/// The fields of a JSON message from a web client that the bridge reads:
/// `type` and `data`, each present only where it is a JSON string.
#[derive(Debug, Clone)]
pub struct WebMessage {
    pub msg_type: Option<String>,
    pub data: Option<String>,
}

/// A JSON message for the web client: `{"type": .., "data": ..}`.
#[derive(Debug, Clone)]
pub struct WebOutbound {
    pub msg_type: String,
    pub data: String,
}

/// The type of a web message as the bridge reads it from its `type`
/// member: "unknown" where the message has no string `type`.
pub open spec fn web_type(msg_type: Option<Seq<char>>) -> Seq<char> {
    match msg_type {
        Some(t) => t,
        None => "unknown"@,
    }
}

/// The type of a web message as the bridge reads it.
pub open spec fn web_message_type(message: WebMessage) -> Seq<char> {
    web_type(optional_text_view(message.msg_type))
}

/// What the bridge makes of a web message with the given `type` and `data`
/// members: `Some(Some(data))` where audio with data is forwarded,
/// `Some(None)` where a message of another type is passed over, and `None`
/// where audio comes without data (an error).
pub open spec fn web_forward_spec(msg_type: Option<Seq<char>>, data: Option<Seq<char>>) -> Option<
    Option<Seq<char>>,
> {
    if web_type(msg_type) == "audio"@ {
        match data {
            Some(d) => Some(Some(d)),
            None => None,
        }
    } else {
        Some(None)
    }
}

/// State for a single Web-Vertex bridge.
pub struct WebBridge {
    pub agent_id: String,
}

impl WebBridge {
    /// A bridge for the given agent.
    pub fn new(agent_id: String) -> (bridge: Self)
        ensures
            bridge.agent_id == agent_id,
    {
        WebBridge { agent_id }
    }

    /// Process a message from the web client, the JSON text
    /// `{"type": "audio", "data": <base64 PCM16 at 16 kHz>}`. Text that is
    /// not JSON is an error; the rest is as `handle_parsed_web_message`.
    pub fn handle_web_message(&self, text: &str) -> (result: Result<
        Option<RealtimeInput>,
        IronclawError,
    >)
        ensures
            match web_json_fields(text@) {
                None => result matches Err(IronclawError::WebSocket(msg)) && msg@
                    == "Invalid Web JSON: "@ + json_error_text(text@),
                Some((msg_type, data)) => match web_forward_spec(msg_type, data) {
                    Some(Some(d)) => result matches Ok(Some(input)) && input.is_pcm_audio(d),
                    Some(None) => result matches Ok(None),
                    None => result matches Err(IronclawError::WebSocket(msg)) && msg@
                        == "Missing data in audio message"@,
                },
            },
    {
        let parsed = parse_web_json(text);
        self.handle_parsed_web_message(parsed)
    }

    /// Process a message from the web client, given as the outcome of
    /// parsing its JSON text (the parser's message on failure). An "audio"
    /// message is forwarded to Vertex as PCM audio; "ping" and every other
    /// type yield nothing.
    pub fn handle_parsed_web_message(&self, parsed: Result<WebMessage, String>) -> (result: Result<
        Option<RealtimeInput>,
        IronclawError,
    >)
        ensures
            match parsed {
                Err(parse_error) => result matches Err(IronclawError::WebSocket(msg)) && msg@
                    == "Invalid Web JSON: "@ + parse_error@,
                Ok(message) => if web_message_type(message) == "audio"@ {
                    match message.data {
                        Some(data) => result matches Ok(Some(input)) && input.is_pcm_audio(data@),
                        None => result matches Err(IronclawError::WebSocket(msg)) && msg@
                            == "Missing data in audio message"@,
                    }
                } else {
                    result matches Ok(None)
                },
            },
    {
        let message = match parsed {
            Ok(message) => message,
            Err(parse_error) => {
                return Err(
                    IronclawError::WebSocket(concat("Invalid Web JSON: ", parse_error.as_str())),
                );
            },
        };
        // A message without a string type reads as type "unknown".
        let is_audio = match &message.msg_type {
            Some(t) => text_equals(t.as_str(), "audio"),
            None => {
                proof {
                    reveal_strlit("unknown");
                    reveal_strlit("audio");
                    assert("unknown"@[0] != "audio"@[0]);
                }
                false
            },
        };
        if is_audio {
            match message.data {
                // Forward raw base64 PCM16 directly to Vertex
                Some(data) => Ok(Some(RealtimeInput::pcm_audio(data))),
                None => Err(IronclawError::WebSocket(String::from_str("Missing data in audio message"))),
            }
        } else {
            Ok(None)
        }
    }

    /// Wrap a base64 chunk of audio from Vertex for the web client:
    /// `{"type": "audio", "data": ..}`.
    pub fn handle_vertex_audio(&self, b64_data: &str) -> (result: Result<
        Option<WebOutbound>,
        IronclawError,
    >)
        ensures
            result matches Ok(Some(out)) && out.msg_type@ == "audio"@ && out.data@ == b64_data@,
    {
        Ok(Some(WebOutbound { msg_type: String::from_str("audio"), data: String::from_str(b64_data) }))
    }

    /// Wrap a JSON message from Vertex (metadata or status) for the web
    /// client: `{"type": "protocol", "data": ..}`.
    pub fn handle_vertex_json(&self, vertex_json: &str) -> (result: Result<
        Option<WebOutbound>,
        IronclawError,
    >)
        ensures
            result matches Ok(Some(out)) && out.msg_type@ == "protocol"@ && out.data@
                == vertex_json@,
    {
        Ok(
            Some(
                WebOutbound {
                    msg_type: String::from_str("protocol"),
                    data: String::from_str(vertex_json),
                },
            ),
        )
    }
}

} // verus!
