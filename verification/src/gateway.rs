//! Decisions of the HTTP and WebSocket front end: which agent a call is for,
//! the TwiML that connects a call, the health report, and what each message
//! from Vertex AI becomes for Twilio or for a web client.

use crate::error::IronclawError;
use crate::models::{HealthResponse, RealtimeInput};
use crate::platform::{inline_data_view, optional_text_view, read_vertex_json, vertex_inline_data};
use crate::text::{concat, contains_infix, starts_with_char, text_contains};
use crate::web_bridge::WebOutbound;
use vstd::prelude::*;

verus! {

/// The agent a call is routed to where the request names none.
pub open spec fn default_agent_id() -> Seq<char> {
    "aria_receptionist_01"@
}

/// The agent named by the `agent_id` query parameter, or the default agent.
pub fn resolve_agent_id(agent_id_param: Option<String>) -> (agent_id: String)
    ensures
        agent_id@ == match agent_id_param {
            Some(id) => id@,
            None => default_agent_id(),
        },
{
    match agent_id_param {
        Some(id) => id,
        None => String::from_str("aria_receptionist_01"),
    }
}

/// The public host from the `Host` header (absent where missing or not
/// text), or "localhost:8080".
pub fn resolve_host(host_header: Option<String>) -> (host: String)
    ensures
        host@ == match host_header {
            Some(h) => h@,
            None => "localhost:8080"@,
        },
{
    match host_header {
        Some(h) => h,
        None => String::from_str("localhost:8080"),
    }
}

/// The WebSocket scheme for a host: plain "ws" for a local host, "wss"
/// otherwise.
pub open spec fn stream_scheme_spec(host: Seq<char>) -> Seq<char> {
    if contains_infix(host, "localhost"@) {
        "ws"@
    } else {
        "wss"@
    }
}

/// The WebSocket scheme for a host.
pub fn stream_scheme(host: &str) -> (scheme: String)
    ensures
        scheme@ == stream_scheme_spec(host@),
{
    if text_contains(host, "localhost") {
        String::from_str("ws")
    } else {
        String::from_str("wss")
    }
}

/// The TwiML document that greets the caller and connects the call's media
/// stream to this server's `/media-stream` endpoint for the agent.
pub open spec fn twiml_spec(agent_id: Seq<char>, host: Seq<char>) -> Seq<char> {
    "<?xml version=\"1.0\" encoding=\"UTF-8\"?>\n<Response>\n    <Say>Connecting to "@ + agent_id
        + " via Ironclaw.</Say>\n    <Connect>\n        <Stream url=\""@ + stream_scheme_spec(host)
        + "://"@ + host + "/media-stream?agent_id="@ + agent_id
        + "\" />\n    </Connect>\n</Response>"@
}

/// TwiML for a Twilio webhook: a `<Connect><Stream>` to this server.
pub fn twiml_response(agent_id: &str, host: &str) -> (twiml: String)
    ensures
        twiml@ == twiml_spec(agent_id@, host@),
{
    let scheme = stream_scheme(host);
    let twiml = concat(
        "<?xml version=\"1.0\" encoding=\"UTF-8\"?>\n<Response>\n    <Say>Connecting to ",
        agent_id,
    );
    let twiml = twiml.concat(" via Ironclaw.</Say>\n    <Connect>\n        <Stream url=\"");
    let twiml = twiml.concat(scheme.as_str());
    let twiml = twiml.concat("://");
    let twiml = twiml.concat(host);
    let twiml = twiml.concat("/media-stream?agent_id=");
    let twiml = twiml.concat(agent_id);
    twiml.concat("\" />\n    </Connect>\n</Response>")
}

/// The health report: healthy, with the given counts (uptime is not
/// tracked and reads 0).
pub fn health_report(active_profiles: usize, active_sessions: usize) -> (report: HealthResponse)
    ensures
        report.status@ == "healthy"@,
        report.active_profiles == active_profiles,
        report.active_sessions == active_sessions,
        report.uptime_seconds == 0,
{
    HealthResponse {
        status: String::from_str("healthy"),
        active_profiles,
        active_sessions,
        uptime_seconds: 0,
    }
}

/// What the front end reads of a message from Vertex AI: whether it parsed
/// as JSON, and, where it has a `serverContent.modelTurn.parts` array, the
/// `inlineData.data` strings of those parts in order.
#[derive(Debug, Clone)]
pub struct VertexMessage {
    pub is_json: bool,
    pub audio_parts: Option<Vec<String>>,
}

/// The view of what the front end reads of a message from Vertex: whether
/// it is JSON, and its audio parts.
pub open spec fn vertex_message_view(message: VertexMessage) -> (bool, Option<Seq<Seq<char>>>) {
    (
        message.is_json,
        match message.audio_parts {
            Some(parts) => Some(parts@.map_values(|p: String| p@)),
            None => None,
        },
    )
}

/// The parts that carry audio data, in order.
pub open spec fn present_parts(parts: Seq<Option<Seq<char>>>) -> Seq<Seq<char>>
    decreases parts.len(),
{
    if parts.len() == 0 {
        Seq::empty()
    } else {
        let rest = present_parts(parts.drop_last());
        match parts.last() {
            Some(data) => rest.push(data),
            None => rest,
        }
    }
}

/// What the front end reads of a message from Vertex, given what the JSON
/// reader found in it (see `vertex_inline_data`).
pub open spec fn vertex_message_spec(read: Option<Option<Seq<Option<Seq<char>>>>>) -> (
    bool,
    Option<Seq<Seq<char>>>,
) {
    match read {
        None => (false, None),
        Some(None) => (true, None),
        Some(Some(parts)) => (true, Some(present_parts(parts))),
    }
}

/// What the front end reads of a message from Vertex, given what the JSON
/// reader found in it: the audio parts are the parts with inline data.
pub fn vertex_message_from(read: Option<Option<Vec<Option<String>>>>) -> (message: VertexMessage)
    ensures
        vertex_message_view(message) == vertex_message_spec(inline_data_view(read)),
{
    match read {
        None => VertexMessage { is_json: false, audio_parts: None },
        Some(None) => VertexMessage { is_json: true, audio_parts: None },
        Some(Some(parts)) => {
            let ghost view = parts@.map_values(|p: Option<String>| optional_text_view(p));
            let mut audio: Vec<String> = Vec::new();
            let mut i: usize = 0;
            while i < parts.len()
                invariant
                    i <= parts@.len(),
                    view == parts@.map_values(|p: Option<String>| optional_text_view(p)),
                    audio@.map_values(|a: String| a@) == present_parts(view.take(i as int)),
                decreases parts@.len() - i,
            {
                assert(view.take(i + 1).drop_last() =~= view.take(i as int));
                let ghost before = audio@;
                match &parts[i] {
                    Some(data) => {
                        audio.push(data.clone());
                        assert(audio@.map_values(|a: String| a@) =~= before.map_values(
                            |a: String| a@,
                        ).push(data@));
                    },
                    None => {},
                }
                i = i + 1;
            }
            assert(view.take(i as int) =~= view);
            VertexMessage { is_json: true, audio_parts: Some(audio) }
        },
    }
}

/// Read a message from Vertex AI: whether it is JSON and, where it has a
/// `serverContent.modelTurn.parts` array, the `inlineData.data` strings of
/// its parts in order.
pub fn read_vertex_message(text: &str) -> (message: VertexMessage)
    ensures
        vertex_message_view(message) == vertex_message_spec(vertex_inline_data(text@)),
{
    let read = read_vertex_json(text);
    vertex_message_from(read)
}

/// The base64 audio chunks that a message from Vertex becomes for Twilio:
/// the audio parts of a JSON message with a parts array; the message itself
/// where it is not JSON and does not begin with `{`; nothing otherwise.
pub open spec fn twilio_chunks_spec(raw: Seq<char>, message: VertexMessage) -> Seq<Seq<char>> {
    if message.is_json {
        match message.audio_parts {
            Some(parts) => parts@.map_values(|p: String| p@),
            None => Seq::empty(),
        }
    } else if raw.len() > 0 && raw[0] == '{' {
        Seq::empty()
    } else {
        seq![raw]
    }
}

/// A copy of a list of texts.
fn copy_texts(texts: &Vec<String>) -> (copy: Vec<String>)
    ensures
        copy@.map_values(|t: String| t@) == texts@.map_values(|t: String| t@),
{
    let mut copy: Vec<String> = Vec::new();
    let mut i: usize = 0;
    while i < texts.len()
        invariant
            i <= texts@.len(),
            copy@.map_values(|t: String| t@) =~= texts@.take(i as int).map_values(
                |t: String| t@,
            ),
        decreases texts@.len() - i,
    {
        let ghost before = copy@;
        copy.push(texts[i].clone());
        assert(texts@.take(i + 1) =~= texts@.take(i as int).push(texts@[i as int]));
        assert(copy@.map_values(|t: String| t@) =~= before.map_values(|t: String| t@).push(
            texts@[i as int]@,
        ));
        assert(texts@.take(i + 1).map_values(|t: String| t@) =~= texts@.take(i as int).map_values(
            |t: String| t@,
        ).push(texts@[i as int]@));
        i = i + 1;
    }
    assert(texts@.take(i as int) =~= texts@);
    copy
}

/// The base64 audio chunks to send to Twilio for a message from Vertex.
pub fn twilio_audio_chunks(raw: &str, message: &VertexMessage) -> (chunks: Vec<String>)
    ensures
        chunks@.map_values(|c: String| c@) == twilio_chunks_spec(raw@, *message),
{
    if message.is_json {
        match &message.audio_parts {
            Some(parts) => copy_texts(parts),
            None => {
                let chunks: Vec<String> = Vec::new();
                assert(chunks@.map_values(|c: String| c@) =~= Seq::<Seq<char>>::empty());
                chunks
            },
        }
    } else if starts_with_char(raw, '{') {
        let chunks: Vec<String> = Vec::new();
        assert(chunks@.map_values(|c: String| c@) =~= Seq::<Seq<char>>::empty());
        chunks
    } else {
        let mut chunks: Vec<String> = Vec::new();
        chunks.push(String::from_str(raw));
        assert(chunks@.map_values(|c: String| c@) =~= seq![raw@]);
        chunks
    }
}

/// The two kinds of client that a bridge loop serves.
#[derive(Debug, Clone, Copy, PartialEq, Eq, Structural)]
pub enum ClientKind {
    Twilio,
    Web,
}

/// An event on a client's socket, as a bridge loop sees it.
#[derive(Debug)]
pub enum ClientEvent {
    /// A text frame, and what the client's bridge made of it.
    Text(Result<Option<RealtimeInput>, IronclawError>),
    /// The client closed the connection.
    Closed,
    /// The socket reported an error.
    Failed,
    /// Any other frame (binary, ping, pong).
    Other,
}

/// What a bridge loop does after an event from its client.
#[derive(Debug)]
pub enum ClientStep {
    /// Send this input to the Vertex session; the loop ends if that fails.
    Forward(RealtimeInput),
    /// Wait for the next event.
    Continue,
    /// End the session.
    End,
}

/// The step of a bridge loop after an event from its client. Both loops
/// forward what their bridge turns into input and end when the client
/// closes. The Twilio loop also ends on a socket error and on a frame that
/// its bridge rejects; the web loop passes over both.
pub fn client_step(client: ClientKind, event: ClientEvent) -> (step: ClientStep)
    ensures
        match event {
            ClientEvent::Text(Ok(Some(input))) => step == ClientStep::Forward(input),
            ClientEvent::Text(Ok(None)) | ClientEvent::Other => step is Continue,
            ClientEvent::Closed => step is End,
            ClientEvent::Text(Err(_)) | ClientEvent::Failed => (if client == ClientKind::Twilio {
                step is End
            } else {
                step is Continue
            }),
        },
{
    match event {
        ClientEvent::Text(Ok(Some(input))) => ClientStep::Forward(input),
        ClientEvent::Text(Ok(None)) | ClientEvent::Other => ClientStep::Continue,
        ClientEvent::Closed => ClientStep::End,
        ClientEvent::Text(Err(_)) | ClientEvent::Failed => match client {
            ClientKind::Twilio => ClientStep::End,
            ClientKind::Web => ClientStep::Continue,
        },
    }
}

/// The step of a bridge loop after it forwarded input to the Vertex
/// session: it goes on where the send succeeded and ends where it failed.
pub fn vertex_send_step(sent: bool) -> (step: ClientStep)
    ensures
        sent ==> step is Continue,
        !sent ==> step is End,
{
    if sent {
        ClientStep::Continue
    } else {
        ClientStep::End
    }
}

/// What a bridge loop does when a send to its client fails.
#[derive(Debug, Clone, Copy, PartialEq, Eq, Structural)]
pub enum SendFailure {
    /// Send nothing more of the current message from Vertex.
    SkipRest,
    /// End the session.
    EndSession,
}

/// What a bridge loop does when a send to its client fails while it
/// forwards a message from Vertex. The Twilio loop skips the rest of the
/// message. The web loop does so for the audio parts of a JSON message, and
/// ends the session where it forwards a whole message (a protocol message,
/// or audio that is not JSON).
pub fn send_failure_step(client: ClientKind, message: &VertexMessage) -> (failure: SendFailure)
    ensures
        failure == (if client == ClientKind::Web && !(message.is_json
            && message.audio_parts is Some) {
            SendFailure::EndSession
        } else {
            SendFailure::SkipRest
        }),
{
    match client {
        ClientKind::Twilio => SendFailure::SkipRest,
        ClientKind::Web => {
            if message.is_json {
                match &message.audio_parts {
                    Some(_) => SendFailure::SkipRest,
                    None => SendFailure::EndSession,
                }
            } else {
                SendFailure::EndSession
            }
        },
    }
}

/// One message for the web client, as (type, data).
pub open spec fn web_item(out: WebOutbound) -> (Seq<char>, Seq<char>) {
    (out.msg_type@, out.data@)
}

/// The messages that a message from Vertex becomes for a web client: each
/// audio part as "audio" where a JSON message has a parts array; the whole
/// message as "protocol" where it is JSON without one; the whole message as
/// "audio" where it is not JSON.
pub open spec fn web_forwarding_spec(raw: Seq<char>, message: VertexMessage) -> Seq<
    (Seq<char>, Seq<char>),
> {
    if message.is_json {
        match message.audio_parts {
            Some(parts) => parts@.map_values(|p: String| ("audio"@, p@)),
            None => seq![("protocol"@, raw)],
        }
    } else {
        seq![("audio"@, raw)]
    }
}

/// The messages to send to a web client for a message from Vertex.
pub fn web_forwarding(raw: &str, message: &VertexMessage) -> (outs: Vec<WebOutbound>)
    ensures
        outs@.map_values(|o: WebOutbound| web_item(o)) == web_forwarding_spec(raw@, *message),
{
    let mut outs: Vec<WebOutbound> = Vec::new();
    if message.is_json {
        match &message.audio_parts {
            Some(parts) => {
                let mut i: usize = 0;
                while i < parts.len()
                    invariant
                        i <= parts@.len(),
                        outs@.map_values(|o: WebOutbound| web_item(o)) =~= parts@.take(
                            i as int,
                        ).map_values(|p: String| ("audio"@, p@)),
                    decreases parts@.len() - i,
                {
                    let ghost before = outs@;
                    outs.push(
                        WebOutbound { msg_type: String::from_str("audio"), data: parts[i].clone() },
                    );
                    assert(parts@.take(i + 1) =~= parts@.take(i as int).push(parts@[i as int]));
                    assert(outs@.map_values(|o: WebOutbound| web_item(o)) =~= before.map_values(
                        |o: WebOutbound| web_item(o),
                    ).push(("audio"@, parts@[i as int]@)));
                    assert(parts@.take(i + 1).map_values(|p: String| ("audio"@, p@)) =~= parts@.take(
                        i as int,
                    ).map_values(|p: String| ("audio"@, p@)).push(("audio"@, parts@[i as int]@)));
                    i = i + 1;
                }
                assert(parts@.take(i as int) =~= parts@);
            },
            None => {
                outs.push(
                    WebOutbound { msg_type: String::from_str("protocol"), data: String::from_str(raw) },
                );
                assert(outs@.map_values(|o: WebOutbound| web_item(o)) =~= seq![("protocol"@, raw@)]);
            },
        }
    } else {
        outs.push(WebOutbound { msg_type: String::from_str("audio"), data: String::from_str(raw) });
        assert(outs@.map_values(|o: WebOutbound| web_item(o)) =~= seq![("audio"@, raw@)]);
    }
    outs
}

/// A JSON message from Vertex with audio parts becomes, for a web client,
/// one "audio" message per part, in order; any other message becomes one
/// message: "protocol" with the whole JSON text, or "audio" with the whole
/// text where it is not JSON.
pub proof fn lemma_web_forwarding_sends_every_part(raw: Seq<char>, message: VertexMessage)
    ensures
        message.is_json && message.audio_parts is Some ==> {
            let parts = message.audio_parts->Some_0@;
            &&& web_forwarding_spec(raw, message).len() == parts.len()
            &&& forall|i: int|
                0 <= i < parts.len() ==> #[trigger] web_forwarding_spec(raw, message)[i] == (
                    "audio"@,
                    parts[i]@,
                )
        },
        message.is_json && message.audio_parts is None ==> web_forwarding_spec(raw, message)
            == seq![("protocol"@, raw)],
        !message.is_json ==> web_forwarding_spec(raw, message) == seq![("audio"@, raw)],
{
}

/// A JSON message from Vertex with audio parts becomes, for Twilio, one
/// chunk per part, in order; JSON without parts becomes nothing; text that
/// is not JSON is one chunk of itself, unless it begins with `{`.
pub proof fn lemma_twilio_chunks_send_every_part(raw: Seq<char>, message: VertexMessage)
    ensures
        message.is_json && message.audio_parts is Some ==> {
            let parts = message.audio_parts->Some_0@;
            &&& twilio_chunks_spec(raw, message).len() == parts.len()
            &&& forall|i: int|
                0 <= i < parts.len() ==> #[trigger] twilio_chunks_spec(raw, message)[i]
                    == parts[i]@
        },
        message.is_json && message.audio_parts is None ==> twilio_chunks_spec(raw, message).len()
            == 0,
        !message.is_json && !(raw.len() > 0 && raw[0] == '{') ==> twilio_chunks_spec(raw, message)
            == seq![raw],
{
}

/// Every part of a Vertex message that carries inline audio data is kept,
/// in order, and no other: the audio parts number as many as the parts with
/// data, and the parts with data before a part with data are exactly the
/// audio parts before its own.
pub proof fn lemma_present_parts_keeps_data(parts: Seq<Option<Seq<char>>>, i: int)
    requires
        0 <= i < parts.len(),
        parts[i] is Some,
    ensures
        present_parts(parts.take(i)).len() < present_parts(parts).len(),
        present_parts(parts)[present_parts(parts.take(i)).len() as int] == parts[i]->Some_0,
    decreases parts.len(),
{
    if i < parts.len() - 1 {
        let prefix = parts.drop_last();
        assert(prefix.take(i) =~= parts.take(i));
        assert(prefix[i] == parts[i]);
        lemma_present_parts_keeps_data(prefix, i);
    } else {
        assert(parts.take(i) =~= parts.drop_last());
    }
}

} // verus!
