//! Vertex AI Gemini Live client logic: the messages the gateway sends (setup,
//! keep-alive, context injection, greeting), the endpoint it connects to, and
//! what it does with each frame the server sends. Authentication and the
//! WebSocket itself are left to the caller.

use crate::error::IronclawError;
use crate::models::{
    AgentProfile, AutomaticActivityDetection, ClientContent, ClientContentPayload,
    GenerationConfig, PrebuiltVoiceConfig, RealtimeInput, RealtimeInputConfig, SetupMessage,
    SetupPayload, SpeechConfig, SystemInstruction, TextPart, Turn, VoiceConfig,
};
use crate::platform::{base64_encode, base64_standard_decoding, base64_standard_encoding};
use crate::text::concat;
use vstd::prelude::*;

verus! {

/// The project id to use: `GOOGLE_CLOUD_PROJECT`, else `PROJECT_ID`, else
/// "bio-dynamx".
pub open spec fn project_id_spec(
    google_cloud_project: Option<String>,
    project_id: Option<String>,
) -> Seq<char> {
    match google_cloud_project {
        Some(p) => p@,
        None => match project_id {
            Some(p) => p@,
            None => "bio-dynamx"@,
        },
    }
}

/// Choose the project id from the values of the two environment variables
/// (absent where unset or not valid text).
pub fn resolve_project_id(google_cloud_project: Option<String>, project_id: Option<String>) -> (chosen: String)
    ensures
        chosen@ == project_id_spec(google_cloud_project, project_id),
{
    match google_cloud_project {
        Some(p) => p,
        None => match project_id {
            Some(p) => p,
            None => String::from_str("bio-dynamx"),
        },
    }
}

/// The full model resource name of a profile's model in a project.
pub open spec fn model_resource_spec(profile: AgentProfile, project_id: Seq<char>) -> Seq<char> {
    "projects/"@ + project_id + "/locations/"@ + profile.vertex_ai_config.location@
        + "/publishers/google/models/"@ + profile.vertex_ai_config.model@
}

/// `message` is the setup message for the profile in the project: audio
/// responses in the profile's voice, the profile's prompt as the system
/// instruction, automatic activity detection off, no runtime settings.
pub open spec fn is_setup_for(
    message: SetupMessage,
    profile: AgentProfile,
    project_id: Seq<char>,
) -> bool {
    let setup = message.setup;
    &&& setup.model@ == model_resource_spec(profile, project_id)
    &&& setup.generation_config.response_modalities@.len() == 1
    &&& setup.generation_config.response_modalities@[0]@ == "AUDIO"@
    &&& setup.generation_config.speech_config.voice_config.prebuilt_voice_config.voice_name@
        == profile.vertex_ai_config.voice@
    &&& setup.system_instruction.parts@.len() == 1
    &&& setup.system_instruction.parts@[0].text@ == profile.neuro_system_prompt@
    &&& setup.realtime_input_config matches Some(c) && c.automatic_activity_detection.disabled
    &&& setup.runtime_config is None
}

/// Build the setup message from an agent profile and a project id.
pub fn build_setup_message(profile: &AgentProfile, project_id: &str) -> (message: SetupMessage)
    ensures
        is_setup_for(message, *profile, project_id@),
{
    let model = concat("projects/", project_id);
    let model = model.concat("/locations/");
    let model = model.concat(profile.vertex_ai_config.location.as_str());
    let model = model.concat("/publishers/google/models/");
    let model = model.concat(profile.vertex_ai_config.model.as_str());
    let mut response_modalities: Vec<String> = Vec::new();
    response_modalities.push(String::from_str("AUDIO"));
    let mut parts: Vec<TextPart> = Vec::new();
    parts.push(TextPart { text: profile.neuro_system_prompt.clone() });
    SetupMessage {
        setup: SetupPayload {
            model,
            generation_config: GenerationConfig {
                response_modalities,
                speech_config: SpeechConfig {
                    voice_config: VoiceConfig {
                        prebuilt_voice_config: PrebuiltVoiceConfig {
                            voice_name: profile.vertex_ai_config.voice.clone(),
                        },
                    },
                },
            },
            system_instruction: SystemInstruction { parts },
            // Activity detection off, to keep the agent from hearing itself.
            realtime_input_config: Some(
                RealtimeInputConfig {
                    automatic_activity_detection: AutomaticActivityDetection { disabled: true },
                },
            ),
            runtime_config: None,
        },
    }
}

/// Number of bytes of the keep-alive: 40 ms of 16 kHz PCM16 silence.
pub const SILENCE_BYTES: usize = 320;

/// Build a 16kHz silent PCM16 chunk to act as a keep-alive/heartbeat:
/// 40ms of silence, 320 zero bytes.
pub fn build_silence_keepalive() -> (message: RealtimeInput)
    ensures
        message.is_pcm_audio(base64_standard_encoding(Seq::new(SILENCE_BYTES as nat, |i: int| 0u8))),
        base64_standard_decoding(base64_standard_encoding(Seq::new(SILENCE_BYTES as nat, |i: int| 0u8)))
            == Some(Seq::new(SILENCE_BYTES as nat, |i: int| 0u8)),
{
    let mut silence: Vec<u8> = Vec::new();
    let mut i: usize = 0;
    while i < SILENCE_BYTES
        invariant
            i <= SILENCE_BYTES,
            silence@ =~= Seq::new(i as nat, |k: int| 0u8),
        decreases SILENCE_BYTES - i,
    {
        silence.push(0u8);
        i = i + 1;
    }
    let b64_silence = base64_encode(silence.as_slice());
    RealtimeInput::pcm_audio(b64_silence)
}

/// Join texts, with `separator` between consecutive ones.
pub open spec fn join_texts(texts: Seq<Seq<char>>, separator: Seq<char>) -> Seq<char>
    decreases texts.len(),
{
    if texts.len() == 0 {
        Seq::empty()
    } else if texts.len() == 1 {
        texts[0]
    } else {
        join_texts(texts.drop_last(), separator) + separator + texts.last()
    }
}

/// The separator between injected context blocks.
pub open spec fn block_separator() -> Seq<char> {
    "\n\n---\n\n"@
}

/// `message` is one complete user turn carrying one text part.
pub open spec fn is_user_text(message: ClientContent, text: Seq<char>) -> bool {
    &&& message.client_content.turn_complete
    &&& message.client_content.turns@.len() == 1
    &&& message.client_content.turns@[0].role@ == "user"@
    &&& message.client_content.turns@[0].parts@.len() == 1
    &&& message.client_content.turns@[0].parts@[0].text@ == text
}

/// A client content message with one complete user turn of text.
pub fn user_text_turn(text: String) -> (message: ClientContent)
    ensures
        is_user_text(message, text@),
{
    let mut parts: Vec<TextPart> = Vec::new();
    parts.push(TextPart { text });
    let mut turns: Vec<Turn> = Vec::new();
    turns.push(Turn { role: String::from_str("user"), parts });
    ClientContent { client_content: ClientContentPayload { turns, turn_complete: true } }
}

/// Inject text context into a live session (e.g., for persona handoff): one
/// message, one complete user turn, the blocks joined by a separator line.
pub fn build_context_injection(context_blocks: &[&str]) -> (message: ClientContent)
    ensures
        is_user_text(
            message,
            join_texts(context_blocks@.map_values(|block: &str| block@), block_separator()),
        ),
{
    let ghost texts = context_blocks@.map_values(|block: &str| block@);
    let mut combined = String::new();
    let mut i: usize = 0;
    while i < context_blocks.len()
        invariant
            i <= context_blocks@.len(),
            texts == context_blocks@.map_values(|block: &str| block@),
            combined@ == join_texts(texts.take(i as int), block_separator()),
        decreases context_blocks@.len() - i,
    {
        assert(texts.take(i + 1).drop_last() =~= texts.take(i as int));
        if i > 0 {
            combined.append("\n\n---\n\n");
        } else {
            assert(texts.take(1) =~= seq![texts[0]]);
        }
        combined.append(context_blocks[i]);
        proof {
            reveal_strlit("\n\n---\n\n");
        }
        i = i + 1;
    }
    assert(texts.take(context_blocks@.len() as int) =~= texts);
    user_text_turn(combined)
}

/// The text of the greeting that asks the agent to speak first.
pub open spec fn greeting_text() -> Seq<char> {
    "Hello! Please introduce yourself and wait for my request."@
}

/// The greeting trigger sent right after the handshake, so that the agent
/// has something to answer at once.
pub fn build_greeting_trigger() -> (message: ClientContent)
    ensures
        is_user_text(message, greeting_text()),
{
    user_text_turn(String::from_str("Hello! Please introduce yourself and wait for my request."))
}

/// The endpoint of a region is a `wss://` URL whose host begins with the
/// region's name, followed by "-aiplatform.googleapis.com"; so regions with
/// different names have different endpoints.
pub proof fn lemma_endpoint_names_its_region(location: Seq<char>, other: Seq<char>)
    ensures
        vertex_endpoint_spec(location).subrange(0, 6) == "wss://"@,
        vertex_endpoint_spec(location).subrange(6, 6 + location.len() as int) == location,
        vertex_endpoint_spec(location).subrange(6 + location.len() as int, 32 + location.len() as int)
            == "-aiplatform.googleapis.com"@,
        location != other ==> vertex_endpoint_spec(location) != vertex_endpoint_spec(other),
{
    reveal_strlit("wss://");
    reveal_strlit("-aiplatform.googleapis.com");
    reveal_strlit(
        "-aiplatform.googleapis.com/ws/google.cloud.aiplatform.v1beta1.LlmBidiService/BidiGenerateContent",
    );
    let tail =
        "-aiplatform.googleapis.com/ws/google.cloud.aiplatform.v1beta1.LlmBidiService/BidiGenerateContent"@;
    let e = vertex_endpoint_spec(location);
    assert(e.subrange(0, 6) =~= "wss://"@);
    assert(e.subrange(6, 6 + location.len() as int) =~= location);
    assert(e.subrange(6 + location.len() as int, 32 + location.len() as int) =~= "-aiplatform.googleapis.com"@);
    if location != other && e == vertex_endpoint_spec(other) {
        let f = vertex_endpoint_spec(other);
        assert(e.len() == f.len());
        assert(location.len() == other.len());
        assert(f.subrange(6, 6 + other.len() as int) =~= other);
        assert(location =~= other);
    }
}

/// The Gemini Live WebSocket endpoint of a region.
pub open spec fn vertex_endpoint_spec(location: Seq<char>) -> Seq<char> {
    "wss://"@ + location
        + "-aiplatform.googleapis.com/ws/google.cloud.aiplatform.v1beta1.LlmBidiService/BidiGenerateContent"@
}

/// The Gemini Live WebSocket endpoint of a region.
pub fn vertex_endpoint(location: &str) -> (endpoint: String)
    ensures
        endpoint@ == vertex_endpoint_spec(location@),
{
    concat("wss://", location).concat(
        "-aiplatform.googleapis.com/ws/google.cloud.aiplatform.v1beta1.LlmBidiService/BidiGenerateContent",
    )
}

/// The endpoint with the access token as a query parameter.
pub fn authenticated_url(endpoint: &str, token: &str) -> (url: String)
    ensures
        url@ == endpoint@ + "?access_token="@ + token@,
{
    concat(endpoint, "?access_token=").concat(token)
}

/// A frame read from the Vertex AI WebSocket, or a read failure.
#[derive(Debug, Clone)]
pub enum ServerFrame {
    Text(String),
    Binary(Vec<u8>),
    Ping(Vec<u8>),
    Pong(Vec<u8>),
    Close,
    /// A raw frame, which the reader does not use.
    Other,
    /// The read failed, with the library's message.
    Failed(String),
}

/// What the read loop does with a frame.
#[derive(Debug, Clone)]
pub enum FrameAction {
    /// Forward this text to the session's consumer.
    Forward(String),
    /// Nothing to forward; read on.
    Skip,
    /// The stream is over.
    Stop,
}

/// The outcome of the handshake, given the first frame after the setup
/// message (`None` where the stream ended): a text frame (setupComplete)
/// means the session is up; anything else fails.
pub fn handshake_outcome(first: &Option<ServerFrame>) -> (result: Result<(), IronclawError>)
    ensures
        match first {
            Some(ServerFrame::Text(_)) => result is Ok,
            Some(_) => result matches Err(IronclawError::WebSocket(msg)) && msg@
                == "Handshake failed"@,
            None => result matches Err(IronclawError::WebSocket(msg)) && msg@
                == "Connection closed"@,
        },
{
    match first {
        Some(ServerFrame::Text(_)) => Ok(()),
        Some(_) => Err(IronclawError::WebSocket(String::from_str("Handshake failed"))),
        None => Err(IronclawError::WebSocket(String::from_str("Connection closed"))),
    }
}

/// Decide what the read loop does with a server frame: text is forwarded as
/// is, binary audio is forwarded base64-encoded, a close or a read failure
/// ends the loop, anything else is skipped.
pub fn route_server_frame(frame: ServerFrame) -> (action: FrameAction)
    requires
        frame matches ServerFrame::Binary(data) ==> data@.len() <= isize::MAX,
    ensures
        match frame {
            ServerFrame::Text(text) => action matches FrameAction::Forward(out) && out == text,
            ServerFrame::Binary(data) => action matches FrameAction::Forward(out) && out@
                == base64_standard_encoding(data@),
            ServerFrame::Close => action is Stop,
            ServerFrame::Failed(_) => action is Stop,
            _ => action is Skip,
        },
{
    match frame {
        ServerFrame::Text(text) => FrameAction::Forward(text),
        ServerFrame::Binary(data) => FrameAction::Forward(base64_encode(data.as_slice())),
        ServerFrame::Close => FrameAction::Stop,
        ServerFrame::Failed(_) => FrameAction::Stop,
        ServerFrame::Ping(_) => FrameAction::Skip,
        ServerFrame::Pong(_) => FrameAction::Skip,
        ServerFrame::Other => FrameAction::Skip,
    }
}

} // verus!
