//! Data models: the agent profile schema, the session state machine, the
//! Vertex AI protocol messages and the Twilio media-stream messages.

use crate::platform::{new_session_id, system_clock_micros};
use vstd::prelude::*;

verus! {

// ─────────────────────────────────────────────────────────────
// AGENT PROFILE
// ─────────────────────────────────────────────────────────────

/// Configuration for the Vertex AI connection.
#[derive(Debug, Clone)]
pub struct VertexAiConfig {
    /// The Gemini model identifier (e.g. "gemini-2.5-flash-native-audio-preview").
    pub model: String,
    /// Voice persona name (e.g. "Kore", "Puck", "Charon").
    pub voice: String,
    /// GCP region (e.g. "us-central1").
    pub location: String,
}

/// A complete agent profile.
#[derive(Debug, Clone)]
pub struct AgentProfile {
    /// Unique identifier for this agent configuration.
    pub agent_id: String,
    /// Vertex AI connection settings.
    pub vertex_ai_config: VertexAiConfig,
    /// The system prompt of the agent.
    pub neuro_system_prompt: String,
    /// Capabilities this agent can invoke (tool names).
    pub capabilities: Vec<String>,
    /// Optional display name for logging/UI.
    pub display_name: Option<String>,
    /// Optional metadata tags for routing.
    pub tags: Vec<String>,
}

// ─────────────────────────────────────────────────────────────
// SESSION STATE MACHINE
// ─────────────────────────────────────────────────────────────

/// Lifecycle states for a voice session.
#[derive(Debug, Clone, Copy, PartialEq, Eq, Structural)]
pub enum SessionStatus {
    /// Session object created, not yet connected.
    Spawning,
    /// WebSocket TCP handshake complete.
    Connected,
    /// Setup message sent, awaiting setupComplete.
    SetupSent,
    /// Audio pipeline active, agent is live.
    Live,
    /// Graceful shutdown in progress.
    Draining,
    /// Session fully terminated.
    Closed,
    /// An error occurred.
    Error,
}

impl SessionStatus {
    /// The snake-case name of a status.
    pub open spec fn text_spec(self) -> Seq<char> {
        match self {
            SessionStatus::Spawning => "spawning"@,
            SessionStatus::Connected => "connected"@,
            SessionStatus::SetupSent => "setup_sent"@,
            SessionStatus::Live => "live"@,
            SessionStatus::Draining => "draining"@,
            SessionStatus::Closed => "closed"@,
            SessionStatus::Error => "error"@,
        }
    }

    /// A session in this status still counts as active: it is neither closed
    /// nor failed.
    pub open spec fn is_active_spec(self) -> bool {
        self != SessionStatus::Closed && self != SessionStatus::Error
    }

    /// The snake-case name of this status.
    pub fn text(&self) -> (name: String)
        ensures
            name@ == self.text_spec(),
    {
        match self {
            SessionStatus::Spawning => String::from_str("spawning"),
            SessionStatus::Connected => String::from_str("connected"),
            SessionStatus::SetupSent => String::from_str("setup_sent"),
            SessionStatus::Live => String::from_str("live"),
            SessionStatus::Draining => String::from_str("draining"),
            SessionStatus::Closed => String::from_str("closed"),
            SessionStatus::Error => String::from_str("error"),
        }
    }

    /// Every status but Closed and Error counts as active: Spawning,
    /// Connected, SetupSent, Live and Draining do; Closed and Error do not.
    pub proof fn lemma_active_statuses()
        ensures
            SessionStatus::Spawning.is_active_spec(),
            SessionStatus::Connected.is_active_spec(),
            SessionStatus::SetupSent.is_active_spec(),
            SessionStatus::Live.is_active_spec(),
            SessionStatus::Draining.is_active_spec(),
            !SessionStatus::Closed.is_active_spec(),
            !SessionStatus::Error.is_active_spec(),
    {
    }

    /// Whether a session in this status counts as active.
    pub fn is_active(&self) -> (active: bool)
        ensures
            active == self.is_active_spec(),
    {
        *self != SessionStatus::Closed && *self != SessionStatus::Error
    }
}

/// A voice session between a caller and a Vertex AI agent. Times are
/// microseconds since the Unix epoch.
#[derive(Debug, Clone)]
pub struct VoiceSession {
    /// Unique session identifier (the 128-bit value of a UUID).
    pub session_id: u128,
    /// The agent profile driving this session.
    pub agent_id: String,
    /// Current lifecycle status.
    pub status: SessionStatus,
    /// When the session was created.
    pub created_at: i64,
    /// When the session last changed status.
    pub updated_at: i64,
    /// Optional caller identifier for multi-tenant routing.
    pub caller_id: Option<String>,
    /// Accumulated turn count for diagnostics.
    pub turn_count: u32,
}

/// A copy of an optional text.
pub fn copy_optional_text(value: &Option<String>) -> (copy: Option<String>)
    ensures
        copy == *value,
{
    match value {
        Some(text) => Some(text.clone()),
        None => None,
    }
}

/// A clock reading as signed microseconds since the Unix epoch, from the
/// side of the epoch it lies on and its distance from it: negative before
/// the epoch, and held at the bounds of `i64` beyond them.
pub open spec fn epoch_micros_spec(at_or_after: bool, distance: u128) -> i64 {
    if at_or_after {
        if distance > i64::MAX { i64::MAX } else { distance as i64 }
    } else {
        if distance > 0x8000_0000_0000_0000 { i64::MIN } else { (-distance) as i64 }
    }
}

/// A clock reading as signed microseconds since the Unix epoch.
pub fn epoch_micros(at_or_after: bool, distance: u128) -> (micros: i64)
    ensures
        micros == epoch_micros_spec(at_or_after, distance),
{
    if at_or_after {
        if distance > 0x7fff_ffff_ffff_ffffu128 {
            i64::MAX
        } else {
            distance as i64
        }
    } else if distance >= 0x8000_0000_0000_0000u128 {
        i64::MIN
    } else {
        -(distance as i64)
    }
}

/// The current time in microseconds since the Unix epoch (negative on a
/// clock set before it).
pub fn now_micros() -> i64 {
    let (at_or_after, distance) = system_clock_micros();
    epoch_micros(at_or_after, distance)
}

impl VoiceSession {
    /// A new session with the given id in the Spawning state, created and
    /// last updated at `now`.
    pub fn new_at(session_id: u128, agent_id: &str, caller_id: Option<String>, now: i64) -> (session:
        Self)
        ensures
            session.session_id == session_id,
            session.agent_id@ == agent_id@,
            session.caller_id == caller_id,
            session.status == SessionStatus::Spawning,
            session.created_at == now,
            session.updated_at == now,
            session.turn_count == 0,
    {
        VoiceSession {
            session_id,
            agent_id: String::from_str(agent_id),
            status: SessionStatus::Spawning,
            created_at: now,
            updated_at: now,
            caller_id,
            turn_count: 0,
        }
    }

    /// Create a new session in the Spawning state, stamped with the current
    /// time and a fresh random identifier.
    pub fn new(agent_id: &str, caller_id: Option<String>) -> (session: Self)
        ensures
            session.agent_id@ == agent_id@,
            session.caller_id == caller_id,
            session.status == SessionStatus::Spawning,
            session.created_at == session.updated_at,
            session.turn_count == 0,
    {
        let session_id = new_session_id();
        let now = now_micros();
        VoiceSession::new_at(session_id, agent_id, caller_id, now)
    }

    /// Transition to a new status at time `now`.
    pub fn transition_at(&mut self, new_status: SessionStatus, now: i64)
        ensures
            final(self).status == new_status,
            final(self).updated_at == now,
            final(self).session_id == old(self).session_id,
            final(self).agent_id == old(self).agent_id,
            final(self).created_at == old(self).created_at,
            final(self).caller_id == old(self).caller_id,
            final(self).turn_count == old(self).turn_count,
    {
        self.status = new_status;
        self.updated_at = now;
    }

    /// Transition to a new status, updating the timestamp to the current
    /// time.
    pub fn transition(&mut self, new_status: SessionStatus)
        ensures
            final(self).status == new_status,
            final(self).session_id == old(self).session_id,
            final(self).agent_id == old(self).agent_id,
            final(self).created_at == old(self).created_at,
            final(self).caller_id == old(self).caller_id,
            final(self).turn_count == old(self).turn_count,
    {
        let now = now_micros();
        self.transition_at(new_status, now);
    }

    /// A field-by-field copy of this session.
    pub fn snapshot(&self) -> (copy: Self)
        ensures
            copy == *self,
    {
        VoiceSession {
            session_id: self.session_id,
            agent_id: self.agent_id.clone(),
            status: self.status,
            created_at: self.created_at,
            updated_at: self.updated_at,
            caller_id: copy_optional_text(&self.caller_id),
            turn_count: self.turn_count,
        }
    }
}

// ─────────────────────────────────────────────────────────────
// VERTEX AI WEBSOCKET PROTOCOL MESSAGES
// ─────────────────────────────────────────────────────────────

/// The initial setup message sent to Gemini Live after the WebSocket opens.
#[derive(Debug)]
pub struct SetupMessage {
    pub setup: SetupPayload,
}

/// Body of the setup message.
#[derive(Debug)]
pub struct SetupPayload {
    pub model: String,
    pub generation_config: GenerationConfig,
    pub system_instruction: SystemInstruction,
    pub realtime_input_config: Option<RealtimeInputConfig>,
    pub runtime_config: Option<RuntimeConfig>,
}

/// Runtime settings of a session.
#[derive(Debug)]
pub struct RuntimeConfig {
    pub audio_configuration: AudioConfiguration,
}

/// Voice-activity sensitivities.
#[derive(Debug)]
pub struct AudioConfiguration {
    pub start_sensitivity: String,
    pub end_sensitivity: String,
}

/// Settings of the realtime input stream.
#[derive(Debug)]
pub struct RealtimeInputConfig {
    pub automatic_activity_detection: AutomaticActivityDetection,
}

/// Whether the server detects speech activity by itself.
#[derive(Debug)]
pub struct AutomaticActivityDetection {
    pub disabled: bool,
}

/// Generation settings: output modalities and voice.
#[derive(Debug)]
pub struct GenerationConfig {
    pub response_modalities: Vec<String>,
    pub speech_config: SpeechConfig,
}

/// Speech output settings.
#[derive(Debug)]
pub struct SpeechConfig {
    pub voice_config: VoiceConfig,
}

/// Voice selection.
#[derive(Debug)]
pub struct VoiceConfig {
    pub prebuilt_voice_config: PrebuiltVoiceConfig,
}

/// A prebuilt voice, by name.
#[derive(Debug)]
pub struct PrebuiltVoiceConfig {
    pub voice_name: String,
}

/// The system instruction, as text parts.
#[derive(Debug)]
pub struct SystemInstruction {
    pub parts: Vec<TextPart>,
}

/// One part of text content.
#[derive(Debug, Clone)]
pub struct TextPart {
    pub text: String,
}

/// Audio input message for streaming microphone data to Gemini.
#[derive(Debug)]
pub struct RealtimeInput {
    pub realtime_input: MediaChunksWrapper,
}

impl RealtimeInput {
    /// This message carries exactly one chunk: 16 kHz PCM audio with the
    /// given base64 data.
    pub open spec fn is_pcm_audio(&self, data: Seq<char>) -> bool {
        &&& self.realtime_input.media_chunks@.len() == 1
        &&& self.realtime_input.media_chunks@[0].mime_type@ == "audio/pcm;rate=16000"@
        &&& self.realtime_input.media_chunks@[0].data@ == data
    }

    /// A realtime input message with one chunk of 16 kHz PCM16 audio,
    /// base64-encoded.
    pub fn pcm_audio(data: String) -> (message: Self)
        ensures
            message.is_pcm_audio(data@),
    {
        let mut media_chunks: Vec<MediaChunk> = Vec::new();
        media_chunks.push(MediaChunk { mime_type: String::from_str("audio/pcm;rate=16000"), data });
        RealtimeInput { realtime_input: MediaChunksWrapper { media_chunks } }
    }
}

/// The media chunks of a realtime input message.
#[derive(Debug)]
pub struct MediaChunksWrapper {
    pub media_chunks: Vec<MediaChunk>,
}

/// One chunk of media: its MIME type and base64-encoded data.
#[derive(Debug)]
pub struct MediaChunk {
    pub mime_type: String,
    pub data: String,
}

/// Client content message for injecting text context mid-session.
#[derive(Debug)]
pub struct ClientContent {
    pub client_content: ClientContentPayload,
}

/// The turns of a client content message.
#[derive(Debug)]
pub struct ClientContentPayload {
    pub turns: Vec<Turn>,
    pub turn_complete: bool,
}

/// One conversation turn: a role and its text parts.
#[derive(Debug)]
pub struct Turn {
    pub role: String,
    pub parts: Vec<TextPart>,
}

// ─────────────────────────────────────────────────────────────
// TWILIO MEDIA STREAM MODELS
// ─────────────────────────────────────────────────────────────

/// Encompasses all possible events sent from Twilio during a Media Stream.
#[derive(Debug, Clone)]
pub enum TwilioEvent {
    Connected { protocol: String, version: String },
    Start { sequence_number: String, start: TwilioStart, stream_sid: String },
    Media { sequence_number: String, media: TwilioMedia, stream_sid: String },
    Stop { sequence_number: String, stop: TwilioStop, stream_sid: String },
    Mark { sequence_number: String, mark: TwilioMark, stream_sid: String },
}

/// Metadata of a started stream.
#[derive(Debug, Clone)]
pub struct TwilioStart {
    pub account_sid: String,
    pub call_sid: String,
    pub stream_sid: String,
    pub tracks: Vec<String>,
    /// Custom parameters, as (name, value) pairs.
    pub custom_parameters: Vec<(String, String)>,
}

/// One chunk of call audio.
#[derive(Debug, Clone)]
pub struct TwilioMedia {
    pub track: String,
    pub chunk: String,
    pub timestamp: String,
    /// Base64-encoded mu-law audio.
    pub payload: String,
}

/// Metadata of a stopped stream.
#[derive(Debug, Clone)]
pub struct TwilioStop {
    pub account_sid: String,
    pub call_sid: String,
}

/// A named mark in the stream.
#[derive(Debug, Clone)]
pub struct TwilioMark {
    pub name: String,
}

/// Messages sent back to Twilio.
#[derive(Debug, Clone)]
pub enum IronclawToTwilio {
    Media { media: TwilioMediaOut, stream_sid: String },
    Clear { stream_sid: String },
}

/// Outgoing audio for Twilio.
#[derive(Debug, Clone)]
pub struct TwilioMediaOut {
    /// Base64-encoded mu-law audio.
    pub payload: String,
}

// ─────────────────────────────────────────────────────────────
// HEALTHCHECK RESPONSE
// ─────────────────────────────────────────────────────────────

/// Response for the health endpoint.
#[derive(Debug, Clone)]
pub struct HealthResponse {
    pub status: String,
    pub active_profiles: usize,
    pub active_sessions: usize,
    pub uptime_seconds: u64,
}

} // verus!
