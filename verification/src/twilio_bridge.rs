//! Twilio <-> Vertex AI bridge logic: the protocol translation and the audio
//! pipeline between 8 kHz mu-law and 16 kHz little-endian PCM16.

use crate::audio_util::{
    decode_mulaw_spec, downsample_16_to_8, downsample_spec, encode_mulaw_spec, mulaw_to_pcm16,
    pcm16_from_le_bytes, pcm16_from_le_bytes_spec, pcm16_le_bytes_spec, pcm16_to_le_bytes,
    pcm16_to_mulaw, upsample_8_to_16, upsample_spec,
};
use crate::error::IronclawError;
use crate::models::{IronclawToTwilio, RealtimeInput, TwilioEvent, TwilioMediaOut};
use crate::platform::{
    base64_decode, base64_decode_error, base64_encode, base64_standard_decoding,
    base64_standard_encoding,
};
use crate::text::concat;
use vstd::prelude::*;

verus! {

/// The 16 kHz little-endian PCM16 bytes that a chunk of 8 kHz mu-law bytes
/// becomes: decoded, upsampled, serialised.
pub open spec fn vertex_pcm_bytes(mulaw: Seq<u8>) -> Seq<u8> {
    pcm16_le_bytes_spec(upsample_spec(mulaw.map_values(|code: u8| decode_mulaw_spec(code))))
}

/// Base64 of the 16 kHz PCM16 bytes that a chunk of mu-law becomes.
pub open spec fn vertex_audio_data(mulaw: Seq<u8>) -> Seq<char> {
    base64_standard_encoding(vertex_pcm_bytes(mulaw))
}

/// The 8 kHz mu-law bytes that a chunk of 16 kHz little-endian PCM16 bytes
/// becomes: read, decimated, encoded.
pub open spec fn twilio_mulaw_bytes(pcm: Seq<u8>) -> Seq<u8> {
    downsample_spec(pcm16_from_le_bytes_spec(pcm)).map_values(|pcm: i16| encode_mulaw_spec(pcm))
}

/// Base64 of the mu-law bytes that a chunk of PCM16 bytes becomes.
pub open spec fn twilio_audio_payload(pcm: Seq<u8>) -> Seq<char> {
    base64_standard_encoding(twilio_mulaw_bytes(pcm))
}

/// Convert a chunk of 8 kHz mu-law call audio into a Vertex AI realtime
/// input message carrying it as 16 kHz PCM16.
pub fn mulaw_chunk_to_vertex(mulaw: &[u8]) -> (message: RealtimeInput)
    requires
        mulaw@.len() <= isize::MAX / 4,
    ensures
        message.is_pcm_audio(vertex_audio_data(mulaw@)),
        base64_standard_decoding(vertex_audio_data(mulaw@)) == Some(vertex_pcm_bytes(mulaw@)),
{
    // 1. Convert mu-law -> PCM16 (8kHz)
    let pcm16_8k = mulaw_to_pcm16(mulaw);
    // 2. Upsample 8kHz -> 16kHz
    let pcm16_16k = upsample_8_to_16(pcm16_8k.as_slice());
    // 3. Serialise little-endian and encode as base64
    let bytes = pcm16_to_le_bytes(pcm16_16k.as_slice());
    let b64_pcm = base64_encode(bytes.as_slice());
    // 4. Wrap in Vertex RealtimeInput
    RealtimeInput::pcm_audio(b64_pcm)
}

/// Convert a chunk of 16 kHz PCM16 bytes from Vertex AI into a Twilio media
/// message for the given stream, carrying it as 8 kHz mu-law.
pub fn pcm_chunk_to_twilio(stream_sid: &str, pcm: &[u8]) -> (message: IronclawToTwilio)
    ensures
        message matches IronclawToTwilio::Media { media, stream_sid: sid } && sid@ == stream_sid@
            && media.payload@ == twilio_audio_payload(pcm@),
        base64_standard_decoding(twilio_audio_payload(pcm@)) == Some(twilio_mulaw_bytes(pcm@)),
{
    let pcm16 = pcm16_from_le_bytes(pcm);
    // Downsample 16kHz -> 8kHz (2:1 decimation)
    let pcm16_8k = downsample_16_to_8(pcm16.as_slice());
    let mulaw = pcm16_to_mulaw(pcm16_8k.as_slice());
    let pcm_len = pcm.len();
    assert(mulaw@.len() <= pcm_len / 4 + 1);
    let b64_mulaw = base64_encode(mulaw.as_slice());
    IronclawToTwilio::Media {
        media: TwilioMediaOut { payload: b64_mulaw },
        stream_sid: String::from_str(stream_sid),
    }
}

/// State for a single Twilio-Vertex bridge.
pub struct TwilioBridge {
    pub stream_sid: Option<String>,
    pub call_sid: Option<String>,
    pub agent_id: String,
}

impl TwilioBridge {
    /// A bridge for the given agent, before any stream has started.
    pub fn new(agent_id: String) -> (bridge: Self)
        ensures
            bridge.stream_sid is None,
            bridge.call_sid is None,
            bridge.agent_id == agent_id,
    {
        TwilioBridge { stream_sid: None, call_sid: None, agent_id }
    }

    /// Process a message from Twilio, given as the outcome of parsing its
    /// JSON text (the parser's message on failure), and return an optional
    /// message for Vertex. A start event records the stream and call ids; a
    /// media event becomes 16 kHz PCM audio for Vertex; the other events
    /// yield nothing.
    pub fn handle_twilio_message(&mut self, event: Result<TwilioEvent, String>) -> (result: Result<
        Option<RealtimeInput>,
        IronclawError,
    >)
        requires
            event matches Ok(TwilioEvent::Media { media, .. }) ==> media.payload@.len() <= isize::MAX
                / 3,
        ensures
            final(self).agent_id == old(self).agent_id,
            match event {
                Err(parse_error) => {
                    &&& result matches Err(IronclawError::WebSocket(msg)) && msg@
                        == "Failed to parse Twilio JSON: "@ + parse_error@
                    &&& final(self).stream_sid == old(self).stream_sid
                    &&& final(self).call_sid == old(self).call_sid
                },
                Ok(TwilioEvent::Start { start, stream_sid, .. }) => {
                    &&& result matches Ok(None)
                    &&& final(self).stream_sid == Some(stream_sid)
                    &&& final(self).call_sid == Some(start.call_sid)
                },
                Ok(TwilioEvent::Media { media, .. }) => {
                    &&& final(self).stream_sid == old(self).stream_sid
                    &&& final(self).call_sid == old(self).call_sid
                    &&& match base64_standard_decoding(media.payload@) {
                        Some(mulaw) => {
                            &&& result matches Ok(Some(message)) && message.is_pcm_audio(
                                vertex_audio_data(mulaw),
                            )
                            &&& base64_standard_decoding(vertex_audio_data(mulaw)) == Some(
                                vertex_pcm_bytes(mulaw),
                            )
                        },
                        None => result matches Err(IronclawError::WebSocket(msg)) && msg@
                            == "Invalid base64 in Twilio media: "@ + base64_decode_error(
                            media.payload@,
                        ),
                    }
                },
                Ok(_) => {
                    &&& result matches Ok(None)
                    &&& final(self).stream_sid == old(self).stream_sid
                    &&& final(self).call_sid == old(self).call_sid
                },
            },
    {
        let event = match event {
            Ok(event) => event,
            Err(parse_error) => {
                return Err(
                    IronclawError::WebSocket(
                        concat("Failed to parse Twilio JSON: ", parse_error.as_str()),
                    ),
                );
            },
        };
        match event {
            TwilioEvent::Connected { .. } => Ok(None),
            TwilioEvent::Start { start, stream_sid, .. } => {
                self.stream_sid = Some(stream_sid);
                self.call_sid = Some(start.call_sid);
                Ok(None)
            },
            TwilioEvent::Media { media, .. } => {
                // Decode base64 mu-law
                match base64_decode(media.payload.as_str()) {
                    Ok(raw_mulaw) => Ok(Some(mulaw_chunk_to_vertex(raw_mulaw.as_slice()))),
                    Err(e) => Err(
                        IronclawError::WebSocket(concat("Invalid base64 in Twilio media: ", e.as_str())),
                    ),
                }
            },
            TwilioEvent::Stop { .. } => Ok(None),
            TwilioEvent::Mark { .. } => Ok(None),
        }
    }

    /// Process a base64 chunk of 16 kHz PCM16 audio from Vertex and return a
    /// media message for Twilio; nothing before a stream has started.
    pub fn handle_vertex_audio(&self, b64_data: &str) -> (result: Result<
        Option<IronclawToTwilio>,
        IronclawError,
    >)
        ensures
            match self.stream_sid {
                None => result matches Ok(None),
                Some(sid) => match base64_standard_decoding(b64_data@) {
                    Some(pcm) => {
                        &&& result matches Ok(
                            Some(IronclawToTwilio::Media { media, stream_sid: out_sid }),
                        ) && out_sid@ == sid@ && media.payload@ == twilio_audio_payload(pcm)
                        &&& base64_standard_decoding(twilio_audio_payload(pcm)) == Some(
                            twilio_mulaw_bytes(pcm),
                        )
                    },
                    None => result matches Err(IronclawError::WebSocket(msg)) && msg@
                        == "Invalid base64 from Vertex: "@ + base64_decode_error(b64_data@),
                },
            },
    {
        let stream_sid = match &self.stream_sid {
            Some(sid) => sid,
            None => return Ok(None),
        };
        match base64_decode(b64_data) {
            Ok(raw_pcm_bytes) => Ok(Some(pcm_chunk_to_twilio(stream_sid.as_str(), raw_pcm_bytes.as_slice()))),
            Err(e) => Err(IronclawError::WebSocket(concat("Invalid base64 from Vertex: ", e.as_str()))),
        }
    }
}

/// Call audio going to Vertex carries two 16 kHz samples, four bytes, for
/// every 8 kHz mu-law byte received.
pub proof fn lemma_vertex_audio_doubles_rate(mulaw: Seq<u8>)
    ensures
        upsample_spec(mulaw.map_values(|code: u8| decode_mulaw_spec(code))).len() == 2
            * mulaw.len(),
        pcm16_le_bytes_spec(upsample_spec(mulaw.map_values(|code: u8| decode_mulaw_spec(code)))).len()
            == 4 * mulaw.len(),
{
}

/// Agent audio going to Twilio carries one mu-law byte for every two 16 kHz
/// samples received (rounding up), a trailing odd byte dropped.
pub proof fn lemma_twilio_audio_halves_rate(pcm: Seq<u8>)
    ensures
        downsample_spec(pcm16_from_le_bytes_spec(pcm)).map_values(
            |sample: i16| encode_mulaw_spec(sample),
        ).len() == (pcm.len() / 2) / 2 + (pcm.len() / 2) % 2,
{
}

/// Audio that Vertex echoes back unchanged reaches the caller as the very
/// mu-law bytes the caller sent, for any call audio without the code 0x7F
/// ("negative zero", which comes back as 0xFF).
pub proof fn lemma_bridge_echo_roundtrip(mulaw: Seq<u8>)
    requires
        forall|i: int| 0 <= i < mulaw.len() ==> mulaw[i] != 0x7f,
    ensures
        twilio_mulaw_bytes(vertex_pcm_bytes(mulaw)) == mulaw,
        twilio_audio_payload(vertex_pcm_bytes(mulaw)) == base64_standard_encoding(mulaw),
{
    let decoded = mulaw.map_values(|code: u8| decode_mulaw_spec(code));
    let up = upsample_spec(decoded);
    crate::audio_util::lemma_le_bytes_roundtrip(up);
    crate::audio_util::lemma_downsample_inverts_upsample(decoded);
    crate::audio_util::lemma_mulaw_stream_roundtrip(mulaw);
}

/// The two calls of a bridge: a media event whose payload decodes to call
/// audio `mulaw` is forwarded to Vertex as `forwarded`, and, where Vertex
/// echoes that data unchanged, the caller is handed a payload `returned`;
/// the requirements are what `handle_twilio_message` and
/// `handle_vertex_audio` state of the two. For call audio without the code
/// 0x7F, that payload is the base64 of the very bytes the caller sent, and
/// decodes to them.
pub proof fn lemma_bridge_echo(mulaw: Seq<u8>, forwarded: Seq<char>, returned: Seq<char>)
    requires
        forall|i: int| 0 <= i < mulaw.len() ==> mulaw[i] != 0x7f,
        forwarded == vertex_audio_data(mulaw),
        base64_standard_decoding(forwarded) == Some(vertex_pcm_bytes(mulaw)),
        base64_standard_decoding(forwarded) matches Some(pcm) && returned == twilio_audio_payload(
            pcm,
        ) && base64_standard_decoding(returned) == Some(twilio_mulaw_bytes(pcm)),
    ensures
        returned == base64_standard_encoding(mulaw),
        base64_standard_decoding(returned) == Some(mulaw),
{
    lemma_bridge_echo_roundtrip(mulaw);
}

} // verus!
