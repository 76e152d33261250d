use ironclaw::error::IronclawError;
use ironclaw::models::{IronclawToTwilio, TwilioEvent, TwilioMedia, TwilioStart, TwilioStop};
use ironclaw::twilio_bridge::TwilioBridge;
use ironclaw::web_bridge::{WebBridge, WebMessage};

fn media(payload: &str) -> TwilioEvent {
    TwilioEvent::Media {
        sequence_number: "3".into(),
        media: TwilioMedia {
            track: "inbound".into(),
            chunk: "1".into(),
            timestamp: "5".into(),
            payload: payload.into(),
        },
        stream_sid: "MZ1".into(),
    }
}

fn start() -> TwilioEvent {
    TwilioEvent::Start {
        sequence_number: "1".into(),
        start: TwilioStart {
            account_sid: "AC1".into(),
            call_sid: "CA1".into(),
            stream_sid: "MZ1".into(),
            tracks: vec!["inbound".into()],
            custom_parameters: vec![],
        },
        stream_sid: "MZ1".into(),
    }
}

#[test]
fn twilio_start_records_ids() {
    let mut bridge = TwilioBridge::new("jenny".into());
    assert!(bridge.handle_twilio_message(Ok(start())).unwrap().is_none());
    assert_eq!(bridge.stream_sid.as_deref(), Some("MZ1"));
    assert_eq!(bridge.call_sid.as_deref(), Some("CA1"));
    let stop = TwilioEvent::Stop {
        sequence_number: "9".into(),
        stop: TwilioStop { account_sid: "AC1".into(), call_sid: "CA1".into() },
        stream_sid: "MZ1".into(),
    };
    assert!(bridge.handle_twilio_message(Ok(stop)).unwrap().is_none());
}

#[test]
fn twilio_media_becomes_16k_pcm() {
    let mut bridge = TwilioBridge::new("jenny".into());
    // mu-law 0xFF, 0x80 = PCM 0, 32124; upsampled 0, 16062, 32124, 32124.
    let msg = bridge.handle_twilio_message(Ok(media("/4A="))).unwrap().unwrap();
    let chunks = msg.realtime_input.media_chunks;
    assert_eq!(chunks.len(), 1);
    assert_eq!(chunks[0].mime_type, "audio/pcm;rate=16000");
    assert_eq!(chunks[0].data, "AAC+Pnx9fH0=");
}

#[test]
fn twilio_bad_input_is_a_websocket_error() {
    let mut bridge = TwilioBridge::new("jenny".into());
    match bridge.handle_twilio_message(Ok(media("!!"))) {
        Err(IronclawError::WebSocket(msg)) => {
            assert!(msg.starts_with("Invalid base64 in Twilio media: "))
        }
        other => panic!("unexpected {:?}", other),
    }
    assert_eq!(
        bridge.handle_twilio_message(Err("eof".into())).unwrap_err(),
        IronclawError::WebSocket("Failed to parse Twilio JSON: eof".into())
    );
}

#[test]
fn vertex_audio_needs_a_stream() {
    let mut bridge = TwilioBridge::new("jenny".into());
    assert!(bridge.handle_vertex_audio("6AMFABj8BwA=").unwrap().is_none());
    bridge.handle_twilio_message(Ok(start())).unwrap();
    // PCM 1000, 5, -1000, 7 -> decimated 1000, -1000 -> mu-law 206, 78.
    match bridge.handle_vertex_audio("6AMFABj8BwA=").unwrap().unwrap() {
        IronclawToTwilio::Media { media, stream_sid } => {
            assert_eq!(stream_sid, "MZ1");
            assert_eq!(media.payload, "zk4=");
        }
        other => panic!("unexpected {:?}", other),
    }
    match bridge.handle_vertex_audio("not base64") {
        Err(IronclawError::WebSocket(msg)) => assert!(msg.starts_with("Invalid base64 from Vertex: ")),
        other => panic!("unexpected {:?}", other),
    }
}

#[test]
fn web_messages_by_type() {
    let bridge = WebBridge::new("jenny".into());
    let audio = WebMessage { msg_type: Some("audio".into()), data: Some("AAAA".into()) };
    let msg = bridge.handle_parsed_web_message(Ok(audio)).unwrap().unwrap();
    assert_eq!(msg.realtime_input.media_chunks[0].data, "AAAA");
    assert_eq!(msg.realtime_input.media_chunks[0].mime_type, "audio/pcm;rate=16000");

    let missing = WebMessage { msg_type: Some("audio".into()), data: None };
    assert_eq!(
        bridge.handle_parsed_web_message(Ok(missing)).unwrap_err(),
        IronclawError::WebSocket("Missing data in audio message".into())
    );
    let ping = WebMessage { msg_type: Some("ping".into()), data: None };
    assert!(bridge.handle_parsed_web_message(Ok(ping)).unwrap().is_none());
    let untyped = WebMessage { msg_type: None, data: Some("AAAA".into()) };
    assert!(bridge.handle_parsed_web_message(Ok(untyped)).unwrap().is_none());
    assert_eq!(
        bridge.handle_parsed_web_message(Err("expected value".into())).unwrap_err(),
        IronclawError::WebSocket("Invalid Web JSON: expected value".into())
    );
}

#[test]
fn web_outbound_wrapping() {
    let bridge = WebBridge::new("jenny".into());
    let audio = bridge.handle_vertex_audio("QUJD").unwrap().unwrap();
    assert_eq!((audio.msg_type.as_str(), audio.data.as_str()), ("audio", "QUJD"));
    let proto = bridge.handle_vertex_json("{\"setupComplete\":{}}").unwrap().unwrap();
    assert_eq!(proto.msg_type, "protocol");
    assert_eq!(proto.data, "{\"setupComplete\":{}}");
}

#[test]
fn echoed_audio_returns_to_the_caller_unchanged() {
    let mut bridge = TwilioBridge::new("jenny".into());
    bridge.handle_twilio_message(Ok(start())).unwrap();
    // Call audio without the code 0x7F: 0x00, 0x10, 0x80, 0xFE, 0xFF.
    let payload = "ABCA/v8=";
    let input = bridge.handle_twilio_message(Ok(media(payload))).unwrap().unwrap();
    let pcm_b64 = input.realtime_input.media_chunks[0].data.clone();
    match bridge.handle_vertex_audio(&pcm_b64).unwrap().unwrap() {
        IronclawToTwilio::Media { media, .. } => assert_eq!(media.payload, payload),
        other => panic!("unexpected {:?}", other),
    }
}

#[test]
fn web_text_is_parsed_before_it_is_handled() {
    let bridge = WebBridge::new("jenny".into());
    let msg = bridge
        .handle_web_message("{\"type\": \"audio\", \"data\": \"AAAA\"}")
        .unwrap()
        .unwrap();
    assert_eq!(msg.realtime_input.media_chunks[0].data, "AAAA");
    assert!(bridge.handle_web_message("{\"type\": \"ping\"}").unwrap().is_none());
    // A type that is not a string reads as "unknown".
    assert!(bridge.handle_web_message("{\"type\": 7, \"data\": \"AAAA\"}").unwrap().is_none());
    // Data that is not a string is missing.
    assert_eq!(
        bridge.handle_web_message("{\"type\": \"audio\", \"data\": 5}").unwrap_err(),
        IronclawError::WebSocket("Missing data in audio message".into())
    );
    match bridge.handle_web_message("xyz") {
        Err(IronclawError::WebSocket(msg)) => {
            assert!(msg.starts_with("Invalid Web JSON: expected value"), "{}", msg)
        }
        other => panic!("unexpected {:?}", other),
    }
}

#[test]
fn bad_base64_errors_carry_the_decoder_message() {
    let mut bridge = TwilioBridge::new("jenny".into());
    bridge.handle_twilio_message(Ok(start())).unwrap();
    assert_eq!(
        bridge.handle_vertex_audio("AA*A").unwrap_err(),
        IronclawError::WebSocket("Invalid base64 from Vertex: Invalid symbol 42, offset 2.".into())
    );
    assert_eq!(
        bridge.handle_twilio_message(Ok(media("AA*A"))).unwrap_err(),
        IronclawError::WebSocket("Invalid base64 in Twilio media: Invalid symbol 42, offset 2.".into())
    );
}
