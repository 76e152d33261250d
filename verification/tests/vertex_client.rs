use base64::Engine as _;
use ironclaw::error::IronclawError;
use ironclaw::models::{AgentProfile, VertexAiConfig};
use ironclaw::vertex_client::{
    authenticated_url, build_context_injection, build_greeting_trigger, build_setup_message,
    build_silence_keepalive, handshake_outcome, resolve_project_id, route_server_frame,
    vertex_endpoint, FrameAction, ServerFrame,
};

#[test]
fn test_build_setup_message() {
    let profile = AgentProfile {
        agent_id: "test_agent".to_string(),
        vertex_ai_config: VertexAiConfig {
            model: "gemini-2.5-flash-native-audio-preview".to_string(),
            voice: "Kore".to_string(),
            location: "us-central1".to_string(),
        },
        neuro_system_prompt: "You are a test agent.".to_string(),
        capabilities: vec!["schedule_appointment".to_string()],
        display_name: None,
        tags: vec![],
    };

    let msg = build_setup_message(&profile, "bio-dynamx");
    let setup = &msg.setup;

    assert!(setup.model.contains("gemini-2.5-flash-native-audio-preview"));
    assert_eq!(
        setup.model,
        "projects/bio-dynamx/locations/us-central1/publishers/google/models/gemini-2.5-flash-native-audio-preview"
    );
    assert_eq!(setup.generation_config.speech_config.voice_config.prebuilt_voice_config.voice_name, "Kore");
    assert_eq!(setup.system_instruction.parts[0].text, "You are a test agent.");
    assert_eq!(setup.generation_config.response_modalities, vec!["AUDIO".to_string()]);
    assert!(setup.realtime_input_config.as_ref().unwrap().automatic_activity_detection.disabled);
    assert!(setup.runtime_config.is_none());
}

#[test]
fn test_silence_keepalive_is_valid_json() {
    let msg = build_silence_keepalive();
    let chunks = &msg.realtime_input.media_chunks;
    assert_eq!(chunks.len(), 1);
    assert_eq!(chunks[0].mime_type, "audio/pcm;rate=16000");
    let decoded = base64::engine::general_purpose::STANDARD.decode(&chunks[0].data).unwrap();
    assert_eq!(decoded, vec![0u8; 320]);
    assert_eq!(chunks[0].data.len(), 428);
}

#[test]
fn test_context_injection_consolidates() {
    let blocks = vec!["Block A", "Block B", "Block C"];
    let msg = build_context_injection(&blocks);
    let injected = &msg.client_content.turns[0].parts[0].text;
    assert!(injected.contains("Block A"));
    assert!(injected.contains("---"));
    assert!(injected.contains("Block C"));
    assert_eq!(injected, "Block A\n\n---\n\nBlock B\n\n---\n\nBlock C");
    assert_eq!(msg.client_content.turns[0].role, "user");
    assert!(msg.client_content.turn_complete);
}

#[test]
fn context_injection_of_one_or_no_block() {
    assert_eq!(build_context_injection(&["Only"]).client_content.turns[0].parts[0].text, "Only");
    assert_eq!(build_context_injection(&[]).client_content.turns[0].parts[0].text, "");
}

#[test]
fn greeting_trigger_is_a_user_turn() {
    let msg = build_greeting_trigger();
    assert_eq!(
        msg.client_content.turns[0].parts[0].text,
        "Hello! Please introduce yourself and wait for my request."
    );
    assert!(msg.client_content.turn_complete);
}

#[test]
fn project_id_falls_back_in_order() {
    assert_eq!(resolve_project_id(Some("a".into()), Some("b".into())), "a");
    assert_eq!(resolve_project_id(None, Some("b".into())), "b");
    assert_eq!(resolve_project_id(None, None), "bio-dynamx");
}

#[test]
fn endpoint_and_url() {
    let endpoint = vertex_endpoint("us-central1");
    assert_eq!(
        endpoint,
        "wss://us-central1-aiplatform.googleapis.com/ws/google.cloud.aiplatform.v1beta1.LlmBidiService/BidiGenerateContent"
    );
    assert_eq!(authenticated_url("wss://h/p", "tok"), "wss://h/p?access_token=tok");
}

#[test]
fn handshake_needs_a_text_frame() {
    assert!(handshake_outcome(&Some(ServerFrame::Text("{}".into()))).is_ok());
    assert_eq!(
        handshake_outcome(&Some(ServerFrame::Close)),
        Err(IronclawError::WebSocket("Handshake failed".into()))
    );
    assert_eq!(handshake_outcome(&None), Err(IronclawError::WebSocket("Connection closed".into())));
}

#[test]
fn server_frames_are_routed() {
    match route_server_frame(ServerFrame::Binary(vec![0xff, 0x80])) {
        FrameAction::Forward(text) => assert_eq!(text, "/4A="),
        other => panic!("unexpected {:?}", other),
    }
    match route_server_frame(ServerFrame::Text("hi".into())) {
        FrameAction::Forward(text) => assert_eq!(text, "hi"),
        other => panic!("unexpected {:?}", other),
    }
    assert!(matches!(route_server_frame(ServerFrame::Close), FrameAction::Stop));
    assert!(matches!(route_server_frame(ServerFrame::Failed("x".into())), FrameAction::Stop));
    assert!(matches!(route_server_frame(ServerFrame::Ping(vec![1])), FrameAction::Skip));
}
