use ironclaw::error::IronclawError;
use ironclaw::gateway::{
    client_step, health_report, read_vertex_message, resolve_agent_id, resolve_host,
    send_failure_step, stream_scheme, twiml_response, twilio_audio_chunks, vertex_message_from,
    vertex_send_step, web_forwarding, ClientEvent, ClientKind, ClientStep, SendFailure,
    VertexMessage,
};
use ironclaw::models::RealtimeInput;

#[test]
fn agent_and_host_defaults() {
    assert_eq!(resolve_agent_id(None), "aria_receptionist_01");
    assert_eq!(resolve_agent_id(Some("mark_roi_closer_01".into())), "mark_roi_closer_01");
    assert_eq!(resolve_host(None), "localhost:8080");
    assert_eq!(resolve_host(Some("example.run.app".into())), "example.run.app");
}

#[test]
fn scheme_depends_on_localhost() {
    assert_eq!(stream_scheme("localhost:8080"), "ws");
    assert_eq!(stream_scheme("my-localhost-box"), "ws");
    assert_eq!(stream_scheme("ironclaw.a.run.app"), "wss");
    assert_eq!(stream_scheme(""), "wss");
}

#[test]
fn twiml_connects_the_stream() {
    let twiml = twiml_response("jules_architect_01", "ironclaw.a.run.app");
    assert_eq!(
        twiml,
        "<?xml version=\"1.0\" encoding=\"UTF-8\"?>\n<Response>\n    <Say>Connecting to jules_architect_01 via Ironclaw.</Say>\n    <Connect>\n        <Stream url=\"wss://ironclaw.a.run.app/media-stream?agent_id=jules_architect_01\" />\n    </Connect>\n</Response>"
    );
    assert!(twiml_response("a", "localhost:8080").contains("ws://localhost:8080/media-stream?agent_id=a"));
}

#[test]
fn health_is_reported() {
    let report = health_report(4, 2);
    assert_eq!(report.status, "healthy");
    assert_eq!((report.active_profiles, report.active_sessions, report.uptime_seconds), (4, 2, 0));
}

#[test]
fn vertex_messages_for_twilio() {
    let json_audio = VertexMessage { is_json: true, audio_parts: Some(vec!["AA==".into(), "BB==".into()]) };
    assert_eq!(twilio_audio_chunks("{..}", &json_audio), vec!["AA==".to_string(), "BB==".to_string()]);
    let json_other = VertexMessage { is_json: true, audio_parts: None };
    assert!(twilio_audio_chunks("{\"setupComplete\":{}}", &json_other).is_empty());
    let raw = VertexMessage { is_json: false, audio_parts: None };
    assert_eq!(twilio_audio_chunks("QUJD", &raw), vec!["QUJD".to_string()]);
    assert!(twilio_audio_chunks("{broken", &raw).is_empty());
}

#[test]
fn vertex_messages_for_web() {
    let json_audio = VertexMessage { is_json: true, audio_parts: Some(vec!["AA==".into()]) };
    let outs = web_forwarding("{..}", &json_audio);
    assert_eq!(outs.len(), 1);
    assert_eq!((outs[0].msg_type.as_str(), outs[0].data.as_str()), ("audio", "AA=="));
    let json_other = VertexMessage { is_json: true, audio_parts: None };
    let outs = web_forwarding("{\"x\":1}", &json_other);
    assert_eq!((outs[0].msg_type.as_str(), outs[0].data.as_str()), ("protocol", "{\"x\":1}"));
    let raw = VertexMessage { is_json: false, audio_parts: None };
    let outs = web_forwarding("QUJD", &raw);
    assert_eq!((outs[0].msg_type.as_str(), outs[0].data.as_str()), ("audio", "QUJD"));
}

#[test]
fn error_messages() {
    let e = IronclawError::ProfileParse { path: "a.yaml".into(), message: "bad".into() };
    assert_eq!(e.message(), "Failed to parse profile 'a.yaml': bad");
    assert_eq!(IronclawError::AgentNotFound("x".into()).message(), "Agent profile not found: x");
    assert_eq!(IronclawError::SessionNotFound("y".into()).message(), "Session not found: y");
    assert_eq!(IronclawError::WebSocket("z".into()).message(), "WebSocket error: z");
    assert_eq!(IronclawError::Auth("w".into()).message(), "Auth error: w");
    assert_eq!(IronclawError::Internal("v".into()).message(), "Internal error: v");
    assert_eq!(
        IronclawError::ProfileIo { path: "p".into(), message: "m".into() }.message(),
        "Failed to read profile 'p': m"
    );
    assert_eq!(
        IronclawError::from_json_error("eof"),
        IronclawError::Internal("JSON serialization error: eof".into())
    );
}

#[test]
fn vertex_messages_are_read_from_json() {
    let text = "{\"serverContent\":{\"modelTurn\":{\"parts\":[{\"inlineData\":{\"mimeType\":\"audio/pcm\",\"data\":\"AA==\"}},{\"text\":\"hi\"},{\"inlineData\":{\"data\":\"BB==\"}}]}}}";
    let read = read_vertex_message(text);
    assert!(read.is_json);
    assert_eq!(read.audio_parts, Some(vec!["AA==".to_string(), "BB==".to_string()]));
    assert_eq!(twilio_audio_chunks(text, &read), vec!["AA==".to_string(), "BB==".to_string()]);

    let setup = read_vertex_message("{\"setupComplete\":{}}");
    assert!(setup.is_json && setup.audio_parts.is_none());
    let raw = read_vertex_message("QUJD");
    assert!(!raw.is_json && raw.audio_parts.is_none());
    let empty = read_vertex_message("{\"serverContent\":{\"modelTurn\":{\"parts\":[]}}}");
    assert_eq!(empty.audio_parts, Some(vec![]));
}

#[test]
fn vertex_reads_keep_only_parts_with_data() {
    let read = vertex_message_from(Some(Some(vec![None, Some("AA==".into()), None, Some("CC==".into())])));
    assert!(read.is_json);
    assert_eq!(read.audio_parts, Some(vec!["AA==".to_string(), "CC==".to_string()]));
    let not_json = vertex_message_from(None);
    assert!(!not_json.is_json);
    let no_parts = vertex_message_from(Some(None));
    assert!(no_parts.is_json && no_parts.audio_parts.is_none());
}

#[test]
fn client_events_drive_the_loops() {
    let input = || RealtimeInput::pcm_audio("AAAA".into());
    match client_step(ClientKind::Twilio, ClientEvent::Text(Ok(Some(input())))) {
        ClientStep::Forward(i) => assert_eq!(i.realtime_input.media_chunks[0].data, "AAAA"),
        other => panic!("unexpected {:?}", other),
    }
    assert!(matches!(client_step(ClientKind::Web, ClientEvent::Text(Ok(None))), ClientStep::Continue));
    let bad = || ClientEvent::Text(Err(IronclawError::WebSocket("x".into())));
    assert!(matches!(client_step(ClientKind::Twilio, bad()), ClientStep::End));
    assert!(matches!(client_step(ClientKind::Web, bad()), ClientStep::Continue));
    assert!(matches!(client_step(ClientKind::Twilio, ClientEvent::Failed), ClientStep::End));
    assert!(matches!(client_step(ClientKind::Web, ClientEvent::Failed), ClientStep::Continue));
    assert!(matches!(client_step(ClientKind::Web, ClientEvent::Closed), ClientStep::End));
    assert!(matches!(client_step(ClientKind::Twilio, ClientEvent::Other), ClientStep::Continue));
    assert!(matches!(vertex_send_step(true), ClientStep::Continue));
    assert!(matches!(vertex_send_step(false), ClientStep::End));
}

#[test]
fn failed_sends_to_the_client() {
    let parts = VertexMessage { is_json: true, audio_parts: Some(vec!["AA==".into()]) };
    let protocol = VertexMessage { is_json: true, audio_parts: None };
    let raw = VertexMessage { is_json: false, audio_parts: None };
    assert_eq!(send_failure_step(ClientKind::Web, &parts), SendFailure::SkipRest);
    assert_eq!(send_failure_step(ClientKind::Web, &protocol), SendFailure::EndSession);
    assert_eq!(send_failure_step(ClientKind::Web, &raw), SendFailure::EndSession);
    assert_eq!(send_failure_step(ClientKind::Twilio, &raw), SendFailure::SkipRest);
    assert_eq!(send_failure_step(ClientKind::Twilio, &protocol), SendFailure::SkipRest);
}
