use ironclaw::error::IronclawError;
use ironclaw::hot_reload::AgentRegistry;
use ironclaw::models::{epoch_micros, AgentProfile, SessionStatus, VertexAiConfig, VoiceSession};
use ironclaw::session_manager::SessionManager;

fn test_profile() -> AgentProfile {
    AgentProfile {
        agent_id: "test_session_agent".to_string(),
        vertex_ai_config: VertexAiConfig {
            model: "gemini-2.5-flash-native-audio-preview".to_string(),
            voice: "Kore".to_string(),
            location: "us-central1".to_string(),
        },
        neuro_system_prompt: "Test prompt.".to_string(),
        capabilities: vec![],
        display_name: None,
        tags: vec![],
    }
}

fn manager_with_profile() -> SessionManager {
    let mut registry = AgentRegistry::new();
    registry.insert(test_profile());
    SessionManager::new(registry)
}

#[test]
fn test_session_manager_creation() {
    let manager = manager_with_profile();
    assert_eq!(manager.profile_count(), 1);
    assert_eq!(manager.active_count(), 0);
}

#[test]
fn test_agent_not_found() {
    let manager = SessionManager::new(AgentRegistry::new());
    let result = manager.prepare_session("nonexistent", None);
    assert!(result.is_err());
    match result.unwrap_err() {
        IronclawError::AgentNotFound(id) => assert_eq!(id, "nonexistent"),
        other => panic!("Expected AgentNotFound, got: {:?}", other),
    }
}

#[test]
fn spawned_session_is_live_and_closes() {
    let mut manager = manager_with_profile();
    let session = manager.prepare_session("test_session_agent", Some("+15550100".to_string())).unwrap();
    assert_eq!(session.status, SessionStatus::Connected);
    let id = manager.admit_session(session);
    let live = manager.get_session(id).unwrap();
    assert_eq!(live.status, SessionStatus::Live);
    assert_eq!(live.agent_id, "test_session_agent");
    assert_eq!(live.caller_id.as_deref(), Some("+15550100"));
    assert_eq!(manager.active_count(), 1);
    assert_eq!(manager.list_sessions().len(), 1);

    manager.close_session(id).unwrap();
    assert_eq!(manager.get_session(id).unwrap().status, SessionStatus::Closed);
    assert_eq!(manager.active_count(), 0);
}

#[test]
fn closing_unknown_session_names_it() {
    let mut manager = manager_with_profile();
    let id: u128 = 0x0123_4567_89ab_cdef_0123_4567_89ab_cdef;
    match manager.close_session(id) {
        Err(IronclawError::SessionNotFound(text)) => {
            assert_eq!(text, "01234567-89ab-cdef-0123-456789abcdef")
        }
        other => panic!("unexpected {:?}", other),
    }
}

#[test]
fn gc_removes_only_old_closed_sessions() {
    let mut manager = manager_with_profile();
    let a = manager.admit_session(manager.prepare_session("test_session_agent", None).unwrap());
    let b = manager.admit_session(manager.prepare_session("test_session_agent", None).unwrap());
    manager.close_session(a).unwrap();
    // Nothing is older than the distant past.
    assert_eq!(manager.gc_before(0), 0);
    assert_eq!(manager.list_sessions().len(), 2);
    // Everything is older than the far future, but only the closed one goes.
    assert_eq!(manager.gc_before(i64::MAX), 1);
    assert!(manager.get_session(a).is_none());
    assert_eq!(manager.get_session(b).unwrap().status, SessionStatus::Live);
    assert_eq!(manager.gc(i64::MAX), 0);
}

#[test]
fn update_status_changes_only_status() {
    let mut manager = manager_with_profile();
    let id = manager.admit_session(manager.prepare_session("test_session_agent", None).unwrap());
    let before = manager.get_session(id).unwrap();
    manager.update_status(id, SessionStatus::Error).unwrap();
    let after = manager.get_session(id).unwrap();
    assert_eq!(after.status, SessionStatus::Error);
    assert_eq!(after.created_at, before.created_at);
    assert_eq!(after.agent_id, before.agent_id);
    assert_eq!(manager.active_count(), 0);
}

#[test]
fn new_session_starts_spawning() {
    let mut session = VoiceSession::new("agent", None);
    assert_eq!(session.status, SessionStatus::Spawning);
    assert_eq!(session.created_at, session.updated_at);
    assert_eq!(session.turn_count, 0);
    session.transition(SessionStatus::Draining);
    assert_eq!(session.status, SessionStatus::Draining);
    assert_eq!(SessionStatus::SetupSent.text(), "setup_sent");
    assert_eq!(SessionStatus::Live.text(), "live");
}

#[test]
fn profiles_can_be_registered_through_the_manager() {
    let mut manager = SessionManager::new(AgentRegistry::new());
    assert!(manager.register_profile(test_profile()));
    assert!(!manager.register_profile(test_profile()));
    assert_eq!(manager.profile_count(), 1);
    assert!(manager.registry().contains("test_session_agent"));
}

#[test]
fn sessions_get_distinct_ids_and_current_times() {
    let a = VoiceSession::new("agent", None);
    let b = VoiceSession::new("agent", None);
    assert_ne!(a.session_id, b.session_id);
    // 2020-01-01T00:00:00Z in microseconds.
    assert!(a.created_at > 1_577_836_800_000_000);
}

#[test]
fn profile_files_come_and_go_through_the_manager() {
    let mut manager = SessionManager::new(AgentRegistry::new());
    let loaded = vec![
        ("/srv/profiles/a.yaml".to_string(), Ok(test_profile())),
        (
            "/srv/profiles/b.yaml".to_string(),
            Err(IronclawError::ProfileParse { path: "b.yaml".into(), message: "bad".into() }),
        ),
    ];
    assert_eq!(manager.load_profiles(loaded), 1);
    assert_eq!(manager.remove_profiles_from("/srv/profiles/b.yaml"), 0);
    assert_eq!(manager.remove_profiles_from("/srv/profiles/a.yaml"), 1);
    assert_eq!(manager.profile_count(), 0);
    assert!(manager.register_profile_from_file(test_profile(), "/srv/profiles/c.yml"));
    assert!(manager.prepare_session("test_session_agent", None).is_ok());
    assert_eq!(manager.remove_profiles_from("/srv/profiles/c.yml"), 1);
    assert!(manager.prepare_session("test_session_agent", None).is_err());
}

#[test]
fn clock_readings_become_signed_microseconds() {
    assert_eq!(epoch_micros(true, 1_700_000_000_000_000), 1_700_000_000_000_000);
    assert_eq!(epoch_micros(false, 5), -5);
    assert_eq!(epoch_micros(true, 0), 0);
    assert_eq!(epoch_micros(false, 0), 0);
    assert_eq!(epoch_micros(true, u128::MAX), i64::MAX);
    assert_eq!(epoch_micros(false, 1u128 << 63), i64::MIN);
    assert_eq!(epoch_micros(false, u128::MAX), i64::MIN);
}

#[test]
fn sessions_are_stamped_with_the_given_time() {
    let mut session = VoiceSession::new_at(42, "agent", Some("caller".into()), -7);
    assert_eq!(session.session_id, 42);
    assert_eq!((session.created_at, session.updated_at), (-7, -7));
    assert_eq!(session.status, SessionStatus::Spawning);
    session.transition_at(SessionStatus::Live, 1_000);
    assert_eq!((session.created_at, session.updated_at), (-7, 1_000));
    assert_eq!(session.status, SessionStatus::Live);
    assert_eq!(session.caller_id.as_deref(), Some("caller"));
}
