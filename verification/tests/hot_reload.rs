use ironclaw::error::IronclawError;
use ironclaw::hot_reload::{
    classify_profile_change, is_yaml_file, load_all_profiles, AgentRegistry, ProfileChange,
};
use ironclaw::models::{AgentProfile, VertexAiConfig};

fn profile(agent_id: &str, voice: &str) -> AgentProfile {
    AgentProfile {
        agent_id: agent_id.to_string(),
        vertex_ai_config: VertexAiConfig {
            model: "gemini-2.5-flash-native-audio-preview".to_string(),
            voice: voice.to_string(),
            location: "us-central1".to_string(),
        },
        neuro_system_prompt: "You are a test agent for hot-reload validation.".to_string(),
        capabilities: vec!["test_capability".to_string()],
        display_name: None,
        tags: vec![],
    }
}

#[test]
fn test_is_yaml_file() {
    assert!(is_yaml_file("agent.yaml"));
    assert!(is_yaml_file("agent.yml"));
    assert!(!is_yaml_file("agent.json"));
    assert!(!is_yaml_file("agent.txt"));
    assert!(!is_yaml_file("agent"));
}

#[test]
fn yaml_detection_follows_path_extension() {
    assert!(is_yaml_file("profiles/sub/agent.yaml"));
    assert!(!is_yaml_file(".yaml"));
    assert!(!is_yaml_file("agent.YAML"));
    assert!(is_yaml_file("archive.tar.yml"));
}

#[test]
fn test_load_all_profiles() {
    let mut registry = AgentRegistry::new();
    let loaded = vec![
        ("profiles/test_hot_reload.yaml".to_string(), Ok(profile("test_hot_reload", "Kore"))),
        (
            "profiles/broken.yaml".to_string(),
            Err(IronclawError::ProfileParse {
                path: "broken.yaml".to_string(),
                message: "bad".to_string(),
            }),
        ),
    ];
    let count = load_all_profiles(&mut registry, loaded);
    assert_eq!(count, 1);
    assert!(registry.contains("test_hot_reload"));
    assert_eq!(registry.get("test_hot_reload").unwrap().vertex_ai_config.voice, "Kore");
}

#[test]
fn later_profile_with_same_id_wins() {
    let mut registry = AgentRegistry::new();
    let count = load_all_profiles(
        &mut registry,
        vec![
            ("profiles/a.yaml".to_string(), Ok(profile("jenny", "Kore"))),
            ("profiles/b.yaml".to_string(), Ok(profile("jenny", "Puck"))),
        ],
    );
    assert_eq!(count, 2);
    assert_eq!(registry.len(), 1);
    assert_eq!(registry.get("jenny").unwrap().vertex_ai_config.voice, "Puck");
}

#[test]
fn insert_reports_new_or_updated() {
    let mut registry = AgentRegistry::new();
    assert!(registry.insert(profile("mark", "Charon")));
    assert!(!registry.insert(profile("mark", "Kore")));
    assert!(registry.insert(profile("aria", "Kore")));
    assert_eq!(registry.len(), 2);
    let mut ids = registry.agent_ids();
    ids.sort();
    assert_eq!(ids, vec!["aria".to_string(), "mark".to_string()]);
    assert!(registry.get("nobody").is_none());
    match registry.resolve("nobody") {
        Err(IronclawError::AgentNotFound(id)) => assert_eq!(id, "nobody"),
        other => panic!("unexpected {:?}", other),
    }
}

#[test]
fn profile_changes_are_classified() {
    assert_eq!(classify_profile_change("profiles/a.yaml", true), ProfileChange::Reload);
    assert_eq!(classify_profile_change("profiles/a.yml", false), ProfileChange::Deleted);
    assert_eq!(classify_profile_change("profiles/a.swp", true), ProfileChange::Ignore);
}

#[test]
fn deleting_a_profile_file_removes_its_agents() {
    let mut registry = AgentRegistry::new();
    load_all_profiles(
        &mut registry,
        vec![
            ("profiles/jenny.yaml".to_string(), Ok(profile("jenny", "Kore"))),
            ("profiles/mark.yaml".to_string(), Ok(profile("mark", "Puck"))),
        ],
    );
    registry.insert(profile("direct", "Charon"));
    assert_eq!(classify_profile_change("profiles/jenny.yaml", false), ProfileChange::Deleted);
    assert_eq!(registry.remove_profiles_from("profiles/jenny.yaml"), 1);
    assert!(!registry.contains("jenny"));
    assert!(registry.contains("mark"));
    assert!(registry.contains("direct"));
    assert_eq!(registry.remove_profiles_from("profiles/jenny.yaml"), 0);
    assert_eq!(registry.len(), 2);
}

#[test]
fn a_reloaded_profile_follows_its_new_file() {
    let mut registry = AgentRegistry::new();
    assert!(registry.insert_from_file(profile("jenny", "Kore"), "profiles/old.yaml"));
    assert!(!registry.insert_from_file(profile("jenny", "Puck"), "profiles/new.yaml"));
    assert_eq!(registry.remove_profiles_from("profiles/old.yaml"), 0);
    assert_eq!(registry.get("jenny").unwrap().vertex_ai_config.voice, "Puck");
    assert_eq!(registry.remove_profiles_from("profiles/new.yaml"), 1);
    assert!(!registry.contains("jenny"));
}
