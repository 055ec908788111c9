use iflow_workspace::storage::{
    holds_snapshot, storage_env_tag, storage_file_name, StorageSnapshot, StoredMessage,
    StoredSession,
};

#[test]
fn tags_of_builds() {
    assert_eq!(storage_env_tag(true, true), "test");
    assert_eq!(storage_env_tag(true, false), "test");
    assert_eq!(storage_env_tag(false, true), "dev");
    assert_eq!(storage_env_tag(false, false), "prod");
}

#[test]
fn file_names_of_builds() {
    assert_eq!(storage_file_name(true, false), "iflow-session-store-test.json");
    assert_eq!(storage_file_name(false, true), "iflow-session-store-dev.json");
    assert_eq!(storage_file_name(false, false), "iflow-session-store-prod.json");
}

#[test]
fn blank_files_hold_no_snapshot() {
    assert!(!holds_snapshot(""));
    assert!(!holds_snapshot(" \n\t "));
    assert!(holds_snapshot("{}"));
    assert!(holds_snapshot("  x  "));
}

#[test]
fn default_snapshot_is_empty() {
    let snapshot = StorageSnapshot::default();
    assert!(snapshot.sessions_by_agent.is_empty());
    assert!(snapshot.messages_by_session.is_empty());
}

#[test]
fn snapshots_compare_by_content() {
    let mut snapshot = StorageSnapshot::default();
    snapshot.sessions_by_agent.insert(
        "agent-a".to_string(),
        vec![StoredSession {
            id: "session-1".to_string(),
            agent_id: "agent-a".to_string(),
            title: "Session One".to_string(),
            created_at: "2024-01-01T00:00:00.000Z".to_string(),
            updated_at: "2024-01-01T00:10:00.000Z".to_string(),
        }],
    );
    snapshot.messages_by_session.insert(
        "session-1".to_string(),
        vec![StoredMessage {
            id: "msg-1".to_string(),
            role: "user".to_string(),
            content: "Hello".to_string(),
            timestamp: "2024-01-01T00:00:00.000Z".to_string(),
            agent_id: Some("agent-a".to_string()),
        }],
    );
    assert_eq!(snapshot.clone(), snapshot);
    assert_ne!(snapshot, StorageSnapshot::default());
    assert_eq!(StoredSession::default().id, "");
    assert_eq!(StoredMessage::default().agent_id, None);
}
