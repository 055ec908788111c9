use iflow_workspace::json::Json;
use iflow_workspace::registry::{
    extract_registry_array, model_registry_payload, normalized_command_entries,
    normalized_mcp_entries, text_from_json_value,
};

fn json(text: &str) -> Json {
    Json::parse(text).expect("valid JSON")
}

#[test]
fn parse_text_from_json_value_array() {
    let input = Json::Array(vec![Json::Str("line1".to_string()), Json::Str("line2".to_string())]);
    assert_eq!(text_from_json_value(&input).as_deref(), Some("line1 line2"));
}

#[test]
fn parse_available_commands_from_meta() {
    let payload = Json::object().with(
        "_meta",
        Json::object().with(
            "availableCommands",
            Json::list(vec![Json::object()
                .with("name", Json::text("help"))
                .with(
                    "description",
                    Json::list(vec![Json::text("show"), Json::text("help")]),
                )
                .with("_meta", Json::object().with("scope", Json::text("project")))]),
        ),
    );

    let entries = normalized_command_entries(&payload);
    assert_eq!(entries.len(), 1);
    assert_eq!(entries[0].get("name").and_then(|v| v.as_str()), Some("/help"));
    assert_eq!(
        entries[0].get("description").and_then(|v| v.as_str()),
        Some("show help")
    );
    assert_eq!(entries[0].get("scope").and_then(|v| v.as_str()), Some("project"));
}

#[test]
fn parse_available_mcp_servers_from_meta() {
    let payload = Json::object().with(
        "_meta",
        Json::object().with(
            "availableMcpServers",
            Json::list(vec![Json::object()
                .with("name", Json::text("filesystem"))
                .with("description", Json::text("Local FS"))]),
        ),
    );

    let entries = normalized_mcp_entries(&payload);
    assert_eq!(entries.len(), 1);
    assert_eq!(
        entries[0].get("name").and_then(|v| v.as_str()),
        Some("filesystem")
    );
    assert_eq!(
        entries[0].get("description").and_then(|v| v.as_str()),
        Some("Local FS")
    );
}

#[test]
fn text_of_values() {
    assert_eq!(text_from_json_value(&json("\"  hi \"")).as_deref(), Some("hi"));
    assert_eq!(text_from_json_value(&json("\"   \"")), None);
    assert_eq!(text_from_json_value(&json("[\" \", 3, null]")), None);
    assert_eq!(
        text_from_json_value(&json("{\"text\": [\"a\", {\"text\": \"b\"}]}")).as_deref(),
        Some("a b")
    );
    assert_eq!(text_from_json_value(&json("{\"content\": \"a\"}")), None);
    assert_eq!(text_from_json_value(&json("12")), None);
}

#[test]
fn registry_array_prefers_the_payload_over_meta() {
    let payload = json("{\"k\": [1], \"_meta\": {\"k\": [1, 2]}}");
    assert_eq!(extract_registry_array(&payload, "k").map(|a| a.len()), Some(1));
    let payload = json("{\"k\": 5, \"_meta\": {\"k\": [1, 2]}}");
    assert_eq!(extract_registry_array(&payload, "k").map(|a| a.len()), Some(2));
    let payload = json("{\"_meta\": {\"j\": []}}");
    assert!(extract_registry_array(&payload, "k").is_none());
}

#[test]
fn commands_keep_a_leading_slash_and_skip_blank_names() {
    let payload = json(
        "{\"availableCommands\": [{\"name\": \" /init \"}, {\"name\": \"  \"}, {\"name\": 3}, {\"id\": \"x\"}, {\"name\": \"plan\", \"description\": {\"text\": \" make a plan \"}, \"_meta\": {\"scope\": \" user \"}}]}",
    );
    let entries = normalized_command_entries(&payload);
    assert_eq!(entries.len(), 2);
    assert_eq!(entries[0].get_str("name"), Some("/init"));
    assert_eq!(entries[0].get_str("description"), Some(""));
    assert_eq!(entries[0].get_str("scope"), Some(""));
    assert_eq!(entries[1].get_str("name"), Some("/plan"));
    assert_eq!(entries[1].get_str("description"), Some("make a plan"));
    assert_eq!(entries[1].get_str("scope"), Some("user"));
    assert!(normalized_command_entries(&json("{}")).is_empty());
}

#[test]
fn mcp_servers_fall_back_to_their_id() {
    let payload = json(
        "{\"availableMcpServers\": [{\"id\": \" fs \"}, {\"name\": 1, \"id\": \"x\"}, {\"name\": \"git\", \"description\": [\"Git\", \"tools\"]}]}",
    );
    let entries = normalized_mcp_entries(&payload);
    assert_eq!(entries.len(), 2);
    assert_eq!(entries[0].get_str("name"), Some("fs"));
    assert_eq!(entries[0].get_str("description"), Some(""));
    assert_eq!(entries[1].get_str("name"), Some("git"));
    assert_eq!(entries[1].get_str("description"), Some("Git tools"));
}

#[test]
fn model_registry_reads_models_and_the_current_one() {
    let payload = json(
        "{\"models\": {\"availableModels\": [{\"value\": \" glm-4.7 \", \"label\": \"GLM\"}, {\"id\": \"kimi\", \"name\": \" \"}, {\"label\": \"none\"}], \"currentModelId\": \" glm-4.7 \"}}",
    );
    let (models, current) = model_registry_payload(&payload).unwrap();
    assert_eq!(models.len(), 2);
    assert_eq!(models[0].get_str("label"), Some("GLM"));
    assert_eq!(models[0].get_str("value"), Some("glm-4.7"));
    assert_eq!(models[1].get_str("label"), Some("kimi"));
    assert_eq!(models[1].get_str("value"), Some("kimi"));
    assert_eq!(current.as_deref(), Some("glm-4.7"));
}

#[test]
fn model_registry_from_meta_and_when_there_is_none() {
    let payload = json("{\"_meta\": {\"models\": {\"currentModelId\": \"m\"}}}");
    let (models, current) = model_registry_payload(&payload).unwrap();
    assert!(models.is_empty());
    assert_eq!(current.as_deref(), Some("m"));
    assert!(model_registry_payload(&json("{}")).is_none());
    assert!(model_registry_payload(&json("{\"models\": {}}")).is_none());
    assert!(model_registry_payload(&json(
        "{\"models\": {\"availableModels\": [{\"label\": \"x\"}], \"currentModelId\": \" \"}}"
    ))
    .is_none());
}
