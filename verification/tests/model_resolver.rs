use iflow_workspace::model_resolver::{
    build_bundle_entry_candidates, check_executable_target, extract_bracket_block,
    extract_model_options_from_bundle, parse_model_entries_from_array_block, push_candidate,
    requested_executable,
};

#[test]
fn model_resolver_extract_model_block_from_bundle() {
    let bundle = "abc CAe=[{label:\"GLM-4.7\",value:\"glm-4.7\"}] xyz";
    let block = extract_bracket_block(bundle, "CAe=[").unwrap_or_default();
    assert_eq!(block, "[{label:\"GLM-4.7\",value:\"glm-4.7\"}]");
}

#[test]
fn commands_extract_model_block_from_bundle() {
    let bundle = "abc CAe=[{label:\"GLM-4.7\",value:\"glm-4.7\"}] xyz";
    let block = extract_bracket_block(bundle, "CAe=[").unwrap_or_default();
    assert_eq!(block, "[{label:\"GLM-4.7\",value:\"glm-4.7\"}]");
}

#[test]
fn model_resolver_parse_model_entries_from_block() {
    let block = r#"[{label:"GLM-4.7",value:"glm-4.7"},{label:"Kimi-K2.5",value:"kimi-k2.5"}]"#;
    let entries = parse_model_entries_from_array_block(block);
    assert_eq!(entries.len(), 2);
    assert_eq!(entries[0].label, "GLM-4.7");
    assert_eq!(entries[0].value, "glm-4.7");
    assert_eq!(entries[1].label, "Kimi-K2.5");
    assert_eq!(entries[1].value, "kimi-k2.5");
}

#[test]
fn commands_parse_model_entries_from_block() {
    let block = r#"[{label:"GLM-4.7",value:"glm-4.7"},{label:"Kimi-K2.5",value:"kimi-k2.5"}]"#;
    let entries = parse_model_entries_from_array_block(block);
    assert_eq!(entries.len(), 2);
    assert_eq!(entries[0].label, "GLM-4.7");
    assert_eq!(entries[0].value, "glm-4.7");
    assert_eq!(entries[1].label, "Kimi-K2.5");
    assert_eq!(entries[1].value, "kimi-k2.5");
}

#[test]
fn model_resolver_build_bundle_candidates_prefers_iflow_js() {
    let candidates = build_bundle_entry_candidates("/tmp/bundle/entry.js");
    assert_eq!(candidates[0], "/tmp/bundle/iflow.js");
    assert_eq!(candidates[1], "/tmp/bundle/entry.js");
}

#[test]
fn commands_build_bundle_candidates_prefers_iflow_js() {
    let candidates = build_bundle_entry_candidates("/tmp/bundle/entry.js");
    assert_eq!(candidates[0], "/tmp/bundle/iflow.js");
    assert_eq!(candidates[1], "/tmp/bundle/entry.js");
}

#[test]
fn bundle_candidates_hold_no_place_twice() {
    let candidates = build_bundle_entry_candidates("/tmp/bundle/entry.js");
    assert_eq!(candidates.len(), 2);
    let other = build_bundle_entry_candidates("/tmp/bundle/cli.js");
    assert_eq!(
        other,
        vec![
            "/tmp/bundle/iflow.js".to_string(),
            "/tmp/bundle/entry.js".to_string(),
            "/tmp/bundle/cli.js".to_string(),
        ]
    );
}

#[test]
fn bundle_candidates_without_parent() {
    let candidates = build_bundle_entry_candidates("/");
    assert_eq!(candidates, vec!["/".to_string()]);
}

#[test]
fn push_candidate_compares_as_paths() {
    let mut candidates = vec!["/tmp/bundle/entry.js".to_string()];
    push_candidate(&mut candidates, "/tmp//bundle/entry.js".to_string());
    assert_eq!(candidates.len(), 1);
    push_candidate(&mut candidates, "/tmp/bundle/other.js".to_string());
    assert_eq!(candidates.len(), 2);
    assert_eq!(candidates[1], "/tmp/bundle/other.js");
}

#[test]
fn bracket_block_skips_brackets_in_strings() {
    let source = "x=[\"a]b\",[1,2],\"c\\\"]\"] tail";
    assert_eq!(
        extract_bracket_block(source, "x=["),
        Some("[\"a]b\",[1,2],\"c\\\"]\"]".to_string())
    );
}

#[test]
fn bracket_block_needs_anchor_and_closing_bracket() {
    assert_eq!(extract_bracket_block("abc", "x=["), None);
    assert_eq!(extract_bracket_block("x=[1,2", "x=["), None);
    assert_eq!(extract_bracket_block("x=[[1],[2]", "x=["), None);
}

#[test]
fn bracket_block_with_empty_anchor_starts_at_the_front() {
    assert_eq!(extract_bracket_block("[1]", ""), Some("[1]".to_string()));
}

#[test]
fn model_entries_unescape_quotes_and_skip_blank_values() {
    let block = "[{label:\"A \\\"x\\\"\",value:\"a\"},{label:\"B\",value:\"  \"},{label:\"C\",value:\"c\"}]";
    let entries = parse_model_entries_from_array_block(block);
    assert_eq!(entries.len(), 2);
    assert_eq!(entries[0].label, "A \"x\"");
    assert_eq!(entries[0].value, "a");
    assert_eq!(entries[1].label, "C");
    assert_eq!(entries[1].value, "c");
}

#[test]
fn model_entries_stop_at_an_incomplete_entry() {
    let block = "[{label:\"A\",value:\"a\"},{label:\"B\",value:\"b";
    let entries = parse_model_entries_from_array_block(block);
    assert_eq!(entries.len(), 1);
    assert_eq!(entries[0].value, "a");
    assert!(parse_model_entries_from_array_block("[]").is_empty());
}

#[test]
fn bundle_text_gives_its_models() {
    let text = "var a=1;modelOptions=[{label:\"GLM-4.7\",value:\"glm-4.7\"}];";
    let models = extract_model_options_from_bundle(text).unwrap();
    assert_eq!(models.len(), 1);
    assert_eq!(models[0].label, "GLM-4.7");
    assert_eq!(models[0].value, "glm-4.7");
}

#[test]
fn bundle_text_prefers_the_first_anchor() {
    let text = "models=[{label:\"B\",value:\"b\"}];CAe=[{label:\"A\",value:\"a\"}];";
    let models = extract_model_options_from_bundle(text).unwrap();
    assert_eq!(models[0].value, "a");
}

#[test]
fn bundle_text_without_list_or_entries_fails() {
    assert_eq!(
        extract_model_options_from_bundle("nothing here"),
        Err("Failed to locate model list in iflow bundle".to_string())
    );
    assert_eq!(
        extract_model_options_from_bundle("models=[]"),
        Err("No model entries found in iflow bundle".to_string())
    );
}

#[test]
fn executables_must_be_named_and_scripts() {
    assert_eq!(requested_executable("  iflow "), Ok("iflow".to_string()));
    assert_eq!(
        requested_executable("   "),
        Err("iflow path cannot be empty".to_string())
    );
    assert_eq!(check_executable_target(Some("js"), "/usr/lib/iflow/entry.js"), Ok(()));
    assert_eq!(
        check_executable_target(Some("JS"), "/x/entry.JS"),
        Err("Unsupported iflow executable target: /x/entry.JS".to_string())
    );
    assert_eq!(
        check_executable_target(None, "/usr/bin/iflow"),
        Err("Unsupported iflow executable target: /usr/bin/iflow".to_string())
    );
}
