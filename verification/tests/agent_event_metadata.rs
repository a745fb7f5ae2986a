use stratum::agent_events::{agent_event_metadata, llm_event_metadata};
use stratum::core_types::ModelId;

fn pairs(m: &[(String, String)]) -> Vec<(&str, &str)> {
    m.iter().map(|(k, v)| (k.as_str(), v.as_str())).collect()
}

#[test]
fn agent_events_carry_the_agent_and_model_in_key_order() {
    let model = ModelId::new("openai", "gpt").unwrap();
    let metadata = agent_event_metadata("default-agent", &model, &Vec::new());
    assert_eq!(
        pairs(&metadata),
        vec![
            ("agent_name", "\"default-agent\""),
            ("llm", "\"openai:gpt\""),
            ("llm_provider", "\"openai\""),
            ("model", "\"gpt\""),
        ]
    );
}

#[test]
fn event_attributes_override_and_interleave_with_the_agent_ones() {
    let model = ModelId::new("openai", "gpt").unwrap();
    let extra = llm_event_metadata(3, Some("echo"), Some("c1"));
    assert_eq!(
        pairs(&extra),
        vec![("tool_call_id", "\"c1\""), ("tool_name", "\"echo\""), ("turn_index", "3")]
    );
    let merged = agent_event_metadata("a", &model, &extra);
    let keys: Vec<&str> = merged.iter().map(|(k, _)| k.as_str()).collect();
    assert_eq!(
        keys,
        vec!["agent_name", "llm", "llm_provider", "model", "tool_call_id", "tool_name", "turn_index"]
    );
    let overriding = vec![("model".to_string(), "\"other\"".to_string())];
    let merged = agent_event_metadata("a", &model, &overriding);
    assert_eq!(merged.len(), 4);
    assert_eq!(merged[3], ("model".to_string(), "\"other\"".to_string()));
}

#[test]
fn llm_event_attributes_without_a_tool_name_only_the_step() {
    assert_eq!(pairs(&llm_event_metadata(0, None, None)), vec![("turn_index", "0")]);
}
