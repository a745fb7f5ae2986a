use stratum::console::{
    agent_root, approval_decision, approval_registry, console_step, deepseek_model, parse_args, select_provider,
    turn_reaction, ArgsError, DeepSeekModel, EventStreamClosed, ProviderChoice, ProviderSelectionError, TurnReaction,
};
use stratum::core_types::{ApprovalDecision, ChatMessage, DangerLevel, ModelId, TokenUsage, ToolKind};
use stratum::sink::AgentEvent;

fn args(items: &[&str]) -> Vec<String> {
    items.iter().map(|s| s.to_string()).collect()
}

#[test]
fn providers_are_chosen_by_the_model_provider() {
    let openai = ModelId::new("openai", "gpt").unwrap();
    assert!(matches!(select_provider(&openai, true, false), Ok(ProviderChoice::OpenAi)));
    assert!(matches!(
        select_provider(&openai, false, true),
        Err(ProviderSelectionError::MissingProviderConfiguration { provider: "openai" })
    ));
    let flash = ModelId::new("deepseek", "deepseek-v4-flash").unwrap();
    assert!(matches!(
        select_provider(&flash, false, true),
        Ok(ProviderChoice::DeepSeek(DeepSeekModel::V4Flash))
    ));
    let unknown = ModelId::new("deepseek", "deepseek-v9").unwrap();
    assert!(matches!(
        select_provider(&unknown, false, true),
        Err(ProviderSelectionError::UnsupportedModel { .. })
    ));
    let other = ModelId::new("acme", "m").unwrap();
    assert!(matches!(
        select_provider(&other, true, true),
        Err(ProviderSelectionError::UnsupportedProvider { ref provider }) if provider == "acme"
    ));
    assert_eq!(
        deepseek_model(&ModelId::new("deepseek", "deepseek-v4-pro").unwrap()),
        Some(DeepSeekModel::V4Pro)
    );
}

#[test]
fn the_command_line_is_model_then_prompt() {
    let (model, prompt) = parse_args(&args(&["--model", "openai:gpt", "hello"])).unwrap();
    assert_eq!(model.as_str(), "openai:gpt");
    assert_eq!(prompt, "hello");
    assert!(matches!(parse_args(&args(&["--model", "openai:gpt"])), Err(ArgsError::InvalidArguments)));
    assert!(matches!(parse_args(&args(&["-m", "openai:gpt", "x"])), Err(ArgsError::InvalidArguments)));
    assert!(matches!(
        parse_args(&args(&["--model", "openai:gpt", "x", "y"])),
        Err(ArgsError::InvalidArguments)
    ));
    assert!(matches!(parse_args(&args(&["--model", "gpt", "x"])), Err(ArgsError::ModelId(_))));
}

#[test]
fn approvals_are_read_from_lines() {
    assert_eq!(approval_decision("approve", false), Some(ApprovalDecision::Approve));
    assert_eq!(approval_decision("reject", false), Some(ApprovalDecision::Reject));
    assert_eq!(approval_decision("maybe", false), None);
    assert_eq!(approval_decision("", true), Some(ApprovalDecision::Reject));
}

#[test]
fn turns_show_answers_and_end_on_terminal_events() {
    let zero = TokenUsage::default();
    let answer = AgentEvent::Message { turn_id: "t".to_string(), message: ChatMessage::assistant("hi") };
    assert_eq!(turn_reaction(&answer), TurnReaction::ShowText("hi".to_string()));
    let prompt = AgentEvent::Message { turn_id: "t".to_string(), message: ChatMessage::user("q") };
    assert_eq!(turn_reaction(&prompt), TurnReaction::Ignore);
    assert_eq!(
        turn_reaction(&AgentEvent::Failed { error_text: "boom".to_string(), usage: zero }),
        TurnReaction::Failed("boom".to_string())
    );
    assert_eq!(turn_reaction(&AgentEvent::Cancelled { usage: zero }), TurnReaction::Cancelled);
    assert_eq!(
        turn_reaction(&AgentEvent::Finished { finish_reason: "stop".to_string(), usage: zero }),
        TurnReaction::Finished
    );
    assert_eq!(
        turn_reaction(&AgentEvent::Started { turn_id: "t".to_string() }),
        TurnReaction::Ignore
    );
}

#[test]
fn arguments_require_model_flag_and_one_prompt() {
    let (model, prompt) = parse_args(&args(&["--model", "openai:gpt-4.1-mini", "hello"]))
        .expect("arguments parse");

    assert_eq!(model.as_str(), "openai:gpt-4.1-mini");
    assert_eq!(prompt, "hello");
}

#[test]
fn arguments_reject_any_form_other_than_model_and_one_prompt() {
    for arguments in [
        vec![],
        vec!["hello"],
        vec!["--model", "openai:gpt-4.1-mini"],
        vec!["--model", "openai:gpt-4.1-mini", "hello", "again"],
    ] {
        assert!(matches!(parse_args(&args(&arguments)), Err(ArgsError::InvalidArguments)));
    }
}

#[test]
fn configured_providers_reject_unknown_deepseek_model() {
    let model = ModelId::new("deepseek", "not-a-model").expect("model id parses");
    assert_eq!(deepseek_model(&model), None);
    assert!(matches!(
        select_provider(&model, false, true),
        Err(ProviderSelectionError::UnsupportedModel { .. })
    ));
}

#[test]
fn rejects_unsupported_provider_without_network_access() {
    let model = ModelId::parse("custom:model").expect("model id parses");
    match select_provider(&model, false, false) {
        Err(ProviderSelectionError::UnsupportedProvider { .. }) => {}
        Err(error) => panic!("unexpected provider error: {error:?}"),
        Ok(_) => panic!("custom providers are unsupported"),
    }
}

#[test]
fn approval_registry_registers_echo_as_low_danger_read_tool() {
    let registry = approval_registry();

    let specs = registry.specs();
    assert_eq!(specs.len(), 1);
    assert_eq!(specs[0].name.as_str(), "echo");
    assert_eq!(
        registry.authorization("echo").expect("echo is registered"),
        Some((ToolKind::Read, DangerLevel::Low))
    );
}

#[test]
fn scopes_agent_store_to_agent_root() {
    let agent_id = "0196a4f0-7c1e-7e55-9a3b-2b9f1d6c8e42";

    assert_eq!(agent_root(agent_id).expect("agent root is valid").as_str(), format!("/{agent_id}"));
    assert!(agent_root("a/../b").is_err());
}

#[test]
fn consume_turn_events_rejects_stream_closure_without_terminal_event() {
    let zero = TokenUsage::default();
    assert_eq!(console_step(None), Err(EventStreamClosed));
    let answer = AgentEvent::Message { turn_id: "t".to_string(), message: ChatMessage::assistant("hi") };
    assert_eq!(console_step(Some(&answer)), Ok((TurnReaction::ShowText("hi".to_string()), false)));
    let finished = AgentEvent::Finished { finish_reason: "stop".to_string(), usage: zero };
    assert_eq!(console_step(Some(&finished)), Ok((TurnReaction::Finished, true)));
    let cancelled = AgentEvent::Cancelled { usage: zero };
    assert_eq!(console_step(Some(&cancelled)), Ok((TurnReaction::Cancelled, true)));
}
