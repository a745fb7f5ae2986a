use stratum::agent_loop::types::{LoopContext, LoopLimits};
use stratum::core_types::{finish_reason_name, ChatMessage, FinishReason};

#[test]
fn constructors_preserve_context_and_default_limits() {
    let transcript = vec![ChatMessage::user("hello"), ChatMessage::assistant("hi")];
    let context = LoopContext::new("be helpful").with_messages(transcript);

    assert_eq!(context.system_prompt, "be helpful");
    assert_eq!(
        context.messages,
        vec![ChatMessage::user("hello"), ChatMessage::assistant("hi"),]
    );
    assert_eq!(LoopLimits::default(), LoopLimits::new(16, 16));
}

#[test]
fn finish_reason_names_match_protocol_values() {
    assert_eq!(finish_reason_name(FinishReason::Stop), "stop");
    assert_eq!(finish_reason_name(FinishReason::Length), "length");
    assert_eq!(finish_reason_name(FinishReason::ToolCalls), "tool_calls");
    assert_eq!(
        finish_reason_name(FinishReason::ContentFilter),
        "content_filter"
    );
    assert_eq!(finish_reason_name(FinishReason::Unknown), "unknown");
}

#[test]
fn stream_byte_limits_and_retries_override_only_their_fields() {
    let limits = LoopLimits::new(3, 4).with_stream_byte_limits(10, 20, 30).with_llm_retries(2);
    assert_eq!(limits.max_iterations, 3);
    assert_eq!(limits.max_tool_calls_per_iteration, 4);
    assert_eq!(limits.max_text_bytes, 10);
    assert_eq!(limits.max_reasoning_bytes, 20);
    assert_eq!(limits.max_tool_argument_bytes, 30);
    assert_eq!(limits.max_llm_retries_per_iteration, 2);
    assert_eq!(LoopLimits::new(1, 1).max_llm_retries_per_iteration, 0);
}
