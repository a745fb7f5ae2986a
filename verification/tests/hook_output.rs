use stratum::agent_loop::hook::LlmCallOutput;
use stratum::core_types::{ChatContent, ChatMessage, ChatRole, FinishReason, TokenUsage, ToolCall};

#[test]
fn hook_writes_change_only_content_reasoning_and_tool_calls() {
    let usage = TokenUsage { input_tokens: 3, output_tokens: 4, total_tokens: 7 };
    let mut output = LlmCallOutput::new(ChatMessage::assistant("draft"), FinishReason::ToolCalls, Some(usage));
    *output.content_mut() = ChatContent::Text("rewritten".to_string());
    *output.reasoning_content_mut() = Some("because".to_string());
    output.tool_calls_mut().push(ToolCall {
        call_id: "call-1".to_string(),
        name: "echo".to_string(),
        arguments: "{}".to_string(),
    });
    *output.content_mut() = ChatContent::Text("final".to_string());

    assert_eq!(output.finish_reason(), FinishReason::ToolCalls);
    assert_eq!(output.usage(), Some(usage));
    assert_eq!(output.message().role, ChatRole::Assistant);
    assert_eq!(output.message().tool_call_id, None);
    assert_eq!(output.message().content, ChatContent::Text("final".to_string()));
    assert_eq!(output.message().reasoning_content.as_deref(), Some("because"));
    assert_eq!(output.message().tool_calls.len(), 1);
}
