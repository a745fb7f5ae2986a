use stratum::agent::AgentError;
use stratum::agent_loop::error::{AgentLoopError, ProtocolError};
use stratum::agent_loop::stream::{finalize_tool_calls, PendingToolCall, StreamAssembler};
use stratum::agent_loop::types::LoopLimits;
use stratum::core_types::{ChatContent, FinishReason, TokenUsage};
use stratum::llm::{ChatStreamEvent, ToolCallDelta};
use stratum::turn_stream::{StreamNotice, TurnStreamAssembler};

fn text(delta: &str) -> ChatStreamEvent {
    ChatStreamEvent::TextDelta { delta: delta.to_string() }
}

fn call_delta(index: usize, id: Option<&str>, name: Option<&str>, args: &str) -> ChatStreamEvent {
    ChatStreamEvent::ToolCallDelta(ToolCallDelta {
        index,
        call_id: id.map(str::to_string),
        name: name.map(str::to_string),
        arguments_delta: args.to_string(),
    })
}

fn finished(reason: FinishReason) -> ChatStreamEvent {
    ChatStreamEvent::Finished {
        finish_reason: reason,
        usage: Some(TokenUsage { input_tokens: 2, output_tokens: 3, total_tokens: 5 }),
    }
}

fn pending(index: usize, id: Option<&str>, name: Option<&str>, args: &str) -> PendingToolCall {
    PendingToolCall {
        index,
        call_id: id.map(str::to_string),
        name: name.map(str::to_string),
        arguments: args.to_string(),
        unemitted_arguments: String::new(),
    }
}

#[test]
fn a_streamed_response_assembles_text_calls_and_usage() {
    let mut assembler = StreamAssembler::new("llm-1".to_string(), LoopLimits::default());
    let mut usage = TokenUsage::default();
    assembler.apply(text("Hel"), &mut usage).unwrap();
    assembler.apply(text("lo"), &mut usage).unwrap();
    assembler.apply(call_delta(0, Some("c1"), Some("echo"), " { \"a\" :"), &mut usage).unwrap();
    assembler.apply(call_delta(0, None, None, " 1 } "), &mut usage).unwrap();
    assert!(!assembler.is_finished());
    assembler.apply(finished(FinishReason::ToolCalls), &mut usage).unwrap();
    assert!(assembler.is_finished());
    assert_eq!(usage, TokenUsage { input_tokens: 2, output_tokens: 3, total_tokens: 5 });
    let output = assembler.finish().unwrap();
    assert_eq!(output.finish_reason(), FinishReason::ToolCalls);
    let message = output.message();
    assert_eq!(message.content, ChatContent::Text("Hello".to_string()));
    assert_eq!(message.tool_calls.len(), 1);
    assert_eq!(message.tool_calls[0].call_id, "c1");
    assert_eq!(message.tool_calls[0].arguments, "{\"a\":1}");
}

#[test]
fn text_beyond_its_byte_limit_is_refused() {
    let limits = LoopLimits::default().with_stream_byte_limits(3, 16, 16);
    let mut assembler = StreamAssembler::new("llm-1".to_string(), limits);
    let mut usage = TokenUsage::default();
    assert!(matches!(
        assembler.apply(text("abcd"), &mut usage),
        Err(AgentLoopError::TextByteLimitExceeded { maximum: 3 })
    ));
}

#[test]
fn a_stream_without_finish_is_a_protocol_error() {
    let assembler = StreamAssembler::new("llm-1".to_string(), LoopLimits::default());
    assert!(matches!(
        assembler.ended_without_finish(),
        AgentLoopError::InvalidProtocol { reason: ProtocolError::StreamEndedWithoutFinish }
    ));
}

#[test]
fn finalized_calls_are_complete_contiguous_distinct_and_json() {
    let calls = finalize_tool_calls(vec![
        pending(0, Some("a"), Some("echo"), "{}"),
        pending(1, Some("b"), Some("echo"), "[1, 2]"),
    ])
    .unwrap();
    assert_eq!(calls.len(), 2);
    assert_eq!(calls[1].arguments, "[1,2]");

    assert!(matches!(
        finalize_tool_calls(vec![pending(1, Some("a"), Some("echo"), "{}")]),
        Err(ProtocolError::SparseToolCallIndex { expected: 0, actual: 1 })
    ));
    assert!(matches!(
        finalize_tool_calls(vec![pending(0, None, Some("echo"), "{}")]),
        Err(ProtocolError::IncompleteToolCall { index: 0, call_id: None })
    ));
    assert!(matches!(
        finalize_tool_calls(vec![
            pending(0, Some("a"), Some("echo"), "{}"),
            pending(1, Some("a"), Some("echo"), "{}"),
        ]),
        Err(ProtocolError::DuplicateToolCallId { ref call_id }) if call_id == "a"
    ));
    assert!(matches!(
        finalize_tool_calls(vec![pending(0, Some("a"), Some("echo"), "{not json")]),
        Err(ProtocolError::MalformedToolCallArguments { ref call_id, .. }) if call_id == "a"
    ));
}

#[test]
fn a_turn_stream_reports_fragments_and_assembles_the_message() {
    let mut assembler = TurnStreamAssembler::new();
    match assembler.apply(text("Hi")) {
        StreamNotice::TextDelta { delta } => assert_eq!(delta, "Hi"),
        other => panic!("unexpected notice {other:?}"),
    }
    match assembler.apply(call_delta(0, Some("c1"), Some("echo"), "{\"x\": ")) {
        StreamNotice::ToolCallDelta { call_id, name, arguments_delta } => {
            assert_eq!(call_id, "c1");
            assert_eq!(name.as_deref(), Some("echo"));
            assert_eq!(arguments_delta, "{\"x\": ");
        }
        other => panic!("unexpected notice {other:?}"),
    }
    assembler.apply(call_delta(0, None, None, "2}"));
    match assembler.apply(finished(FinishReason::ToolCalls)) {
        StreamNotice::Finished { finish_reason, .. } => assert_eq!(finish_reason, "tool_calls"),
        other => panic!("unexpected notice {other:?}"),
    }
    let (message, reason) = assembler.finish().unwrap();
    assert_eq!(reason, FinishReason::ToolCalls);
    assert_eq!(message.content, ChatContent::Text("Hi".to_string()));
    assert_eq!(message.tool_calls[0].arguments, "{\"x\":2}");
}

#[test]
fn a_turn_stream_call_without_a_name_is_incomplete() {
    let mut assembler = TurnStreamAssembler::new();
    assembler.apply(call_delta(0, Some("c1"), None, "{}"));
    assembler.apply(finished(FinishReason::ToolCalls));
    assert!(matches!(
        assembler.finish(),
        Err(AgentError::IncompleteToolCall { ref call_id }) if call_id == "c1"
    ));
}
