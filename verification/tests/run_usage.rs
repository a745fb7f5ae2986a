use stratum::agent_loop::error::AgentLoopError;
use stratum::agent_loop::hook::LlmCallOutput;
use stratum::agent_loop::machine::{LoopRun, RunAction, RunEvent};
use stratum::agent_loop::types::{LoopContext, LoopLimits};
use stratum::core_types::{ChatMessage, FinishReason, TokenUsage, ToolCall};
use stratum::events::DurableAgentEvent;

fn echo_call(id: &str) -> ToolCall {
    ToolCall { call_id: id.to_string(), name: "echo".to_string(), arguments: "{}".to_string() }
}

/// Runs a loop whose model answers first with a tool call, then with a final message, each
/// reporting its usage; cancellation is observed from the first `IterationCompleted` on when
/// `cancel` is set. Returns the result and the usage the terminal event carried.
fn run_with_usages(calls: [TokenUsage; 2], cancel: bool) -> (Result<(), AgentLoopError>, Option<TokenUsage>) {
    let (mut run, mut action) = LoopRun::start(
        LoopContext::new("be helpful"),
        vec![ChatMessage::user("hi")],
        LoopLimits::default(),
        false,
    )
    .unwrap();
    let mut answers = vec![
        (ChatMessage::assistant("done"), FinishReason::Stop, calls[1]),
        (ChatMessage::assistant("").with_tool_calls(vec![echo_call("c1")]), FinishReason::ToolCalls, calls[0]),
    ];
    let mut cancelled = false;
    let mut terminal = None;
    loop {
        let event = match action {
            RunAction::Append { event } => {
                match &event {
                    DurableAgentEvent::IterationCompleted { .. } if cancel => cancelled = true,
                    DurableAgentEvent::LoopCancelled { usage }
                    | DurableAgentEvent::LoopFailed { usage, .. }
                    | DurableAgentEvent::LoopFinished { usage, .. } => terminal = Some(*usage),
                    _ => {}
                }
                RunEvent::Appended
            }
            RunAction::RunIterationHooks { .. } | RunAction::RunBeforeToolCallHooks { .. } => RunEvent::HooksPassed,
            RunAction::CallModel { .. } => {
                let (message, finish_reason, usage) = answers.pop().expect("a scripted answer");
                RunEvent::ModelResponded { output: LlmCallOutput::new(message, finish_reason, Some(usage)), usage }
            }
            RunAction::ExecuteTool { tool_call } => RunEvent::ToolReturned {
                message: ChatMessage::tool(tool_call.call_id.clone(), "{}".to_string()),
            },
            RunAction::RewriteToolResult { result, .. } => RunEvent::ToolResultRewritten { result },
            RunAction::Finish { result } => return (result.map(|_| ()), terminal),
        };
        assert!(run.expects(&event));
        action = run.step(event, cancelled);
    }
}

#[test]
fn cancelled_terminal_usage_saturates_only_completed_finished_frames() {
    let max = u64::MAX;
    let first = TokenUsage { input_tokens: max - 1, output_tokens: 2, total_tokens: max - 2 };
    let second = TokenUsage { input_tokens: 4, output_tokens: max, total_tokens: 8 };
    let (result, terminal) = run_with_usages([first, second], true);
    assert!(matches!(result, Err(AgentLoopError::Cancelled)));
    assert_eq!(terminal, Some(first));
    let (result, terminal) = run_with_usages([first, second], false);
    assert!(result.is_ok());
    assert_eq!(terminal, Some(TokenUsage { input_tokens: max, output_tokens: max, total_tokens: max }));
}

#[test]
fn a_failed_model_call_adds_its_usage_before_the_failure_is_recorded() {
    let (mut run, mut action) = LoopRun::start(
        LoopContext::new("be helpful"),
        vec![ChatMessage::user("hi")],
        LoopLimits::default(),
        false,
    )
    .unwrap();
    let usage = TokenUsage { input_tokens: 3, output_tokens: 4, total_tokens: 7 };
    loop {
        let event = match action {
            RunAction::Append { event: DurableAgentEvent::LoopFailed { usage: recorded, .. } } => {
                assert_eq!(recorded, usage);
                RunEvent::Appended
            }
            RunAction::Append { .. } => RunEvent::Appended,
            RunAction::RunIterationHooks { .. } => RunEvent::HooksPassed,
            RunAction::CallModel { .. } => RunEvent::ModelFailed {
                error: AgentLoopError::Llm { source: stratum::llm::LlmError::MockExhausted },
                usage,
            },
            RunAction::Finish { result } => {
                assert!(matches!(result, Err(AgentLoopError::Llm { .. })));
                return;
            }
            other => panic!("unexpected action {other:?}"),
        };
        assert!(run.expects(&event));
        action = run.step(event, false);
    }
}
