use stratum::agent_loop::error::{AgentLoopError, ProtocolError};
use stratum::agent_loop::hook::LlmCallOutput;
use stratum::agent_loop::machine::{LoopRun, RunAction, RunEvent};
use stratum::agent_loop::types::{LoopContext, LoopLimits, LoopOutcome};
use stratum::core_types::{ChatMessage, ChatRole, FinishReason, TokenUsage, ToolCall};
use stratum::infra::DurableEventSinkError;

fn zero() -> TokenUsage {
    TokenUsage { input_tokens: 0, output_tokens: 0, total_tokens: 0 }
}

fn echo_call(id: &str) -> ToolCall {
    ToolCall { call_id: id.to_string(), name: "echo".to_string(), arguments: "{}".to_string() }
}

/// Drives a run to its result, answering every action as an honest environment would:
/// appends are acknowledged unless `fail_append` names the event type, hooks pass, the model
/// answers from `responses` in order and tools answer with `{"ok":true}`.
fn drive(
    mut run: LoopRun,
    first: RunAction,
    mut responses: Vec<(ChatMessage, FinishReason)>,
    fail_append: Option<&str>,
    trace: &mut Vec<String>,
) -> Result<LoopOutcome, AgentLoopError> {
    responses.reverse();
    let mut action = first;
    loop {
        let event = match action {
            RunAction::Append { event } => {
                let name = event.event_type();
                trace.push(name.to_string());
                if fail_append == Some(name) {
                    RunEvent::AppendFailed { source: DurableEventSinkError::PublisherUnavailable }
                } else {
                    RunEvent::Appended
                }
            }
            RunAction::RunIterationHooks { .. } | RunAction::RunBeforeToolCallHooks { .. } => {
                RunEvent::HooksPassed
            }
            RunAction::CallModel { .. } => {
                let (message, finish_reason) = responses.pop().expect("a scripted response");
                RunEvent::ModelResponded {
                    output: LlmCallOutput::new(message, finish_reason, None),
                    usage: zero(),
                }
            }
            RunAction::ExecuteTool { tool_call } => {
                trace.push(format!("execute {}", tool_call.call_id));
                RunEvent::ToolReturned {
                    message: ChatMessage::tool(tool_call.call_id.clone(), "{\"ok\":true}".to_string()),
                }
            }
            RunAction::RewriteToolResult { result, .. } => RunEvent::ToolResultRewritten { result },
            RunAction::Finish { result } => return result,
        };
        assert!(run.expects(&event));
        action = run.step(event, false);
    }
}

#[test]
fn a_run_with_one_tool_call_commits_every_message_in_order() {
    let (run, first) = LoopRun::start(
        LoopContext::new("be helpful"),
        vec![ChatMessage::user("hi")],
        LoopLimits::default(),
        false,
    )
    .unwrap();
    let responses = vec![
        (ChatMessage::assistant("").with_tool_calls(vec![echo_call("c1")]), FinishReason::ToolCalls),
        (ChatMessage::assistant("done"), FinishReason::Stop),
    ];
    let mut trace = Vec::new();
    let outcome = drive(run, first, responses, None, &mut trace).unwrap();
    assert_eq!(outcome.finish_reason, FinishReason::Stop);
    let roles: Vec<ChatRole> = outcome.new_messages.iter().map(|m| m.role).collect();
    assert_eq!(roles, vec![ChatRole::User, ChatRole::Assistant, ChatRole::Tool, ChatRole::Assistant]);
    assert_eq!(trace.first().map(String::as_str), Some("loop_started"));
    assert_eq!(trace.last().map(String::as_str), Some("loop_finished"));
    let appended = trace.iter().filter(|t| *t == "message_appended").count();
    assert_eq!(appended, 4);
    let execute = trace.iter().position(|t| t == "execute c1").unwrap();
    let completed = trace.iter().position(|t| t == "iteration_completed").unwrap();
    assert!(execute < completed);
}

#[test]
fn a_failed_finish_append_is_a_durability_error() {
    let (run, first) = LoopRun::start(
        LoopContext::new("be helpful"),
        vec![ChatMessage::user("hi")],
        LoopLimits::default(),
        false,
    )
    .unwrap();
    let responses = vec![(ChatMessage::assistant("done"), FinishReason::Stop)];
    let mut trace = Vec::new();
    let result = drive(run, first, responses, Some("loop_finished"), &mut trace);
    assert!(matches!(result, Err(AgentLoopError::Durability { .. })));
}

#[test]
fn the_iteration_limit_fails_the_run_after_recording_it() {
    let (run, first) = LoopRun::start(
        LoopContext::new("be helpful"),
        vec![ChatMessage::user("hi")],
        LoopLimits::new(1, 16),
        false,
    )
    .unwrap();
    let responses = vec![(
        ChatMessage::assistant("").with_tool_calls(vec![echo_call("c1")]),
        FinishReason::ToolCalls,
    )];
    let mut trace = Vec::new();
    let result = drive(run, first, responses, None, &mut trace);
    assert!(matches!(result, Err(AgentLoopError::IterationLimitExceeded { maximum: 1 })));
    assert_eq!(trace.last().map(String::as_str), Some("loop_failed"));
}

#[test]
fn runs_need_user_prompts_and_a_positive_iteration_limit() {
    let empty = LoopRun::start(LoopContext::new("p"), vec![], LoopLimits::default(), false);
    assert!(matches!(
        empty,
        Err(AgentLoopError::InvalidProtocol { reason: ProtocolError::EmptyPrompts })
    ));
    let wrong_role =
        LoopRun::start(LoopContext::new("p"), vec![ChatMessage::assistant("x")], LoopLimits::default(), false);
    assert!(matches!(
        wrong_role,
        Err(AgentLoopError::InvalidProtocol { reason: ProtocolError::InvalidPromptRole { .. } })
    ));
    let no_iterations =
        LoopRun::start(LoopContext::new("p"), vec![ChatMessage::user("x")], LoopLimits::new(0, 1), false);
    assert!(matches!(no_iterations, Err(AgentLoopError::IterationLimitExceeded { maximum: 0 })));
}
