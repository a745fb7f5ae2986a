use stratum::agent::AgentError;
use stratum::core_types::{ChatMessage, ChatRole, FinishReason, TokenUsage, ToolCall};
use stratum::turn::{TurnAction, TurnEvent, TurnRun};
use stratum::turn_tool::{ToolCallAction, ToolCallEvent, TurnToolCall};

fn usage(n: u64) -> TokenUsage {
    TokenUsage { input_tokens: n, output_tokens: n, total_tokens: 2 * n }
}

fn echo_call(id: &str) -> ToolCall {
    ToolCall { call_id: id.to_string(), name: "echo".to_string(), arguments: "{}".to_string() }
}

/// Drives a turn: the model answers from `responses`, tools echo, every publication and
/// iteration boundary is acknowledged, and `trace` records the outside work in order.
fn drive_turn(
    mut run: TurnRun,
    first: TurnAction,
    mut responses: Vec<(ChatMessage, FinishReason)>,
    trace: &mut Vec<String>,
) -> Result<Vec<ChatMessage>, AgentError> {
    responses.reverse();
    let mut action = first;
    loop {
        let event = match action {
            TurnAction::CallModel { .. } => {
                trace.push("model".to_string());
                let (message, finish_reason) = responses.pop().expect("a scripted response");
                TurnEvent::ModelResponded { message, finish_reason, usage: usage(1) }
            }
            TurnAction::Publish { message } => {
                trace.push(format!("publish {:?}", message.role));
                TurnEvent::Published
            }
            TurnAction::PublishCancelled { usage } => {
                trace.push(format!("cancelled {}", usage.total_tokens));
                TurnEvent::Published
            }
            TurnAction::PublishFailed { error_text, usage } => {
                trace.push(format!("failed {error_text} {}", usage.total_tokens));
                TurnEvent::Published
            }
            TurnAction::PublishFinished { finish_reason, usage } => {
                trace.push(format!("finished {finish_reason} {}", usage.total_tokens));
                TurnEvent::Published
            }
            TurnAction::ExecuteTool { tool_call, .. } => {
                trace.push(format!("tool {}", tool_call.call_id));
                TurnEvent::ToolReturned {
                    message: ChatMessage::tool(tool_call.call_id.clone(), "{}".to_string()),
                }
            }
            TurnAction::CompleteIteration { iteration, usage } => {
                trace.push(format!("iteration {iteration} {}", usage.total_tokens));
                TurnEvent::IterationCompleted
            }
            TurnAction::Finish { result } => return result,
        };
        assert!(run.expects(&event));
        action = run.step(event, false);
    }
}

#[test]
fn a_turn_publishes_the_answer_before_finishing() {
    let (run, first) = TurnRun::start(vec![ChatMessage::user("hi")], 0, usage(10), 4, 4, false);
    let mut trace = Vec::new();
    let history =
        drive_turn(run, first, vec![(ChatMessage::assistant("hello"), FinishReason::Stop)], &mut trace)
            .unwrap();
    let roles: Vec<ChatRole> = history.iter().map(|m| m.role).collect();
    assert_eq!(roles, vec![ChatRole::User, ChatRole::Assistant]);
    let publish = trace.iter().position(|t| t == "publish Assistant").unwrap();
    let finished = trace.iter().position(|t| t == "finished stop 22").unwrap();
    assert!(publish < finished);
}

#[test]
fn tool_results_join_the_history_in_call_order() {
    let (run, first) = TurnRun::start(vec![ChatMessage::user("hi")], 0, usage(10), 4, 4, false);
    let mut trace = Vec::new();
    let responses = vec![
        (
            ChatMessage::assistant("").with_tool_calls(vec![echo_call("a"), echo_call("b")]),
            FinishReason::ToolCalls,
        ),
        (ChatMessage::assistant("done"), FinishReason::Stop),
    ];
    let history = drive_turn(run, first, responses, &mut trace).unwrap();
    let ids: Vec<Option<String>> = history.iter().map(|m| m.tool_call_id.clone()).collect();
    assert_eq!(ids, vec![None, None, Some("a".to_string()), Some("b".to_string()), None]);
    assert!(trace.contains(&"iteration 0 22".to_string()));
    assert!(trace.contains(&"iteration 1 24".to_string()));
    assert!(trace.contains(&"finished stop 24".to_string()));
}

#[test]
fn too_many_tool_calls_fail_the_turn() {
    let (run, first) = TurnRun::start(vec![ChatMessage::user("hi")], 0, usage(10), 4, 1, false);
    let mut trace = Vec::new();
    let responses = vec![(
        ChatMessage::assistant("").with_tool_calls(vec![echo_call("a"), echo_call("b")]),
        FinishReason::ToolCalls,
    )];
    let result = drive_turn(run, first, responses, &mut trace);
    assert!(matches!(result, Err(AgentError::ToolCallLimitExceeded { limit: 1 })));
    assert!(!trace.iter().any(|t| t.starts_with("tool ")));
}

#[test]
fn a_cancelled_turn_never_calls_the_model() {
    let (run, first) = TurnRun::start(vec![ChatMessage::user("hi")], 0, usage(10), 4, 4, true);
    let mut trace = Vec::new();
    let result = drive_turn(run, first, vec![], &mut trace);
    assert!(matches!(result, Err(AgentError::Cancelled)));
    assert!(!trace.contains(&"model".to_string()));
}

#[test]
fn a_turn_tool_call_runs_only_after_approval() {
    for reject in [false, true] {
        let (mut call, mut action) = TurnToolCall::start(echo_call("c1"), "approval-1".to_string(), usage(3));
        let mut called = false;
        let result = loop {
            let event = match action {
                ToolCallAction::AnnounceStart { .. } => ToolCallEvent::Announced,
                ToolCallAction::Authorize { .. } => ToolCallEvent::Authorized {
                    approval: Some((stratum::core_types::ToolKind::Write, stratum::core_types::DangerLevel::High)),
                },
                ToolCallAction::PublishApprovalRequest { .. } => ToolCallEvent::Published,
                ToolCallAction::AwaitDecision { .. } => ToolCallEvent::Decided {
                    decision: if reject {
                        stratum::core_types::ApprovalDecision::Reject
                    } else {
                        stratum::core_types::ApprovalDecision::Approve
                    },
                },
                ToolCallAction::AnnounceDecision { .. } => ToolCallEvent::Announced,
                ToolCallAction::CallTool { arguments, .. } => {
                    called = true;
                    ToolCallEvent::ToolReturned { result: arguments }
                }
                ToolCallAction::AnnounceFailure { .. } | ToolCallAction::AnnounceResult { .. } => {
                    ToolCallEvent::Announced
                }
                ToolCallAction::PublishCancelled { .. } => ToolCallEvent::Published,
                ToolCallAction::Finish { result } => break result,
            };
            assert!(call.expects(&event));
            action = call.step(event);
        };
        let message = result.unwrap();
        assert_eq!(message.tool_call_id.as_deref(), Some("c1"));
        assert_eq!(called, !reject);
    }
}

#[test]
fn a_model_failure_publishes_the_usage_of_every_finished_call() {
    let (mut run, first) = TurnRun::start(vec![ChatMessage::user("hi")], 0, usage(u64::MAX - 1), 4, 4, false);
    assert!(matches!(first, TurnAction::CallModel { .. }));
    let event = TurnEvent::ModelFailed { error: AgentError::Cancelled, usage: usage(5) };
    assert!(run.expects(&event));
    match run.step(event, false) {
        TurnAction::PublishCancelled { usage } => {
            assert_eq!(usage, TokenUsage { input_tokens: u64::MAX, output_tokens: u64::MAX, total_tokens: u64::MAX });
        }
        other => panic!("unexpected action {other:?}"),
    }
    assert_eq!(run.usage().input_tokens, u64::MAX);
    assert!(matches!(
        run.step(TurnEvent::Published, false),
        TurnAction::Finish { result: Err(AgentError::Cancelled) }
    ));
}
