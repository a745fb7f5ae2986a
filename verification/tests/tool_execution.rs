use stratum::core_types::{ApprovalDecision, ChatContent, DangerLevel, ToolCall, ToolKind};
use stratum::infra::DurableEventSinkError;
use stratum::tool_executor::error::ToolExecutorError;
use stratum::tool_executor::execution::{
    error_result, ExecutionAction, ExecutionEvent, ToolExecution, ToolExecutionOutcome,
};
use stratum::tool_executor::{AllowAllToolApproval, DenyAllToolApproval};

fn call() -> ToolCall {
    ToolCall { call_id: "c1".to_string(), name: "echo".to_string(), arguments: "{}".to_string() }
}

/// Runs one execution; `approval` is what the registry reports, `policy` decides approvals,
/// and appends of the event type `fail_append` are refused.
fn run(
    approval: Option<(ToolKind, DangerLevel)>,
    reject: bool,
    fail_append: Option<&str>,
    trace: &mut Vec<String>,
) -> Result<ToolExecutionOutcome, ToolExecutorError> {
    let (mut execution, mut action) = ToolExecution::start(call(), "approval-1".to_string());
    loop {
        let event = match action {
            ExecutionAction::Authorize { tool_name } => {
                trace.push(format!("authorize {tool_name}"));
                ExecutionEvent::Authorized { approval }
            }
            ExecutionAction::Append { event } => {
                let name = event.event_type();
                trace.push(name.to_string());
                if fail_append == Some(name) {
                    ExecutionEvent::AppendFailed { source: DurableEventSinkError::PublisherUnavailable }
                } else {
                    ExecutionEvent::Appended
                }
            }
            ExecutionAction::RequestApproval { request } => {
                assert_eq!(request.approval_id, "approval-1");
                let decision = if reject {
                    DenyAllToolApproval.decide(&request, false)
                } else {
                    AllowAllToolApproval.decide(&request, false)
                };
                match decision {
                    Ok(decision) => ExecutionEvent::Decided { decision },
                    Err(source) => ExecutionEvent::ApprovalFailed { source },
                }
            }
            ExecutionAction::CallTool { arguments, .. } => {
                trace.push("call".to_string());
                ExecutionEvent::ToolReturned { result: arguments }
            }
            ExecutionAction::Finish { result } => return result,
        };
        assert!(execution.expects(&event));
        action = execution.step(event);
    }
}

fn json_of(outcome: &ToolExecutionOutcome) -> String {
    match &outcome.message().content {
        ChatContent::Json(j) => j.clone(),
        other => panic!("unexpected content {other:?}"),
    }
}

#[test]
fn an_unguarded_tool_runs_after_its_start_is_recorded() {
    let mut trace = Vec::new();
    let outcome = run(None, false, None, &mut trace).unwrap();
    assert_eq!(trace, vec!["authorize echo", "tool_execution_started", "call"]);
    assert!(outcome.reached_tool());
    assert_eq!(json_of(&outcome), "{}");
    assert_eq!(outcome.into_message().tool_call_id.as_deref(), Some("c1"));
}

#[test]
fn an_approved_tool_records_request_decision_and_start() {
    let mut trace = Vec::new();
    let outcome = run(Some((ToolKind::Write, DangerLevel::High)), false, None, &mut trace).unwrap();
    assert_eq!(
        trace,
        vec![
            "authorize echo",
            "tool_approval_requested",
            "tool_approval_resolved",
            "tool_execution_started",
            "call"
        ]
    );
    assert!(outcome.reached_tool());
}

#[test]
fn a_rejected_tool_is_never_called() {
    let mut trace = Vec::new();
    let outcome = run(Some((ToolKind::Write, DangerLevel::High)), true, None, &mut trace).unwrap();
    assert!(!trace.contains(&"call".to_string()));
    assert!(!outcome.reached_tool());
    assert_eq!(json_of(&outcome), "{\"error\":\"tool approval rejected\"}");
}

#[test]
fn an_unacknowledged_start_stops_before_the_tool() {
    let mut trace = Vec::new();
    let result = run(None, false, Some("tool_execution_started"), &mut trace);
    assert!(matches!(
        result,
        Err(ToolExecutorError::Durability { source: DurableEventSinkError::PublisherUnavailable })
    ));
    assert!(!trace.contains(&"call".to_string()));
}

#[test]
fn error_results_quote_their_text_as_json() {
    assert_eq!(error_result("boom"), "{\"error\":\"boom\"}");
    assert_eq!(error_result("say \"hi\""), "{\"error\":\"say \\\"hi\\\"\"}");
}

#[test]
fn approval_policies_decide_or_report_cancellation() {
    let (mut execution, _) = ToolExecution::start(call(), "a".to_string());
    let approval = Some((ToolKind::Read, DangerLevel::Medium));
    let event = ExecutionEvent::Authorized { approval };
    assert!(execution.expects(&event));
    let action = execution.step(event);
    let request = match action {
        ExecutionAction::Append { .. } => {
            match execution.step(ExecutionEvent::Appended) {
                ExecutionAction::RequestApproval { request } => request,
                _ => panic!("expected an approval request"),
            }
        }
        _ => panic!("expected the request to be recorded"),
    };
    assert!(AllowAllToolApproval.decide(&request, true).is_err());
    assert!(DenyAllToolApproval.decide(&request, true).is_err());
    assert!(matches!(AllowAllToolApproval.decide(&request, false), Ok(ApprovalDecision::Approve)));
    assert!(matches!(DenyAllToolApproval.decide(&request, false), Ok(ApprovalDecision::Reject)));
}
