//! Processing of one provider tool call as a state machine.
//!
//! Authorization, the durable approval record, the approval decision, the durable start
//! record and the tool call itself are outside work; [`ToolExecution`] decides, from the
//! outcome of each, what happens next, so that no tool runs before its start is durable.

use vstd::prelude::*;

use crate::core_types::{ApprovalDecision, ChatMessage, ChatContent, ChatRole, DangerLevel, ToolCall, ToolKind};
use crate::events::DurableAgentEvent;
use crate::infra::DurableEventSinkError;
use crate::json::{json_string_literal, quote_json_string};
use crate::text::{owned, push_str};

use super::{ToolApprovalError, ToolExecutorError};

verus! {

/// Result of processing one provider tool call.
#[derive(Debug, PartialEq, Eq)]
pub struct ToolExecutionOutcome {
    message: ChatMessage,
    reached_tool: bool,
}

impl Clone for ToolExecutionOutcome {
    /// A copy with the same message and the same record of whether the tool was reached.
    fn clone(&self) -> (r: Self)
        ensures
            r.spec_message()@ == self.spec_message()@,
            r.spec_reached_tool() == self.spec_reached_tool(),
    {
        ToolExecutionOutcome { message: self.message.clone(), reached_tool: self.reached_tool }
    }
}

impl ToolExecutionOutcome {
    /// The model-visible tool result message.
    pub closed spec fn spec_message(&self) -> ChatMessage {
        self.message
    }

    /// Whether the external tool implementation was invoked.
    pub closed spec fn spec_reached_tool(&self) -> bool {
        self.reached_tool
    }

    /// Borrows the model-visible tool result message.
    pub fn message(&self) -> (r: &ChatMessage)
        ensures
            *r == self.spec_message(),
    {
        &self.message
    }

    /// Returns whether the external tool implementation was invoked.
    pub fn reached_tool(&self) -> (r: bool)
        ensures
            r == self.spec_reached_tool(),
    {
        self.reached_tool
    }

    /// Consumes the outcome and returns its model-visible message.
    pub fn into_message(self) -> (r: ChatMessage)
        ensures
            r == self.spec_message(),
    {
        self.message
    }
}

/// Complete request supplied to a tool approval policy.
#[derive(Debug)]
pub struct ToolApprovalRequest {
    /// Identity of this approval interaction.
    pub approval_id: String,
    /// Provider identity of the tool call.
    pub call_id: String,
    /// Provider-visible tool identity.
    pub tool_name: String,
    /// Tool arguments as compact JSON text.
    pub arguments: String,
    /// Whether the tool observes or mutates state.
    pub tool_kind: ToolKind,
    /// Declared danger of the tool.
    pub danger_level: DangerLevel,
}

/// Non-interactive policy that approves every requested tool call.
#[derive(Debug, Clone, Copy, Default)]
pub struct AllowAllToolApproval;

impl AllowAllToolApproval {
    /// The decision on `request`: approval, unless the caller cancelled.
    pub fn decide(&self, request: &ToolApprovalRequest, cancelled: bool) -> (r: Result<ApprovalDecision, ToolApprovalError>)
        ensures
            cancelled ==> r == Err::<ApprovalDecision, ToolApprovalError>(ToolApprovalError::Cancelled),
            !cancelled ==> r == Ok::<ApprovalDecision, ToolApprovalError>(ApprovalDecision::Approve),
    {
        if cancelled {
            Err(ToolApprovalError::Cancelled)
        } else {
            Ok(ApprovalDecision::Approve)
        }
    }
}

/// Non-interactive policy that rejects every requested tool call.
#[derive(Debug, Clone, Copy, Default)]
pub struct DenyAllToolApproval;

impl DenyAllToolApproval {
    /// The decision on `request`: rejection, unless the caller cancelled.
    pub fn decide(&self, request: &ToolApprovalRequest, cancelled: bool) -> (r: Result<ApprovalDecision, ToolApprovalError>)
        ensures
            cancelled ==> r == Err::<ApprovalDecision, ToolApprovalError>(ToolApprovalError::Cancelled),
            !cancelled ==> r == Ok::<ApprovalDecision, ToolApprovalError>(ApprovalDecision::Reject),
    {
        if cancelled {
            Err(ToolApprovalError::Cancelled)
        } else {
            Ok(ApprovalDecision::Reject)
        }
    }
}

/// The compact JSON `{"error": text}` that reports a failure to the model.
pub open spec fn error_payload(text: Seq<char>) -> Seq<char> {
    "{\"error\":"@ + json_string_literal(text) + "}"@
}

/// The compact JSON result of a rejected approval.
pub open spec fn rejection_payload() -> Seq<char> {
    "{\"error\":\"tool approval rejected\"}"@
}

/// Builds the JSON object `{"error": text}`.
pub fn error_result(text: &str) -> (r: String)
    ensures
        r@ == error_payload(text@),
{
    let mut r = owned("{\"error\":");
    let quoted = quote_json_string(text);
    push_str(&mut r, quoted.as_str());
    push_str(&mut r, "}");
    r
}

/// Where the processing of a tool call stands.
#[derive(Debug, Clone, Copy, PartialEq, Eq, Structural)]
pub enum ExecutionPhase {
    /// The registry decides whether the tool exists and needs approval.
    Authorizing,
    /// `ToolApprovalRequested` is being appended.
    RecordingRequest { tool_kind: ToolKind, danger_level: DangerLevel },
    /// The approval policy decides.
    AwaitingDecision,
    /// `ToolApprovalResolved` is being appended.
    RecordingDecision { decision: ApprovalDecision },
    /// `ToolExecutionStarted` is being appended.
    RecordingStart,
    /// The tool runs.
    CallingTool,
    /// The outcome was returned.
    Done,
}

/// The outcome of the outside work the execution waited for.
#[derive(Debug)]
pub enum ExecutionEvent {
    /// The tool exists; `approval` holds its kind and danger when it needs approval.
    Authorized { approval: Option<(ToolKind, DangerLevel)> },
    /// The registry refused the tool; `error_text` describes why.
    AuthorizationFailed { error_text: String },
    /// The durable sink acknowledged the appended event.
    Appended,
    /// The durable sink failed.
    AppendFailed { source: DurableEventSinkError },
    /// The approval policy decided.
    Decided { decision: ApprovalDecision },
    /// The approval interaction failed.
    ApprovalFailed { source: ToolApprovalError },
    /// The tool returned its result as compact JSON text.
    ToolReturned { result: String },
    /// The tool failed; `error_text` describes why.
    ToolFailed { error_text: String },
}

/// The outside work an execution asks for next.
#[derive(Debug)]
pub enum ExecutionAction {
    /// Ask the registry about the tool.
    Authorize { tool_name: String },
    /// Append a durable event.
    Append { event: DurableAgentEvent },
    /// Ask the approval policy.
    RequestApproval { request: ToolApprovalRequest },
    /// Run the tool with the call's identity and arguments.
    CallTool { tool_name: String, call_id: String, arguments: String },
    /// Processing is over.
    Finish { result: Result<ToolExecutionOutcome, ToolExecutorError> },
}

/// Whether `event` is an outcome of the work that `phase` waits for.
pub open spec fn execution_accepts(phase: ExecutionPhase, event: ExecutionEvent) -> bool {
    match phase {
        ExecutionPhase::Authorizing => event is Authorized || event is AuthorizationFailed,
        ExecutionPhase::AwaitingDecision => event is Decided || event is ApprovalFailed,
        ExecutionPhase::CallingTool => event is ToolReturned || event is ToolFailed,
        ExecutionPhase::Done => false,
        _ => event is Appended || event is AppendFailed,
    }
}

/// Whether `action` finishes with the tool message `payload` for `call`, stating whether
/// the tool was reached.
pub open spec fn finishes_with(action: ExecutionAction, call: ToolCall, payload: Seq<char>, reached: bool) -> bool {
    action matches ExecutionAction::Finish { result: Ok(outcome) } && {
        let m = outcome.spec_message();
        &&& m.role == ChatRole::Tool
        &&& m.content matches ChatContent::Json(j) && j@ == payload
        &&& m.tool_call_id == Some(call.call_id)
        &&& m.reasoning_content is None
        &&& m.tool_calls@.len() == 0
        &&& outcome.spec_reached_tool() == reached
    }
}

/// The transition of an execution for `call` with approval identity `approval_id`: from
/// phase `p`, given `event`, to phase `q` and the next `action`.
pub open spec fn execution_step_spec(
    call: ToolCall,
    approval_id: Seq<char>,
    p: ExecutionPhase,
    event: ExecutionEvent,
    q: ExecutionPhase,
    action: ExecutionAction,
) -> bool {
    match event {
        ExecutionEvent::AuthorizationFailed { error_text } => q is Done && finishes_with(
            action,
            call,
            error_payload(error_text@),
            false,
        ),
        ExecutionEvent::Authorized { approval } => match approval {
            None => q is RecordingStart && (action matches ExecutionAction::Append {
                event: DurableAgentEvent::ToolExecutionStarted { call_id, tool_name },
            } && call_id == call.call_id && tool_name == call.name),
            Some((tool_kind, danger_level)) => {
                &&& q == (ExecutionPhase::RecordingRequest { tool_kind, danger_level })
                &&& action matches ExecutionAction::Append {
                    event: DurableAgentEvent::ToolApprovalRequested {
                        approval_id: a,
                        call_id,
                        tool_name,
                        arguments,
                        tool_kind: k,
                        danger_level: d,
                    },
                }
                &&& a@ == approval_id
                &&& call_id == call.call_id
                &&& tool_name == call.name
                &&& arguments == call.arguments
                &&& k == tool_kind
                &&& d == danger_level
            },
        },
        ExecutionEvent::AppendFailed { source } => q is Done && action == (ExecutionAction::Finish {
            result: Err(ToolExecutorError::Durability { source }),
        }),
        ExecutionEvent::Appended => match p {
            ExecutionPhase::RecordingRequest { tool_kind, danger_level } => {
                &&& q is AwaitingDecision
                &&& action matches ExecutionAction::RequestApproval { request }
                &&& request.approval_id@ == approval_id
                &&& request.call_id == call.call_id
                &&& request.tool_name == call.name
                &&& request.arguments == call.arguments
                &&& request.tool_kind == tool_kind
                &&& request.danger_level == danger_level
            },
            ExecutionPhase::RecordingDecision { decision } => match decision {
                ApprovalDecision::Reject => q is Done && finishes_with(action, call, rejection_payload(), false),
                ApprovalDecision::Approve => q is RecordingStart && (action matches ExecutionAction::Append {
                    event: DurableAgentEvent::ToolExecutionStarted { call_id, tool_name },
                } && call_id == call.call_id && tool_name == call.name),
            },
            ExecutionPhase::RecordingStart => q is CallingTool && action == (ExecutionAction::CallTool {
                tool_name: call.name,
                call_id: call.call_id,
                arguments: call.arguments,
            }),
            _ => false,
        },
        ExecutionEvent::Decided { decision } => q == (ExecutionPhase::RecordingDecision { decision })
            && (action matches ExecutionAction::Append {
            event: DurableAgentEvent::ToolApprovalResolved { approval_id: a, decision: d },
        } && a@ == approval_id && d == decision),
        ExecutionEvent::ApprovalFailed { source } => q is Done && action == (ExecutionAction::Finish {
            result: Err(ToolExecutorError::Approval { source }),
        }),
        ExecutionEvent::ToolReturned { result } => q is Done && finishes_with(action, call, result@, true),
        ExecutionEvent::ToolFailed { error_text } => q is Done && finishes_with(
            action,
            call,
            error_payload(error_text@),
            true,
        ),
    }
}

/// The processing of one tool call.
pub struct ToolExecution {
    call: ToolCall,
    approval_id: String,
    phase: ExecutionPhase,
}

impl ToolExecution {
    /// The call being processed.
    pub closed spec fn spec_call(&self) -> ToolCall {
        self.call
    }

    /// Identity of the approval interaction, if one is needed.
    pub closed spec fn spec_approval_id(&self) -> Seq<char> {
        self.approval_id@
    }

    /// Where processing stands.
    pub closed spec fn spec_phase(&self) -> ExecutionPhase {
        self.phase
    }

    /// Starts processing `call`; an approval, if one is needed, gets the identity
    /// `approval_id`. The first action asks the registry about the tool.
    pub fn start(call: ToolCall, approval_id: String) -> (r: (ToolExecution, ExecutionAction))
        ensures
            r.0.spec_call() == call,
            r.0.spec_approval_id() == approval_id@,
            r.0.spec_phase() is Authorizing,
            r.1 == (ExecutionAction::Authorize { tool_name: call.name }),
    {
        let tool_name = call.name.clone();
        (ToolExecution { call, approval_id, phase: ExecutionPhase::Authorizing }, ExecutionAction::Authorize {
            tool_name,
        })
    }

    /// Whether the execution waits for work of the kind that `event` reports.
    pub fn expects(&self, event: &ExecutionEvent) -> (r: bool)
        ensures
            r == execution_accepts(self.spec_phase(), *event),
    {
        match (self.phase, event) {
            (ExecutionPhase::Authorizing, ExecutionEvent::Authorized { .. })
            | (ExecutionPhase::Authorizing, ExecutionEvent::AuthorizationFailed { .. })
            | (ExecutionPhase::AwaitingDecision, ExecutionEvent::Decided { .. })
            | (ExecutionPhase::AwaitingDecision, ExecutionEvent::ApprovalFailed { .. })
            | (ExecutionPhase::CallingTool, ExecutionEvent::ToolReturned { .. })
            | (ExecutionPhase::CallingTool, ExecutionEvent::ToolFailed { .. }) => true,
            (ExecutionPhase::Authorizing, _)
            | (ExecutionPhase::AwaitingDecision, _)
            | (ExecutionPhase::CallingTool, _)
            | (ExecutionPhase::Done, _) => false,
            (_, ExecutionEvent::Appended) | (_, ExecutionEvent::AppendFailed { .. }) => true,
            _ => false,
        }
    }

    fn finish(&mut self, payload: String, reached_tool: bool) -> (action: ExecutionAction)
        ensures
            final(self).spec_phase() is Done,
            final(self).spec_call() == old(self).spec_call(),
            final(self).spec_approval_id() == old(self).spec_approval_id(),
            finishes_with(action, old(self).spec_call(), payload@, reached_tool),
    {
        self.phase = ExecutionPhase::Done;
        let message = ChatMessage::tool(self.call.call_id.clone(), payload);
        ExecutionAction::Finish { result: Ok(ToolExecutionOutcome { message, reached_tool }) }
    }

    fn record_start(&mut self) -> (action: ExecutionAction)
        ensures
            final(self).spec_phase() is RecordingStart,
            final(self).spec_call() == old(self).spec_call(),
            final(self).spec_approval_id() == old(self).spec_approval_id(),
            action matches ExecutionAction::Append {
                event: DurableAgentEvent::ToolExecutionStarted { call_id, tool_name },
            } && call_id == old(self).spec_call().call_id && tool_name == old(self).spec_call().name,
    {
        self.phase = ExecutionPhase::RecordingStart;
        ExecutionAction::Append {
            event: DurableAgentEvent::ToolExecutionStarted {
                call_id: self.call.call_id.clone(),
                tool_name: self.call.name.clone(),
            },
        }
    }

    /// Takes the outcome of the outside work and decides what happens next.
    pub fn step(&mut self, event: ExecutionEvent) -> (action: ExecutionAction)
        requires
            execution_accepts(old(self).spec_phase(), event),
        ensures
            final(self).spec_call() == old(self).spec_call(),
            final(self).spec_approval_id() == old(self).spec_approval_id(),
            execution_step_spec(
                old(self).spec_call(),
                old(self).spec_approval_id(),
                old(self).spec_phase(),
                event,
                final(self).spec_phase(),
                action,
            ),
    {
        match event {
            ExecutionEvent::AuthorizationFailed { error_text } => {
                let payload = error_result(error_text.as_str());
                self.finish(payload, false)
            },
            ExecutionEvent::Authorized { approval } => match approval {
                None => self.record_start(),
                Some((tool_kind, danger_level)) => {
                    self.phase = ExecutionPhase::RecordingRequest { tool_kind, danger_level };
                    ExecutionAction::Append {
                        event: DurableAgentEvent::ToolApprovalRequested {
                            approval_id: self.approval_id.clone(),
                            call_id: self.call.call_id.clone(),
                            tool_name: self.call.name.clone(),
                            arguments: self.call.arguments.clone(),
                            tool_kind,
                            danger_level,
                        },
                    }
                },
            },
            ExecutionEvent::AppendFailed { source } => {
                self.phase = ExecutionPhase::Done;
                ExecutionAction::Finish { result: Err(ToolExecutorError::Durability { source }) }
            },
            ExecutionEvent::Appended => match self.phase {
                ExecutionPhase::RecordingRequest { tool_kind, danger_level } => {
                    self.phase = ExecutionPhase::AwaitingDecision;
                    ExecutionAction::RequestApproval {
                        request: ToolApprovalRequest {
                            approval_id: self.approval_id.clone(),
                            call_id: self.call.call_id.clone(),
                            tool_name: self.call.name.clone(),
                            arguments: self.call.arguments.clone(),
                            tool_kind,
                            danger_level,
                        },
                    }
                },
                ExecutionPhase::RecordingDecision { decision } => match decision {
                    ApprovalDecision::Reject => {
                        let payload = owned("{\"error\":\"tool approval rejected\"}");
                        self.finish(payload, false)
                    },
                    ApprovalDecision::Approve => self.record_start(),
                },
                _ => {
                    self.phase = ExecutionPhase::CallingTool;
                    ExecutionAction::CallTool {
                        tool_name: self.call.name.clone(),
                        call_id: self.call.call_id.clone(),
                        arguments: self.call.arguments.clone(),
                    }
                },
            },
            ExecutionEvent::Decided { decision } => {
                self.phase = ExecutionPhase::RecordingDecision { decision };
                ExecutionAction::Append {
                    event: DurableAgentEvent::ToolApprovalResolved {
                        approval_id: self.approval_id.clone(),
                        decision,
                    },
                }
            },
            ExecutionEvent::ApprovalFailed { source } => {
                self.phase = ExecutionPhase::Done;
                ExecutionAction::Finish { result: Err(ToolExecutorError::Approval { source }) }
            },
            ExecutionEvent::ToolReturned { result } => self.finish(result, true),
            ExecutionEvent::ToolFailed { error_text } => {
                let payload = error_result(error_text.as_str());
                self.finish(payload, true)
            },
        }
    }
}

/// The tool is called only right after `ToolExecutionStarted` was acknowledged.
pub proof fn law_tool_called_only_after_start_recorded(
    call: ToolCall,
    approval_id: Seq<char>,
    p: ExecutionPhase,
    event: ExecutionEvent,
    q: ExecutionPhase,
    tool_name: String,
    call_id: String,
    arguments: String,
)
    requires
        execution_step_spec(
            call,
            approval_id,
            p,
            event,
            q,
            ExecutionAction::CallTool { tool_name, call_id, arguments },
        ),
    ensures
        p is RecordingStart,
        event is Appended,
        tool_name == call.name && call_id == call.call_id && arguments == call.arguments,
{
}

/// A rejected approval finishes without reaching the tool.
pub proof fn law_rejection_never_reaches_tool(
    call: ToolCall,
    approval_id: Seq<char>,
    event: ExecutionEvent,
    q: ExecutionPhase,
    action: ExecutionAction,
)
    requires
        execution_step_spec(
            call,
            approval_id,
            ExecutionPhase::RecordingDecision { decision: ApprovalDecision::Reject },
            event,
            q,
            action,
        ),
        event is Appended,
    ensures
        q is Done,
        finishes_with(action, call, rejection_payload(), false),
{
}

/// A failed acknowledgement before execution ends processing with a durability error,
/// so the tool is never reached.
pub proof fn law_failed_acknowledgement_stops_execution(
    call: ToolCall,
    approval_id: Seq<char>,
    p: ExecutionPhase,
    source: DurableEventSinkError,
    q: ExecutionPhase,
    action: ExecutionAction,
)
    requires
        execution_step_spec(call, approval_id, p, ExecutionEvent::AppendFailed { source }, q, action),
    ensures
        q is Done,
        action == (ExecutionAction::Finish { result: Err(ToolExecutorError::Durability { source }) }),
{
}

} // verus!
