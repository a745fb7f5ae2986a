//! One tool call of a stateful agent's turn, as a state machine: announcement,
//! authorization, an optional approval interaction, the call, and its reported outcome.

use vstd::prelude::*;

use crate::agent::AgentError;
use crate::core_types::{ApprovalDecision, ChatContent, ChatMessage, ChatRole, DangerLevel, TokenUsage, ToolCall, ToolKind};
use crate::infra::EventStreamBusError;
use crate::text::owned;

verus! {

/// Where a tool call of a turn stands.
#[derive(Debug, Clone, Copy, PartialEq, Eq, Structural)]
pub enum ToolCallPhase {
    /// `ToolCallStarted` is being announced.
    Announcing,
    /// The registry decides whether the tool exists and needs approval.
    Authorizing,
    /// The approval request is being published.
    PublishingRequest,
    /// The user decides.
    AwaitingDecision,
    /// The decision is being announced.
    AnnouncingDecision { decision: ApprovalDecision },
    /// The tool runs.
    CallingTool,
    /// A failure of the call is being announced; the turn then gets a text result.
    AnnouncingFailure,
    /// The rejection is being announced.
    AnnouncingRejection,
    /// The tool's result is being announced.
    AnnouncingResult,
    /// `Cancelled` is being published.
    PublishingCancel,
    /// The outcome was returned.
    Done,
}

/// The outcome of the outside work a tool call waited for.
#[derive(Debug)]
pub enum ToolCallEvent {
    /// A best-effort announcement went out.
    Announced,
    /// A required publication was acknowledged.
    Published,
    /// A required publication failed.
    PublishFailed { source: EventStreamBusError },
    /// The tool exists; `approval` holds its kind and danger when it needs approval.
    Authorized { approval: Option<(ToolKind, DangerLevel)> },
    /// The registry refused the tool.
    AuthorizationFailed { error_text: String },
    /// The user decided.
    Decided { decision: ApprovalDecision },
    /// The decision channel closed without a decision.
    DecisionLost,
    /// Cancellation was observed while waiting for the decision or the tool.
    Cancelled,
    /// The tool returned its result as compact JSON text.
    ToolReturned { result: String },
    /// The tool failed.
    ToolFailed { error_text: String },
}

/// The outside work a tool call asks for next.
#[derive(Debug)]
pub enum ToolCallAction {
    /// Announce `ToolCallStarted`.
    AnnounceStart { call_id: String, name: String },
    /// Ask the registry about the tool.
    Authorize { name: String },
    /// Publish the approval request.
    PublishApprovalRequest {
        approval_id: String,
        call_id: String,
        tool_name: String,
        arguments: String,
        tool_kind: ToolKind,
        danger_level: DangerLevel,
    },
    /// Wait for the user's decision.
    AwaitDecision { approval_id: String },
    /// Announce the decision.
    AnnounceDecision { approval_id: String, decision: ApprovalDecision },
    /// Run the tool.
    CallTool { name: String, call_id: String, arguments: String },
    /// Announce that the call failed with `error_text`.
    AnnounceFailure { call_id: String, error_text: String },
    /// Announce that the call finished with `result`.
    AnnounceResult { call_id: String, result: String },
    /// Publish that the turn was cancelled, with the agent's usage.
    PublishCancelled { usage: TokenUsage },
    /// The tool call is over.
    Finish { result: Result<ChatMessage, AgentError> },
}

/// Whether `event` is an outcome of the work that `phase` waits for.
pub open spec fn tool_call_accepts(phase: ToolCallPhase, event: ToolCallEvent) -> bool {
    match phase {
        ToolCallPhase::Authorizing => event is Authorized || event is AuthorizationFailed,
        ToolCallPhase::PublishingRequest | ToolCallPhase::PublishingCancel => event is Published
            || event is PublishFailed,
        ToolCallPhase::AwaitingDecision => event is Decided || event is DecisionLost || event is Cancelled,
        ToolCallPhase::CallingTool => event is ToolReturned || event is ToolFailed || event is Cancelled,
        ToolCallPhase::Done => false,
        _ => event is Announced,
    }
}

/// The compact JSON result of a call the user rejected.
pub open spec fn user_rejection_payload() -> Seq<char> {
    "{\"error\":{\"message\":\"user rejected tool call\",\"type\":\"approval_rejected\"}}"@
}

/// The tool message that reports `error_text` for `call`: a text message.
pub open spec fn is_failure_message(m: ChatMessage, call: ToolCall, error_text: Seq<char>) -> bool {
    &&& m.role == ChatRole::Tool
    &&& m.content matches ChatContent::Text(t) && t@ == error_text
    &&& m.reasoning_content is None
    &&& m.tool_calls@.len() == 0
    &&& m.tool_call_id == Some(call.call_id)
}

/// The tool message that carries the JSON `payload` for `call`.
pub open spec fn is_result_message(m: ChatMessage, call: ToolCall, payload: Seq<char>) -> bool {
    &&& m.role == ChatRole::Tool
    &&& m.content matches ChatContent::Json(t) && t@ == payload
    &&& m.reasoning_content is None
    &&& m.tool_calls@.len() == 0
    &&& m.tool_call_id == Some(call.call_id)
}

/// The transition of a tool call for `call` with approval identity `approval_id`, from
/// phase `p` with the error text or result `carried`, given `event`, to phase `q` and
/// the next `action`.
pub open spec fn tool_call_step_spec(
    call: ToolCall,
    approval_id: Seq<char>,
    p: ToolCallPhase,
    carried: Seq<char>,
    event: ToolCallEvent,
    q: ToolCallPhase,
    action: ToolCallAction,
) -> bool {
    match event {
        ToolCallEvent::Announced => match p {
            ToolCallPhase::Announcing => q is Authorizing && action == (ToolCallAction::Authorize {
                name: call.name,
            }),
            ToolCallPhase::AnnouncingDecision { decision } => match decision {
                ApprovalDecision::Approve => q is CallingTool && action == (ToolCallAction::CallTool {
                    name: call.name,
                    call_id: call.call_id,
                    arguments: call.arguments,
                }),
                ApprovalDecision::Reject => q is AnnouncingRejection && (action matches ToolCallAction::AnnounceFailure {
                    call_id,
                    error_text,
                } && call_id == call.call_id && error_text@ == "user rejected tool call"@),
            },
            ToolCallPhase::AnnouncingFailure => q is Done && (action matches ToolCallAction::Finish {
                result: Ok(m),
            } && is_failure_message(m, call, carried)),
            ToolCallPhase::AnnouncingRejection => q is Done && (action matches ToolCallAction::Finish {
                result: Ok(m),
            } && is_result_message(m, call, user_rejection_payload())),
            ToolCallPhase::AnnouncingResult => q is Done && (action matches ToolCallAction::Finish {
                result: Ok(m),
            } && is_result_message(m, call, carried)),
            _ => false,
        },
        ToolCallEvent::Authorized { approval } => match approval {
            None => q is CallingTool && action == (ToolCallAction::CallTool {
                name: call.name,
                call_id: call.call_id,
                arguments: call.arguments,
            }),
            Some((tool_kind, danger_level)) => q is PublishingRequest && (action matches ToolCallAction::PublishApprovalRequest {
                approval_id: a,
                call_id,
                tool_name,
                arguments,
                tool_kind: k,
                danger_level: d,
            } && a@ == approval_id && call_id == call.call_id && tool_name == call.name && arguments
                == call.arguments && k == tool_kind && d == danger_level),
        },
        ToolCallEvent::AuthorizationFailed { error_text } => q is AnnouncingFailure && (action matches ToolCallAction::AnnounceFailure {
            call_id,
            error_text: t,
        } && call_id == call.call_id && t@ == error_text@),
        ToolCallEvent::Published => match p {
            ToolCallPhase::PublishingRequest => q is AwaitingDecision && (action matches ToolCallAction::AwaitDecision {
                approval_id: a,
            } && a@ == approval_id),
            _ => q is Done && action == (ToolCallAction::Finish { result: Err(AgentError::Cancelled) }),
        },
        ToolCallEvent::PublishFailed { source } => q is Done && action == (ToolCallAction::Finish {
            result: Err(AgentError::EventBus { source }),
        }),
        ToolCallEvent::Decided { decision } => q == (ToolCallPhase::AnnouncingDecision { decision }) && (
        action matches ToolCallAction::AnnounceDecision { approval_id: a, decision: d } && a@ == approval_id
            && d == decision),
        ToolCallEvent::DecisionLost => q is Done && action == (ToolCallAction::Finish {
            result: Err(AgentError::NoActiveTurn),
        }),
        ToolCallEvent::Cancelled => q is PublishingCancel && action is PublishCancelled,
        ToolCallEvent::ToolReturned { result } => q is AnnouncingResult && (action matches ToolCallAction::AnnounceResult {
            call_id,
            result: r,
        } && call_id == call.call_id && r@ == result@),
        ToolCallEvent::ToolFailed { error_text } => q is AnnouncingFailure && (action matches ToolCallAction::AnnounceFailure {
            call_id,
            error_text: t,
        } && call_id == call.call_id && t@ == error_text@),
    }
}

/// One tool call of a turn in progress.
pub struct TurnToolCall {
    call: ToolCall,
    approval_id: String,
    carried: String,
    usage: TokenUsage,
    phase: ToolCallPhase,
}

impl TurnToolCall {
    /// The call.
    pub closed spec fn spec_call(&self) -> ToolCall {
        self.call
    }

    /// Identity of the approval interaction, if one is needed.
    pub closed spec fn spec_approval_id(&self) -> Seq<char> {
        self.approval_id@
    }

    /// Error text or result being announced.
    pub closed spec fn spec_carried(&self) -> Seq<char> {
        self.carried@
    }

    /// Where the call stands.
    pub closed spec fn spec_phase(&self) -> ToolCallPhase {
        self.phase
    }

    /// The agent's usage, which a cancellation is published with.
    pub closed spec fn spec_usage(&self) -> TokenUsage {
        self.usage
    }

    /// Starts processing `call` for an agent whose usage is `usage`; an approval, if one is
    /// needed, gets the identity `approval_id`. The first action announces the start.
    pub fn start(call: ToolCall, approval_id: String, usage: TokenUsage) -> (r: (TurnToolCall, ToolCallAction))
        ensures
            r.0.spec_call() == call,
            r.0.spec_usage() == usage,
            r.0.spec_approval_id() == approval_id@,
            r.0.spec_phase() is Announcing,
            r.1 == (ToolCallAction::AnnounceStart { call_id: call.call_id, name: call.name }),
    {
        let action = ToolCallAction::AnnounceStart { call_id: call.call_id.clone(), name: call.name.clone() };
        (TurnToolCall { call, approval_id, carried: String::new(), usage, phase: ToolCallPhase::Announcing }, action)
    }

    /// Whether the call waits for work of the kind that `event` reports.
    pub fn expects(&self, event: &ToolCallEvent) -> (r: bool)
        ensures
            r == tool_call_accepts(self.spec_phase(), *event),
    {
        match (self.phase, event) {
            (ToolCallPhase::Authorizing, ToolCallEvent::Authorized { .. })
            | (ToolCallPhase::Authorizing, ToolCallEvent::AuthorizationFailed { .. })
            | (ToolCallPhase::PublishingRequest, ToolCallEvent::Published)
            | (ToolCallPhase::PublishingRequest, ToolCallEvent::PublishFailed { .. })
            | (ToolCallPhase::PublishingCancel, ToolCallEvent::Published)
            | (ToolCallPhase::PublishingCancel, ToolCallEvent::PublishFailed { .. })
            | (ToolCallPhase::AwaitingDecision, ToolCallEvent::Decided { .. })
            | (ToolCallPhase::AwaitingDecision, ToolCallEvent::DecisionLost)
            | (ToolCallPhase::AwaitingDecision, ToolCallEvent::Cancelled)
            | (ToolCallPhase::CallingTool, ToolCallEvent::ToolReturned { .. })
            | (ToolCallPhase::CallingTool, ToolCallEvent::ToolFailed { .. })
            | (ToolCallPhase::CallingTool, ToolCallEvent::Cancelled) => true,
            (ToolCallPhase::Authorizing, _)
            | (ToolCallPhase::PublishingRequest, _)
            | (ToolCallPhase::PublishingCancel, _)
            | (ToolCallPhase::AwaitingDecision, _)
            | (ToolCallPhase::CallingTool, _)
            | (ToolCallPhase::Done, _) => false,
            (_, ToolCallEvent::Announced) => true,
            _ => false,
        }
    }

    fn announce_failure(&mut self, error_text: String) -> (action: ToolCallAction)
        ensures
            final(self).spec_phase() is AnnouncingFailure,
            final(self).spec_carried() == error_text@,
            final(self).spec_call() == old(self).spec_call(),
            final(self).spec_approval_id() == old(self).spec_approval_id(),
            final(self).spec_usage() == old(self).spec_usage(),
            action matches ToolCallAction::AnnounceFailure { call_id, error_text: t } && call_id
                == old(self).spec_call().call_id && t@ == error_text@,
    {
        self.carried = error_text.clone();
        self.phase = ToolCallPhase::AnnouncingFailure;
        ToolCallAction::AnnounceFailure { call_id: self.call.call_id.clone(), error_text }
    }

    fn call_tool(&mut self) -> (action: ToolCallAction)
        ensures
            final(self).spec_phase() is CallingTool,
            final(self).spec_carried() == old(self).spec_carried(),
            final(self).spec_call() == old(self).spec_call(),
            final(self).spec_approval_id() == old(self).spec_approval_id(),
            final(self).spec_usage() == old(self).spec_usage(),
            action == (ToolCallAction::CallTool {
                name: old(self).spec_call().name,
                call_id: old(self).spec_call().call_id,
                arguments: old(self).spec_call().arguments,
            }),
    {
        self.phase = ToolCallPhase::CallingTool;
        ToolCallAction::CallTool {
            name: self.call.name.clone(),
            call_id: self.call.call_id.clone(),
            arguments: self.call.arguments.clone(),
        }
    }

    /// Takes the outcome of the outside work and decides what comes next.
    #[verifier::rlimit(40)]
    pub fn step(&mut self, event: ToolCallEvent) -> (action: ToolCallAction)
        requires
            tool_call_accepts(old(self).spec_phase(), event),
        ensures
            final(self).spec_call() == old(self).spec_call(),
            final(self).spec_approval_id() == old(self).spec_approval_id(),
            final(self).spec_usage() == old(self).spec_usage(),
            action matches ToolCallAction::PublishCancelled { usage } ==> usage == old(self).spec_usage(),
            tool_call_step_spec(
                old(self).spec_call(),
                old(self).spec_approval_id(),
                old(self).spec_phase(),
                old(self).spec_carried(),
                event,
                final(self).spec_phase(),
                action,
            ),
    {
        proof {
            reveal_strlit("user rejected tool call");
        }
        match event {
            ToolCallEvent::Announced => match self.phase {
                ToolCallPhase::Announcing => {
                    self.phase = ToolCallPhase::Authorizing;
                    ToolCallAction::Authorize { name: self.call.name.clone() }
                },
                ToolCallPhase::AnnouncingDecision { decision } => match decision {
                    ApprovalDecision::Approve => self.call_tool(),
                    ApprovalDecision::Reject => {
                        self.phase = ToolCallPhase::AnnouncingRejection;
                        ToolCallAction::AnnounceFailure {
                            call_id: self.call.call_id.clone(),
                            error_text: owned("user rejected tool call"),
                        }
                    },
                },
                ToolCallPhase::AnnouncingFailure => {
                    self.phase = ToolCallPhase::Done;
                    let mut message = ChatMessage::text(ChatRole::Tool, self.carried.as_str());
                    message.tool_call_id = Some(self.call.call_id.clone());
                    ToolCallAction::Finish { result: Ok(message) }
                },
                ToolCallPhase::AnnouncingRejection => {
                    self.phase = ToolCallPhase::Done;
                    let payload = owned(
                        "{\"error\":{\"message\":\"user rejected tool call\",\"type\":\"approval_rejected\"}}",
                    );
                    ToolCallAction::Finish { result: Ok(ChatMessage::tool(self.call.call_id.clone(), payload)) }
                },
                _ => {
                    self.phase = ToolCallPhase::Done;
                    let payload = self.carried.clone();
                    ToolCallAction::Finish { result: Ok(ChatMessage::tool(self.call.call_id.clone(), payload)) }
                },
            },
            ToolCallEvent::Authorized { approval } => match approval {
                None => self.call_tool(),
                Some((tool_kind, danger_level)) => {
                    self.phase = ToolCallPhase::PublishingRequest;
                    ToolCallAction::PublishApprovalRequest {
                        approval_id: self.approval_id.clone(),
                        call_id: self.call.call_id.clone(),
                        tool_name: self.call.name.clone(),
                        arguments: self.call.arguments.clone(),
                        tool_kind,
                        danger_level,
                    }
                },
            },
            ToolCallEvent::AuthorizationFailed { error_text } => self.announce_failure(error_text),
            ToolCallEvent::Published => match self.phase {
                ToolCallPhase::PublishingRequest => {
                    self.phase = ToolCallPhase::AwaitingDecision;
                    ToolCallAction::AwaitDecision { approval_id: self.approval_id.clone() }
                },
                _ => {
                    self.phase = ToolCallPhase::Done;
                    ToolCallAction::Finish { result: Err(AgentError::Cancelled) }
                },
            },
            ToolCallEvent::PublishFailed { source } => {
                self.phase = ToolCallPhase::Done;
                ToolCallAction::Finish { result: Err(AgentError::EventBus { source }) }
            },
            ToolCallEvent::Decided { decision } => {
                self.phase = ToolCallPhase::AnnouncingDecision { decision };
                ToolCallAction::AnnounceDecision { approval_id: self.approval_id.clone(), decision }
            },
            ToolCallEvent::DecisionLost => {
                self.phase = ToolCallPhase::Done;
                ToolCallAction::Finish { result: Err(AgentError::NoActiveTurn) }
            },
            ToolCallEvent::Cancelled => {
                self.phase = ToolCallPhase::PublishingCancel;
                ToolCallAction::PublishCancelled { usage: self.usage }
            },
            ToolCallEvent::ToolReturned { result } => {
                self.carried = result.clone();
                self.phase = ToolCallPhase::AnnouncingResult;
                ToolCallAction::AnnounceResult { call_id: self.call.call_id.clone(), result }
            },
            ToolCallEvent::ToolFailed { error_text } => self.announce_failure(error_text),
        }
    }
}

/// A tool of a turn runs only when the registry needs no approval for it, or after the user
/// approved it and the decision was announced.
pub proof fn law_turn_tool_runs_only_when_approved(
    call: ToolCall,
    approval_id: Seq<char>,
    p: ToolCallPhase,
    carried: Seq<char>,
    event: ToolCallEvent,
    q: ToolCallPhase,
    name: String,
    call_id: String,
    arguments: String,
)
    requires
        tool_call_step_spec(
            call,
            approval_id,
            p,
            carried,
            event,
            q,
            ToolCallAction::CallTool { name, call_id, arguments },
        ),
    ensures
        (event matches ToolCallEvent::Authorized { approval } && approval is None) || (p == (
        ToolCallPhase::AnnouncingDecision { decision: ApprovalDecision::Approve }) && event is Announced),
{
}

} // verus!
