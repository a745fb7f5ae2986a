//! Errors of stateful agent operations and the validation of a persisted turn before resume.

use vstd::prelude::*;

use crate::agent_loop::error::{role_debug_name, role_debug_text};
use crate::core_types::{ChatMessage, ChatRole, ToolCall};
use crate::infra::EventStreamBusError;
use crate::llm::LlmError;
use crate::store::{AgentStatus, StoreError};
use crate::text::{decimal, push_decimal, push_str};

verus! {

/// Error returned by agent operations.
#[derive(Debug)]
pub enum AgentError {
    /// Input message role is not accepted by a turn.
    InvalidInputMessageRole { role: ChatRole },
    /// Another run is already active for this stateful agent.
    RunAlreadyActive,
    /// Durable state contains an unfinished run that must be resumed.
    PersistedRunRequiresResume { run_id: String, turn_id: String },
    /// No agent turn is currently active.
    NoActiveTurn,
    /// The requested tool approval is not active.
    ApprovalNotFound { approval_id: String },
    /// The approval decision is not supported by this runtime.
    UnsupportedApprovalDecision,
    /// LLM provider operation failed.
    Llm { source: LlmError },
    /// Event bus operation failed.
    EventBus { source: EventStreamBusError },
    /// Agent store operation failed.
    Store { source: StoreError },
    /// Persisted state cannot be resumed because it is not running.
    ResumeNotRunning { actual: AgentStatus },
    /// Persisted state has a resumable turn that must be resumed instead.
    LoadHistoryRunning,
    /// Persisted running state has no run identity.
    ResumeRunMissing,
    /// Persisted running state has no turn identity.
    ResumeTurnMissing,
    /// Persisted state belongs to another agent.
    ResumeAgentMismatch { expected: String, actual: String },
    /// Persisted message history cannot form a resumable conversation.
    InvalidResumeHistory,
    /// A persisted iteration cannot be represented by the loop implementation.
    IterationOutOfRange { iteration: u64 },
    /// A required builder field was not provided.
    MissingBuilderField { field: &'static str },
    /// A turn requested more tool calls than allowed.
    ToolCallLimitExceeded { limit: usize },
    /// The run reached the configured turn limit.
    TurnLimitExceeded { limit: usize },
    /// A streamed tool call ended without enough information to execute.
    IncompleteToolCall { call_id: String },
    /// The run was cancelled.
    Cancelled,
}

/// Debug name of a persisted status.
pub open spec fn status_debug_text(s: AgentStatus) -> Seq<char> {
    match s {
        AgentStatus::Idle => "Idle"@,
        AgentStatus::Running => "Running"@,
        AgentStatus::Finished => "Finished"@,
        AgentStatus::Failed => "Failed"@,
        AgentStatus::Cancelled => "Cancelled"@,
    }
}

fn status_debug_name(s: AgentStatus) -> (r: &'static str)
    ensures
        r@ == status_debug_text(s),
{
    match s {
        AgentStatus::Idle => "Idle",
        AgentStatus::Running => "Running",
        AgentStatus::Finished => "Finished",
        AgentStatus::Failed => "Failed",
        AgentStatus::Cancelled => "Cancelled",
    }
}

/// The human-readable description of an agent failure.
pub open spec fn agent_error_text(e: AgentError) -> Seq<char> {
    match e {
        AgentError::InvalidInputMessageRole { role } => "invalid input message role: "@ + role_debug_text(role),
        AgentError::RunAlreadyActive => "agent run is already active"@,
        AgentError::PersistedRunRequiresResume { .. } => "persisted agent run requires resume"@,
        AgentError::NoActiveTurn => "no agent turn is active"@,
        AgentError::ApprovalNotFound { approval_id } => "tool approval is not active: "@ + approval_id@,
        AgentError::UnsupportedApprovalDecision => "unsupported tool approval decision"@,
        AgentError::Llm { .. } => "llm operation failed"@,
        AgentError::EventBus { .. } => "event bus operation failed"@,
        AgentError::Store { .. } => "agent store operation failed"@,
        AgentError::ResumeNotRunning { actual } => "persisted agent is not running: "@ + status_debug_text(actual),
        AgentError::LoadHistoryRunning => "cannot load history from a persisted running agent"@,
        AgentError::ResumeRunMissing => "persisted running agent has no run id"@,
        AgentError::ResumeTurnMissing => "persisted running agent has no turn id"@,
        AgentError::ResumeAgentMismatch { expected, actual } => "resume agent mismatch: expected "@
            + expected@ + ", actual "@ + actual@,
        AgentError::InvalidResumeHistory => "invalid resume history"@,
        AgentError::IterationOutOfRange { iteration } => "iteration cannot be represented: "@ + decimal(
            iteration as nat,
        ),
        AgentError::MissingBuilderField { field } => "missing builder field: "@ + field@,
        AgentError::ToolCallLimitExceeded { limit } => "tool call limit exceeded: "@ + decimal(limit as nat),
        AgentError::TurnLimitExceeded { limit } => "turn limit exceeded: "@ + decimal(limit as nat),
        AgentError::IncompleteToolCall { call_id } => "incomplete tool call: "@ + call_id@,
        AgentError::Cancelled => "agent run cancelled"@,
    }
}

impl AgentError {
    /// The human-readable description of this failure.
    pub fn text(&self) -> (r: String)
        ensures
            r@ == agent_error_text(*self),
    {
        let mut r = String::new();
        match self {
            AgentError::InvalidInputMessageRole { role } => {
                push_str(&mut r, "invalid input message role: ");
                push_str(&mut r, role_debug_name(*role));
            },
            AgentError::RunAlreadyActive => push_str(&mut r, "agent run is already active"),
            AgentError::PersistedRunRequiresResume { .. } => push_str(
                &mut r,
                "persisted agent run requires resume",
            ),
            AgentError::NoActiveTurn => push_str(&mut r, "no agent turn is active"),
            AgentError::ApprovalNotFound { approval_id } => {
                push_str(&mut r, "tool approval is not active: ");
                push_str(&mut r, approval_id.as_str());
            },
            AgentError::UnsupportedApprovalDecision => push_str(
                &mut r,
                "unsupported tool approval decision",
            ),
            AgentError::Llm { .. } => push_str(&mut r, "llm operation failed"),
            AgentError::EventBus { .. } => push_str(&mut r, "event bus operation failed"),
            AgentError::Store { .. } => push_str(&mut r, "agent store operation failed"),
            AgentError::ResumeNotRunning { actual } => {
                push_str(&mut r, "persisted agent is not running: ");
                push_str(&mut r, status_debug_name(*actual));
            },
            AgentError::LoadHistoryRunning => push_str(
                &mut r,
                "cannot load history from a persisted running agent",
            ),
            AgentError::ResumeRunMissing => push_str(&mut r, "persisted running agent has no run id"),
            AgentError::ResumeTurnMissing => push_str(&mut r, "persisted running agent has no turn id"),
            AgentError::ResumeAgentMismatch { expected, actual } => {
                push_str(&mut r, "resume agent mismatch: expected ");
                push_str(&mut r, expected.as_str());
                push_str(&mut r, ", actual ");
                push_str(&mut r, actual.as_str());
            },
            AgentError::InvalidResumeHistory => push_str(&mut r, "invalid resume history"),
            AgentError::IterationOutOfRange { iteration } => {
                push_str(&mut r, "iteration cannot be represented: ");
                push_decimal(&mut r, *iteration);
            },
            AgentError::MissingBuilderField { field } => {
                push_str(&mut r, "missing builder field: ");
                push_str(&mut r, field);
            },
            AgentError::ToolCallLimitExceeded { limit } => {
                push_str(&mut r, "tool call limit exceeded: ");
                push_decimal(&mut r, *limit as u64);
            },
            AgentError::TurnLimitExceeded { limit } => {
                push_str(&mut r, "turn limit exceeded: ");
                push_decimal(&mut r, *limit as u64);
            },
            AgentError::IncompleteToolCall { call_id } => {
                push_str(&mut r, "incomplete tool call: ");
                push_str(&mut r, call_id.as_str());
            },
            AgentError::Cancelled => push_str(&mut r, "agent run cancelled"),
        }
        r
    }
}

impl From<LlmError> for AgentError {
    fn from(source: LlmError) -> (r: Self) {
        AgentError::Llm { source }
    }
}

impl vstd::std_specs::convert::FromSpecImpl<LlmError> for AgentError {
    open spec fn obeys_from_spec() -> bool {
        true
    }

    open spec fn from_spec(source: LlmError) -> Self {
        AgentError::Llm { source }
    }
}

impl From<EventStreamBusError> for AgentError {
    fn from(source: EventStreamBusError) -> (r: Self) {
        AgentError::EventBus { source }
    }
}

impl vstd::std_specs::convert::FromSpecImpl<EventStreamBusError> for AgentError {
    open spec fn obeys_from_spec() -> bool {
        true
    }

    open spec fn from_spec(source: EventStreamBusError) -> Self {
        AgentError::EventBus { source }
    }
}

impl From<StoreError> for AgentError {
    fn from(source: StoreError) -> (r: Self) {
        AgentError::Store { source }
    }
}

impl vstd::std_specs::convert::FromSpecImpl<StoreError> for AgentError {
    open spec fn obeys_from_spec() -> bool {
        true
    }

    open spec fn from_spec(source: StoreError) -> Self {
        AgentError::Store { source }
    }
}

} // verus!
