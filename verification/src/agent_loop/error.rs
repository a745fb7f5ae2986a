//! Typed failures that stop the agent loop kernel.

use vstd::prelude::*;

use crate::core_types::ChatRole;
use crate::infra::DurableEventSinkError;
use crate::llm::LlmError;
use crate::text::{decimal, push_decimal, push_str};
use crate::tool_executor::ToolExecutorError;

verus! {

/// Failure returned by a lifecycle hook callback.
#[derive(Debug, Clone, PartialEq, Eq)]
pub struct AgentLoopHookError {
    /// Description of the underlying hook failure.
    pub source_text: String,
}

impl AgentLoopHookError {
    /// Wraps a hook failure described by `source_text`.
    pub fn new(source_text: &str) -> (r: Self)
        ensures
            r.source_text@ == source_text@,
    {
        AgentLoopHookError { source_text: source_text.to_owned() }
    }

    /// The error's own message; the wrapped failure is its source.
    pub fn text(&self) -> (r: &'static str)
        ensures
            r@ == "agent loop hook callback failed"@,
    {
        "agent loop hook callback failed"
    }
}

/// Lifecycle callback that failed.
#[derive(Debug, Clone, Copy, PartialEq, Eq, Structural)]
pub enum AgentLoopHookStage {
    /// Before each model iteration.
    BeforeIteration,
    /// Before provider dispatch.
    BeforeLlmCall,
    /// After a complete model response.
    AfterLlmCall,
    /// After a model failure.
    OnLlmError,
    /// Before tool orchestration.
    BeforeToolCall,
    /// After a tool result.
    AfterToolCall,
    /// After all iteration messages were committed.
    AfterIteration,
}

/// Stable name of a hook stage.
pub open spec fn hook_stage_text(stage: AgentLoopHookStage) -> Seq<char> {
    match stage {
        AgentLoopHookStage::BeforeIteration => "before_iteration"@,
        AgentLoopHookStage::BeforeLlmCall => "before_llm_call"@,
        AgentLoopHookStage::AfterLlmCall => "after_llm_call"@,
        AgentLoopHookStage::OnLlmError => "on_llm_error"@,
        AgentLoopHookStage::BeforeToolCall => "before_tool_call"@,
        AgentLoopHookStage::AfterToolCall => "after_tool_call"@,
        AgentLoopHookStage::AfterIteration => "after_iteration"@,
    }
}

impl AgentLoopHookStage {
    /// Returns the stable name of this stage.
    pub fn name(&self) -> (r: &'static str)
        ensures
            r@ == hook_stage_text(*self),
    {
        match self {
            AgentLoopHookStage::BeforeIteration => "before_iteration",
            AgentLoopHookStage::BeforeLlmCall => "before_llm_call",
            AgentLoopHookStage::AfterLlmCall => "after_llm_call",
            AgentLoopHookStage::OnLlmError => "on_llm_error",
            AgentLoopHookStage::BeforeToolCall => "before_tool_call",
            AgentLoopHookStage::AfterToolCall => "after_tool_call",
            AgentLoopHookStage::AfterIteration => "after_iteration",
        }
    }
}

/// Failure to construct an agent loop.
#[derive(Debug, Clone, Copy, PartialEq, Eq, Structural)]
pub enum AgentLoopBuildError {
    /// The model provider was not supplied.
    MissingLlmProvider,
    /// The tool executor was not supplied.
    MissingToolExecutor,
    /// The telemetry sink was not supplied.
    MissingTelemetry,
}

/// Agent-loop protocol invariant that a provider response violated.
#[derive(Debug)]
pub enum ProtocolError {
    /// A loop run did not receive any new user prompt.
    EmptyPrompts,
    /// A new prompt had a role other than user.
    InvalidPromptRole {
        /// Role rejected at the prompt boundary.
        role: ChatRole,
    },
    /// The provider stream ended without a terminal finish event.
    StreamEndedWithoutFinish,
    /// Tool-call indices skipped an earlier position.
    SparseToolCallIndex {
        /// Next contiguous index required by the protocol.
        expected: usize,
        /// Provider index that skipped the expected position.
        actual: usize,
    },
    /// One streamed index changed its provider call identity.
    ConflictingToolCallId {
        /// Provider position of the conflicting call.
        index: usize,
        /// First identity received for the position.
        existing: String,
        /// Later conflicting identity.
        received: String,
    },
    /// One streamed index changed its provider-visible tool name.
    ConflictingToolCallName {
        /// Provider position of the conflicting call.
        index: usize,
        /// First name received for the position.
        existing: String,
        /// Later conflicting name.
        received: String,
    },
    /// A finalized tool call reused an identity from its batch or committed loop context.
    DuplicateToolCallId {
        /// Duplicated provider call identity.
        call_id: String,
    },
    /// A streamed tool call did not contain every required field.
    IncompleteToolCall {
        /// Provider position of the incomplete call.
        index: usize,
        /// Provider identity when it was received.
        call_id: Option<String>,
    },
    /// Tool-call argument fragments did not form valid JSON.
    MalformedToolCallArguments {
        /// Provider identity of the malformed tool call.
        call_id: String,
        /// JSON parsing failure.
        source: serde_json::Error,
    },
    /// A tool executor returned a non-JSON tool result message.
    InvalidToolResultContent {
        /// Tool call whose result violated the executor contract.
        call_id: String,
    },
}

/// Failure that prevents the agent loop from preserving its invariants.
#[derive(Debug)]
pub enum AgentLoopError {
    /// A lifecycle hook rejected or failed an agent-loop boundary.
    Hook {
        /// Callback boundary that failed.
        stage: AgentLoopHookStage,
        /// Hook implementation failure.
        source: AgentLoopHookError,
    },
    /// A required durable event was not acknowledged.
    Durability {
        /// Durable event sink failure.
        source: DurableEventSinkError,
    },
    /// Recording a terminal event failed after another loop operation had already failed.
    TerminalDurability {
        /// Operation failure that initiated terminal recording.
        operation: Box<AgentLoopError>,
        /// Durable terminal event sink failure.
        source: DurableEventSinkError,
    },
    /// The model provider failed before producing a recoverable response.
    Llm {
        /// Model provider failure.
        source: LlmError,
    },
    /// Approval or execution orchestration failed before producing a tool result.
    ToolExecution {
        /// Tool executor failure.
        source: ToolExecutorError,
    },
    /// A provider response violated the loop protocol.
    InvalidProtocol {
        /// Typed protocol violation.
        reason: ProtocolError,
    },
    /// The caller cancelled the loop before a terminal outcome was committed.
    Cancelled,
    /// The run reached its model-iteration bound.
    IterationLimitExceeded {
        /// Configured maximum number of iterations.
        maximum: usize,
    },
    /// One model response exceeded its tool-call bound.
    ToolCallLimitExceeded {
        /// Configured maximum number of tool calls per iteration.
        maximum: usize,
    },
    /// Streamed assistant text exceeded its byte bound.
    TextByteLimitExceeded {
        /// Configured maximum number of bytes.
        maximum: usize,
    },
    /// Streamed reasoning exceeded its byte bound.
    ReasoningByteLimitExceeded {
        /// Configured maximum number of bytes.
        maximum: usize,
    },
    /// One streamed tool call exceeded its argument byte bound.
    ToolArgumentByteLimitExceeded {
        /// Configured maximum number of bytes.
        maximum: usize,
    },
}

/// Debug name of a chat role.
pub open spec fn role_debug_text(role: ChatRole) -> Seq<char> {
    match role {
        ChatRole::System => "System"@,
        ChatRole::User => "User"@,
        ChatRole::Assistant => "Assistant"@,
        ChatRole::Tool => "Tool"@,
    }
}

/// The debug name of a message role.
pub fn role_debug_name(role: ChatRole) -> (r: &'static str)
    ensures
        r@ == role_debug_text(role),
{
    match role {
        ChatRole::System => "System",
        ChatRole::User => "User",
        ChatRole::Assistant => "Assistant",
        ChatRole::Tool => "Tool",
    }
}

/// Human-readable description of a protocol violation.
pub open spec fn protocol_error_text(e: ProtocolError) -> Seq<char> {
    match e {
        ProtocolError::EmptyPrompts => "agent loop prompts are empty"@,
        ProtocolError::InvalidPromptRole { role } => "agent loop prompt has invalid role "@
            + role_debug_text(role),
        ProtocolError::StreamEndedWithoutFinish => "stream ended without a finish event"@,
        ProtocolError::SparseToolCallIndex { expected, actual } => "tool call index "@ + decimal(
            actual as nat,
        ) + " is sparse; expected "@ + decimal(expected as nat),
        ProtocolError::ConflictingToolCallId { index, existing, received } => "tool call index "@
            + decimal(index as nat) + " changed call id from "@ + existing@ + " to "@ + received@,
        ProtocolError::ConflictingToolCallName { index, existing, received } => "tool call index "@
            + decimal(index as nat) + " changed name from "@ + existing@ + " to "@ + received@,
        ProtocolError::DuplicateToolCallId { call_id } => "duplicate tool call id "@ + call_id@,
        ProtocolError::IncompleteToolCall { index, .. } => "tool call at index "@ + decimal(
            index as nat,
        ) + " is incomplete"@,
        ProtocolError::MalformedToolCallArguments { call_id, .. } => "tool call "@ + call_id@
            + " arguments are invalid"@,
        ProtocolError::InvalidToolResultContent { call_id } => "tool result "@ + call_id@
            + " does not contain JSON"@,
    }
}

impl ProtocolError {
    /// Returns the human-readable description of this violation.
    pub fn text(&self) -> (r: String)
        ensures
            r@ == protocol_error_text(*self),
    {
        let mut r = String::new();
        match self {
            ProtocolError::EmptyPrompts => push_str(&mut r, "agent loop prompts are empty"),
            ProtocolError::InvalidPromptRole { role } => {
                push_str(&mut r, "agent loop prompt has invalid role ");
                push_str(&mut r, role_debug_name(*role));
            },
            ProtocolError::StreamEndedWithoutFinish => push_str(
                &mut r,
                "stream ended without a finish event",
            ),
            ProtocolError::SparseToolCallIndex { expected, actual } => {
                push_str(&mut r, "tool call index ");
                push_decimal(&mut r, *actual as u64);
                push_str(&mut r, " is sparse; expected ");
                push_decimal(&mut r, *expected as u64);
            },
            ProtocolError::ConflictingToolCallId { index, existing, received } => {
                push_str(&mut r, "tool call index ");
                push_decimal(&mut r, *index as u64);
                push_str(&mut r, " changed call id from ");
                push_str(&mut r, existing.as_str());
                push_str(&mut r, " to ");
                push_str(&mut r, received.as_str());
            },
            ProtocolError::ConflictingToolCallName { index, existing, received } => {
                push_str(&mut r, "tool call index ");
                push_decimal(&mut r, *index as u64);
                push_str(&mut r, " changed name from ");
                push_str(&mut r, existing.as_str());
                push_str(&mut r, " to ");
                push_str(&mut r, received.as_str());
            },
            ProtocolError::DuplicateToolCallId { call_id } => {
                push_str(&mut r, "duplicate tool call id ");
                push_str(&mut r, call_id.as_str());
            },
            ProtocolError::IncompleteToolCall { index, .. } => {
                push_str(&mut r, "tool call at index ");
                push_decimal(&mut r, *index as u64);
                push_str(&mut r, " is incomplete");
            },
            ProtocolError::MalformedToolCallArguments { call_id, .. } => {
                push_str(&mut r, "tool call ");
                push_str(&mut r, call_id.as_str());
                push_str(&mut r, " arguments are invalid");
            },
            ProtocolError::InvalidToolResultContent { call_id } => {
                push_str(&mut r, "tool result ");
                push_str(&mut r, call_id.as_str());
                push_str(&mut r, " does not contain JSON");
            },
        }
        proof {
            assert(r@ =~= protocol_error_text(*self));
        }
        r
    }
}

/// Human-readable description of an agent-loop failure.
pub open spec fn loop_error_text(e: AgentLoopError) -> Seq<char> {
    match e {
        AgentLoopError::Hook { stage, .. } => "agent loop hook "@ + hook_stage_text(stage)
            + " failed"@,
        AgentLoopError::Durability { .. } => "durable agent event was not acknowledged"@,
        AgentLoopError::TerminalDurability { .. } =>
            "durable terminal agent event was not acknowledged"@,
        AgentLoopError::Llm { .. } => "llm operation failed"@,
        AgentLoopError::ToolExecution { .. } => "tool execution orchestration failed"@,
        AgentLoopError::InvalidProtocol { reason } => "invalid agent loop protocol: "@
            + protocol_error_text(reason),
        AgentLoopError::Cancelled => "agent loop cancelled"@,
        AgentLoopError::IterationLimitExceeded { maximum } => "maximum of "@ + decimal(
            maximum as nat,
        ) + " agent loop iterations reached"@,
        AgentLoopError::ToolCallLimitExceeded { maximum } => "maximum of "@ + decimal(
            maximum as nat,
        ) + " tool calls per iteration exceeded"@,
        AgentLoopError::TextByteLimitExceeded { maximum } => "maximum of "@ + decimal(
            maximum as nat,
        ) + " streamed assistant text bytes exceeded"@,
        AgentLoopError::ReasoningByteLimitExceeded { maximum } => "maximum of "@ + decimal(
            maximum as nat,
        ) + " streamed reasoning bytes exceeded"@,
        AgentLoopError::ToolArgumentByteLimitExceeded { maximum } => "maximum of "@ + decimal(
            maximum as nat,
        ) + " streamed tool argument bytes exceeded"@,
    }
}

impl AgentLoopError {
    /// Returns the human-readable description of this failure.
    pub fn text(&self) -> (r: String)
        ensures
            r@ == loop_error_text(*self),
    {
        let mut r = String::new();
        match self {
            AgentLoopError::Hook { stage, .. } => {
                push_str(&mut r, "agent loop hook ");
                push_str(&mut r, stage.name());
                push_str(&mut r, " failed");
            },
            AgentLoopError::Durability { .. } => push_str(
                &mut r,
                "durable agent event was not acknowledged",
            ),
            AgentLoopError::TerminalDurability { .. } => push_str(
                &mut r,
                "durable terminal agent event was not acknowledged",
            ),
            AgentLoopError::Llm { .. } => push_str(&mut r, "llm operation failed"),
            AgentLoopError::ToolExecution { .. } => push_str(
                &mut r,
                "tool execution orchestration failed",
            ),
            AgentLoopError::InvalidProtocol { reason } => {
                push_str(&mut r, "invalid agent loop protocol: ");
                let t = reason.text();
                push_str(&mut r, t.as_str());
            },
            AgentLoopError::Cancelled => push_str(&mut r, "agent loop cancelled"),
            AgentLoopError::IterationLimitExceeded { maximum } => {
                push_str(&mut r, "maximum of ");
                push_decimal(&mut r, *maximum as u64);
                push_str(&mut r, " agent loop iterations reached");
            },
            AgentLoopError::ToolCallLimitExceeded { maximum } => {
                push_str(&mut r, "maximum of ");
                push_decimal(&mut r, *maximum as u64);
                push_str(&mut r, " tool calls per iteration exceeded");
            },
            AgentLoopError::TextByteLimitExceeded { maximum } => {
                push_str(&mut r, "maximum of ");
                push_decimal(&mut r, *maximum as u64);
                push_str(&mut r, " streamed assistant text bytes exceeded");
            },
            AgentLoopError::ReasoningByteLimitExceeded { maximum } => {
                push_str(&mut r, "maximum of ");
                push_decimal(&mut r, *maximum as u64);
                push_str(&mut r, " streamed reasoning bytes exceeded");
            },
            AgentLoopError::ToolArgumentByteLimitExceeded { maximum } => {
                push_str(&mut r, "maximum of ");
                push_decimal(&mut r, *maximum as u64);
                push_str(&mut r, " streamed tool argument bytes exceeded");
            },
        }
        proof {
            assert(r@ =~= loop_error_text(*self));
        }
        r
    }
}

impl From<DurableEventSinkError> for AgentLoopError {
    fn from(source: DurableEventSinkError) -> (r: Self) {
        AgentLoopError::Durability { source }
    }
}

impl vstd::std_specs::convert::FromSpecImpl<DurableEventSinkError> for AgentLoopError {
    open spec fn obeys_from_spec() -> bool {
        true
    }

    open spec fn from_spec(source: DurableEventSinkError) -> Self {
        AgentLoopError::Durability { source }
    }
}

impl From<LlmError> for AgentLoopError {
    fn from(source: LlmError) -> (r: Self) {
        AgentLoopError::Llm { source }
    }
}

impl vstd::std_specs::convert::FromSpecImpl<LlmError> for AgentLoopError {
    open spec fn obeys_from_spec() -> bool {
        true
    }

    open spec fn from_spec(source: LlmError) -> Self {
        AgentLoopError::Llm { source }
    }
}

impl From<ProtocolError> for AgentLoopError {
    fn from(reason: ProtocolError) -> (r: Self) {
        AgentLoopError::InvalidProtocol { reason }
    }
}

impl vstd::std_specs::convert::FromSpecImpl<ProtocolError> for AgentLoopError {
    open spec fn obeys_from_spec() -> bool {
        true
    }

    open spec fn from_spec(reason: ProtocolError) -> Self {
        AgentLoopError::InvalidProtocol { reason }
    }
}

} // verus!
