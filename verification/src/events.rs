//! Typed events emitted by the agent loop.

use vstd::prelude::*;

use crate::core_types::{ApprovalDecision, ChatMessage, DangerLevel, TokenUsage, ToolKind};

verus! {

/// Durable agent-loop events that require persistence acknowledgement.
#[derive(Debug, PartialEq)]
pub enum DurableAgentEvent {
    /// Agent loop started.
    LoopStarted,
    /// A complete message was appended to committed loop context.
    MessageAppended {
        /// Complete message payload.
        message: ChatMessage,
    },
    /// A tool call requires user approval.
    ToolApprovalRequested {
        /// Approval request identity.
        approval_id: String,
        /// Tool call identity.
        call_id: String,
        /// Provider-visible tool name.
        tool_name: String,
        /// Tool call arguments as compact JSON text.
        arguments: String,
        /// Whether the tool observes or mutates state.
        tool_kind: ToolKind,
        /// Declared danger of the tool.
        danger_level: DangerLevel,
    },
    /// A tool approval request was resolved.
    ToolApprovalResolved {
        /// Approval request identity.
        approval_id: String,
        /// User decision.
        decision: ApprovalDecision,
    },
    /// A tool began executing after validation and approval.
    ToolExecutionStarted {
        /// Tool call identity.
        call_id: String,
        /// Provider-visible tool name.
        tool_name: String,
    },
    /// One loop iteration reached its durable boundary.
    IterationCompleted {
        /// Iteration number.
        iteration: u64,
        /// Token usage accumulated through this iteration.
        usage: TokenUsage,
    },
    /// Agent loop finished successfully.
    LoopFinished {
        /// Why the loop finished.
        finish_reason: String,
        /// Token usage accumulated by the loop.
        usage: TokenUsage,
    },
    /// Agent loop failed.
    LoopFailed {
        /// Error text safe to expose to callers.
        error_text: String,
        /// Token usage accumulated by the loop.
        usage: TokenUsage,
    },
    /// Agent loop was cancelled.
    LoopCancelled {
        /// Token usage accumulated by the loop.
        usage: TokenUsage,
    },
}

/// Stable serialized name of a durable event.
pub open spec fn durable_event_type_text(event: DurableAgentEvent) -> Seq<char> {
    match event {
        DurableAgentEvent::LoopStarted => "loop_started"@,
        DurableAgentEvent::MessageAppended { .. } => "message_appended"@,
        DurableAgentEvent::ToolApprovalRequested { .. } => "tool_approval_requested"@,
        DurableAgentEvent::ToolApprovalResolved { .. } => "tool_approval_resolved"@,
        DurableAgentEvent::ToolExecutionStarted { .. } => "tool_execution_started"@,
        DurableAgentEvent::IterationCompleted { .. } => "iteration_completed"@,
        DurableAgentEvent::LoopFinished { .. } => "loop_finished"@,
        DurableAgentEvent::LoopFailed { .. } => "loop_failed"@,
        DurableAgentEvent::LoopCancelled { .. } => "loop_cancelled"@,
    }
}

impl DurableAgentEvent {
    /// Returns the stable serialized event type name.
    pub fn event_type(&self) -> (r: &'static str)
        ensures
            r@ == durable_event_type_text(*self),
    {
        match self {
            DurableAgentEvent::LoopStarted => "loop_started",
            DurableAgentEvent::MessageAppended { .. } => "message_appended",
            DurableAgentEvent::ToolApprovalRequested { .. } => "tool_approval_requested",
            DurableAgentEvent::ToolApprovalResolved { .. } => "tool_approval_resolved",
            DurableAgentEvent::ToolExecutionStarted { .. } => "tool_execution_started",
            DurableAgentEvent::IterationCompleted { .. } => "iteration_completed",
            DurableAgentEvent::LoopFinished { .. } => "loop_finished",
            DurableAgentEvent::LoopFailed { .. } => "loop_failed",
            DurableAgentEvent::LoopCancelled { .. } => "loop_cancelled",
        }
    }
}

/// Best-effort agent-loop telemetry that does not control loop progress.
#[derive(Debug, PartialEq)]
pub enum AgentTelemetryEvent {
    /// An LLM call started.
    LlmStarted {
        /// LLM call identity.
        llm_call_id: String,
    },
    /// An LLM call emitted visible text.
    TextDelta {
        /// LLM call identity.
        llm_call_id: String,
        /// Visible text fragment.
        delta: String,
    },
    /// An LLM call emitted reasoning text.
    ReasoningDelta {
        /// LLM call identity.
        llm_call_id: String,
        /// Reasoning text fragment.
        delta: String,
    },
    /// An LLM call emitted a tool-call update.
    ToolCallDelta {
        /// LLM call identity.
        llm_call_id: String,
        /// Tool call identity.
        call_id: String,
        /// Provider-visible tool name when known.
        name: Option<String>,
        /// Raw argument text fragment.
        arguments_delta: String,
    },
    /// An LLM call finished.
    LlmFinished {
        /// LLM call identity.
        llm_call_id: String,
        /// Why the LLM call finished.
        finish_reason: String,
        /// Token usage reported by the provider, when available.
        usage: Option<TokenUsage>,
    },
}

/// Stable serialized name of a telemetry event.
pub open spec fn telemetry_event_type_text(event: AgentTelemetryEvent) -> Seq<char> {
    match event {
        AgentTelemetryEvent::LlmStarted { .. } => "llm_started"@,
        AgentTelemetryEvent::TextDelta { .. } => "text_delta"@,
        AgentTelemetryEvent::ReasoningDelta { .. } => "reasoning_delta"@,
        AgentTelemetryEvent::ToolCallDelta { .. } => "tool_call_delta"@,
        AgentTelemetryEvent::LlmFinished { .. } => "llm_finished"@,
    }
}

impl AgentTelemetryEvent {
    /// Returns the stable serialized event type name.
    pub fn event_type(&self) -> (r: &'static str)
        ensures
            r@ == telemetry_event_type_text(*self),
    {
        match self {
            AgentTelemetryEvent::LlmStarted { .. } => "llm_started",
            AgentTelemetryEvent::TextDelta { .. } => "text_delta",
            AgentTelemetryEvent::ReasoningDelta { .. } => "reasoning_delta",
            AgentTelemetryEvent::ToolCallDelta { .. } => "tool_call_delta",
            AgentTelemetryEvent::LlmFinished { .. } => "llm_finished",
        }
    }
}

} // verus!
