//! Scoping of agent-loop events for the event stream, and the ordering decisions of the
//! scoped sink's publisher.
//!
//! Durable and telemetry events share one sequence. A telemetry event enqueued before a
//! durable event that is already being published is stale and is dropped instead of
//! being published after it.

use vstd::prelude::*;

use crate::core_types::{ApprovalDecision, ChatMessage, DangerLevel, TokenUsage, ToolKind};
use crate::events::{AgentTelemetryEvent, DurableAgentEvent};
use crate::infra::{DurableEventSinkError, EventStreamBusError};

verus! {

/// Publishes best-effort agent-loop telemetry.
pub trait TelemetryEventSink {
    /// Emits one telemetry event without affecting agent-loop control flow.
    fn emit(&self, event: AgentTelemetryEvent);
}

/// Role of the author of streamed model text.
#[derive(Debug, Clone, Copy, PartialEq, Eq, Structural)]
pub enum LlmCallRole {
    /// The assistant.
    Assistant,
}

/// Progress of one model call, as published on the event stream.
#[derive(Debug)]
pub enum LlmEvent {
    /// The call started.
    Started,
    /// Visible text fragment.
    TextDelta { role: LlmCallRole, delta: String },
    /// Reasoning fragment.
    ReasoningDelta { delta: String },
    /// Tool-call fragment.
    ToolCallDelta { call_id: String, name: Option<String>, arguments_delta: String },
    /// The call finished.
    Finished { finish_reason: String, usage: Option<TokenUsage> },
    /// The call failed.
    Failed { error_text: String },
    /// A tool call started.
    ToolCallStarted { call_id: String, name: Option<String> },
    /// A tool call finished with a JSON result.
    ToolCallFinished { call_id: String, result: String },
    /// A tool call failed.
    ToolCallFailed { call_id: String, error_text: String },
}

/// An agent event as published on the event stream.
#[derive(Debug)]
pub enum AgentEvent {
    /// The turn's loop started.
    Started { turn_id: String },
    /// A message was committed.
    Message { turn_id: String, message: ChatMessage },
    /// A tool call requires approval.
    ToolApprovalRequested {
        approval_id: String,
        agent_name: String,
        call_id: String,
        tool_name: String,
        arguments: String,
        tool_kind: ToolKind,
        danger_level: DangerLevel,
    },
    /// An approval was resolved.
    ToolApprovalResolved { approval_id: String, decision: ApprovalDecision },
    /// A tool began executing.
    ToolExecutionStarted { turn_id: String, call_id: String, tool_name: String },
    /// An iteration reached its durable boundary.
    IterationCompleted { turn_id: String, iteration: u64, usage: TokenUsage },
    /// The turn finished.
    Finished { finish_reason: String, usage: TokenUsage },
    /// The turn failed.
    Failed { error_text: String, usage: TokenUsage },
    /// The turn was cancelled.
    Cancelled { usage: TokenUsage },
    /// Progress of a model call.
    Llm { llm_call_id: String, event: LlmEvent },
}

/// The agent, run and turn that a sink scopes its events to.
#[derive(Debug)]
pub struct EventScope {
    /// Agent identity.
    pub agent_id: String,
    /// Agent name.
    pub agent_name: String,
    /// Run identity.
    pub run_id: String,
    /// Turn identity.
    pub turn_id: String,
}

/// The external event a durable loop event becomes within `scope`.
pub open spec fn scoped_durable_event(scope: EventScope, event: DurableAgentEvent) -> AgentEvent {
    match event {
        DurableAgentEvent::LoopStarted => AgentEvent::Started { turn_id: scope.turn_id },
        DurableAgentEvent::MessageAppended { message } => AgentEvent::Message { turn_id: scope.turn_id, message },
        DurableAgentEvent::ToolApprovalRequested {
            approval_id,
            call_id,
            tool_name,
            arguments,
            tool_kind,
            danger_level,
        } => AgentEvent::ToolApprovalRequested {
            approval_id,
            agent_name: scope.agent_name,
            call_id,
            tool_name,
            arguments,
            tool_kind,
            danger_level,
        },
        DurableAgentEvent::ToolApprovalResolved { approval_id, decision } => AgentEvent::ToolApprovalResolved {
            approval_id,
            decision,
        },
        DurableAgentEvent::ToolExecutionStarted { call_id, tool_name } => AgentEvent::ToolExecutionStarted {
            turn_id: scope.turn_id,
            call_id,
            tool_name,
        },
        DurableAgentEvent::IterationCompleted { iteration, usage } => AgentEvent::IterationCompleted {
            turn_id: scope.turn_id,
            iteration,
            usage,
        },
        DurableAgentEvent::LoopFinished { finish_reason, usage } => AgentEvent::Finished { finish_reason, usage },
        DurableAgentEvent::LoopFailed { error_text, usage } => AgentEvent::Failed { error_text, usage },
        DurableAgentEvent::LoopCancelled { usage } => AgentEvent::Cancelled { usage },
    }
}

/// The external event a telemetry event becomes.
pub open spec fn scoped_telemetry_event(event: AgentTelemetryEvent) -> AgentEvent {
    match event {
        AgentTelemetryEvent::LlmStarted { llm_call_id } => AgentEvent::Llm { llm_call_id, event: LlmEvent::Started },
        AgentTelemetryEvent::TextDelta { llm_call_id, delta } => AgentEvent::Llm {
            llm_call_id,
            event: LlmEvent::TextDelta { role: LlmCallRole::Assistant, delta },
        },
        AgentTelemetryEvent::ReasoningDelta { llm_call_id, delta } => AgentEvent::Llm {
            llm_call_id,
            event: LlmEvent::ReasoningDelta { delta },
        },
        AgentTelemetryEvent::ToolCallDelta { llm_call_id, call_id, name, arguments_delta } => AgentEvent::Llm {
            llm_call_id,
            event: LlmEvent::ToolCallDelta { call_id, name, arguments_delta },
        },
        AgentTelemetryEvent::LlmFinished { llm_call_id, finish_reason, usage } => AgentEvent::Llm {
            llm_call_id,
            event: LlmEvent::Finished { finish_reason, usage },
        },
    }
}

/// Whether `scoped` is `event` placed in `scope`: every external event that names a turn
/// names the scope's turn, an approval request names the scope's agent, and what the loop
/// event carried (message, call, tool, iteration, usage, finish reason, error) is kept.
pub open spec fn keeps_scope(scope: EventScope, event: DurableAgentEvent, scoped: AgentEvent) -> bool {
    &&& (scoped matches AgentEvent::Started { turn_id } ==> turn_id@ == scope.turn_id@)
    &&& (scoped matches AgentEvent::Message { turn_id, .. } ==> turn_id@ == scope.turn_id@)
    &&& (scoped matches AgentEvent::ToolExecutionStarted { turn_id, .. } ==> turn_id@ == scope.turn_id@)
    &&& (scoped matches AgentEvent::IterationCompleted { turn_id, .. } ==> turn_id@ == scope.turn_id@)
    &&& (scoped matches AgentEvent::ToolApprovalRequested { agent_name, .. } ==> agent_name@ == scope.agent_name@)
    &&& match event {
        DurableAgentEvent::LoopStarted => scoped is Started,
        DurableAgentEvent::MessageAppended { message } => scoped matches AgentEvent::Message { message: m, .. }
            && m == message,
        DurableAgentEvent::ToolApprovalRequested { approval_id, call_id, tool_name, arguments, tool_kind, danger_level } =>
            scoped matches AgentEvent::ToolApprovalRequested {
            approval_id: a,
            call_id: c,
            tool_name: t,
            arguments: x,
            tool_kind: k,
            danger_level: d,
            ..
        } && a == approval_id && c == call_id && t == tool_name && x == arguments && k == tool_kind && d
            == danger_level,
        DurableAgentEvent::ToolApprovalResolved { approval_id, decision } => scoped
            == (AgentEvent::ToolApprovalResolved { approval_id, decision }),
        DurableAgentEvent::ToolExecutionStarted { call_id, tool_name } => scoped matches AgentEvent::ToolExecutionStarted {
            call_id: c,
            tool_name: t,
            ..
        } && c == call_id && t == tool_name,
        DurableAgentEvent::IterationCompleted { iteration, usage } => scoped matches AgentEvent::IterationCompleted {
            iteration: i,
            usage: u,
            ..
        } && i == iteration && u == usage,
        DurableAgentEvent::LoopFinished { finish_reason, usage } => scoped == (AgentEvent::Finished {
            finish_reason,
            usage,
        }),
        DurableAgentEvent::LoopFailed { error_text, usage } => scoped == (AgentEvent::Failed { error_text, usage }),
        DurableAgentEvent::LoopCancelled { usage } => scoped == (AgentEvent::Cancelled { usage }),
    }
}

/// Scoping places every durable loop event in its turn: an external event that names a turn
/// names the scope's turn, never the run or another turn, and nothing the loop event carried
/// is lost.
pub proof fn law_scoped_events_name_their_turn(scope: EventScope, event: DurableAgentEvent)
    ensures
        keeps_scope(scope, event, scoped_durable_event(scope, event)),
{
}

impl EventScope {
    /// Adds this scope to a durable loop event; every durable event has an external form.
    pub fn durable_agent_event(&self, event: DurableAgentEvent) -> (r: Result<AgentEvent, DurableEventSinkError>)
        ensures
            r == Ok::<AgentEvent, DurableEventSinkError>(scoped_durable_event(*self, event)),
    {
        Ok(self.scope_durable(event))
    }

    pub(crate) fn scope_durable(&self, event: DurableAgentEvent) -> (r: AgentEvent)
        ensures
            r == scoped_durable_event(*self, event),
            keeps_scope(*self, event, r),
    {
        match event {
            DurableAgentEvent::LoopStarted => AgentEvent::Started { turn_id: self.turn_id.clone() },
            DurableAgentEvent::MessageAppended { message } => AgentEvent::Message {
                turn_id: self.turn_id.clone(),
                message,
            },
            DurableAgentEvent::ToolApprovalRequested {
                approval_id,
                call_id,
                tool_name,
                arguments,
                tool_kind,
                danger_level,
            } => AgentEvent::ToolApprovalRequested {
                approval_id,
                agent_name: self.agent_name.clone(),
                call_id,
                tool_name,
                arguments,
                tool_kind,
                danger_level,
            },
            DurableAgentEvent::ToolApprovalResolved { approval_id, decision } => AgentEvent::ToolApprovalResolved {
                approval_id,
                decision,
            },
            DurableAgentEvent::ToolExecutionStarted { call_id, tool_name } => AgentEvent::ToolExecutionStarted {
                turn_id: self.turn_id.clone(),
                call_id,
                tool_name,
            },
            DurableAgentEvent::IterationCompleted { iteration, usage } => AgentEvent::IterationCompleted {
                turn_id: self.turn_id.clone(),
                iteration,
                usage,
            },
            DurableAgentEvent::LoopFinished { finish_reason, usage } => AgentEvent::Finished {
                finish_reason,
                usage,
            },
            DurableAgentEvent::LoopFailed { error_text, usage } => AgentEvent::Failed { error_text, usage },
            DurableAgentEvent::LoopCancelled { usage } => AgentEvent::Cancelled { usage },
        }
    }

    /// The external form of a telemetry event; every telemetry event has one.
    pub fn telemetry_agent_event(&self, event: AgentTelemetryEvent) -> (r: Option<AgentEvent>)
        ensures
            r == Some(scoped_telemetry_event(event)),
    {
        let e = match event {
            AgentTelemetryEvent::LlmStarted { llm_call_id } => AgentEvent::Llm {
                llm_call_id,
                event: LlmEvent::Started,
            },
            AgentTelemetryEvent::TextDelta { llm_call_id, delta } => AgentEvent::Llm {
                llm_call_id,
                event: LlmEvent::TextDelta { role: LlmCallRole::Assistant, delta },
            },
            AgentTelemetryEvent::ReasoningDelta { llm_call_id, delta } => AgentEvent::Llm {
                llm_call_id,
                event: LlmEvent::ReasoningDelta { delta },
            },
            AgentTelemetryEvent::ToolCallDelta { llm_call_id, call_id, name, arguments_delta } => AgentEvent::Llm {
                llm_call_id,
                event: LlmEvent::ToolCallDelta { call_id, name, arguments_delta },
            },
            AgentTelemetryEvent::LlmFinished { llm_call_id, finish_reason, usage } => AgentEvent::Llm {
                llm_call_id,
                event: LlmEvent::Finished { finish_reason, usage },
            },
        };
        Some(e)
    }
}

/// The shared sequence of durable and telemetry events of one sink.
#[derive(Debug, Default)]
pub struct EnqueueState {
    next_sequence: u64,
}

impl EnqueueState {
    /// The next sequence number to hand out.
    pub closed spec fn spec_next(&self) -> u64 {
        self.next_sequence
    }

    /// A fresh sequence starting at zero.
    pub fn new() -> (r: Self)
        ensures
            r.spec_next() == 0,
    {
        EnqueueState { next_sequence: 0 }
    }

    /// Hands out the next sequence number; numbers are handed out in increasing order.
    pub fn take_sequence(&mut self) -> (r: u64)
        requires
            old(self).spec_next() < u64::MAX,
        ensures
            r == old(self).spec_next(),
            final(self).spec_next() == old(self).spec_next() + 1,
    {
        let sequence = self.next_sequence;
        self.next_sequence = self.next_sequence + 1;
        sequence
    }
}

/// Whether a telemetry event with sequence `sequence` may still be published once the
/// durable event with sequence `fence`, if any, has started publishing: only if it was not
/// enqueued before that durable event.
pub fn telemetry_publishable(sequence: u64, fence: Option<u64>) -> (r: bool)
    ensures
        fence matches Some(f) && sequence < f ==> !r,
        !(fence matches Some(f) && sequence < f) ==> r,
{
    match fence {
        Some(f) => sequence >= f,
        None => true,
    }
}

/// What happens to queued telemetry when the durable event `durable_sequence` starts
/// publishing: a held event older than it is dropped; without a held event, queued events
/// older than it are dropped up to the first one that is not, which becomes held.
pub fn discard_telemetry_before(durable_sequence: u64, held: Option<u64>, queued: &Vec<u64>) -> (r: (
    Option<u64>,
    usize,
))
    ensures
        held matches Some(h) && h >= durable_sequence ==> r == (held, 0usize),
        !(held matches Some(h) && h >= durable_sequence) ==> {
            let k = r.1 as int;
            &&& k <= queued@.len()
            &&& forall|i: int| 0 <= i < k ==> (#[trigger] queued@[i]) < durable_sequence
            &&& if k < queued@.len() {
                r.0 == Some(queued@[k]) && queued@[k] >= durable_sequence
            } else {
                r.0 is None
            }
        },
{
    if let Some(h) = held {
        if h >= durable_sequence {
            return (held, 0);
        }
    }
    let mut k: usize = 0;
    while k < queued.len() && queued[k] < durable_sequence
        invariant
            k <= queued@.len(),
            forall|i: int| 0 <= i < k ==> (#[trigger] queued@[i]) < durable_sequence,
        decreases queued.len() - k,
    {
        k = k + 1;
    }
    if k < queued.len() {
        (Some(queued[k]), k)
    } else {
        (None, k)
    }
}

/// Configuration for the NATS event stream bus.
#[derive(Debug, Clone, PartialEq, Eq)]
pub struct NatsEventStreamBusConfig {
    /// NATS server URL.
    pub url: String,
    /// JetStream stream name.
    pub stream_name: String,
    /// Subject prefix before `<agent_id>.<agent_event_type>`.
    pub subject_prefix: String,
    /// Number of stream replicas.
    pub replicas: usize,
    /// Maximum retained event age, in seconds.
    pub max_age_secs: u64,
    /// Maximum retained stream size in bytes.
    pub max_bytes: i64,
    /// Maximum retained event count.
    pub max_messages: i64,
}

impl Default for NatsEventStreamBusConfig {
    fn default() -> (r: Self)
        ensures
            r.url@ == "nats://localhost:4222"@,
            r.stream_name@ == "AGENT_EVENTS"@,
            r.subject_prefix@ == "events.agent"@,
            r.replicas == 1,
            r.max_age_secs == 7 * 24 * 60 * 60,
            r.max_bytes == 1_073_741_824,
            r.max_messages == 1_000_000,
    {
        NatsEventStreamBusConfig {
            url: crate::text::owned("nats://localhost:4222"),
            stream_name: crate::text::owned("AGENT_EVENTS"),
            subject_prefix: crate::text::owned("events.agent"),
            replicas: 1,
            max_age_secs: 7 * 24 * 60 * 60,
            max_bytes: 1_073_741_824,
            max_messages: 1_000_000,
        }
    }
}

/// Error returned by infrastructure operations.
#[derive(Debug)]
pub enum InfraError {
    /// Event stream bus operation failed.
    EventStreamBus(EventStreamBusError),
}

impl InfraError {
    /// The human-readable description of this failure.
    pub fn text(&self) -> (r: &'static str)
        ensures
            r@ == "event stream bus operation failed"@,
    {
        "event stream bus operation failed"
    }
}

impl From<EventStreamBusError> for InfraError {
    fn from(source: EventStreamBusError) -> (r: Self) {
        InfraError::EventStreamBus(source)
    }
}

impl vstd::std_specs::convert::FromSpecImpl<EventStreamBusError> for InfraError {
    open spec fn obeys_from_spec() -> bool {
        true
    }

    open spec fn from_spec(source: EventStreamBusError) -> Self {
        InfraError::EventStreamBus(source)
    }
}

} // verus!
