//! The agent-loop run as a state machine.
//!
//! A run alternates durable appends, lifecycle hooks, model calls and tool executions,
//! each of which is outside work. [`LoopRun`] holds the run's state and decides, from
//! the outcome of the last piece of outside work, what to do next: the driver performs
//! the returned [`RunAction`] and hands its outcome back as a [`RunEvent`], sampling the
//! caller's cancellation flag at that moment.

use vstd::prelude::*;

use crate::core_types::{
    add_usage, clone_tool_calls, usage_sum, ChatContent, ChatMessage, ChatRole, FinishReason, TokenUsage, ToolCall,
};
use crate::events::DurableAgentEvent;
use crate::infra::DurableEventSinkError;
use crate::text::owned;
use crate::tool_executor::{ToolApprovalError, ToolExecutorError};

use super::error::loop_error_text;
use crate::core_types::finish_reason_text;
use super::runner::{
    check_run_start, committed_call_id, committed_tool_call_ids, first_non_user, holds_id, lemma_holds_id_concat,
    repeats_id,
    unexecutable_result_text, unexecutable_tool_result, validate_new_tool_call_ids,
};
use super::{
    AgentLoopError, AgentLoopHookError, AgentLoopHookStage, LlmCallOutput, LoopContext,
    LoopLimits, LoopOutcome, ProtocolError,
};

verus! {

/// Where a run stands: which piece of outside work it waits for.
#[derive(Debug)]
pub enum RunPhase {
    /// `LoopStarted` is being appended.
    Starting,
    /// The prompt at `index` is being appended.
    AppendingPrompt { index: usize },
    /// The before-iteration hooks run.
    BeforeIteration,
    /// The model is being called.
    CallingModel,
    /// The assistant message is being appended.
    AppendingAssistant,
    /// The before-tool-call hooks run for the call at `index`.
    BeforeToolCall { index: usize },
    /// The tool executor runs the call at `index`.
    ExecutingTool { index: usize },
    /// The after-tool-call hooks rewrite the result of the call at `index`.
    RewritingToolResult { index: usize },
    /// The result of the call at `index` is being appended.
    AppendingToolResult { index: usize },
    /// A tool result whose rewrite failed is being appended before the run fails.
    AppendingUnrewritten { error: AgentLoopError },
    /// The after-iteration hooks run.
    AfterIteration,
    /// `IterationCompleted` is being appended.
    AppendingIterationCompleted,
    /// `LoopFinished` is being appended.
    AppendingFinished,
    /// The terminal event of a failed or cancelled run is being appended.
    AppendingTerminal { error: AgentLoopError },
    /// The run returned its result.
    Done,
}

/// The outcome of the outside work that the last action asked for.
#[derive(Debug)]
pub enum RunEvent {
    /// The durable sink acknowledged the appended event.
    Appended,
    /// The durable sink failed to acknowledge the appended event.
    AppendFailed { source: DurableEventSinkError },
    /// Every hook of the stage accepted the boundary.
    HooksPassed,
    /// A hook of the stage failed.
    HookFailed { source: AgentLoopHookError },
    /// The model call produced a response; `usage` is the saturating sum of the usage that
    /// the call's finished responses reported, which the run adds to its own.
    ModelResponded { output: LlmCallOutput, usage: TokenUsage },
    /// The model call failed; `usage` is the saturating sum of the usage that the call's
    /// finished responses reported before it failed, which the run adds to its own.
    ModelFailed { error: AgentLoopError, usage: TokenUsage },
    /// The tool executor produced the tool message.
    ToolReturned { message: ChatMessage },
    /// The tool executor failed.
    ToolFailed { error: ToolExecutorError },
    /// The after-tool-call hooks produced the final result, as compact JSON text.
    ToolResultRewritten { result: String },
}

/// The outside work that a run asks its driver to perform next.
#[derive(Debug)]
pub enum RunAction {
    /// Append a durable event and report whether it was acknowledged.
    Append { event: DurableAgentEvent },
    /// Run the hooks of an iteration boundary.
    RunIterationHooks { stage: AgentLoopHookStage, iteration: u64 },
    /// Call the model on the current context.
    CallModel { iteration: u64 },
    /// Run the before-tool-call hooks.
    RunBeforeToolCallHooks { iteration: u64, tool_call: ToolCall },
    /// Execute a tool call.
    ExecuteTool { tool_call: ToolCall },
    /// Let the after-tool-call hooks rewrite a tool result.
    RewriteToolResult { iteration: u64, tool_call: ToolCall, result: String },
    /// The run is over.
    Finish { result: Result<LoopOutcome, AgentLoopError> },
}

/// Whether `event` is an outcome of the work that `phase` waits for.
pub open spec fn accepts(phase: RunPhase, event: RunEvent) -> bool {
    match phase {
        RunPhase::BeforeIteration | RunPhase::BeforeToolCall { .. } | RunPhase::AfterIteration => {
            event is HooksPassed || event is HookFailed
        },
        RunPhase::CallingModel => event is ModelResponded || event is ModelFailed,
        RunPhase::ExecutingTool { .. } => event is ToolReturned || event is ToolFailed,
        RunPhase::RewritingToolResult { .. } => event is ToolResultRewritten || event is HookFailed,
        RunPhase::Done => false,
        _ => event is Appended || event is AppendFailed,
    }
}

/// Errors that are returned as they are, without a terminal event: the durable sink
/// itself failed.
pub open spec fn is_durability_error(e: AgentLoopError) -> bool {
    e is Durability || e is TerminalDurability
}

/// What a run does when `e` ends it while its usage is `usage`: a durability failure is
/// returned at once; any other failure is first recorded by a terminal event.
pub open spec fn failure_step(e: AgentLoopError, usage: TokenUsage, phase: RunPhase, action: RunAction) -> bool {
    if is_durability_error(e) {
        phase is Done && action == (RunAction::Finish { result: Err(e) })
    } else if e is Cancelled {
        phase == (RunPhase::AppendingTerminal { error: e }) && action == (RunAction::Append {
            event: DurableAgentEvent::LoopCancelled { usage },
        })
    } else {
        &&& phase == (RunPhase::AppendingTerminal { error: e })
        &&& action matches RunAction::Append { event: DurableAgentEvent::LoopFailed { error_text, usage: u } }
        &&& error_text@ == loop_error_text(e)
        &&& u == usage
    }
}

/// Whether `action` appends a message with the same value as `m`.
pub open spec fn appends_message(action: RunAction, m: ChatMessage) -> bool {
    action matches RunAction::Append { event: DurableAgentEvent::MessageAppended { message } }
        && message@ == m@
}

/// Mathematical state of a run.
pub struct LoopRunView {
    /// Where the run stands.
    pub phase: RunPhase,
    /// System instruction of the context.
    pub system_prompt: Seq<char>,
    /// Committed context: the initial transcript, then the messages committed by this run.
    pub messages: Seq<ChatMessage>,
    /// Length of the initial transcript.
    pub base_len: nat,
    /// Prompts of this run.
    pub prompts: Seq<ChatMessage>,
    /// Messages committed by this run.
    pub new_messages: Seq<ChatMessage>,
    /// Identities of the tool calls of committed assistant messages.
    pub seen_ids: Seq<String>,
    /// Usage accumulated by the run.
    pub usage: TokenUsage,
    /// Current iteration.
    pub iteration: usize,
    /// Tool calls of the current assistant message.
    pub tool_calls: Seq<ToolCall>,
    /// Identities of those calls.
    pub pending_ids: Seq<String>,
    /// Finish reason of the current assistant message.
    pub finish_reason: FinishReason,
    /// Message whose append is in flight, or tool message whose rewrite is in flight.
    pub pending: Option<ChatMessage>,
    /// Safety bounds.
    pub limits: LoopLimits,
    /// Whether lifecycle hooks are installed.
    pub hooks_present: bool,
}

/// One agent-loop run in progress.
pub struct LoopRun {
    context: LoopContext,
    base_len: Ghost<nat>,
    prompts: Vec<ChatMessage>,
    new_messages: Vec<ChatMessage>,
    seen_ids: Vec<String>,
    usage: TokenUsage,
    iteration: usize,
    tool_calls: Vec<ToolCall>,
    pending_ids: Vec<String>,
    finish_reason: FinishReason,
    pending: Option<ChatMessage>,
    limits: LoopLimits,
    hooks_present: bool,
    phase: RunPhase,
}

impl View for LoopRun {
    type V = LoopRunView;

    closed spec fn view(&self) -> LoopRunView {
        LoopRunView {
            phase: self.phase,
            system_prompt: self.context.system_prompt@,
            messages: self.context.messages@,
            base_len: self.base_len@,
            prompts: self.prompts@,
            new_messages: self.new_messages@,
            seen_ids: self.seen_ids@,
            usage: self.usage,
            iteration: self.iteration,
            tool_calls: self.tool_calls@,
            pending_ids: self.pending_ids@,
            finish_reason: self.finish_reason,
            pending: self.pending,
            limits: self.limits,
            hooks_present: self.hooks_present,
        }
    }
}

impl LoopRunView {
    /// The run's invariant: the committed context is the initial transcript followed by
    /// the messages this run committed, every prompt index in flight is a prompt, every
    /// tool index in flight is a call of the current assistant message, and every
    /// append or rewrite in flight has its message.
    pub open spec fn wf(self) -> bool {
        &&& self.prompts.len() > 0
        &&& !(self.phase is Done) ==> self.messages.len() == self.base_len + self.new_messages.len()
        &&& !(self.phase is Done) ==> forall|i: int|
            0 <= i < self.new_messages.len() ==> (#[trigger] self.new_messages[i])@
                == self.messages[self.base_len + i]@
        &&& self.iteration < self.limits.max_iterations || self.phase is Starting
            || self.phase is AppendingPrompt || self.phase is AppendingTerminal || self.phase is Done
        &&& match self.phase {
            RunPhase::AppendingPrompt { index } => index < self.prompts.len() && (self.pending
                matches Some(p) && p@ == self.prompts[index as int]@),
            RunPhase::AppendingAssistant => (self.pending matches Some(p) && p.tool_calls@
                == self.tool_calls),
            RunPhase::BeforeToolCall { index } => index < self.tool_calls.len()
                && self.finish_reason == FinishReason::ToolCalls,
            RunPhase::ExecutingTool { index } => index < self.tool_calls.len()
                && self.finish_reason == FinishReason::ToolCalls,
            RunPhase::RewritingToolResult { index } => index < self.tool_calls.len()
                && self.pending is Some,
            RunPhase::AppendingToolResult { index } => index < self.tool_calls.len()
                && self.pending is Some,
            _ => true,
        }
    }
}

impl LoopRun {
    /// Checks a run's inputs and, when they are accepted, returns the run together with
    /// its first action, the append of `LoopStarted`.
    pub fn start(context: LoopContext, prompts: Vec<ChatMessage>, limits: LoopLimits, hooks_present: bool) -> (r:
        Result<(LoopRun, RunAction), AgentLoopError>)
        ensures
            match r {
                Ok((run, action)) => {
                    &&& prompts@.len() > 0
                    &&& limits.max_iterations > 0
                    &&& forall|i: int| 0 <= i < prompts@.len() ==> (#[trigger] prompts@[i]).role
                        == ChatRole::User
                    &&& run@.wf()
                    &&& run@.phase is Starting
                    &&& run@.messages == context.messages@
                    &&& run@.system_prompt == context.system_prompt@
                    &&& run@.prompts == prompts@
                    &&& run@.new_messages.len() == 0
                    &&& run@.usage == TokenUsage { input_tokens: 0, output_tokens: 0, total_tokens: 0 }
                    &&& run@.limits == limits
                    &&& run@.hooks_present == hooks_present
                    &&& action == (RunAction::Append { event: DurableAgentEvent::LoopStarted })
                },
                Err(e) => e is InvalidProtocol || e is IterationLimitExceeded,
            },
            prompts@.len() == 0 ==> r matches Err(AgentLoopError::InvalidProtocol { reason: ProtocolError::EmptyPrompts }),
            prompts@.len() > 0 && first_non_user(prompts@) is Some ==> (r matches Err(
                AgentLoopError::InvalidProtocol { reason: ProtocolError::InvalidPromptRole { role } },
            ) && role == prompts@[first_non_user(prompts@).unwrap()].role),
            prompts@.len() > 0 && (forall|i: int| 0 <= i < prompts@.len() ==> (#[trigger] prompts@[i]).role
                == ChatRole::User) ==> (r is Err <==> limits.max_iterations == 0),
            prompts@.len() > 0 && first_non_user(prompts@) is None && limits.max_iterations == 0 ==> (r matches Err(
                AgentLoopError::IterationLimitExceeded { maximum },
            ) && maximum == 0),
    {
        match check_run_start(&prompts, limits) {
            Err(e) => return Err(e),
            Ok(()) => {},
        }
        let ghost base = context.messages@.len();
        let run = LoopRun {
            context,
            base_len: Ghost(base),
            prompts,
            new_messages: Vec::new(),
            seen_ids: Vec::new(),
            usage: TokenUsage { input_tokens: 0, output_tokens: 0, total_tokens: 0 },
            iteration: 0,
            tool_calls: Vec::new(),
            pending_ids: Vec::new(),
            finish_reason: FinishReason::Unknown,
            pending: None,
            limits,
            hooks_present,
            phase: RunPhase::Starting,
        };
        Ok((run, RunAction::Append { event: DurableAgentEvent::LoopStarted }))
    }

    /// The committed context, for building the model request.
    pub fn context(&self) -> (r: &LoopContext)
        ensures
            r.messages@ == self@.messages,
            r.system_prompt@ == self@.system_prompt,
    {
        &self.context
    }

    /// The messages committed so far by this run.
    pub fn new_messages(&self) -> (r: &Vec<ChatMessage>)
        ensures
            r@ == self@.new_messages,
    {
        &self.new_messages
    }

    /// Usage accumulated so far.
    pub fn usage(&self) -> (r: TokenUsage)
        ensures
            r == self@.usage,
    {
        self.usage
    }

    /// Whether the run waits for outside work of the kind that `event` reports.
    pub fn expects(&self, event: &RunEvent) -> (r: bool)
        ensures
            r == accepts(self@.phase, *event),
    {
        match (&self.phase, event) {
            (RunPhase::BeforeIteration, RunEvent::HooksPassed)
            | (RunPhase::BeforeIteration, RunEvent::HookFailed { .. })
            | (RunPhase::BeforeToolCall { .. }, RunEvent::HooksPassed)
            | (RunPhase::BeforeToolCall { .. }, RunEvent::HookFailed { .. })
            | (RunPhase::AfterIteration, RunEvent::HooksPassed)
            | (RunPhase::AfterIteration, RunEvent::HookFailed { .. })
            | (RunPhase::CallingModel, RunEvent::ModelResponded { .. })
            | (RunPhase::CallingModel, RunEvent::ModelFailed { .. })
            | (RunPhase::ExecutingTool { .. }, RunEvent::ToolReturned { .. })
            | (RunPhase::ExecutingTool { .. }, RunEvent::ToolFailed { .. })
            | (RunPhase::RewritingToolResult { .. }, RunEvent::ToolResultRewritten { .. })
            | (RunPhase::RewritingToolResult { .. }, RunEvent::HookFailed { .. }) => true,
            (RunPhase::BeforeIteration, _)
            | (RunPhase::BeforeToolCall { .. }, _)
            | (RunPhase::AfterIteration, _)
            | (RunPhase::CallingModel, _)
            | (RunPhase::ExecutingTool { .. }, _)
            | (RunPhase::RewritingToolResult { .. }, _)
            | (RunPhase::Done, _) => false,
            (_, RunEvent::Appended) | (_, RunEvent::AppendFailed { .. }) => true,
            _ => false,
        }
    }

    /// Whether the run returned its result.
    pub fn is_done(&self) -> (r: bool)
        ensures
            r == self@.phase is Done,
    {
        match self.phase {
            RunPhase::Done => true,
            _ => false,
        }
    }
}

/// The first action of iteration `k`, taken with the given cancellation flag.
pub open spec fn iteration_start(
    k: int,
    cancelled: bool,
    usage: TokenUsage,
    limits: LoopLimits,
    phase: RunPhase,
    action: RunAction,
) -> bool {
    if k >= limits.max_iterations {
        failure_step(
            if cancelled {
                AgentLoopError::Cancelled
            } else {
                AgentLoopError::IterationLimitExceeded { maximum: limits.max_iterations }
            },
            usage,
            phase,
            action,
        )
    } else if cancelled {
        failure_step(AgentLoopError::Cancelled, usage, phase, action)
    } else {
        phase is BeforeIteration && action == (RunAction::RunIterationHooks {
            stage: AgentLoopHookStage::BeforeIteration,
            iteration: k as u64,
        })
    }
}

/// How the tool message `m` for the call at `j` moves on: straight to its append when no
/// hook is installed, else to the after-tool-call hooks, which only take JSON results.
pub open spec fn delivery(j: int, m: ChatMessage, v: LoopRunView, n: LoopRunView, action: RunAction) -> bool {
    if !v.hooks_present {
        &&& n.phase == (RunPhase::AppendingToolResult { index: j as usize })
        &&& n.pending matches Some(p) && p@ == m@
        &&& appends_message(action, m)
    } else {
        match m.content {
            ChatContent::Json(result) => {
                &&& n.phase == (RunPhase::RewritingToolResult { index: j as usize })
                &&& n.pending == Some(m)
                &&& action matches RunAction::RewriteToolResult { iteration, tool_call, result: r }
                &&& iteration == v.iteration as u64
                &&& tool_call == v.tool_calls[j]
                &&& r@ == result@
            },
            ChatContent::Text(_) => failure_step(
                AgentLoopError::InvalidProtocol {
                    reason: ProtocolError::InvalidToolResultContent { call_id: v.tool_calls[j].call_id },
                },
                v.usage,
                n.phase,
                action,
            ),
        }
    }
}

/// Whether `m` answers `call` as a call that was not executed under `finish_reason`.
pub open spec fn is_unexecutable_result(m: ChatMessage, call: ToolCall, finish_reason: FinishReason) -> bool {
    &&& m.role == ChatRole::Tool
    &&& m.content matches ChatContent::Json(j) && j@ == unexecutable_result_text(finish_reason)
    &&& m.reasoning_content is None
    &&& m.tool_calls@.len() == 0
    &&& m.tool_call_id == Some(call.call_id)
}

/// The step taken towards the tool call at `j` of the current assistant message.
pub open spec fn tool_step_spec(j: int, cancelled: bool, v: LoopRunView, n: LoopRunView, action: RunAction) -> bool {
    if j >= v.tool_calls.len() {
        n.phase is AfterIteration && action == (RunAction::RunIterationHooks {
            stage: AgentLoopHookStage::AfterIteration,
            iteration: v.iteration as u64,
        })
    } else if cancelled {
        failure_step(AgentLoopError::Cancelled, v.usage, n.phase, action)
    } else if v.finish_reason != FinishReason::ToolCalls {
        exists|m: ChatMessage|
            is_unexecutable_result(m, v.tool_calls[j], v.finish_reason) && #[trigger] delivery(
                j,
                m,
                v,
                n,
                action,
            )
    } else {
        n.phase == (RunPhase::BeforeToolCall { index: j as usize }) && action == (
        RunAction::RunBeforeToolCallHooks { iteration: v.iteration as u64, tool_call: v.tool_calls[j] })
    }
}

/// `n` has the settings and the current assistant message of `v`.
pub open spec fn same_settings(v: LoopRunView, n: LoopRunView) -> bool {
    &&& n.system_prompt == v.system_prompt
    &&& n.base_len == v.base_len
    &&& n.prompts == v.prompts
    &&& n.usage == v.usage
    &&& n.iteration == v.iteration
    &&& n.tool_calls == v.tool_calls
    &&& n.pending_ids == v.pending_ids
    &&& n.finish_reason == v.finish_reason
    &&& n.limits == v.limits
    &&& n.hooks_present == v.hooks_present
}

proof fn lemma_tool_step_frame(j: int, cancelled: bool, v1: LoopRunView, v2: LoopRunView, n: LoopRunView, action: RunAction)
    requires
        0 <= j,
        same_settings(v1, v2),
        tool_step_spec(j, cancelled, v1, n, action),
    ensures
        tool_step_spec(j, cancelled, v2, n, action),
{
    if 0 <= j < v1.tool_calls.len() && !cancelled && v1.finish_reason != FinishReason::ToolCalls {
        let m = choose|m: ChatMessage|
            is_unexecutable_result(m, v1.tool_calls[j], v1.finish_reason) && #[trigger] delivery(j, m, v1, n, action);
        assert(is_unexecutable_result(m, v2.tool_calls[j], v2.finish_reason));
        assert(delivery(j, m, v2, n, action));
    }
}

/// `n` is `v` with at most its phase, pending message and seen identities changed.
pub open spec fn keeps_run(v: LoopRunView, n: LoopRunView) -> bool {
    &&& same_settings(v, n)
    &&& n.messages == v.messages
    &&& n.new_messages == v.new_messages
}

/// The loop error that a tool-executor failure ends the run with.
pub open spec fn tool_failure_error(e: ToolExecutorError) -> AgentLoopError {
    match e {
        ToolExecutorError::Durability { source } => AgentLoopError::Durability { source },
        ToolExecutorError::Approval { .. } => AgentLoopError::Cancelled,
        _ => AgentLoopError::ToolExecution { source: e },
    }
}

/// Whether the `k`-th call is the first in `calls` whose identity was seen or repeats.
pub open spec fn first_repeat(calls: Seq<ToolCall>, seen: Seq<String>, k: int) -> bool {
    &&& 0 <= k < calls.len()
    &&& repeats_id(calls, seen, k)
    &&& forall|j: int| 0 <= j < k ==> !repeats_id(calls, seen, j)
}

/// The transition on `RunEvent::AppendFailed`.
pub open spec fn append_failed_spec(o: LoopRunView, source: DurableEventSinkError, n: LoopRunView, action: RunAction) -> bool {
    &&& n.messages == o.messages
    &&& n.new_messages == o.new_messages
    &&& match o.phase {
        RunPhase::AppendingTerminal { error } => n.phase is Done && action == (RunAction::Finish {
            result: Err(AgentLoopError::TerminalDurability { operation: Box::new(error), source }),
        }),
        _ => n.phase is Done && action == (RunAction::Finish {
            result: Err(AgentLoopError::Durability { source }),
        }),
    }
}

/// The transition on `RunEvent::Appended`.
pub open spec fn appended_spec(o: LoopRunView, cancelled: bool, n: LoopRunView, action: RunAction) -> bool {
    match o.phase {
        RunPhase::Starting => {
            &&& n.messages == o.messages
            &&& n.new_messages == o.new_messages
            &&& forall|id: Seq<char>| holds_id(n.seen_ids, id) <==> committed_call_id(o.messages, id)
            &&& if cancelled {
                failure_step(AgentLoopError::Cancelled, o.usage, n.phase, action)
            } else {
                n.phase == (RunPhase::AppendingPrompt { index: 0 }) && appends_message(action, o.prompts[0])
            }
        },
        RunPhase::AppendingPrompt { index } => {
            &&& commits(o, n, o.pending.unwrap())
            &&& if index + 1 < o.prompts.len() {
                n.phase == (RunPhase::AppendingPrompt { index: (index + 1) as usize }) && appends_message(
                    action,
                    o.prompts[index + 1],
                )
            } else {
                iteration_start(0, cancelled, o.usage, o.limits, n.phase, action)
            }
        },
        RunPhase::AppendingAssistant => {
            &&& commits(o, n, o.pending.unwrap())
            &&& forall|id: Seq<char>|
                holds_id(n.seen_ids, id) <==> (holds_id(o.seen_ids, id) || holds_id(o.pending_ids, id))
            &&& tool_step_spec(0, cancelled, o, n, action)
        },
        RunPhase::AppendingToolResult { index } => {
            &&& commits(o, n, o.pending.unwrap())
            &&& tool_step_spec(index + 1, cancelled, o, n, action)
        },
        RunPhase::AppendingUnrewritten { error } => {
            &&& n.messages == o.messages
            &&& n.new_messages == o.new_messages
            &&& failure_step(error, o.usage, n.phase, action)
        },
        RunPhase::AppendingIterationCompleted => {
            &&& n.messages == o.messages
            &&& n.new_messages == o.new_messages
            &&& if o.tool_calls.len() == 0 {
                &&& n.phase is AppendingFinished
                &&& action matches RunAction::Append { event: DurableAgentEvent::LoopFinished { finish_reason, usage } }
                &&& finish_reason@ == finish_reason_text(o.finish_reason)
                &&& usage == o.usage
            } else {
                iteration_start(o.iteration + 1, cancelled, o.usage, o.limits, n.phase, action)
            }
        },
        RunPhase::AppendingFinished => {
            &&& n.phase is Done
            &&& action matches RunAction::Finish { result: Ok(outcome) }
            &&& outcome.new_messages@ == o.new_messages
            &&& outcome.finish_reason == o.finish_reason
            &&& outcome.usage == o.usage
        },
        RunPhase::AppendingTerminal { error } => {
            &&& n.messages == o.messages
            &&& n.new_messages == o.new_messages
            &&& n.phase is Done
            &&& action == (RunAction::Finish { result: Err(error) })
        },
        _ => false,
    }
}

/// The transition on `RunEvent::HooksPassed`.
pub open spec fn hooks_passed_spec(o: LoopRunView, cancelled: bool, n: LoopRunView, action: RunAction) -> bool {
    &&& n.messages == o.messages
    &&& n.new_messages == o.new_messages
    &&& match o.phase {
        RunPhase::BeforeIteration => n.phase is CallingModel && action == (RunAction::CallModel {
            iteration: o.iteration as u64,
        }),
        RunPhase::BeforeToolCall { index } => if cancelled {
            failure_step(AgentLoopError::Cancelled, o.usage, n.phase, action)
        } else {
            n.phase == (RunPhase::ExecutingTool { index }) && action == (RunAction::ExecuteTool {
                tool_call: o.tool_calls[index as int],
            })
        },
        RunPhase::AfterIteration => n.phase is AppendingIterationCompleted && action == (RunAction::Append {
            event: DurableAgentEvent::IterationCompleted { iteration: o.iteration as u64, usage: o.usage },
        }),
        _ => false,
    }
}

/// The transition on `RunEvent::HookFailed`.
pub open spec fn hook_failed_spec(o: LoopRunView, source: AgentLoopHookError, n: LoopRunView, action: RunAction) -> bool {
    &&& n.messages == o.messages
    &&& n.new_messages == o.new_messages
    &&& match o.phase {
        RunPhase::BeforeIteration => failure_step(
            AgentLoopError::Hook { stage: AgentLoopHookStage::BeforeIteration, source },
            o.usage,
            n.phase,
            action,
        ),
        RunPhase::BeforeToolCall { .. } => failure_step(
            AgentLoopError::Hook { stage: AgentLoopHookStage::BeforeToolCall, source },
            o.usage,
            n.phase,
            action,
        ),
        RunPhase::AfterIteration => failure_step(
            AgentLoopError::Hook { stage: AgentLoopHookStage::AfterIteration, source },
            o.usage,
            n.phase,
            action,
        ),
        RunPhase::RewritingToolResult { .. } => {
            &&& n.messages == o.messages
            &&& n.new_messages == o.new_messages
            &&& n.phase == (RunPhase::AppendingUnrewritten {
                error: AgentLoopError::Hook { stage: AgentLoopHookStage::AfterToolCall, source },
            })
            &&& appends_message(action, o.pending.unwrap())
        },
        _ => false,
    }
}

/// The transition on `RunEvent::ModelResponded`.
pub open spec fn model_responded_spec(o: LoopRunView, output: LlmCallOutput, call_usage: TokenUsage, n: LoopRunView, action: RunAction) -> bool {
    {
        let m = output.spec_message();
        let usage = usage_sum(o.usage, call_usage);
        &&& n.usage == usage
        &&& n.messages == o.messages
        &&& n.new_messages == o.new_messages
        &&& forall|k: int| #[trigger] first_repeat(m.tool_calls@, o.seen_ids, k) ==> failure_step(
            AgentLoopError::InvalidProtocol {
                reason: ProtocolError::DuplicateToolCallId { call_id: m.tool_calls@[k].call_id },
            },
            usage,
            n.phase,
            action,
        )
        &&& (forall|k: int| !#[trigger] first_repeat(m.tool_calls@, o.seen_ids, k)) ==> {
            &&& n.phase is AppendingAssistant
            &&& appends_message(action, m)
            &&& n.tool_calls == m.tool_calls@
            &&& n.finish_reason == output.spec_finish_reason()
            &&& n.pending_ids.len() == m.tool_calls@.len()
            &&& forall|k: int| 0 <= k < n.pending_ids.len() ==> (#[trigger] n.pending_ids[k])@ == m.tool_calls@[k].call_id@
        }
    }
}

/// The transition on `RunEvent::ModelFailed`.
pub open spec fn model_failed_spec(o: LoopRunView, error: AgentLoopError, call_usage: TokenUsage, n: LoopRunView, action: RunAction) -> bool {
    {
        let usage = usage_sum(o.usage, call_usage);
        &&& n.usage == usage
        &&& n.messages == o.messages
        &&& n.new_messages == o.new_messages
        &&& failure_step(error, usage, n.phase, action)
    }
}

/// The transition on `RunEvent::ToolReturned`.
pub open spec fn tool_returned_spec(o: LoopRunView, message: ChatMessage, n: LoopRunView, action: RunAction) -> bool {
    match o.phase {
        RunPhase::ExecutingTool { index } => keeps_run(o, n) && delivery(index as int, message, o, n, action),
        _ => false,
    }
}

/// The transition on `RunEvent::ToolFailed`.
pub open spec fn tool_failed_spec(o: LoopRunView, error: ToolExecutorError, n: LoopRunView, action: RunAction) -> bool {
    keeps_run(o, n) && failure_step(tool_failure_error(error), o.usage, n.phase, action)
}

/// The transition on `RunEvent::ToolResultRewritten`.
pub open spec fn rewritten_spec(o: LoopRunView, result: String, n: LoopRunView, action: RunAction) -> bool {
    match o.phase {
        RunPhase::RewritingToolResult { index } => {
            &&& keeps_run(o, n)
            &&& n.phase == (RunPhase::AppendingToolResult { index })
            &&& appends_message(action, ChatMessage { content: ChatContent::Json(result), ..o.pending.unwrap() })
        },
        _ => false,
    }
}

/// The transition of a run: from state `o`, given the outcome `event` of the work it
/// waited for and the cancellation flag, to state `n` and the next `action`.
pub open spec fn step_spec(o: LoopRunView, event: RunEvent, cancelled: bool, n: LoopRunView, action: RunAction) -> bool {
    &&& n.usage == usage_after(o.usage, event)
    &&& match event {
        RunEvent::AppendFailed { source } => append_failed_spec(o, source, n, action),
        RunEvent::Appended => appended_spec(o, cancelled, n, action),
        RunEvent::HooksPassed => hooks_passed_spec(o, cancelled, n, action),
        RunEvent::HookFailed { source } => hook_failed_spec(o, source, n, action),
        RunEvent::ModelResponded { output, usage } => model_responded_spec(o, output, usage, n, action),
        RunEvent::ModelFailed { error, usage } => model_failed_spec(o, error, usage, n, action),
        RunEvent::ToolReturned { message } => tool_returned_spec(o, message, n, action),
        RunEvent::ToolFailed { error } => tool_failed_spec(o, error, n, action),
        RunEvent::ToolResultRewritten { result } => rewritten_spec(o, result, n, action),
    }
}

/// The run's usage after `event`: a model call's usage is added to it, saturating each
/// counter; nothing else changes it.
pub open spec fn usage_after(usage: TokenUsage, event: RunEvent) -> TokenUsage {
    match event {
        RunEvent::ModelResponded { usage: call, .. } => usage_sum(usage, call),
        RunEvent::ModelFailed { usage: call, .. } => usage_sum(usage, call),
        _ => usage,
    }
}

/// The usage of a run that started with `start` after the outcomes `events`.
pub open spec fn usage_through(start: TokenUsage, events: Seq<RunEvent>) -> TokenUsage
    decreases events.len(),
{
    if events.len() == 0 {
        start
    } else {
        usage_after(usage_through(start, events.drop_last()), events.last())
    }
}

/// A run's usage is the saturating sum of the usage of all its model calls, in the order they
/// answered, whether they responded or failed; the `LoopFinished`, `LoopFailed`,
/// `LoopCancelled` and `IterationCompleted` events carry that usage.
pub proof fn law_run_usage_sums_model_calls(
    states: Seq<LoopRunView>,
    events: Seq<RunEvent>,
    cancelled: Seq<bool>,
    actions: Seq<RunAction>,
)
    requires
        states.len() == events.len() + 1,
        cancelled.len() == events.len(),
        actions.len() == events.len(),
        forall|i: int|
            0 <= i < events.len() ==> #[trigger] step_spec(states[i], events[i], cancelled[i], states[i + 1], actions[i]),
    ensures
        states.last().usage == usage_through(states[0].usage, events),
    decreases events.len(),
{
    if events.len() > 0 {
        let k = events.len() - 1;
        law_run_usage_sums_model_calls(states.drop_last(), events.drop_last(), cancelled.drop_last(), actions.drop_last());
        assert(step_spec(states[k], events[k], cancelled[k], states[k + 1], actions[k]));
        assert(states.drop_last().last() == states[k]);
        assert(events.drop_last() =~= events.subrange(0, k));
    }
}

/// `n` is `v` after the message in flight, `m`, was committed.
pub open spec fn commits(v: LoopRunView, n: LoopRunView, m: ChatMessage) -> bool {
    &&& n.messages.len() == v.messages.len() + 1
    &&& n.messages.drop_last() == v.messages
    &&& n.messages.last()@ == m@
    &&& n.new_messages == v.new_messages.push(m)
}


impl LoopRun {
    fn fail(&mut self, error: AgentLoopError) -> (action: RunAction)
        ensures
            failure_step(error, old(self)@.usage, final(self)@.phase, action),
            keeps_run(old(self)@, final(self)@),
            final(self)@.pending == old(self)@.pending,
            final(self)@.seen_ids == old(self)@.seen_ids,
    {
        let durability = match &error {
            AgentLoopError::Durability { .. } | AgentLoopError::TerminalDurability { .. } => true,
            _ => false,
        };
        if durability {
            self.phase = RunPhase::Done;
            return RunAction::Finish { result: Err(error) };
        }
        let is_cancel = match &error {
            AgentLoopError::Cancelled => true,
            _ => false,
        };
        let usage = self.usage;
        if is_cancel {
            self.phase = RunPhase::AppendingTerminal { error };
            RunAction::Append { event: DurableAgentEvent::LoopCancelled { usage } }
        } else {
            let error_text = error.text();
            self.phase = RunPhase::AppendingTerminal { error };
            RunAction::Append { event: DurableAgentEvent::LoopFailed { error_text, usage } }
        }
    }

    fn await_append(&mut self, phase: RunPhase, message: ChatMessage) -> (action: RunAction)
        ensures
            final(self)@.phase == phase,
            final(self)@.pending matches Some(p) && p@ == message@,
            appends_message(action, message),
            keeps_run(old(self)@, final(self)@),
            final(self)@.seen_ids == old(self)@.seen_ids,
    {
        self.pending = Some(message.clone());
        self.phase = phase;
        RunAction::Append { event: DurableAgentEvent::MessageAppended { message } }
    }

    fn commit_pending(&mut self)
        requires
            old(self)@.pending is Some,
        ensures
            commits(old(self)@, final(self)@, old(self)@.pending.unwrap()),
            same_settings(old(self)@, final(self)@),
            final(self)@.phase == old(self)@.phase,
            final(self)@.seen_ids == old(self)@.seen_ids,
            final(self)@.pending is None,
    {
        let ghost before = self.context.messages@;
        let mut taken: Option<ChatMessage> = None;
        std::mem::swap(&mut taken, &mut self.pending);
        match taken {
            Some(m) => {
                self.context.messages.push(m.clone());
                self.new_messages.push(m);
                assert(self.context.messages@.drop_last() =~= before);
            },
            None => {},
        }
    }

    fn begin_iteration(&mut self, k: usize, cancelled: bool) -> (action: RunAction)
        ensures
            iteration_start(k as int, cancelled, old(self)@.usage, old(self)@.limits, final(self)@.phase, action),
            k < old(self)@.limits.max_iterations && !cancelled ==> final(self)@.iteration == k,
            !(k < old(self)@.limits.max_iterations && !cancelled) ==> final(self)@.iteration
                == old(self)@.iteration,
            final(self)@.system_prompt == old(self)@.system_prompt,
            final(self)@.messages == old(self)@.messages,
            final(self)@.base_len == old(self)@.base_len,
            final(self)@.prompts == old(self)@.prompts,
            final(self)@.new_messages == old(self)@.new_messages,
            final(self)@.usage == old(self)@.usage,
            final(self)@.tool_calls == old(self)@.tool_calls,
            final(self)@.pending_ids == old(self)@.pending_ids,
            final(self)@.finish_reason == old(self)@.finish_reason,
            final(self)@.limits == old(self)@.limits,
            final(self)@.hooks_present == old(self)@.hooks_present,
            final(self)@.pending == old(self)@.pending,
            final(self)@.seen_ids == old(self)@.seen_ids,
    {
        if k >= self.limits.max_iterations {
            if cancelled {
                return self.fail(AgentLoopError::Cancelled);
            }
            let maximum = self.limits.max_iterations;
            return self.fail(AgentLoopError::IterationLimitExceeded { maximum });
        }
        if cancelled {
            return self.fail(AgentLoopError::Cancelled);
        }
        self.iteration = k;
        self.phase = RunPhase::BeforeIteration;
        RunAction::RunIterationHooks { stage: AgentLoopHookStage::BeforeIteration, iteration: k as u64 }
    }

    fn deliver(&mut self, j: usize, message: ChatMessage) -> (action: RunAction)
        requires
            j < old(self)@.tool_calls.len(),
        ensures
            delivery(j as int, message, old(self)@, final(self)@, action),
            keeps_run(old(self)@, final(self)@),
            final(self)@.seen_ids == old(self)@.seen_ids,
    {
        if !self.hooks_present {
            return self.await_append(RunPhase::AppendingToolResult { index: j }, message);
        }
        let result = match &message.content {
            ChatContent::Json(r) => Some(r.clone()),
            ChatContent::Text(_) => None,
        };
        match result {
            Some(result) => {
                self.phase = RunPhase::RewritingToolResult { index: j };
                self.pending = Some(message);
                RunAction::RewriteToolResult {
                    iteration: self.iteration as u64,
                    tool_call: self.tool_calls[j].clone(),
                    result,
                }
            },
            None => {
                let call_id = self.tool_calls[j].call_id.clone();
                self.fail(
                    AgentLoopError::InvalidProtocol {
                        reason: ProtocolError::InvalidToolResultContent { call_id },
                    },
                )
            },
        }
    }

    fn tool_step(&mut self, j: usize, cancelled: bool) -> (action: RunAction)
        requires
            j <= old(self)@.tool_calls.len(),
        ensures
            tool_step_spec(j as int, cancelled, old(self)@, final(self)@, action),
            keeps_run(old(self)@, final(self)@),
            final(self)@.seen_ids == old(self)@.seen_ids,
            final(self)@.phase is BeforeToolCall ==> old(self)@.finish_reason == FinishReason::ToolCalls,
    {
        if j >= self.tool_calls.len() {
            self.phase = RunPhase::AfterIteration;
            return RunAction::RunIterationHooks {
                stage: AgentLoopHookStage::AfterIteration,
                iteration: self.iteration as u64,
            };
        }
        if cancelled {
            return self.fail(AgentLoopError::Cancelled);
        }
        if self.finish_reason != FinishReason::ToolCalls {
            let message = unexecutable_tool_result(&self.tool_calls[j], self.finish_reason);
            let ghost m = message;
            let ghost before = self@;
            let action = self.deliver(j, message);
            assert(is_unexecutable_result(m, before.tool_calls[j as int], before.finish_reason));
            assert(delivery(j as int, m, before, self@, action));
            return action;
        }
        self.phase = RunPhase::BeforeToolCall { index: j };
        RunAction::RunBeforeToolCallHooks { iteration: self.iteration as u64, tool_call: self.tool_calls[j].clone() }
    }
}


impl LoopRun {
    /// Takes the outcome of the outside work the run waited for and decides the next action.
    #[verifier::rlimit(100)]
    #[verifier::spinoff_prover]
    pub fn step(&mut self, event: RunEvent, cancelled: bool) -> (action: RunAction)
        requires
            old(self)@.wf(),
            accepts(old(self)@.phase, event),
        ensures
            final(self)@.wf(),
            step_spec(old(self)@, event, cancelled, final(self)@, action),
    {
        let mut phase = RunPhase::Done;
        std::mem::swap(&mut phase, &mut self.phase);
        match event {
            RunEvent::AppendFailed { source } => match phase {
                RunPhase::AppendingTerminal { error } => {
                    self.phase = RunPhase::Done;
                    RunAction::Finish {
                        result: Err(AgentLoopError::TerminalDurability { operation: Box::new(error), source }),
                    }
                },
                _ => {
                    self.phase = RunPhase::Done;
                    RunAction::Finish { result: Err(AgentLoopError::Durability { source }) }
                },
            },
            RunEvent::Appended => self.on_appended(phase, cancelled),
            RunEvent::HooksPassed => self.on_hooks_passed(phase, cancelled),
            RunEvent::HookFailed { source } => self.on_hook_failed(phase, source),
            RunEvent::ModelResponded { output, usage } => self.on_model_responded(phase, output, usage),
            RunEvent::ModelFailed { error, usage } => {
                add_usage(&mut self.usage, usage);
                self.fail(error)
            },
            RunEvent::ToolReturned { message } => self.on_tool_returned(phase, message),
            RunEvent::ToolFailed { error } => self.on_tool_failed(phase, error),
            RunEvent::ToolResultRewritten { result } => self.on_rewritten(phase, result),
        }
    }

    #[verifier::rlimit(60)]
    fn on_appended(&mut self, phase: RunPhase, cancelled: bool) -> (action: RunAction)
        requires
            (LoopRunView { phase, ..old(self)@ }).wf(),
            accepts(phase, RunEvent::Appended),
        ensures
            final(self)@.usage == old(self)@.usage,
            final(self)@.wf(),
            appended_spec(LoopRunView { phase, ..old(self)@ }, cancelled, final(self)@, action),
    {
        let ghost o = LoopRunView { phase, ..self@ };
        match phase {
            RunPhase::Starting => {
                self.seen_ids = committed_tool_call_ids(&self.context.messages);
                if cancelled {
                    self.fail(AgentLoopError::Cancelled)
                } else {
                    let first = self.prompts[0].clone();
                    self.await_append(RunPhase::AppendingPrompt { index: 0 }, first)
                }
            },
            RunPhase::AppendingPrompt { index } => {
                let len = self.prompts.len();
                assert(index < len);
                self.commit_pending();
                let following = index + 1;
                if following < len {
                    let next = self.prompts[following].clone();
                    self.await_append(RunPhase::AppendingPrompt { index: following }, next)
                } else {
                    self.begin_iteration(0, cancelled)
                }
            },
            RunPhase::AppendingAssistant => {
                self.commit_pending();
                self.admit_pending_ids();
                let ghost mid = self@;
                let action = self.tool_step(0, cancelled);
                proof {
                    lemma_tool_step_frame(0, cancelled, mid, o, self@, action);
                }
                action
            },
            RunPhase::AppendingToolResult { index } => {
                let len = self.tool_calls.len();
                assert(index < len);
                self.commit_pending();
                let ghost mid = self@;
                let action = self.tool_step(index + 1, cancelled);
                proof {
                    lemma_tool_step_frame(index + 1, cancelled, mid, o, self@, action);
                }
                action
            },
            RunPhase::AppendingUnrewritten { error } => self.fail(error),
            RunPhase::AppendingIterationCompleted => {
                if self.tool_calls.len() == 0 {
                    let finish_reason = owned(self.finish_reason.as_str());
                    let usage = self.usage;
                    self.phase = RunPhase::AppendingFinished;
                    RunAction::Append { event: DurableAgentEvent::LoopFinished { finish_reason, usage } }
                } else {
                    self.begin_iteration(self.iteration + 1, cancelled)
                }
            },
            RunPhase::AppendingFinished => {
                let mut new_messages: Vec<ChatMessage> = Vec::new();
                std::mem::swap(&mut new_messages, &mut self.new_messages);
                let outcome = LoopOutcome {
                    new_messages,
                    finish_reason: self.finish_reason,
                    usage: self.usage,
                };
                self.phase = RunPhase::Done;
                RunAction::Finish { result: Ok(outcome) }
            },
            RunPhase::AppendingTerminal { error } => {
                self.phase = RunPhase::Done;
                RunAction::Finish { result: Err(error) }
            },
            _ => self.fail(AgentLoopError::Cancelled),
        }
    }

    fn admit_pending_ids(&mut self)
        ensures
            forall|id: Seq<char>|
                holds_id(final(self)@.seen_ids, id) <==> (holds_id(old(self)@.seen_ids, id) || holds_id(
                    old(self)@.pending_ids,
                    id,
                )),
            final(self)@ == (LoopRunView { seen_ids: final(self)@.seen_ids, ..old(self)@ }),
    {
        let mut k: usize = 0;
        let ghost before = self.seen_ids@;
        while k < self.pending_ids.len()
            invariant
                k <= self.pending_ids@.len(),
                self.seen_ids@ == before + self.pending_ids@.take(k as int),
                self@ == (LoopRunView { seen_ids: self.seen_ids@, ..old(self)@ }),
            decreases self.pending_ids.len() - k,
        {
            let id = self.pending_ids[k].clone();
            self.seen_ids.push(id);
            assert(self.pending_ids@.take(k + 1) =~= self.pending_ids@.take(k as int).push(self.pending_ids@[k as int]));
            k = k + 1;
        }
        assert(self.pending_ids@.take(k as int) =~= self.pending_ids@);
        proof {
            lemma_holds_id_concat(before, self.pending_ids@);
        }
    }

    #[verifier::rlimit(40)]
    fn on_model_response(&mut self, output: LlmCallOutput, usage: TokenUsage) -> (action: RunAction)
        ensures
            ({
                let o = old(self)@;
                let n = final(self)@;
                let m = output.spec_message();
                &&& n.usage == usage
                &&& n.messages == o.messages
                &&& n.new_messages == o.new_messages
                &&& n.system_prompt == o.system_prompt
                &&& n.base_len == o.base_len
                &&& n.prompts == o.prompts
                &&& n.iteration == o.iteration
                &&& n.limits == o.limits
                &&& n.hooks_present == o.hooks_present
                &&& n.seen_ids == o.seen_ids
                &&& forall|k: int| #[trigger] first_repeat(m.tool_calls@, o.seen_ids, k) ==> {
                    &&& n.tool_calls == o.tool_calls
                    &&& n.pending == o.pending
                    &&& n.finish_reason == o.finish_reason
                    &&& failure_step(
                        AgentLoopError::InvalidProtocol {
                            reason: ProtocolError::DuplicateToolCallId { call_id: m.tool_calls@[k].call_id },
                        },
                        usage,
                        n.phase,
                        action,
                    )
                }
                &&& (forall|k: int| !#[trigger] first_repeat(m.tool_calls@, o.seen_ids, k)) ==> {
                    &&& n.phase is AppendingAssistant
                    &&& appends_message(action, m)
                    &&& n.pending matches Some(p) && p@ == m@
                    &&& n.tool_calls == m.tool_calls@
                    &&& n.finish_reason == output.spec_finish_reason()
                    &&& n.pending_ids.len() == m.tool_calls@.len()
                    &&& forall|k: int| 0 <= k < n.pending_ids.len() ==> (#[trigger] n.pending_ids[k])@ == m.tool_calls@[k].call_id@
                }
            }),
    {
        self.usage = usage;
        let (message, finish_reason) = output.into_parts();
        match validate_new_tool_call_ids(&message.tool_calls, &self.seen_ids) {
            Err(reason) => {
                let ghost calls = message.tool_calls@;
                let ghost seen = self.seen_ids@;
                let ghost k = choose|k: int|
                    0 <= k < calls.len() && repeats_id(calls, seen, k) && (forall|j: int|
                        0 <= j < k ==> !repeats_id(calls, seen, j)) && reason
                        == ProtocolError::DuplicateToolCallId { call_id: calls[k].call_id };
                let action = self.fail(AgentLoopError::InvalidProtocol { reason });
                assert(first_repeat(calls, seen, k));
                assert forall|k2: int| #[trigger] first_repeat(calls, seen, k2) implies k2 == k by {
                    if k2 < k {
                        assert(!repeats_id(calls, seen, k2));
                    } else if k2 > k {
                        assert(!repeats_id(calls, seen, k));
                    }
                }
                assert(calls == output.spec_message().tool_calls@);
                assert(seen == old(self)@.seen_ids);
                action
            },
            Ok(ids) => {
                let ghost m = message;
                let ghost seen = self.seen_ids@;
                assert forall|k: int| !(#[trigger] first_repeat(m.tool_calls@, seen, k)) by {
                    if 0 <= k < m.tool_calls@.len() {
                        assert(!repeats_id(m.tool_calls@, seen, k));
                    }
                }
                self.tool_calls = clone_tool_calls(&message.tool_calls);
                self.pending_ids = ids;
                self.finish_reason = finish_reason;
                let action = self.await_append(RunPhase::AppendingAssistant, message);
                assert(appends_message(action, m));
                assert(self@.tool_calls == m.tool_calls@);
                assert(self@.pending_ids.len() == m.tool_calls@.len());
                action
            },
        }
    }
}


impl LoopRun {
    fn on_hooks_passed(&mut self, phase: RunPhase, cancelled: bool) -> (action: RunAction)
        requires
            (LoopRunView { phase, ..old(self)@ }).wf(),
            accepts(phase, RunEvent::HooksPassed),
        ensures
            final(self)@.usage == old(self)@.usage,
            final(self)@.wf(),
            hooks_passed_spec(LoopRunView { phase, ..old(self)@ }, cancelled, final(self)@, action),
    {
        match phase {
            RunPhase::BeforeIteration => {
                self.phase = RunPhase::CallingModel;
                RunAction::CallModel { iteration: self.iteration as u64 }
            },
            RunPhase::BeforeToolCall { index } => {
                if cancelled {
                    self.fail(AgentLoopError::Cancelled)
                } else {
                    self.phase = RunPhase::ExecutingTool { index };
                    RunAction::ExecuteTool { tool_call: self.tool_calls[index].clone() }
                }
            },
            _ => {
                let iteration = self.iteration as u64;
                let usage = self.usage;
                self.phase = RunPhase::AppendingIterationCompleted;
                RunAction::Append { event: DurableAgentEvent::IterationCompleted { iteration, usage } }
            },
        }
    }

    fn on_hook_failed(&mut self, phase: RunPhase, source: AgentLoopHookError) -> (action: RunAction)
        requires
            (LoopRunView { phase, ..old(self)@ }).wf(),
            accepts(phase, RunEvent::HookFailed { source }),
        ensures
            final(self)@.usage == old(self)@.usage,
            final(self)@.wf(),
            hook_failed_spec(LoopRunView { phase, ..old(self)@ }, source, final(self)@, action),
    {
        match phase {
            RunPhase::BeforeIteration => self.fail(
                AgentLoopError::Hook { stage: AgentLoopHookStage::BeforeIteration, source },
            ),
            RunPhase::BeforeToolCall { .. } => self.fail(
                AgentLoopError::Hook { stage: AgentLoopHookStage::BeforeToolCall, source },
            ),
            RunPhase::AfterIteration => self.fail(
                AgentLoopError::Hook { stage: AgentLoopHookStage::AfterIteration, source },
            ),
            _ => {
                let mut unrewritten: Option<ChatMessage> = None;
                std::mem::swap(&mut unrewritten, &mut self.pending);
                let unrewritten = unrewritten.unwrap();
                self.await_append(
                    RunPhase::AppendingUnrewritten {
                        error: AgentLoopError::Hook { stage: AgentLoopHookStage::AfterToolCall, source },
                    },
                    unrewritten,
                )
            },
        }
    }

    fn on_tool_returned(&mut self, phase: RunPhase, message: ChatMessage) -> (action: RunAction)
        requires
            (LoopRunView { phase, ..old(self)@ }).wf(),
            accepts(phase, RunEvent::ToolReturned { message }),
        ensures
            final(self)@.usage == old(self)@.usage,
            final(self)@.wf(),
            tool_returned_spec(LoopRunView { phase, ..old(self)@ }, message, final(self)@, action),
    {
        let ghost o = LoopRunView { phase, ..self@ };
        match phase {
            RunPhase::ExecutingTool { index } => {
                let action = self.deliver(index, message);
                assert(delivery(index as int, message, o, self@, action));
                action
            },
            _ => self.fail(AgentLoopError::Cancelled),
        }
    }

    fn on_tool_failed(&mut self, phase: RunPhase, error: ToolExecutorError) -> (action: RunAction)
        requires
            (LoopRunView { phase, ..old(self)@ }).wf(),
            accepts(phase, RunEvent::ToolFailed { error }),
        ensures
            final(self)@.usage == old(self)@.usage,
            final(self)@.wf(),
            tool_failed_spec(LoopRunView { phase, ..old(self)@ }, error, final(self)@, action),
    {
        let e = match error {
            ToolExecutorError::Durability { source } => AgentLoopError::Durability { source },
            ToolExecutorError::Approval { .. } => AgentLoopError::Cancelled,
            other => AgentLoopError::ToolExecution { source: other },
        };
        self.fail(e)
    }

    fn on_rewritten(&mut self, phase: RunPhase, result: String) -> (action: RunAction)
        requires
            (LoopRunView { phase, ..old(self)@ }).wf(),
            accepts(phase, RunEvent::ToolResultRewritten { result }),
        ensures
            final(self)@.usage == old(self)@.usage,
            final(self)@.wf(),
            rewritten_spec(LoopRunView { phase, ..old(self)@ }, result, final(self)@, action),
    {
        match phase {
            RunPhase::RewritingToolResult { index } => {
                let mut rewritten: Option<ChatMessage> = None;
                std::mem::swap(&mut rewritten, &mut self.pending);
                let mut message = rewritten.unwrap();
                message.content = ChatContent::Json(result);
                self.await_append(RunPhase::AppendingToolResult { index }, message)
            },
            _ => self.fail(AgentLoopError::Cancelled),
        }
    }
}


impl LoopRun {
    fn on_model_responded(&mut self, phase: RunPhase, output: LlmCallOutput, call_usage: TokenUsage) -> (action: RunAction)
        requires
            (LoopRunView { phase, ..old(self)@ }).wf(),
            accepts(phase, RunEvent::ModelResponded { output, usage: call_usage }),
        ensures
            final(self)@.wf(),
            model_responded_spec(LoopRunView { phase, ..old(self)@ }, output, call_usage, final(self)@, action),
    {
        let mut usage = self.usage;
        add_usage(&mut usage, call_usage);
        let ghost m = output.spec_message();
        let ghost seen = self.seen_ids@;
        let action = self.on_model_response(output, usage);
        assert forall|k: int| #[trigger] first_repeat(m.tool_calls@, seen, k) implies failure_step(
            AgentLoopError::InvalidProtocol {
                reason: ProtocolError::DuplicateToolCallId { call_id: m.tool_calls@[k].call_id },
            },
            usage,
            self@.phase,
            action,
        ) by {}
        let ghost o = LoopRunView { phase, ..old(self)@ };
        assert(self@.usage == usage);
        assert(self@.messages == o.messages);
        assert(self@.new_messages == o.new_messages);
        assert(o.seen_ids == seen);
        assert(forall|k: int| #[trigger] first_repeat(m.tool_calls@, o.seen_ids, k) ==> failure_step(
            AgentLoopError::InvalidProtocol {
                reason: ProtocolError::DuplicateToolCallId { call_id: m.tool_calls@[k].call_id },
            },
            usage,
            self@.phase,
            action,
        ));
        assert((forall|k: int| !#[trigger] first_repeat(m.tool_calls@, o.seen_ids, k)) ==> {
            &&& self@.phase is AppendingAssistant
            &&& appends_message(action, m)
            &&& self@.tool_calls == m.tool_calls@
            &&& self@.finish_reason == output.spec_finish_reason()
            &&& self@.pending_ids.len() == m.tool_calls@.len()
            &&& forall|k: int| 0 <= k < self@.pending_ids.len() ==> (#[trigger] self@.pending_ids[k])@ == m.tool_calls@[k].call_id@
        });
        action
    }
}


/// A run returns an error other than a durable-sink failure only after its terminal event
/// (`LoopFailed` or `LoopCancelled`) was acknowledged.
pub proof fn law_failure_recorded_before_return(
    o: LoopRunView,
    event: RunEvent,
    cancelled: bool,
    n: LoopRunView,
    error: AgentLoopError,
)
    requires
        step_spec(o, event, cancelled, n, RunAction::Finish { result: Err(error) }),
        !is_durability_error(error),
    ensures
        o.phase is AppendingTerminal,
        event is Appended,
{
}

/// A run succeeds only when `LoopFinished` was acknowledged, and then returns exactly the
/// messages it committed.
pub proof fn law_success_after_finish_recorded(
    o: LoopRunView,
    event: RunEvent,
    cancelled: bool,
    n: LoopRunView,
    outcome: LoopOutcome,
)
    requires
        step_spec(o, event, cancelled, n, RunAction::Finish { result: Ok(outcome) }),
    ensures
        o.phase is AppendingFinished,
        event is Appended,
        outcome.new_messages@ == o.new_messages,
        outcome.usage == o.usage,
        outcome.finish_reason == o.finish_reason,
{
}

/// A message enters the committed context only when its durable append was acknowledged,
/// and then exactly the message in flight is committed.
pub proof fn law_commit_only_after_acknowledgement(
    o: LoopRunView,
    event: RunEvent,
    cancelled: bool,
    n: LoopRunView,
    action: RunAction,
)
    requires
        step_spec(o, event, cancelled, n, action),
        !(o.phase is AppendingFinished),
        n.new_messages != o.new_messages,
    ensures
        event is Appended,
        o.phase is AppendingPrompt || o.phase is AppendingAssistant || o.phase is AppendingToolResult,
        n.new_messages == o.new_messages.push(o.pending.unwrap()),
{
}

/// A tool is executed only for a model response that finished with `ToolCalls`, after the
/// before-tool-call hooks accepted it and while no cancellation was observed.
pub proof fn law_tools_run_only_when_requested(
    o: LoopRunView,
    event: RunEvent,
    cancelled: bool,
    n: LoopRunView,
    tool_call: ToolCall,
)
    requires
        o.wf(),
        step_spec(o, event, cancelled, n, RunAction::ExecuteTool { tool_call }),
    ensures
        o.phase is BeforeToolCall,
        event is HooksPassed,
        !cancelled,
        o.finish_reason == FinishReason::ToolCalls,
        exists|i: int| 0 <= i < o.tool_calls.len() && o.tool_calls[i] == tool_call,
{
    let i = o.phase->BeforeToolCall_index as int;
    assert(o.tool_calls[i] == tool_call);
}

/// The model is called only after the before-iteration hooks accepted the iteration.
pub proof fn law_model_called_after_iteration_hooks(
    o: LoopRunView,
    event: RunEvent,
    cancelled: bool,
    n: LoopRunView,
    iteration: u64,
)
    requires
        step_spec(o, event, cancelled, n, RunAction::CallModel { iteration }),
    ensures
        o.phase is BeforeIteration,
        event is HooksPassed,
        iteration == o.iteration as u64,
{
}

} // verus!
