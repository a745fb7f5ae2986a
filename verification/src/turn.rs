//! A stateful agent's turn as a state machine.
//!
//! A turn alternates model calls, required publications of committed messages, tool
//! executions and durable iteration boundaries. [`TurnRun`] holds the turn's history and
//! decides, from the outcome of each piece of outside work, what to do next; the driver
//! samples the caller's cancellation flag when it hands an outcome back.

use vstd::prelude::*;

use crate::agent::AgentError;
use crate::core_types::{
    add_usage, clone_tool_calls, finish_reason_text, usage_sum, ChatMessage, FinishReason, TokenUsage, ToolCall,
};
use crate::infra::EventStreamBusError;
use crate::resume::{ResumeBoundary, ResumeContinuation};
use crate::store::StoreError;
use crate::text::owned;

use crate::agent::agent_error_text;

verus! {

/// Where a turn stands.
#[derive(Debug)]
pub enum TurnPhase {
    /// The model is being called.
    CallingModel,
    /// The assistant message is being published.
    PublishingAssistant,
    /// The tool call at `index` of the current assistant message runs.
    ExecutingTool { index: usize },
    /// The result of the call at `index` is being published.
    PublishingToolResult { index: usize },
    /// The store records the end of the iteration; `then_finish` ends the turn after it.
    CompletingIteration { then_finish: bool },
    /// `Finished` is being published.
    PublishingFinish,
    /// `Failed` is being published for `error`.
    PublishingFailure { error: AgentError },
    /// `Cancelled` is being published.
    PublishingCancel,
    /// The turn returned its result.
    Done,
}

/// The outcome of the outside work a turn waited for.
#[derive(Debug)]
pub enum TurnEvent {
    /// The required publication was acknowledged.
    Published,
    /// The required publication failed.
    PublishFailed { source: EventStreamBusError },
    /// Cancellation was observed before the model stream opened.
    ModelCancelled,
    /// The model produced its complete assistant message; `usage` is the saturating sum of
    /// the usage its finished responses reported, which the turn adds to its own.
    ModelResponded { message: ChatMessage, finish_reason: FinishReason, usage: TokenUsage },
    /// The model call failed, cancellation included, after its finished responses reported
    /// `usage`, which the turn adds to its own.
    ModelFailed { error: AgentError, usage: TokenUsage },
    /// The tool call produced its tool message.
    ToolReturned { message: ChatMessage },
    /// The tool call failed; a `Cancelled` failure was already published.
    ToolFailed { error: AgentError },
    /// The store recorded the end of the iteration.
    IterationCompleted,
    /// The store failed.
    StoreFailed { source: StoreError },
}

/// The outside work a turn asks for next.
#[derive(Debug)]
pub enum TurnAction {
    /// Call the model on the history for the iteration `turn_index`.
    CallModel { turn_index: usize },
    /// Publish a committed message.
    Publish { message: ChatMessage },
    /// Publish that the turn was cancelled, with the agent's usage.
    PublishCancelled { usage: TokenUsage },
    /// Publish that the turn failed, with the agent's usage.
    PublishFailed { error_text: String, usage: TokenUsage },
    /// Publish that the turn finished, with the agent's usage.
    PublishFinished { finish_reason: String, usage: TokenUsage },
    /// Execute a tool call of the iteration `turn_index`; a cancellation it meets is
    /// published with the agent's usage, `usage`.
    ExecuteTool { turn_index: usize, tool_call: ToolCall, usage: TokenUsage },
    /// Record the end of `iteration` in the store, with the agent's usage.
    CompleteIteration { iteration: u64, usage: TokenUsage },
    /// The turn is over; `Ok` holds the history to commit.
    Finish { result: Result<Vec<ChatMessage>, AgentError> },
}

/// Whether `event` is an outcome of the work that `phase` waits for.
pub open spec fn turn_accepts(phase: TurnPhase, event: TurnEvent) -> bool {
    match phase {
        TurnPhase::CallingModel => event is ModelCancelled || event is ModelResponded || event is ModelFailed,
        TurnPhase::ExecutingTool { .. } => event is ToolReturned || event is ToolFailed,
        TurnPhase::CompletingIteration { .. } => event is IterationCompleted || event is StoreFailed,
        TurnPhase::Done => false,
        _ => event is Published || event is PublishFailed,
    }
}

/// Mathematical state of a turn.
pub struct TurnRunView {
    /// Where the turn stands.
    pub phase: TurnPhase,
    /// Committed history.
    pub history: Seq<ChatMessage>,
    /// Current iteration.
    pub iteration: u64,
    /// Most iterations of one turn.
    pub max_turns: usize,
    /// Most tool calls of one model response.
    pub max_tool_calls: usize,
    /// Tool calls of the current assistant message.
    pub tool_calls: Seq<ToolCall>,
    /// Finish reason of the current assistant message.
    pub finish_reason: FinishReason,
    /// Message whose publication is in flight.
    pub pending: Option<ChatMessage>,
    /// The agent's usage: what it had when the turn started plus every model call since.
    pub usage: TokenUsage,
}

/// One turn in progress.
pub struct TurnRun {
    history: Vec<ChatMessage>,
    iteration: u64,
    max_turns: usize,
    max_tool_calls: usize,
    tool_calls: Vec<ToolCall>,
    finish_reason: FinishReason,
    pending: Option<ChatMessage>,
    usage: TokenUsage,
    phase: TurnPhase,
}

impl View for TurnRun {
    type V = TurnRunView;

    closed spec fn view(&self) -> TurnRunView {
        TurnRunView {
            phase: self.phase,
            history: self.history@,
            iteration: self.iteration,
            max_turns: self.max_turns,
            max_tool_calls: self.max_tool_calls,
            tool_calls: self.tool_calls@,
            finish_reason: self.finish_reason,
            pending: self.pending,
            usage: self.usage,
        }
    }
}

impl TurnRunView {
    /// The turn's invariant: every publication in flight has its message, every tool
    /// index in flight is a call of the current assistant message, and an iteration that
    /// reached the model is representable as an index.
    pub open spec fn wf(self) -> bool {
        &&& (self.phase is CallingModel || self.phase is PublishingAssistant || self.phase is ExecutingTool
            || self.phase is PublishingToolResult) ==> self.iteration <= usize::MAX
        &&& match self.phase {
            TurnPhase::PublishingAssistant => self.pending is Some,
            TurnPhase::PublishingToolResult { index } => self.pending is Some && index < self.tool_calls.len(),
            TurnPhase::ExecutingTool { index } => index < self.tool_calls.len(),
            _ => true,
        }
    }
}

/// What a turn does when `error` must be reported: a cancellation or any other failure is
/// first published; failures of the event bus, the store, the iteration counter and the
/// resumed history are returned at once.
pub open spec fn turn_failure(error: AgentError, usage: TokenUsage, phase: TurnPhase, action: TurnAction) -> bool {
    if error is Cancelled {
        phase is PublishingCancel && action == (TurnAction::PublishCancelled { usage })
    } else {
        &&& phase == (TurnPhase::PublishingFailure { error })
        &&& action matches TurnAction::PublishFailed { error_text, usage: u }
        &&& error_text@ == agent_error_text(error)
        &&& u == usage
    }
}

/// The agent's usage after `event`: a model call's usage is added to it, saturating each
/// counter; nothing else changes it.
pub open spec fn turn_usage_after(usage: TokenUsage, event: TurnEvent) -> TokenUsage {
    match event {
        TurnEvent::ModelResponded { usage: call, .. } => usage_sum(usage, call),
        TurnEvent::ModelFailed { usage: call, .. } => usage_sum(usage, call),
        _ => usage,
    }
}

/// The first action of the iteration `v.iteration`.
pub open spec fn turn_start(v: TurnRunView, cancelled: bool, n: TurnRunView, action: TurnAction) -> bool {
    if v.iteration > usize::MAX {
        n.phase is Done && action == (TurnAction::Finish {
            result: Err(AgentError::IterationOutOfRange { iteration: v.iteration }),
        })
    } else if v.iteration >= v.max_turns {
        turn_failure(AgentError::TurnLimitExceeded { limit: v.max_turns }, v.usage, n.phase, action)
    } else if cancelled {
        turn_failure(AgentError::Cancelled, v.usage, n.phase, action)
    } else {
        n.phase is CallingModel && action == (TurnAction::CallModel { turn_index: v.iteration as usize })
    }
}

/// The step towards the tool call at `j` of the current assistant message.
pub open spec fn turn_tool_step(j: int, v: TurnRunView, cancelled: bool, n: TurnRunView, action: TurnAction) -> bool {
    if j >= v.tool_calls.len() {
        n.phase == (TurnPhase::CompletingIteration { then_finish: false }) && action == (
        TurnAction::CompleteIteration { iteration: v.iteration, usage: v.usage })
    } else if cancelled {
        turn_failure(AgentError::Cancelled, v.usage, n.phase, action)
    } else {
        n.phase == (TurnPhase::ExecutingTool { index: j as usize }) && action == (TurnAction::ExecuteTool {
            turn_index: v.iteration as usize,
            tool_call: v.tool_calls[j],
            usage: v.usage,
        })
    }
}

/// Whether `action` publishes a message with the value of `m`.
pub open spec fn publishes(action: TurnAction, m: ChatMessage) -> bool {
    action matches TurnAction::Publish { message } && message@ == m@
}

/// The transition of a turn: from `o`, given the outcome `event` and the cancellation flag,
/// to `n` and the next `action`.
pub open spec fn turn_step_spec(o: TurnRunView, event: TurnEvent, cancelled: bool, n: TurnRunView, action: TurnAction) -> bool {
    &&& n.usage == turn_usage_after(o.usage, event)
    &&& n.max_turns == o.max_turns
    &&& match event {
        TurnEvent::PublishFailed { source } => n.history == o.history && n.phase is Done && action == (
        TurnAction::Finish { result: Err(AgentError::EventBus { source }) }),
        TurnEvent::Published => match o.phase {
            TurnPhase::PublishingAssistant => {
                &&& n.history.len() == o.history.len() + 1
                &&& n.history.drop_last() == o.history
                &&& n.history.last()@ == o.pending.unwrap()@
                &&& if o.finish_reason == FinishReason::ToolCalls && o.tool_calls.len() > 0 {
                    if o.tool_calls.len() > o.max_tool_calls {
                        turn_failure(
                            AgentError::ToolCallLimitExceeded { limit: o.max_tool_calls },
                            o.usage,
                            n.phase,
                            action,
                        )
                    } else {
                        turn_tool_step(0, o, cancelled, n, action)
                    }
                } else {
                    n.phase == (TurnPhase::CompletingIteration { then_finish: true }) && action == (
                    TurnAction::CompleteIteration { iteration: o.iteration, usage: o.usage })
                }
            },
            TurnPhase::PublishingToolResult { index } => {
                &&& n.history.len() == o.history.len() + 1
                &&& n.history.drop_last() == o.history
                &&& n.history.last()@ == o.pending.unwrap()@
                &&& turn_tool_step(index + 1, o, cancelled, n, action)
            },
            TurnPhase::PublishingFinish => n.phase is Done && (action matches TurnAction::Finish {
                result: Ok(history),
            } && history@ == o.history),
            TurnPhase::PublishingFailure { error } => n.history == o.history && n.phase is Done && action
                == (TurnAction::Finish { result: Err(error) }),
            TurnPhase::PublishingCancel => n.history == o.history && n.phase is Done && action == (
            TurnAction::Finish { result: Err(AgentError::Cancelled) }),
            _ => false,
        },
        TurnEvent::ModelCancelled => n.history == o.history && turn_failure(
            AgentError::Cancelled,
            o.usage,
            n.phase,
            action,
        ),
        TurnEvent::ModelResponded { message, finish_reason, .. } => {
            &&& n.history == o.history
            &&& n.phase is PublishingAssistant
            &&& publishes(action, message)
            &&& n.tool_calls == message.tool_calls@
            &&& n.finish_reason == finish_reason
        },
        TurnEvent::ModelFailed { error, .. } => n.history == o.history && turn_failure(error, n.usage, n.phase, action),
        TurnEvent::ToolReturned { message } => match o.phase {
            TurnPhase::ExecutingTool { index } => n.history == o.history && n.phase == (
            TurnPhase::PublishingToolResult { index }) && publishes(action, message),
            _ => false,
        },
        TurnEvent::ToolFailed { error } => n.history == o.history && if error is Cancelled {
            n.phase is Done && action == (TurnAction::Finish { result: Err(AgentError::Cancelled) })
        } else {
            turn_failure(error, o.usage, n.phase, action)
        },
        TurnEvent::IterationCompleted => match o.phase {
            TurnPhase::CompletingIteration { then_finish } => n.history == o.history && if then_finish {
                n.phase is PublishingFinish && (action matches TurnAction::PublishFinished { finish_reason, usage }
                    && finish_reason@ == finish_reason_text(o.finish_reason) && usage == o.usage)
            } else if o.iteration == u64::MAX {
                n.phase is Done && action == (TurnAction::Finish {
                    result: Err(AgentError::IterationOutOfRange { iteration: o.iteration }),
                })
            } else {
                n.iteration == o.iteration + 1 && turn_start(n, cancelled, n, action)
            },
            _ => false,
        },
        TurnEvent::StoreFailed { source } => n.history == o.history && n.phase is Done && action == (
        TurnAction::Finish { result: Err(AgentError::Store { source }) }),
    }
}

impl TurnRun {
    fn report(&mut self, error: AgentError) -> (action: TurnAction)
        ensures
            turn_failure(error, old(self)@.usage, final(self)@.phase, action),
            final(self)@ == (TurnRunView { phase: final(self)@.phase, ..old(self)@ }),
    {
        let is_cancel = match &error {
            AgentError::Cancelled => true,
            _ => false,
        };
        if is_cancel {
            self.phase = TurnPhase::PublishingCancel;
            TurnAction::PublishCancelled { usage: self.usage }
        } else {
            let error_text = error.text();
            self.phase = TurnPhase::PublishingFailure { error };
            TurnAction::PublishFailed { error_text, usage: self.usage }
        }
    }

    fn finish_with(&mut self, error: AgentError) -> (action: TurnAction)
        ensures
            final(self)@.phase is Done,
            action == (TurnAction::Finish { result: Err(error) }),
            final(self)@ == (TurnRunView { phase: final(self)@.phase, ..old(self)@ }),
    {
        self.phase = TurnPhase::Done;
        TurnAction::Finish { result: Err(error) }
    }

    fn begin_turn(&mut self, cancelled: bool) -> (action: TurnAction)
        ensures
            turn_start(old(self)@, cancelled, final(self)@, action),
            final(self)@ == (TurnRunView { phase: final(self)@.phase, ..old(self)@ }),
    {
        if self.iteration > usize::MAX as u64 {
            let iteration = self.iteration;
            return self.finish_with(AgentError::IterationOutOfRange { iteration });
        }
        let turn_index = self.iteration as usize;
        if turn_index >= self.max_turns {
            let limit = self.max_turns;
            return self.report(AgentError::TurnLimitExceeded { limit });
        }
        if cancelled {
            return self.report(AgentError::Cancelled);
        }
        self.phase = TurnPhase::CallingModel;
        TurnAction::CallModel { turn_index }
    }

    fn tool_step(&mut self, j: usize, cancelled: bool) -> (action: TurnAction)
        requires
            old(self)@.iteration <= usize::MAX,
        ensures
            turn_tool_step(j as int, old(self)@, cancelled, final(self)@, action),
            final(self)@ == (TurnRunView { phase: final(self)@.phase, ..old(self)@ }),
    {
        if j >= self.tool_calls.len() {
            self.phase = TurnPhase::CompletingIteration { then_finish: false };
            return TurnAction::CompleteIteration { iteration: self.iteration, usage: self.usage };
        }
        if cancelled {
            return self.report(AgentError::Cancelled);
        }
        self.phase = TurnPhase::ExecutingTool { index: j };
        TurnAction::ExecuteTool {
            turn_index: self.iteration as usize,
            tool_call: self.tool_calls[j].clone(),
            usage: self.usage,
        }
    }

    fn commit_pending(&mut self)
        requires
            old(self)@.pending is Some,
        ensures
            final(self)@.history.len() == old(self)@.history.len() + 1,
            final(self)@.history.drop_last() == old(self)@.history,
            final(self)@.history.last()@ == old(self)@.pending.unwrap()@,
            final(self)@ == (TurnRunView {
                history: final(self)@.history,
                pending: None,
                ..old(self)@
            }),
    {
        let ghost before = self.history@;
        let mut taken: Option<ChatMessage> = None;
        std::mem::swap(&mut taken, &mut self.pending);
        match taken {
            Some(m) => {
                self.history.push(m);
                assert(self.history@.drop_last() =~= before);
            },
            None => {},
        }
    }

    /// Starts the loop of a turn over `history` at `iteration`, for an agent whose usage so
    /// far is `usage`.
    pub fn start(
        history: Vec<ChatMessage>,
        iteration: u64,
        usage: TokenUsage,
        max_turns: usize,
        max_tool_calls: usize,
        cancelled: bool,
    ) -> (r: (
        TurnRun,
        TurnAction,
    ))
        ensures
            r.0@.wf(),
            r.0@.history == history@,
            r.0@.max_turns == max_turns,
            r.0@.max_tool_calls == max_tool_calls,
            r.1 matches TurnAction::CallModel { turn_index } ==> turn_index < max_turns,
            turn_start(
                TurnRunView {
                    phase: TurnPhase::CallingModel,
                    history: history@,
                    iteration,
                    max_turns,
                    max_tool_calls,
                    tool_calls: Seq::empty(),
                    finish_reason: FinishReason::Unknown,
                    pending: None,
                    usage,
                },
                cancelled,
                r.0@,
                r.1,
            ),
    {
        let mut run = TurnRun {
            history,
            iteration,
            max_turns,
            max_tool_calls,
            tool_calls: Vec::new(),
            finish_reason: FinishReason::Unknown,
            pending: None,
            usage,
            phase: TurnPhase::CallingModel,
        };
        let action = run.begin_turn(cancelled);
        (run, action)
    }

    /// Continues a resumed turn from its validated boundary, for an agent whose usage so far
    /// is `usage`.
    pub fn resume(
        continuation: ResumeContinuation,
        usage: TokenUsage,
        max_turns: usize,
        max_tool_calls: usize,
        cancelled: bool,
    ) -> (r: (
        TurnRun,
        TurnAction,
    ))
        ensures
            r.0@.wf(),
            r.0@.history == continuation.spec_history(),
            r.0@.iteration == continuation.spec_iteration(),
            r.0@.usage == usage,
            r.0@.max_turns == max_turns,
            r.1 matches TurnAction::CallModel { turn_index } ==> turn_index < max_turns,
            match continuation.spec_boundary() {
                ResumeBoundary::Continue => turn_start(
                    TurnRunView { phase: TurnPhase::CallingModel, ..r.0@ },
                    cancelled,
                    r.0@,
                    r.1,
                ),
                ResumeBoundary::Finish { advance_iteration } => if advance_iteration {
                    r.0@.phase == (TurnPhase::CompletingIteration { then_finish: true }) && r.1 == (
                    TurnAction::CompleteIteration { iteration: continuation.spec_iteration(), usage })
                        && r.0@.finish_reason == FinishReason::Unknown
                } else {
                    r.0@.phase is PublishingFinish && (r.1 matches TurnAction::PublishFinished { finish_reason, usage: u }
                        && finish_reason@ == "unknown"@ && u == usage)
                },
                ResumeBoundary::ReconcileTools { assistant_index, next_tool_index } => {
                    let h = continuation.spec_history();
                    if assistant_index >= h.len() {
                        r.0@.phase is Done && r.1 == (TurnAction::Finish {
                            result: Err(AgentError::InvalidResumeHistory),
                        })
                    } else if h[assistant_index as int].tool_calls@.len() > max_tool_calls {
                        turn_failure(AgentError::ToolCallLimitExceeded { limit: max_tool_calls }, usage, r.0@.phase, r.1)
                    } else if continuation.spec_iteration() > usize::MAX {
                        r.0@.phase is Done && r.1 == (TurnAction::Finish {
                            result: Err(AgentError::IterationOutOfRange { iteration: continuation.spec_iteration() }),
                        })
                    } else if next_tool_index > h[assistant_index as int].tool_calls@.len() {
                        r.0@.phase is Done && r.1 == (TurnAction::Finish {
                            result: Err(AgentError::InvalidResumeHistory),
                        })
                    } else {
                        &&& r.0@.tool_calls == h[assistant_index as int].tool_calls@
                        &&& r.0@.finish_reason == FinishReason::ToolCalls
                        &&& turn_tool_step(next_tool_index as int, r.0@, cancelled, r.0@, r.1)
                    }
                },
            },
    {
        let iteration = continuation.iteration();
        let boundary = continuation.boundary();
        let history = continuation.into_history();
        let mut run = TurnRun {
            history,
            iteration,
            max_turns,
            max_tool_calls,
            tool_calls: Vec::new(),
            finish_reason: FinishReason::Unknown,
            pending: None,
            usage,
            phase: TurnPhase::CallingModel,
        };
        let action = match boundary {
            ResumeBoundary::Continue => run.begin_turn(cancelled),
            ResumeBoundary::Finish { advance_iteration } => {
                if advance_iteration {
                    run.phase = TurnPhase::CompletingIteration { then_finish: true };
                    TurnAction::CompleteIteration { iteration, usage }
                } else {
                    run.phase = TurnPhase::PublishingFinish;
                    TurnAction::PublishFinished { finish_reason: owned(FinishReason::Unknown.as_str()), usage }
                }
            },
            ResumeBoundary::ReconcileTools { assistant_index, next_tool_index } => {
                if assistant_index >= run.history.len() {
                    run.finish_with(AgentError::InvalidResumeHistory)
                } else {
                    let calls = clone_tool_calls(&run.history[assistant_index].tool_calls);
                    if calls.len() > max_tool_calls {
                        run.report(AgentError::ToolCallLimitExceeded { limit: max_tool_calls })
                    } else if iteration > usize::MAX as u64 {
                        run.finish_with(AgentError::IterationOutOfRange { iteration })
                    } else if next_tool_index > calls.len() {
                        run.finish_with(AgentError::InvalidResumeHistory)
                    } else {
                        run.tool_calls = calls;
                        run.finish_reason = FinishReason::ToolCalls;
                        run.tool_step(next_tool_index, cancelled)
                    }
                }
            },
        };
        proof {
            reveal_strlit("unknown");
        }
        (run, action)
    }

    /// The committed history so far.
    pub fn history(&self) -> (r: &Vec<ChatMessage>)
        ensures
            r@ == self@.history,
    {
        &self.history
    }

    /// The agent's usage so far.
    pub fn usage(&self) -> (r: TokenUsage)
        ensures
            r == self@.usage,
    {
        self.usage
    }

    /// Whether the turn waits for work of the kind that `event` reports.
    pub fn expects(&self, event: &TurnEvent) -> (r: bool)
        ensures
            r == turn_accepts(self@.phase, *event),
    {
        match (&self.phase, event) {
            (TurnPhase::CallingModel, TurnEvent::ModelCancelled)
            | (TurnPhase::CallingModel, TurnEvent::ModelResponded { .. })
            | (TurnPhase::CallingModel, TurnEvent::ModelFailed { .. })
            | (TurnPhase::ExecutingTool { .. }, TurnEvent::ToolReturned { .. })
            | (TurnPhase::ExecutingTool { .. }, TurnEvent::ToolFailed { .. })
            | (TurnPhase::CompletingIteration { .. }, TurnEvent::IterationCompleted)
            | (TurnPhase::CompletingIteration { .. }, TurnEvent::StoreFailed { .. }) => true,
            (TurnPhase::CallingModel, _)
            | (TurnPhase::ExecutingTool { .. }, _)
            | (TurnPhase::CompletingIteration { .. }, _)
            | (TurnPhase::Done, _) => false,
            (_, TurnEvent::Published) | (_, TurnEvent::PublishFailed { .. }) => true,
            _ => false,
        }
    }

    /// Takes the outcome of the outside work the turn waited for and decides what comes next.
    #[verifier::rlimit(60)]
    pub fn step(&mut self, event: TurnEvent, cancelled: bool) -> (action: TurnAction)
        requires
            old(self)@.wf(),
            turn_accepts(old(self)@.phase, event),
        ensures
            final(self)@.wf(),
            turn_step_spec(old(self)@, event, cancelled, final(self)@, action),
            action matches TurnAction::CallModel { turn_index } ==> turn_index < old(self)@.max_turns,
    {
        let mut phase = TurnPhase::Done;
        std::mem::swap(&mut phase, &mut self.phase);
        match event {
            TurnEvent::PublishFailed { source } => self.finish_with(AgentError::EventBus { source }),
            TurnEvent::Published => match phase {
                TurnPhase::PublishingAssistant => {
                    self.commit_pending();
                    if self.finish_reason == FinishReason::ToolCalls && self.tool_calls.len() > 0 {
                        if self.tool_calls.len() > self.max_tool_calls {
                            let limit = self.max_tool_calls;
                            self.report(AgentError::ToolCallLimitExceeded { limit })
                        } else {
                            self.tool_step(0, cancelled)
                        }
                    } else {
                        self.phase = TurnPhase::CompletingIteration { then_finish: true };
                        TurnAction::CompleteIteration { iteration: self.iteration, usage: self.usage }
                    }
                },
                TurnPhase::PublishingToolResult { index } => {
                    let len = self.tool_calls.len();
                    assert(index < len);
                    self.commit_pending();
                    self.tool_step(index + 1, cancelled)
                },
                TurnPhase::PublishingFinish => {
                    let mut history: Vec<ChatMessage> = Vec::new();
                    std::mem::swap(&mut history, &mut self.history);
                    self.phase = TurnPhase::Done;
                    TurnAction::Finish { result: Ok(history) }
                },
                TurnPhase::PublishingFailure { error } => self.finish_with(error),
                _ => self.finish_with(AgentError::Cancelled),
            },
            TurnEvent::ModelCancelled => self.report(AgentError::Cancelled),
            TurnEvent::ModelResponded { message, finish_reason, usage } => {
                add_usage(&mut self.usage, usage);
                self.tool_calls = clone_tool_calls(&message.tool_calls);
                self.finish_reason = finish_reason;
                self.pending = Some(message.clone());
                self.phase = TurnPhase::PublishingAssistant;
                TurnAction::Publish { message }
            },
            TurnEvent::ModelFailed { error, usage } => {
                add_usage(&mut self.usage, usage);
                self.report(error)
            },
            TurnEvent::ToolFailed { error } => {
                let is_cancel = match &error {
                    AgentError::Cancelled => true,
                    _ => false,
                };
                if is_cancel {
                    self.finish_with(error)
                } else {
                    self.report(error)
                }
            },
            TurnEvent::ToolReturned { message } => {
                match phase {
                    TurnPhase::ExecutingTool { index } => {
                        self.phase = TurnPhase::PublishingToolResult { index };
                    },
                    _ => {},
                }
                self.pending = Some(message.clone());
                TurnAction::Publish { message }
            },
            TurnEvent::IterationCompleted => match phase {
                TurnPhase::CompletingIteration { then_finish } => {
                    if then_finish {
                        self.phase = TurnPhase::PublishingFinish;
                        TurnAction::PublishFinished {
                            finish_reason: owned(self.finish_reason.as_str()),
                            usage: self.usage,
                        }
                    } else if self.iteration == u64::MAX {
                        let iteration = self.iteration;
                        self.finish_with(AgentError::IterationOutOfRange { iteration })
                    } else {
                        self.iteration = self.iteration + 1;
                        self.begin_turn(cancelled)
                    }
                },
                _ => self.finish_with(AgentError::Cancelled),
            },
            TurnEvent::StoreFailed { source } => self.finish_with(AgentError::Store { source }),
        }
    }
}

/// A turn never calls the model for an iteration at or past its limit: every model call it
/// asks for has an index below `max_turns`, the limit never changes, and an iteration that
/// reaches the limit fails the turn with `TurnLimitExceeded`, reported before it returns.
pub proof fn law_turn_stays_within_its_limit(
    o: TurnRunView,
    event: TurnEvent,
    cancelled: bool,
    n: TurnRunView,
    action: TurnAction,
)
    requires
        turn_step_spec(o, event, cancelled, n, action),
    ensures
        n.max_turns == o.max_turns,
        action matches TurnAction::CallModel { turn_index } ==> turn_index < o.max_turns,
{
}

/// Starting an iteration at or past the limit fails the turn: the failure published names
/// the limit, and no model call is asked for.
pub proof fn law_turn_limit_fails_the_turn(v: TurnRunView, cancelled: bool, n: TurnRunView, action: TurnAction)
    requires
        turn_start(v, cancelled, n, action),
        v.max_turns <= v.iteration <= usize::MAX,
    ensures
        n.phase == (TurnPhase::PublishingFailure { error: AgentError::TurnLimitExceeded { limit: v.max_turns } }),
        action matches TurnAction::PublishFailed { usage, .. } && usage == v.usage,
        !(action is CallModel),
{
}

/// The agent's usage after a turn that started with `start` took the outcomes `events`.
pub open spec fn turn_usage_through(start: TokenUsage, events: Seq<TurnEvent>) -> TokenUsage
    decreases events.len(),
{
    if events.len() == 0 {
        start
    } else {
        turn_usage_after(turn_usage_through(start, events.drop_last()), events.last())
    }
}

/// A turn's usage is the agent's usage when it started plus the saturating sum of the usage
/// of all its model calls, in the order they answered; the iteration records and the
/// `Finished`, `Failed` and `Cancelled` publications carry that usage.
pub proof fn law_turn_usage_sums_model_calls(
    states: Seq<TurnRunView>,
    events: Seq<TurnEvent>,
    cancelled: Seq<bool>,
    actions: Seq<TurnAction>,
)
    requires
        states.len() == events.len() + 1,
        cancelled.len() == events.len(),
        actions.len() == events.len(),
        forall|i: int|
            0 <= i < events.len() ==> #[trigger] turn_step_spec(states[i], events[i], cancelled[i], states[i + 1], actions[i]),
    ensures
        states.last().usage == turn_usage_through(states[0].usage, events),
    decreases events.len(),
{
    if events.len() > 0 {
        let k = events.len() - 1;
        law_turn_usage_sums_model_calls(states.drop_last(), events.drop_last(), cancelled.drop_last(), actions.drop_last());
        assert(turn_step_spec(states[k], events[k], cancelled[k], states[k + 1], actions[k]));
        assert(states.drop_last().last() == states[k]);
    }
}

/// A turn ends successfully only when its `Finished` publication was acknowledged, and then
/// hands back exactly its committed history.
pub proof fn law_turn_success_after_finish_published(
    o: TurnRunView,
    event: TurnEvent,
    cancelled: bool,
    n: TurnRunView,
    history: Vec<ChatMessage>,
)
    requires
        turn_step_spec(o, event, cancelled, n, TurnAction::Finish { result: Ok(history) }),
    ensures
        o.phase is PublishingFinish,
        event is Published,
        history@ == o.history,
{
}

/// A message enters the turn's history only when its publication was acknowledged.
pub proof fn law_history_grows_only_on_publication(
    o: TurnRunView,
    event: TurnEvent,
    cancelled: bool,
    n: TurnRunView,
    action: TurnAction,
)
    requires
        turn_step_spec(o, event, cancelled, n, action),
        !(o.phase is PublishingFinish),
        n.history != o.history,
    ensures
        event is Published,
        o.phase is PublishingAssistant || o.phase is PublishingToolResult,
        n.history.drop_last() == o.history,
{
}

/// A tool is executed only while no cancellation is observed, and only a call of the
/// assistant message that the model finished with.
pub proof fn law_turn_tools_run_uncancelled(
    o: TurnRunView,
    event: TurnEvent,
    cancelled: bool,
    n: TurnRunView,
    turn_index: usize,
    tool_call: ToolCall,
    usage: TokenUsage,
)
    requires
        turn_step_spec(o, event, cancelled, n, TurnAction::ExecuteTool { turn_index, tool_call, usage }),
    ensures
        !cancelled,
        event is Published,
        exists|i: int| 0 <= i < o.tool_calls.len() && o.tool_calls[i] == tool_call,
{
    if o.phase is PublishingAssistant {
        assert(o.tool_calls[0] == tool_call);
    } else {
        let i = o.phase->PublishingToolResult_index as int + 1;
        assert(o.tool_calls[i] == tool_call);
    }
}

} // verus!
