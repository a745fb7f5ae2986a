//! The decisions of appending one message to a filesystem-backed agent store.
//!
//! An append reads the state, derives the next sequence number, and either adopts a record
//! that an earlier attempt already wrote at that number or writes the record itself; it then
//! moves the committed frontier. Conflicting writers make it start over, within a budget of
//! attempts. The reads, writes and frontier updates are outside work; this module decides.

use vstd::prelude::*;

use crate::core_types::ChatRole;
use crate::envelope::{
    message_envelope_text, same_message_envelope, EventSource, MessageEnvelopeText, RuntimeEvent,
    StreamEnvelope,
};
use crate::sink::AgentEvent;
use crate::store::{message_fault, message_fault_error, validate_message, validate_message_role, AgentState, StoreError};

verus! {

/// Where an append stands.
#[derive(Debug, Clone, Copy, PartialEq, Eq, Structural)]
pub enum AppendPhase {
    /// Waiting for the persisted state.
    ReadingState,
    /// Waiting for the records at `seq` and just beyond it.
    ReadingMessages { last_seq: u64, seq: u64 },
    /// A record lies beyond `seq`; waiting for the state once more.
    RefreshingState { last_seq: u64, seq: u64 },
    /// A record already exists at `seq`; waiting for the frontier to move to it. `same` says
    /// whether it is the record this append would write.
    CommittingExisting { same: bool },
    /// Waiting for the record at `seq` to be written.
    Writing { last_seq: u64, seq: u64 },
    /// The record at `seq` was written; waiting for the frontier to move to it.
    CommittingWritten { seq: u64 },
    /// The append returned its result.
    Done,
}

/// The outcome of the outside work an append waited for.
#[derive(Debug)]
pub enum AppendEvent {
    /// The persisted state.
    StateRead { state: AgentState },
    /// The record at the next sequence number, if any, and whether one exists beyond it.
    MessagesRead { existing: Option<StreamEnvelope>, beyond_exists: bool },
    /// The frontier of the state read once more.
    StateRefreshed { last_seq: u64 },
    /// The frontier reached the sequence number.
    Committed,
    /// The record was written.
    Written,
    /// Another writer created the record first.
    WriteConflict,
    /// The outside work failed.
    Failed { error: StoreError },
}

/// The outside work an append asks for next.
#[derive(Debug)]
pub enum AppendAction {
    /// Read the persisted state.
    ReadState,
    /// Read the records at `seq` and `beyond`.
    ReadMessages { seq: u64, beyond: u64 },
    /// Read the persisted state once more.
    RefreshState,
    /// Move the committed frontier from `expected_previous` to `seq`.
    Commit { expected_previous: u64, seq: u64 },
    /// Write `envelope` as the record `seq`, which must not exist yet.
    Write { seq: u64, envelope: StreamEnvelope },
    /// The append is over.
    Finish { result: Result<StreamEnvelope, StoreError> },
}

/// The message record this append writes at `seq`.
pub open spec fn record_at(base: MessageEnvelopeText, seq: u64) -> MessageEnvelopeText {
    MessageEnvelopeText { business_seq: Some(seq), ..base }
}

/// Whether `base` names as its producer another agent than the one it belongs to.
pub open spec fn foreign_source(base: MessageEnvelopeText) -> bool {
    base.source.0 == 2 && base.source.2 != base.agent_id
}

/// Whether `action` returns the envelope with character-level value `t`.
pub open spec fn returns_record(action: AppendAction, t: MessageEnvelopeText) -> bool {
    action matches AppendAction::Finish { result: Ok(e) } && message_envelope_text(e) == Some(t)
}

/// Mathematical state of an append.
pub struct AppendView {
    /// The message to append, without a sequence number.
    pub base: MessageEnvelopeText,
    /// Number of the current attempt, from one.
    pub attempt: nat,
    /// Attempts allowed.
    pub max_attempts: nat,
    /// The record found at the next sequence number, when one was.
    pub existing: Option<MessageEnvelopeText>,
    /// Where the append stands.
    pub phase: AppendPhase,
}

/// What happens when an attempt gives way to a conflicting writer.
pub open spec fn retry_spec(o: AppendView, n: AppendView, action: AppendAction) -> bool {
    &&& n.base == o.base
    &&& n.max_attempts == o.max_attempts
    &&& if o.attempt >= o.max_attempts {
        n.phase is Done && (action matches AppendAction::Finish { result: Err(StoreError::CasRetriesExhausted) })
    } else {
        n.phase is ReadingState && n.attempt == o.attempt + 1 && action is ReadState
    }
}

/// Whether `action` finishes the append with the error `e`.
pub open spec fn fails_with(n: AppendView, action: AppendAction, e: StoreError) -> bool {
    n.phase is Done && action == (AppendAction::Finish { result: Err(e) })
}

/// The transition of an append from `o`, given `event`, to `n` with the next `action`.
pub open spec fn append_step_spec(o: AppendView, event: AppendEvent, n: AppendView, action: AppendAction) -> bool {
    let b = o.base;
    match event {
        AppendEvent::Failed { error } => fails_with(n, action, error),
        AppendEvent::StateRead { state } => if state.agent_id@ != b.agent_id {
            n.phase is Done && (action matches AppendAction::Finish {
                result: Err(StoreError::AgentMismatch { expected, actual }),
            } && expected@ == state.agent_id@ && actual@ == b.agent_id)
        } else if state.last_seq >= u64::MAX - 1 {
            fails_with(n, action, StoreError::SequenceOverflow)
        } else if foreign_source(b) {
            n.phase is Done && (action matches AppendAction::Finish {
                result: Err(StoreError::AgentMismatch { expected, actual }),
            } && expected@ == b.agent_id && actual@ == b.source.2)
        } else {
            let seq = (state.last_seq + 1) as u64;
            &&& n == AppendView {
                phase: AppendPhase::ReadingMessages { last_seq: state.last_seq, seq },
                ..o
            }
            &&& action == (AppendAction::ReadMessages { seq, beyond: (seq + 1) as u64 })
        },
        AppendEvent::MessagesRead { existing, beyond_exists } => match o.phase {
            AppendPhase::ReadingMessages { last_seq, seq } => if beyond_exists {
                &&& n == AppendView { phase: AppendPhase::RefreshingState { last_seq, seq }, ..o }
                &&& action is RefreshState
            } else {
                match existing {
                    Some(e) => match message_fault(e, b.agent_id, seq, Some(b.run_id), Some(b.turn_id)) {
                        Some(f) => n.phase is Done && (action matches AppendAction::Finish { result: Err(err) }
                            && message_fault_error(f, e, b.agent_id, seq, Some(b.run_id), Some(b.turn_id), err)),
                        None => {
                            &&& n.base == o.base
                            &&& n.attempt == o.attempt
                            &&& n.max_attempts == o.max_attempts
                            &&& n.existing == message_envelope_text(e)
                            &&& n.phase == AppendPhase::CommittingExisting {
                                same: message_envelope_text(e) == Some(record_at(b, seq)),
                            }
                            &&& action == (AppendAction::Commit { expected_previous: last_seq, seq })
                        },
                    },
                    None => {
                        &&& n == AppendView { phase: AppendPhase::Writing { last_seq, seq }, ..o }
                        &&& action matches AppendAction::Write { seq: s, envelope } && s == seq
                            && message_envelope_text(envelope) == Some(record_at(b, seq))
                    },
                }
            },
            _ => false,
        },
        AppendEvent::StateRefreshed { last_seq: l } => match o.phase {
            AppendPhase::RefreshingState { last_seq, seq } => if l != last_seq {
                retry_spec(o, n, action)
            } else {
                fails_with(n, action, StoreError::MessageBeyondFrontier { seq: (seq + 1) as u64, frontier: seq })
            },
            _ => false,
        },
        AppendEvent::Committed => match o.phase {
            AppendPhase::CommittingExisting { same } => if same {
                n.phase is Done && returns_record(action, o.existing.unwrap())
            } else {
                retry_spec(o, n, action)
            },
            AppendPhase::CommittingWritten { seq } => n.phase is Done && returns_record(action, record_at(b, seq)),
            _ => false,
        },
        AppendEvent::Written => match o.phase {
            AppendPhase::Writing { last_seq, seq } => {
                &&& n == AppendView { phase: AppendPhase::CommittingWritten { seq }, ..o }
                &&& action == (AppendAction::Commit { expected_previous: last_seq, seq })
            },
            _ => false,
        },
        AppendEvent::WriteConflict => match o.phase {
            AppendPhase::Writing { .. } => retry_spec(o, n, action),
            _ => false,
        },
    }
}

/// Whether `event` is an outcome of the work that `phase` waits for.
pub open spec fn append_accepts(phase: AppendPhase, event: AppendEvent) -> bool {
    match phase {
        AppendPhase::Done => false,
        _ => match event {
            AppendEvent::Failed { .. } => true,
            AppendEvent::StateRead { .. } => phase is ReadingState,
            AppendEvent::MessagesRead { .. } => phase is ReadingMessages,
            AppendEvent::StateRefreshed { .. } => phase is RefreshingState,
            AppendEvent::Committed => phase is CommittingExisting || phase is CommittingWritten,
            AppendEvent::Written | AppendEvent::WriteConflict => phase is Writing,
        },
    }
}

/// One append of a message to a store.
pub struct AppendMessage {
    base: StreamEnvelope,
    attempt: usize,
    max_attempts: usize,
    existing: Option<StreamEnvelope>,
    phase: AppendPhase,
}

impl View for AppendMessage {
    type V = AppendView;

    closed spec fn view(&self) -> AppendView {
        AppendView {
            base: message_envelope_text(self.base).unwrap(),
            attempt: self.attempt as nat,
            max_attempts: self.max_attempts as nat,
            existing: match self.existing {
                Some(e) => message_envelope_text(e),
                None => None,
            },
            phase: self.phase,
        }
    }
}

impl AppendMessage {
    /// The append carries a message envelope without a sequence number, and its attempt
    /// count stays within the budget.
    pub closed spec fn wf(&self) -> bool {
        &&& message_envelope_text(self.base) is Some
        &&& self.base.business_seq is None
        &&& 1 <= self.attempt <= self.max_attempts
        &&& message_envelope_text(self.base).unwrap().message.role != ChatRole::System
        &&& (self.phase is CommittingExisting ==> self.existing is Some && message_envelope_text(
            self.existing.unwrap(),
        ) is Some)
        &&& match self.phase {
            AppendPhase::ReadingMessages { seq, .. } => seq < u64::MAX,
            AppendPhase::RefreshingState { seq, .. } => seq < u64::MAX,
            _ => true,
        }
    }

    /// Checks `envelope` and starts appending it, with at most `max_attempts` attempts.
    /// The envelope must not carry a sequence number yet and must carry an agent message
    /// with a role a store accepts.
    pub fn start(envelope: StreamEnvelope, max_attempts: usize) -> (r: Result<(AppendMessage, AppendAction), StoreError>)
        ensures
            envelope.business_seq is Some ==> r == Err::<(AppendMessage, AppendAction), StoreError>(
                StoreError::MessageAlreadySequenced,
            ),
            envelope.business_seq is None && message_envelope_text(envelope) is None ==> r == Err::<
                (AppendMessage, AppendAction),
                StoreError,
            >(StoreError::UnexpectedMessageEvent),
            envelope.business_seq is None && message_envelope_text(envelope) is Some ==> {
                let t = message_envelope_text(envelope).unwrap();
                if t.message.role == ChatRole::System {
                    r == Err::<(AppendMessage, AppendAction), StoreError>(
                        StoreError::InvalidMessageRole { role: ChatRole::System },
                    )
                } else if max_attempts == 0 {
                    r == Err::<(AppendMessage, AppendAction), StoreError>(StoreError::CasRetriesExhausted)
                } else {
                    r matches Ok((m, a)) && m.wf() && m@.base == t && m@.attempt == 1 && m@.max_attempts
                        == max_attempts && m@.phase is ReadingState && a is ReadState
                }
            },
    {
        if envelope.business_seq.is_some() {
            return Err(StoreError::MessageAlreadySequenced);
        }
        let role = match &envelope.event {
            RuntimeEvent::Agent { event: AgentEvent::Message { message, .. }, .. } => message.role,
            _ => return Err(StoreError::UnexpectedMessageEvent),
        };
        match validate_message_role(role) {
            Err(e) => return Err(e),
            Ok(()) => {},
        }
        if max_attempts == 0 {
            return Err(StoreError::CasRetriesExhausted);
        }
        Ok((
            AppendMessage { base: envelope, attempt: 1, max_attempts, existing: None, phase: AppendPhase::ReadingState },
            AppendAction::ReadState,
        ))
    }

    /// Whether the append waits for work of the kind that `event` reports.
    pub fn expects(&self, event: &AppendEvent) -> (r: bool)
        ensures
            r == append_accepts(self@.phase, *event),
    {
        match (self.phase, event) {
            (AppendPhase::Done, _) => false,
            (_, AppendEvent::Failed { .. }) => true,
            (AppendPhase::ReadingState, AppendEvent::StateRead { .. }) => true,
            (AppendPhase::ReadingMessages { .. }, AppendEvent::MessagesRead { .. }) => true,
            (AppendPhase::RefreshingState { .. }, AppendEvent::StateRefreshed { .. }) => true,
            (AppendPhase::CommittingExisting { .. }, AppendEvent::Committed) => true,
            (AppendPhase::CommittingWritten { .. }, AppendEvent::Committed) => true,
            (AppendPhase::Writing { .. }, AppendEvent::Written) => true,
            (AppendPhase::Writing { .. }, AppendEvent::WriteConflict) => true,
            _ => false,
        }
    }

    /// The record this append writes at `seq`.
    fn record(&self, seq: u64) -> (r: StreamEnvelope)
        requires
            self.wf(),
        ensures
            message_envelope_text(r) == Some(record_at(self@.base, seq)),
    {
        let b = &self.base;
        let source = match &b.source {
            EventSource::Run => EventSource::Run,
            EventSource::Node { node_id } => EventSource::Node { node_id: node_id.clone() },
            EventSource::Agent { node_id, agent_id } => EventSource::Agent {
                node_id: node_id.clone(),
                agent_id: agent_id.clone(),
            },
        };
        let event = match &b.event {
            RuntimeEvent::Agent { agent_id, event: AgentEvent::Message { turn_id, message } } => RuntimeEvent::Agent {
                agent_id: agent_id.clone(),
                event: AgentEvent::Message { turn_id: turn_id.clone(), message: message.clone() },
            },
            _ => RuntimeEvent::RunStarted,
        };
        let mut metadata: Vec<(String, String)> = Vec::new();
        let mut i: usize = 0;
        while i < b.metadata.len()
            invariant
                i <= b.metadata@.len(),
                metadata@.len() == i,
                forall|k: int| 0 <= k < i ==> (#[trigger] metadata@[k]).0@ == b.metadata@[k].0@ && metadata@[k].1@
                    == b.metadata@[k].1@,
            decreases b.metadata.len() - i,
        {
            metadata.push((b.metadata[i].0.clone(), b.metadata[i].1.clone()));
            i = i + 1;
        }
        let r = StreamEnvelope {
            business_seq: Some(seq),
            run_id: b.run_id.clone(),
            timestamp: b.timestamp,
            source,
            event,
            metadata,
        };
        assert(crate::envelope::metadata_text(r.metadata@) =~= crate::envelope::metadata_text(b.metadata@));
        assert(message_envelope_text(r).unwrap().message == message_envelope_text(*b).unwrap().message);
        r
    }

    fn retry(&mut self) -> (action: AppendAction)
        requires
            old(self).wf(),
        ensures
            final(self).wf(),
            retry_spec(old(self)@, final(self)@, action),
    {
        if self.attempt >= self.max_attempts {
            self.phase = AppendPhase::Done;
            AppendAction::Finish { result: Err(StoreError::CasRetriesExhausted) }
        } else {
            self.attempt = self.attempt + 1;
            self.phase = AppendPhase::ReadingState;
            AppendAction::ReadState
        }
    }

    fn finish_with(&mut self, error: StoreError) -> (action: AppendAction)
        requires
            old(self).wf(),
        ensures
            final(self).wf(),
            final(self)@ == (AppendView { phase: AppendPhase::Done, ..old(self)@ }),
            action == (AppendAction::Finish { result: Err(error) }),
    {
        self.phase = AppendPhase::Done;
        AppendAction::Finish { result: Err(error) }
    }

    fn on_state(&mut self, state: AgentState) -> (action: AppendAction)
        requires
            old(self).wf(),
            old(self)@.phase is ReadingState,
        ensures
            final(self).wf(),
            append_step_spec(old(self)@, AppendEvent::StateRead { state }, final(self)@, action),
    {
        let ghost b = self@.base;
        let (agent_id, turn_id) = match &self.base.event {
            RuntimeEvent::Agent { agent_id, event: AgentEvent::Message { turn_id, .. } } => (
                agent_id.clone(),
                turn_id.clone(),
            ),
            _ => {
                proof {
                    assert(false);
                }
                return self.finish_with(StoreError::UnexpectedMessageEvent);
            },
        };
        if !(state.agent_id == agent_id) {
            return self.finish_with(StoreError::AgentMismatch { expected: state.agent_id, actual: agent_id });
        }
        if state.last_seq >= u64::MAX - 1 {
            return self.finish_with(StoreError::SequenceOverflow);
        }
        let seq = state.last_seq + 1;
        let candidate = self.record(seq);
        let run = Some(self.base.run_id.clone());
        let turn = Some(turn_id);
        match validate_message(&candidate, &state.agent_id, seq, &run, &turn) {
            Err(e) => {
                proof {
                    assert(foreign_source(b));
                }
                self.finish_with(e)
            },
            Ok(()) => {
                self.phase = AppendPhase::ReadingMessages { last_seq: state.last_seq, seq };
                AppendAction::ReadMessages { seq, beyond: seq + 1 }
            },
        }
    }

    fn on_messages(&mut self, existing: Option<StreamEnvelope>, beyond_exists: bool) -> (action: AppendAction)
        requires
            old(self).wf(),
            old(self)@.phase is ReadingMessages,
        ensures
            final(self).wf(),
            append_step_spec(old(self)@, AppendEvent::MessagesRead { existing, beyond_exists }, final(self)@, action),
    {
        let (last_seq, seq) = match self.phase {
            AppendPhase::ReadingMessages { last_seq, seq } => (last_seq, seq),
            _ => {
                proof {
                    assert(false);
                }
                return self.finish_with(StoreError::UnexpectedMessageEvent);
            },
        };
        if beyond_exists {
            self.phase = AppendPhase::RefreshingState { last_seq, seq };
            return AppendAction::RefreshState;
        }
        match existing {
            Some(e) => {
                let (agent_id, turn_id) = match &self.base.event {
                    RuntimeEvent::Agent { agent_id, event: AgentEvent::Message { turn_id, .. } } => (
                        agent_id.clone(),
                        turn_id.clone(),
                    ),
                    _ => {
                        proof {
                            assert(false);
                        }
                        return self.finish_with(StoreError::UnexpectedMessageEvent);
                    },
                };
                let run = Some(self.base.run_id.clone());
                let turn = Some(turn_id);
                match validate_message(&e, &agent_id, seq, &run, &turn) {
                    Err(err) => self.finish_with(err),
                    Ok(()) => {
                        let candidate = self.record(seq);
                        let same = same_message_envelope(&e, &candidate);
                        self.existing = Some(e);
                        self.phase = AppendPhase::CommittingExisting { same };
                        AppendAction::Commit { expected_previous: last_seq, seq }
                    },
                }
            },
            None => {
                let envelope = self.record(seq);
                self.phase = AppendPhase::Writing { last_seq, seq };
                AppendAction::Write { seq, envelope }
            },
        }
    }

    /// Takes the outcome of the outside work the append waited for and decides what happens
    /// next.
    pub fn step(&mut self, event: AppendEvent) -> (action: AppendAction)
        requires
            old(self).wf(),
            append_accepts(old(self)@.phase, event),
        ensures
            final(self).wf(),
            append_step_spec(old(self)@, event, final(self)@, action),
    {
        match event {
            AppendEvent::Failed { error } => self.finish_with(error),
            AppendEvent::StateRead { state } => self.on_state(state),
            AppendEvent::MessagesRead { existing, beyond_exists } => self.on_messages(existing, beyond_exists),
            AppendEvent::StateRefreshed { last_seq: refreshed } => match self.phase {
                AppendPhase::RefreshingState { last_seq, seq } => if refreshed != last_seq {
                    self.retry()
                } else {
                    self.finish_with(StoreError::MessageBeyondFrontier { seq: seq + 1, frontier: seq })
                },
                _ => {
                    proof {
                        assert(false);
                    }
                    self.finish_with(StoreError::UnexpectedMessageEvent)
                },
            },
            AppendEvent::Committed => match self.phase {
                AppendPhase::CommittingExisting { same } => if same {
                    let mut found: Option<StreamEnvelope> = None;
                    std::mem::swap(&mut found, &mut self.existing);
                    self.phase = AppendPhase::Done;
                    match found {
                        Some(e) => AppendAction::Finish { result: Ok(e) },
                        None => {
                            proof {
                                assert(false);
                            }
                            AppendAction::Finish { result: Err(StoreError::UnexpectedMessageEvent) }
                        },
                    }
                } else {
                    self.retry()
                },
                AppendPhase::CommittingWritten { seq } => {
                    let record = self.record(seq);
                    self.phase = AppendPhase::Done;
                    AppendAction::Finish { result: Ok(record) }
                },
                _ => {
                    proof {
                        assert(false);
                    }
                    self.finish_with(StoreError::UnexpectedMessageEvent)
                },
            },
            AppendEvent::Written => match self.phase {
                AppendPhase::Writing { last_seq, seq } => {
                    self.phase = AppendPhase::CommittingWritten { seq };
                    AppendAction::Commit { expected_previous: last_seq, seq }
                },
                _ => {
                    proof {
                        assert(false);
                    }
                    self.finish_with(StoreError::UnexpectedMessageEvent)
                },
            },
            AppendEvent::WriteConflict => self.retry(),
        }
    }
}

/// An append returns a record only once the committed frontier has reached it.
pub proof fn law_append_returns_committed_records(
    o: AppendView,
    event: AppendEvent,
    n: AppendView,
    record: StreamEnvelope,
)
    requires
        append_step_spec(o, event, n, AppendAction::Finish { result: Ok(record) }),
    ensures
        event is Committed,
        o.phase is CommittingExisting || o.phase is CommittingWritten,
{
}

/// An append writes a record only where none exists and none lies beyond, and what it
/// writes is its own message at the next sequence number.
pub proof fn law_append_writes_only_free_positions(
    o: AppendView,
    event: AppendEvent,
    n: AppendView,
    seq: u64,
    envelope: StreamEnvelope,
)
    requires
        append_step_spec(o, event, n, AppendAction::Write { seq, envelope }),
    ensures
        event matches AppendEvent::MessagesRead { existing: None, beyond_exists: false },
        o.phase matches AppendPhase::ReadingMessages { seq: s, .. } && s == seq,
        message_envelope_text(envelope) == Some(record_at(o.base, seq)),
{
}

/// An append that gives way to a conflicting writer starts over only within its budget of
/// attempts.
pub proof fn law_append_retries_within_budget(o: AppendView, event: AppendEvent, n: AppendView, action: AppendAction)
    requires
        append_step_spec(o, event, n, action),
        action is ReadState,
    ensures
        n.attempt == o.attempt + 1,
        n.attempt <= o.max_attempts,
{
}

} // verus!
