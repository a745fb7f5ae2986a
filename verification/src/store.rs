//! Agent state, its durable transitions, and the layout of a filesystem-backed agent store.
//!
//! Each store operation reads the persisted state, applies one transition and writes the
//! result back with compare-and-swap; the transitions are the functions of this module.

use vstd::prelude::*;

use crate::core_types::{ChatRole, TokenUsage};
use crate::filesystem::{is_virtual_path, FilesystemError, VirtualPath};
use crate::agent_loop::stream::opt_text;
use crate::text::{chars_of, decimal, digit_char, owned, push_decimal, push_str};
use crate::envelope::{EventSource, RuntimeEvent, StreamEnvelope};
use crate::sink::AgentEvent;

verus! {

/// Version of the persisted state layout that carries a model configuration.
pub const AGENT_STATE_VERSION: u32 = 2;

/// Version of the persisted state layout written before model configurations existed.
pub const LEGACY_AGENT_STATE_VERSION: u32 = 1;

/// Largest number of messages one history page may hold.
pub const MAX_HISTORY_PAGE_SIZE: usize = 1000;

/// Lifecycle status of a persisted agent.
#[derive(Debug, Clone, Copy, PartialEq, Eq, Structural)]
pub enum AgentStatus {
    /// No run has started.
    Idle,
    /// A run is in progress.
    Running,
    /// The last run finished.
    Finished,
    /// The last run failed.
    Failed,
    /// The last run was cancelled.
    Cancelled,
}

/// Persisted state of one agent.
#[derive(Debug, PartialEq, Eq)]
pub struct AgentState {
    /// Layout version.
    pub state_version: u32,
    /// Agent identity.
    pub agent_id: String,
    /// Agent name.
    pub name: String,
    /// Lifecycle status.
    pub status: AgentStatus,
    /// Active or last run.
    pub run_id: Option<String>,
    /// Active or last turn.
    pub turn_id: Option<String>,
    /// Next iteration of the active turn that has not reached its durable boundary.
    pub next_iteration: u64,
    /// Sequence number of the last committed message; zero when none is.
    pub last_seq: u64,
    /// Usage of the active or last turn.
    pub usage: TokenUsage,
    /// Model configuration of the turn, as `provider:model` text.
    pub model_config: Option<String>,
    /// Time of the last update, in milliseconds since the Unix epoch.
    pub updated_at: i64,
}

/// Error returned by agent store operations.
#[derive(Debug)]
pub enum StoreError {
    /// The persisted state belongs to another agent.
    AgentMismatch { expected: String, actual: String },
    /// No agent state is persisted.
    AgentMissing,
    /// The agent is not running.
    AgentNotRunning { actual: AgentStatus },
    /// Compare-and-swap retries were exhausted.
    CasRetriesExhausted,
    /// A compare-and-swap update timed out.
    CasTimeout,
    /// The filesystem has no compare-and-swap.
    CasUnsupported,
    /// A persisted message cannot be decoded.
    DecodeMessage(serde_json::Error),
    /// The persisted state cannot be decoded.
    DecodeState(serde_json::Error),
    /// A value cannot be encoded.
    Encode(serde_json::Error),
    /// The filesystem failed.
    Filesystem(FilesystemError),
    /// A history barrier lies beyond the last committed message.
    HistoryBarrierBeyondLast { through_seq: u64, last_seq: u64 },
    /// A history page limit is zero or too large.
    InvalidHistoryLimit { actual: usize, maximum: usize },
    /// A history range starts beyond its barrier.
    InvalidHistoryRange { after_seq: u64, through_seq: u64 },
    /// A file of the message directory is not a message record.
    InvalidMessageFilename { file_name: String },
    /// A message role cannot be stored.
    InvalidMessageRole { role: ChatRole },
    /// The iteration is not the next one of the active turn.
    IterationMismatch { expected: u64, actual: u64 },
    /// The iteration counter cannot advance.
    IterationOverflow,
    /// An appended message already carries a sequence number.
    MessageAlreadySequenced,
    /// A message lies beyond the committed frontier.
    MessageBeyondFrontier { seq: u64, frontier: u64 },
    /// A message record carries another sequence number than its path.
    MessageSequenceMismatch { path_seq: u64, event_seq: u64 },
    /// A committed message is missing.
    MissingCommittedMessage { seq: u64 },
    /// A state of the current layout has no model configuration.
    MissingModelConfig,
    /// The run is not the expected one.
    RunMismatch { expected: String, actual: String },
    /// Another run is already running.
    RunningRunConflict { current: Option<String>, attempted: Option<String> },
    /// The sequence counter cannot advance.
    SequenceOverflow,
    /// The turn is not the expected one.
    TurnMismatch { expected: String, actual: String },
    /// An appended event is not an agent message.
    UnexpectedMessageEvent,
    /// The persisted layout version is not supported.
    UnsupportedStateVersion { version: u32 },
}

fn clone_opt(s: &Option<String>) -> (r: Option<String>)
    ensures
        r == *s,
{
    match s {
        Some(t) => Some(t.clone()),
        None => None,
    }
}

impl AgentState {
    /// A copy of this state.
    pub fn duplicate(&self) -> (r: AgentState)
        ensures
            r == *self,
    {
        AgentState {
            state_version: self.state_version,
            agent_id: self.agent_id.clone(),
            name: self.name.clone(),
            status: self.status,
            run_id: clone_opt(&self.run_id),
            turn_id: clone_opt(&self.turn_id),
            next_iteration: self.next_iteration,
            last_seq: self.last_seq,
            usage: self.usage,
            model_config: clone_opt(&self.model_config),
            updated_at: self.updated_at,
        }
    }

    /// The state of a new idle agent without a model configuration, in the legacy layout.
    pub fn new(agent_id: String, name: String, updated_at: i64) -> (r: AgentState)
        ensures
            r == (AgentState {
                state_version: LEGACY_AGENT_STATE_VERSION,
                agent_id,
                name,
                status: AgentStatus::Idle,
                run_id: None,
                turn_id: None,
                next_iteration: 0,
                last_seq: 0,
                usage: TokenUsage { input_tokens: 0, output_tokens: 0, total_tokens: 0 },
                model_config: None,
                updated_at,
            }),
            persisted_state_error(r) is None,
    {
        AgentState {
            state_version: LEGACY_AGENT_STATE_VERSION,
            agent_id,
            name,
            status: AgentStatus::Idle,
            run_id: None,
            turn_id: None,
            next_iteration: 0,
            last_seq: 0,
            usage: TokenUsage { input_tokens: 0, output_tokens: 0, total_tokens: 0 },
            model_config: None,
            updated_at,
        }
    }

    /// The state of a new idle agent configured with `model_config`.
    pub fn new_configured(agent_id: String, name: String, model_config: String, updated_at: i64) -> (r: AgentState)
        ensures
            r == (AgentState {
                state_version: AGENT_STATE_VERSION,
                agent_id,
                name,
                status: AgentStatus::Idle,
                run_id: None,
                turn_id: None,
                next_iteration: 0,
                last_seq: 0,
                usage: TokenUsage { input_tokens: 0, output_tokens: 0, total_tokens: 0 },
                model_config: Some(model_config),
                updated_at,
            }),
            runtime_state_error(r) is None,
    {
        AgentState {
            state_version: AGENT_STATE_VERSION,
            agent_id,
            name,
            status: AgentStatus::Idle,
            run_id: None,
            turn_id: None,
            next_iteration: 0,
            last_seq: 0,
            usage: TokenUsage { input_tokens: 0, output_tokens: 0, total_tokens: 0 },
            model_config: Some(model_config),
            updated_at,
        }
    }
}

/// What persisting a model configuration does to a state.
#[derive(Debug)]
pub enum ModelConfigMigration {
    /// The state now carries the configuration, in the current layout.
    Migrated(AgentState),
    /// The state already carries a configuration, which stays.
    AlreadyPersisted,
}

/// Persists `model_config` in a state that lacks one, moving it to the current layout; a
/// state that already has a configuration keeps it.
pub fn model_config_migration(current: &AgentState, model_config: String) -> (r: Result<
    ModelConfigMigration,
    StoreError,
>)
    ensures
        persisted_state_error(*current) is Some ==> r == Err::<ModelConfigMigration, StoreError>(
            persisted_state_error(*current).unwrap(),
        ),
        persisted_state_error(*current) is None && current.model_config is Some ==> r matches Ok(
            ModelConfigMigration::AlreadyPersisted,
        ),
        persisted_state_error(*current) is None && current.model_config is None ==> r == Ok::<
            ModelConfigMigration,
            StoreError,
        >(
            ModelConfigMigration::Migrated(
                AgentState { state_version: AGENT_STATE_VERSION, model_config: Some(model_config), ..*current },
            ),
        ),
{
    match validate_persisted_state(current) {
        Err(e) => return Err(e),
        Ok(()) => {},
    }
    if current.model_config.is_some() {
        return Ok(ModelConfigMigration::AlreadyPersisted);
    }
    let mut next = current.duplicate();
    next.state_version = AGENT_STATE_VERSION;
    next.model_config = Some(model_config);
    Ok(ModelConfigMigration::Migrated(next))
}

/// Whether a persisted state has a layout this store reads: the current one with a model
/// configuration, or the legacy one without.
pub open spec fn persisted_state_error(state: AgentState) -> Option<StoreError> {
    if state.state_version == AGENT_STATE_VERSION {
        if state.model_config is Some { None } else { Some(StoreError::MissingModelConfig) }
    } else if state.state_version == LEGACY_AGENT_STATE_VERSION && state.model_config is None {
        None
    } else {
        Some(StoreError::UnsupportedStateVersion { version: state.state_version })
    }
}

/// Checks that a persisted state has a readable layout.
pub fn validate_persisted_state(state: &AgentState) -> (r: Result<(), StoreError>)
    ensures
        match persisted_state_error(*state) {
            None => r is Ok,
            Some(e) => r == Err::<(), StoreError>(e),
        },
{
    if state.state_version == AGENT_STATE_VERSION {
        match &state.model_config {
            Some(_) => Ok(()),
            None => Err(StoreError::MissingModelConfig),
        }
    } else if state.state_version == LEGACY_AGENT_STATE_VERSION && state.model_config.is_none() {
        Ok(())
    } else {
        Err(StoreError::UnsupportedStateVersion { version: state.state_version })
    }
}

/// Whether a state can drive a run: a readable layout that carries a model configuration.
pub open spec fn runtime_state_error(state: AgentState) -> Option<StoreError> {
    match persisted_state_error(state) {
        Some(e) => Some(e),
        None => if state.model_config is None { Some(StoreError::MissingModelConfig) } else { None },
    }
}

/// Checks that a state can drive a run.
pub fn validate_runtime_state(state: &AgentState) -> (r: Result<(), StoreError>)
    ensures
        match runtime_state_error(*state) {
            None => r is Ok,
            Some(e) => r == Err::<(), StoreError>(e),
        },
{
    match validate_persisted_state(state) {
        Err(e) => return Err(e),
        Ok(()) => {},
    }
    if state.model_config.is_none() {
        return Err(StoreError::MissingModelConfig);
    }
    Ok(())
}

/// Replaces the mutable runtime state. Starting a run while another one runs is refused;
/// switching to a new running run restarts the iteration frontier.
pub fn update_state_transition(
    current: &AgentState,
    status: AgentStatus,
    run_id: Option<String>,
    turn_id: Option<String>,
    usage: TokenUsage,
    updated_at: i64,
) -> (r: Result<AgentState, StoreError>)
    ensures
        runtime_state_error(*current) is Some ==> r == Err::<AgentState, StoreError>(
            runtime_state_error(*current).unwrap(),
        ),
        runtime_state_error(*current) is None && status == AgentStatus::Running && current.status
            == AgentStatus::Running && opt_text(current.run_id) != opt_text(run_id) ==> r == Err::<AgentState, StoreError>(
            StoreError::RunningRunConflict { current: current.run_id, attempted: run_id },
        ),
        runtime_state_error(*current) is None && !(status == AgentStatus::Running && current.status
            == AgentStatus::Running && opt_text(current.run_id) != opt_text(run_id)) ==> r == Ok::<AgentState, StoreError>(
            AgentState {
                status,
                run_id,
                turn_id,
                usage,
                updated_at,
                next_iteration: if status == AgentStatus::Running && opt_text(current.run_id) != opt_text(run_id) {
                    0
                } else {
                    current.next_iteration
                },
                ..*current
            },
        ),
{
    match validate_runtime_state(current) {
        Err(e) => return Err(e),
        Ok(()) => {},
    }
    let same_run = opt_eq(&current.run_id, &run_id);
    if status == AgentStatus::Running && current.status == AgentStatus::Running && !same_run {
        return Err(StoreError::RunningRunConflict { current: clone_opt(&current.run_id), attempted: run_id });
    }
    let mut next = current.duplicate();
    if status == AgentStatus::Running && !same_run {
        next.next_iteration = 0;
    }
    next.status = status;
    next.run_id = run_id;
    next.turn_id = turn_id;
    next.usage = usage;
    next.updated_at = updated_at;
    Ok(next)
}

fn opt_eq(a: &Option<String>, b: &Option<String>) -> (r: bool)
    ensures
        r == (opt_text(*a) == opt_text(*b)),
{
    match (a, b) {
        (Some(x), Some(y)) => *x == *y,
        (None, None) => true,
        _ => false,
    }
}

/// Starts a turn with its model configuration: the state moves to the current layout,
/// `Running`, the given run and turn, iteration zero and zero usage. A state running
/// another run is refused.
pub fn start_turn_transition(
    current: &AgentState,
    run_id: String,
    turn_id: String,
    model_config: String,
    updated_at: i64,
) -> (r: Result<AgentState, StoreError>)
    ensures
        persisted_state_error(*current) is Some ==> r == Err::<AgentState, StoreError>(
            persisted_state_error(*current).unwrap(),
        ),
        persisted_state_error(*current) is None && current.status == AgentStatus::Running
            && opt_text(current.run_id) != Some(run_id@) ==> r == Err::<AgentState, StoreError>(
            StoreError::RunningRunConflict { current: current.run_id, attempted: Some(run_id) },
        ),
        persisted_state_error(*current) is None && !(current.status == AgentStatus::Running
            && opt_text(current.run_id) != Some(run_id@)) ==> r == Ok::<AgentState, StoreError>(
            AgentState {
                state_version: AGENT_STATE_VERSION,
                status: AgentStatus::Running,
                run_id: Some(run_id),
                turn_id: Some(turn_id),
                next_iteration: 0,
                usage: TokenUsage { input_tokens: 0, output_tokens: 0, total_tokens: 0 },
                model_config: Some(model_config),
                updated_at,
                ..*current
            },
        ),
{
    match validate_persisted_state(current) {
        Err(e) => return Err(e),
        Ok(()) => {},
    }
    let attempted = Some(run_id);
    if current.status == AgentStatus::Running && !opt_eq(&current.run_id, &attempted) {
        return Err(StoreError::RunningRunConflict { current: clone_opt(&current.run_id), attempted });
    }
    let mut next = current.duplicate();
    next.state_version = AGENT_STATE_VERSION;
    next.status = AgentStatus::Running;
    next.run_id = attempted;
    next.turn_id = Some(turn_id);
    next.next_iteration = 0;
    next.usage = TokenUsage { input_tokens: 0, output_tokens: 0, total_tokens: 0 };
    next.model_config = Some(model_config);
    next.updated_at = updated_at;
    Ok(next)
}

/// The first reason, in checking order, why `iteration` of the given run and turn cannot
/// complete on `current`.
pub open spec fn complete_iteration_error(
    current: AgentState,
    run_id: String,
    turn_id: String,
    iteration: u64,
) -> Option<StoreError> {
    if runtime_state_error(current) is Some {
        runtime_state_error(current)
    } else if current.status != AgentStatus::Running {
        Some(StoreError::AgentNotRunning { actual: current.status })
    } else if opt_text(current.run_id) != Some(run_id@) {
        Some(StoreError::RunMismatch {
            expected: match current.run_id { Some(r) => r, None => run_id },
            actual: run_id,
        })
    } else if opt_text(current.turn_id) != Some(turn_id@) {
        Some(StoreError::TurnMismatch {
            expected: match current.turn_id { Some(t) => t, None => turn_id },
            actual: turn_id,
        })
    } else if current.next_iteration != iteration {
        Some(StoreError::IterationMismatch { expected: current.next_iteration, actual: iteration })
    } else if iteration == u64::MAX {
        Some(StoreError::IterationOverflow)
    } else {
        None
    }
}

/// The durable iteration frontier moves one step at a time: an iteration completes only when
/// it is the frontier itself, never one before or after it, and the frontier then moves past
/// it by exactly one.
pub proof fn law_iteration_frontier_moves_by_one(current: AgentState, run_id: String, turn_id: String, iteration: u64)
    ensures
        complete_iteration_error(current, run_id, turn_id, iteration) is None ==> iteration == current.next_iteration
            && current.next_iteration < u64::MAX,
        iteration < current.next_iteration ==> complete_iteration_error(current, run_id, turn_id, iteration) is Some,
        iteration > current.next_iteration ==> complete_iteration_error(current, run_id, turn_id, iteration) is Some,
{
}

/// Advances the durable iteration frontier of the running turn by exactly one, recording
/// the usage accumulated through that iteration.
pub fn complete_iteration_transition(
    current: &AgentState,
    run_id: String,
    turn_id: String,
    iteration: u64,
    usage: TokenUsage,
    updated_at: i64,
) -> (r: Result<AgentState, StoreError>)
    ensures
        match complete_iteration_error(*current, run_id, turn_id, iteration) {
            Some(e) => r == Err::<AgentState, StoreError>(e),
            None => r == Ok::<AgentState, StoreError>(
                AgentState { next_iteration: (iteration + 1) as u64, usage, updated_at, ..*current },
            ),
        },
        r matches Ok(next) ==> iteration == current.next_iteration && next.next_iteration == current.next_iteration
            + 1,
        iteration != current.next_iteration ==> r is Err,
{
    match validate_runtime_state(current) {
        Err(e) => return Err(e),
        Ok(()) => {},
    }
    if current.status != AgentStatus::Running {
        return Err(StoreError::AgentNotRunning { actual: current.status });
    }
    let wanted_run = Some(run_id);
    if !opt_eq(&current.run_id, &wanted_run) {
        let actual = match wanted_run {
            Some(r) => r,
            None => String::new(),
        };
        let expected = match &current.run_id {
            Some(r) => r.clone(),
            None => actual.clone(),
        };
        return Err(StoreError::RunMismatch { expected, actual });
    }
    let wanted_turn = Some(turn_id);
    if !opt_eq(&current.turn_id, &wanted_turn) {
        let actual = match wanted_turn {
            Some(t) => t,
            None => String::new(),
        };
        let expected = match &current.turn_id {
            Some(t) => t.clone(),
            None => actual.clone(),
        };
        return Err(StoreError::TurnMismatch { expected, actual });
    }
    if current.next_iteration != iteration {
        return Err(StoreError::IterationMismatch { expected: current.next_iteration, actual: iteration });
    }
    if iteration == u64::MAX {
        return Err(StoreError::IterationOverflow);
    }
    let mut next = current.duplicate();
    next.next_iteration = iteration + 1;
    next.usage = usage;
    next.updated_at = updated_at;
    Ok(next)
}

/// Moves the committed frontier to `seq` when the state is at `expected_previous` (or
/// already at `seq`); any other frontier means the sequence was overtaken.
pub fn commit_sequence_transition(current: &AgentState, expected_previous: u64, seq: u64, updated_at: i64) -> (r:
    Result<AgentState, StoreError>)
    ensures
        persisted_state_error(*current) is Some ==> r == Err::<AgentState, StoreError>(
            persisted_state_error(*current).unwrap(),
        ),
        persisted_state_error(*current) is None && current.last_seq != expected_previous
            && current.last_seq != seq ==> r == Err::<AgentState, StoreError>(
            StoreError::MessageBeyondFrontier { seq, frontier: current.last_seq },
        ),
        persisted_state_error(*current) is None && (current.last_seq == expected_previous
            || current.last_seq == seq) ==> r == Ok::<AgentState, StoreError>(
            AgentState { last_seq: seq, updated_at, ..*current },
        ),
{
    match validate_persisted_state(current) {
        Err(e) => return Err(e),
        Ok(()) => {},
    }
    if current.last_seq != expected_previous && current.last_seq != seq {
        return Err(StoreError::MessageBeyondFrontier { seq, frontier: current.last_seq });
    }
    let mut next = current.duplicate();
    next.last_seq = seq;
    next.updated_at = updated_at;
    Ok(next)
}

/// Whether a frontier conflict only means that another writer already committed past `seq`.
pub fn overtaken(error: &StoreError, seq: u64) -> (r: bool)
    ensures
        r == (error matches StoreError::MessageBeyondFrontier { seq: attempted, frontier }
            && attempted == seq && frontier > seq),
{
    match error {
        StoreError::MessageBeyondFrontier { seq: attempted, frontier } => *attempted == seq && *frontier
            > seq,
        _ => false,
    }
}

/// Roles a store accepts in a committed message.
pub fn validate_message_role(role: ChatRole) -> (r: Result<(), StoreError>)
    ensures
        role == ChatRole::System ==> r == Err::<(), StoreError>(StoreError::InvalidMessageRole { role }),
        role != ChatRole::System ==> r is Ok,
{
    match role {
        ChatRole::User | ChatRole::Assistant | ChatRole::Tool => Ok(()),
        ChatRole::System => Err(StoreError::InvalidMessageRole { role }),
    }
}

/// The first reason, in checking order, why a stored envelope is not a valid message record.
#[derive(Debug, Clone, Copy, PartialEq, Eq, Structural)]
pub enum MessageFault {
    /// It belongs to another run than the expected one.
    RunMismatch,
    /// It was produced by another agent.
    SourceAgentMismatch,
    /// It does not carry an agent event.
    NotAgentEvent,
    /// It carries another agent's event.
    EventAgentMismatch,
    /// Its agent event is not a message.
    NotMessage,
    /// Its message has a role a store does not accept.
    InvalidRole,
    /// Its sequence number is not the one its path gives.
    SequenceMismatch,
    /// It belongs to another turn than the expected one.
    TurnMismatch,
}

/// Why `e`, stored at `path_seq` for agent `agent_id`, is not a valid message record of the
/// expected run and turn (when they are given), or `None` when it is one.
pub open spec fn message_fault(
    e: StreamEnvelope,
    agent_id: Seq<char>,
    path_seq: u64,
    run: Option<Seq<char>>,
    turn: Option<Seq<char>>,
) -> Option<MessageFault> {
    if run is Some && e.run_id@ != run.unwrap() {
        Some(MessageFault::RunMismatch)
    } else if e.source is Agent && e.source->Agent_agent_id@ != agent_id {
        Some(MessageFault::SourceAgentMismatch)
    } else {
        match e.event {
            RuntimeEvent::RunStarted => Some(MessageFault::NotAgentEvent),
            RuntimeEvent::Agent { agent_id: a, event } => if a@ != agent_id {
                Some(MessageFault::EventAgentMismatch)
            } else {
                match event {
                    AgentEvent::Message { turn_id, message } => if message.role == ChatRole::System {
                        Some(MessageFault::InvalidRole)
                    } else if e.business_seq != Some(path_seq) {
                        Some(MessageFault::SequenceMismatch)
                    } else if turn is Some && turn_id@ != turn.unwrap() {
                        Some(MessageFault::TurnMismatch)
                    } else {
                        None
                    },
                    _ => Some(MessageFault::NotMessage),
                }
            },
        }
    }
}

/// The error a message fault is reported as.
pub open spec fn message_fault_error(
    f: MessageFault,
    e: StreamEnvelope,
    agent_id: Seq<char>,
    path_seq: u64,
    run: Option<Seq<char>>,
    turn: Option<Seq<char>>,
    r: StoreError,
) -> bool {
    match f {
        MessageFault::RunMismatch => r matches StoreError::RunMismatch { expected, actual } && expected@
            == run.unwrap() && actual@ == e.run_id@,
        MessageFault::SourceAgentMismatch => r matches StoreError::AgentMismatch { expected, actual }
            && expected@ == agent_id && actual@ == e.source->Agent_agent_id@,
        MessageFault::NotAgentEvent | MessageFault::NotMessage => r is UnexpectedMessageEvent,
        MessageFault::EventAgentMismatch => r matches StoreError::AgentMismatch { expected, actual }
            && expected@ == agent_id && actual@ == e.event->Agent_agent_id@,
        MessageFault::InvalidRole => r == (StoreError::InvalidMessageRole { role: ChatRole::System }),
        MessageFault::SequenceMismatch => r == (StoreError::MessageSequenceMismatch {
            path_seq,
            event_seq: match e.business_seq {
                Some(s) => s,
                None => 0,
            },
        }),
        MessageFault::TurnMismatch => r matches StoreError::TurnMismatch { expected, actual } && expected@
            == turn.unwrap() && actual@ == e.event->Agent_event->Message_turn_id@,
    }
}

/// Checks that `envelope`, stored at `path_seq`, is a message record of agent `agent_id`
/// and, when they are given, of the expected run and turn.
pub fn validate_message(
    envelope: &StreamEnvelope,
    agent_id: &String,
    path_seq: u64,
    expected_run_id: &Option<String>,
    expected_turn_id: &Option<String>,
) -> (r: Result<(), StoreError>)
    ensures
        match message_fault(*envelope, agent_id@, path_seq, opt_text(*expected_run_id), opt_text(*expected_turn_id)) {
            None => r is Ok,
            Some(f) => r matches Err(e) && message_fault_error(
                f,
                *envelope,
                agent_id@,
                path_seq,
                opt_text(*expected_run_id),
                opt_text(*expected_turn_id),
                e,
            ),
        },
{
    if let Some(expected) = expected_run_id {
        if !(envelope.run_id == *expected) {
            return Err(StoreError::RunMismatch { expected: expected.clone(), actual: envelope.run_id.clone() });
        }
    }
    if let EventSource::Agent { agent_id: source_agent, .. } = &envelope.source {
        if !(*source_agent == *agent_id) {
            return Err(StoreError::AgentMismatch { expected: agent_id.clone(), actual: source_agent.clone() });
        }
    }
    let (event_agent, event) = match &envelope.event {
        RuntimeEvent::Agent { agent_id: a, event } => (a, event),
        RuntimeEvent::RunStarted => return Err(StoreError::UnexpectedMessageEvent),
    };
    if !(*event_agent == *agent_id) {
        return Err(StoreError::AgentMismatch { expected: agent_id.clone(), actual: event_agent.clone() });
    }
    let (turn_id, message) = match event {
        AgentEvent::Message { turn_id, message } => (turn_id, message),
        _ => return Err(StoreError::UnexpectedMessageEvent),
    };
    match validate_message_role(message.role) {
        Err(e) => return Err(e),
        Ok(()) => {},
    }
    let matches_path = match envelope.business_seq {
        Some(s) => s == path_seq,
        None => false,
    };
    if !matches_path {
        let event_seq = match envelope.business_seq {
            Some(s) => s,
            None => 0,
        };
        return Err(StoreError::MessageSequenceMismatch { path_seq, event_seq });
    }
    if let Some(expected) = expected_turn_id {
        if !(*turn_id == *expected) {
            return Err(StoreError::TurnMismatch { expected: expected.clone(), actual: turn_id.clone() });
        }
    }
    Ok(())
}

/// The sequence number that the next appended message takes on `state`, for the agent
/// `agent_id`; the number after it must also be representable.
pub fn next_sequence(state: &AgentState, agent_id: &String) -> (r: Result<u64, StoreError>)
    ensures
        state.agent_id@ != agent_id@ ==> r == Err::<u64, StoreError>(
            StoreError::AgentMismatch { expected: state.agent_id, actual: *agent_id },
        ),
        state.agent_id@ == agent_id@ && state.last_seq + 2 > u64::MAX ==> r == Err::<u64, StoreError>(
            StoreError::SequenceOverflow,
        ),
        state.agent_id@ == agent_id@ && state.last_seq + 2 <= u64::MAX ==> r == Ok::<u64, StoreError>(
            (state.last_seq + 1) as u64,
        ),
{
    if !(state.agent_id == *agent_id) {
        return Err(StoreError::AgentMismatch { expected: state.agent_id.clone(), actual: agent_id.clone() });
    }
    if state.last_seq >= u64::MAX - 1 {
        return Err(StoreError::SequenceOverflow);
    }
    Ok(state.last_seq + 1)
}

/// The range of one history page: messages `after_seq + 1 ..= after_seq + count`, below the
/// barrier `through_seq`.
#[derive(Debug, Clone, Copy, PartialEq, Eq, Structural)]
pub struct HistoryRange {
    /// Barrier of the page.
    pub through_seq: u64,
    /// Sequence number before the first message of the page.
    pub after_seq: u64,
    /// Number of messages in the page.
    pub count: u64,
}

impl HistoryRange {
    /// Sequence number of the last message of the page, or `after_seq` for an empty page.
    pub fn next_front_seq(&self) -> (r: u64)
        requires
            self.after_seq + self.count <= self.through_seq,
        ensures
            r == self.after_seq + self.count,
    {
        self.after_seq + self.count
    }

    /// Whether messages remain between the page and its barrier.
    pub fn has_more(&self) -> (r: bool)
        requires
            self.after_seq + self.count <= self.through_seq,
        ensures
            r == (self.after_seq + self.count < self.through_seq),
    {
        self.after_seq + self.count < self.through_seq
    }
}

/// Plans one fixed-range history page: the limit must be in `1..=MAX_HISTORY_PAGE_SIZE`,
/// the barrier defaults to the last committed message and may not pass it, and the page
/// starts after `after_seq`, which may not pass the barrier.
pub fn plan_history_page(limit: usize, after_seq: u64, through_seq: Option<u64>, last_seq: u64) -> (r: Result<
    HistoryRange,
    StoreError,
>)
    ensures
        (limit == 0 || limit > MAX_HISTORY_PAGE_SIZE) ==> r == Err::<HistoryRange, StoreError>(
            StoreError::InvalidHistoryLimit { actual: limit, maximum: MAX_HISTORY_PAGE_SIZE },
        ),
        ({
            let through = match through_seq { Some(t) => t, None => last_seq };
            &&& !(limit == 0 || limit > MAX_HISTORY_PAGE_SIZE) && through > last_seq ==> r == Err::<
                HistoryRange,
                StoreError,
            >(StoreError::HistoryBarrierBeyondLast { through_seq: through, last_seq })
            &&& !(limit == 0 || limit > MAX_HISTORY_PAGE_SIZE) && through <= last_seq && after_seq
                > through ==> r == Err::<HistoryRange, StoreError>(
                StoreError::InvalidHistoryRange { after_seq, through_seq: through },
            )
            &&& !(limit == 0 || limit > MAX_HISTORY_PAGE_SIZE) && through <= last_seq && after_seq
                <= through ==> r == Ok::<HistoryRange, StoreError>(
                HistoryRange {
                    through_seq: through,
                    after_seq,
                    count: if through - after_seq < limit { (through - after_seq) as u64 } else { limit as u64 },
                },
            )
        }),
{
    if limit == 0 || limit > MAX_HISTORY_PAGE_SIZE {
        return Err(StoreError::InvalidHistoryLimit { actual: limit, maximum: MAX_HISTORY_PAGE_SIZE });
    }
    let through = match through_seq {
        Some(t) => t,
        None => last_seq,
    };
    if through > last_seq {
        return Err(StoreError::HistoryBarrierBeyondLast { through_seq: through, last_seq });
    }
    if after_seq > through {
        return Err(StoreError::InvalidHistoryRange { after_seq, through_seq: through });
    }
    let available = through - after_seq;
    let wanted = limit as u64;
    let count = if available < wanted { available } else { wanted };
    Ok(HistoryRange { through_seq: through, after_seq, count })
}

/// Value of a string of ASCII digits read in base ten.
pub open spec fn digits_value(s: Seq<char>) -> nat
    decreases s.len(),
{
    if s.len() == 0 {
        0
    } else {
        digits_value(s.drop_last()) * 10 + ((s.last() as nat) - ('0' as nat)) as nat
    }
}

/// Whether `s` is a canonical decimal numeral: digits only, at least one, no leading zero.
pub open spec fn is_canonical_decimal(s: Seq<char>) -> bool {
    &&& s.len() > 0
    &&& s[0] != '0'
    &&& forall|i: int| 0 <= i < s.len() ==> '0' <= #[trigger] s[i] <= '9'
}

/// The sequence number that a message file name `{seq}.json` carries, if it is one.
pub open spec fn message_file_seq(name: Seq<char>) -> Option<u64> {
    let suffix = ".json"@;
    if name.len() >= 5 && name.subrange(name.len() - 5, name.len() as int) == suffix {
        let number = name.subrange(0, name.len() - 5);
        if is_canonical_decimal(number) && digits_value(number) <= u64::MAX {
            Some(digits_value(number) as u64)
        } else {
            None
        }
    } else {
        None
    }
}

proof fn lemma_digit_value(d: nat)
    requires
        d < 10,
    ensures
        ((digit_char(d) as nat) - ('0' as nat)) as nat == d,
        '0' <= digit_char(d) <= '9',
{
}

proof fn lemma_decimal_digits(n: nat)
    ensures
        decimal(n).len() >= 1,
        forall|i: int| 0 <= i < decimal(n).len() ==> '0' <= #[trigger] decimal(n)[i] <= '9',
        n >= 1 ==> decimal(n)[0] != '0',
        digits_value(decimal(n)) == n,
    decreases n,
{
    lemma_digit_value(n % 10);
    if n >= 10 {
        lemma_decimal_digits(n / 10);
        let d = decimal(n);
        assert(d.last() == digit_char(n % 10));
        assert(d.len() > 0);
        assert(digits_value(d) == digits_value(d.drop_last()) * 10 + ((d.last() as nat) - ('0' as nat)) as nat);
        assert(n == (n / 10) * 10 + n % 10);
        assert(d.drop_last() =~= decimal(n / 10));
        assert(d[0] == decimal(n / 10)[0]);
        assert forall|i: int| 0 <= i < d.len() implies '0' <= #[trigger] d[i] <= '9' by {
            if i < d.len() - 1 {
                assert(d[i] == decimal(n / 10)[i]);
            }
        }
    } else {
        let d = decimal(n);
        assert(d.drop_last() =~= Seq::<char>::empty());
        assert(n % 10 == n);
        assert(d.last() == digit_char(n));
        assert(digits_value(d) == digits_value(d.drop_last()) * 10 + ((d.last() as nat) - ('0' as nat)) as nat);
    }
}

/// The file name that a message record's path ends with, `{seq}.json`, reads back as `seq`.
pub proof fn law_message_file_name_round_trip(seq: u64)
    requires
        seq >= 1,
    ensures
        message_file_seq(decimal(seq as nat) + ".json"@) == Some(seq),
{
    lemma_decimal_digits(seq as nat);
    reveal_strlit(".json");
    let name = decimal(seq as nat) + ".json"@;
    assert(name.subrange(name.len() - 5, name.len() as int) =~= ".json"@);
    assert(name.subrange(0, name.len() - 5) =~= decimal(seq as nat));
}

proof fn lemma_canonical_decimal(s: Seq<char>)
    requires
        is_canonical_decimal(s),
    ensures
        digits_value(s) >= 1,
        decimal(digits_value(s)) == s,
    decreases s.len(),
{
    let c = s.last();
    let d = ((c as nat) - ('0' as nat)) as nat;
    assert('0' <= c <= '9');
    assert(d < 10);
    assert(digit_char(d) == c);
    if s.len() == 1 {
        assert(s.drop_last() =~= Seq::<char>::empty());
        assert(digits_value(s.drop_last()) == 0);
        assert(digits_value(s) == d);
        assert(c != '0');
        assert(decimal(d) =~= s);
    } else {
        let t = s.drop_last();
        assert(is_canonical_decimal(t)) by {
            assert(t[0] == s[0]);
            assert forall|i: int| 0 <= i < t.len() implies '0' <= #[trigger] t[i] <= '9' by {
                assert(t[i] == s[i]);
            }
        }
        lemma_canonical_decimal(t);
        let a = digits_value(t);
        let v = digits_value(s);
        assert(v == a * 10 + d);
        assert(v / 10 == a && v % 10 == d) by (nonlinear_arith)
            requires
                v == a * 10 + d,
                d < 10,
        ;
        assert(v >= 10);
        assert(decimal(v) == decimal(a).push(digit_char(d)));
        assert(decimal(v) =~= s);
    }
}

/// A file name names the message record `n` exactly when it is `{n}.json` for some `n` of
/// at least one: canonical decimal digits with no leading zero or sign, then `.json`. So the
/// name of every record reads back as its sequence number, and names such as `0.json`,
/// `07.json`, `+7.json` or `7.txt` name no record.
pub proof fn law_message_file_name_inverse(name: Seq<char>, n: u64)
    ensures
        message_file_seq(name) == Some(n) <==> (n >= 1 && name == decimal(n as nat) + ".json"@),
{
    reveal_strlit(".json");
    if n >= 1 && name == decimal(n as nat) + ".json"@ {
        law_message_file_name_round_trip(n);
    }
    if message_file_seq(name) == Some(n) {
        let number = name.subrange(0, name.len() - 5);
        lemma_canonical_decimal(number);
        assert(digits_value(number) == n);
        assert(name =~= number + ".json"@);
    }
}

/// Parses a message file name `{seq}.json` with a canonical nonzero `seq`.
pub fn parse_message_filename(file_name: &str) -> (r: Result<u64, StoreError>)
    ensures
        match message_file_seq(file_name@) {
            Some(seq) => r == Ok::<u64, StoreError>(seq),
            None => r matches Err(StoreError::InvalidMessageFilename { file_name: f }) && f@ == file_name@,
        },
{
    let chars = chars_of(file_name);
    let n = chars.len();
    proof {
        reveal_strlit(".json");
    }
    if n < 5 || chars[n - 5] != '.' || chars[n - 4] != 'j' || chars[n - 3] != 's' || chars[n - 2] != 'o'
        || chars[n - 1] != 'n' {
        proof {
            if n >= 5 {
                let t = file_name@.subrange(n - 5, n as int);
                if t == ".json"@ {
                    assert(t[0] == '.' && t[1] == 'j' && t[2] == 's' && t[3] == 'o' && t[4] == 'n');
                }
            }
        }
        return Err(StoreError::InvalidMessageFilename { file_name: file_name.to_owned() });
    }
    proof {
        assert(file_name@.subrange(n - 5, n as int) =~= ".json"@);
    }
    let digits = n - 5;
    let ghost number = file_name@.subrange(0, digits as int);
    if digits == 0 || chars[0] == '0' {
        assert(digits > 0 ==> number[0] == chars@[0]);
        return Err(StoreError::InvalidMessageFilename { file_name: file_name.to_owned() });
    }
    let mut value: u64 = 0;
    let mut i: usize = 0;
    while i < digits
        invariant
            chars@ == file_name@,
            n == chars@.len(),
            n >= 5,
            file_name@.subrange(n - 5, n as int) == ".json"@,
            digits == n - 5,
            digits > 0,
            number[0] != '0',
            number == file_name@.subrange(0, digits as int),
            i <= digits,
            value == digits_value(number.subrange(0, i as int)),
            forall|k: int| 0 <= k < i ==> '0' <= #[trigger] number[k] <= '9',
        decreases digits - i,
    {
        let c = chars[i];
        if c < '0' || c > '9' {
            assert(!('0' <= number[i as int] <= '9'));
            return Err(StoreError::InvalidMessageFilename { file_name: file_name.to_owned() });
        }
        let d = (c as u32 - '0' as u32) as u64;
        proof {
            assert(number.subrange(0, i + 1).drop_last() =~= number.subrange(0, i as int));
            assert(number.subrange(0, i + 1).last() == c);
        }
        if value > (u64::MAX - d) / 10 {
            proof {
                lemma_digits_value_prefix_monotone(number, i + 1);
            }
            return Err(StoreError::InvalidMessageFilename { file_name: file_name.to_owned() });
        }
        value = value * 10 + d;
        i = i + 1;
    }
    proof {
        assert(number.subrange(0, digits as int) =~= number);
    }
    Ok(value)
}

proof fn lemma_digits_value_prefix_monotone(s: Seq<char>, k: int)
    requires
        0 <= k <= s.len(),
        forall|i: int| 0 <= i < k ==> '0' <= #[trigger] s[i] <= '9',
    ensures
        digits_value(s.subrange(0, k)) <= digits_value(s) || exists|i: int|
            k <= i < s.len() && !('0' <= #[trigger] s[i] <= '9'),
    decreases s.len() - k,
{
    if k < s.len() {
        if '0' <= s[k] <= '9' {
            lemma_digits_value_prefix_monotone(s, k + 1);
            assert(s.subrange(0, k + 1).drop_last() =~= s.subrange(0, k));
        }
    } else {
        assert(s.subrange(0, k) =~= s);
    }
}

/// Filesystem-backed store for one agent root.
pub struct FilesystemAgentStore<F> {
    filesystem: F,
    root: VirtualPath,
}

/// Text of the path of the message record `seq` below `root`.
pub open spec fn message_path_text(root: Seq<char>, seq: u64) -> Seq<char> {
    child_path_text(root, "messages/"@ + decimal(seq as nat) + ".json"@)
}

/// Text of the child path `suffix` below `root`.
pub open spec fn child_path_text(root: Seq<char>, suffix: Seq<char>) -> Seq<char> {
    if root == "/"@ { "/"@ + suffix } else { root + "/"@ + suffix }
}

impl<F> FilesystemAgentStore<F> {
    /// The agent root.
    pub closed spec fn root_view(&self) -> Seq<char> {
        self.root@
    }

    /// The filesystem holding the store.
    pub closed spec fn spec_filesystem(&self) -> F {
        self.filesystem
    }

    /// The filesystem holding the store.
    pub fn filesystem(&self) -> (r: &F)
        ensures
            *r == self.spec_filesystem(),
    {
        &self.filesystem
    }

    /// Creates a store rooted at an agent-visible virtual path.
    pub fn new(filesystem: F, root: VirtualPath) -> (r: Self)
        ensures
            r.spec_filesystem() == filesystem,
            r.root_view() == root@,
    {
        FilesystemAgentStore { filesystem, root }
    }

    /// The virtual path of `suffix` below the agent root.
    pub fn child_path(&self, suffix: &str) -> (r: Result<VirtualPath, StoreError>)
        ensures
            match r {
                Ok(p) => p@ == child_path_text(self.root_view(), suffix@) && p.wf() && is_virtual_path(p@),
                Err(e) => e matches StoreError::Filesystem(FilesystemError::InvalidVirtualPath { path, .. })
                    && path@ == child_path_text(self.root_view(), suffix@) && !is_virtual_path(path@),
            },
    {
        let mut text = String::new();
        proof {
            reveal_strlit("/");
        }
        if crate::text::same_text(self.root.as_str(), "/") {
            push_str(&mut text, "/");
        } else {
            push_str(&mut text, self.root.as_str());
            push_str(&mut text, "/");
        }
        push_str(&mut text, suffix);
        match VirtualPath::parse(text.as_str()) {
            Ok(p) => Ok(p),
            Err(source) => Err(StoreError::Filesystem(FilesystemError::InvalidVirtualPath { path: text, source })),
        }
    }

    /// Path of the persisted agent state.
    pub fn agent_path(&self) -> (r: Result<VirtualPath, StoreError>)
        ensures
            r matches Ok(p) ==> p@ == child_path_text(self.root_view(), "agent.json"@) && is_virtual_path(p@),
            r is Err ==> !is_virtual_path(child_path_text(self.root_view(), "agent.json"@)),
    {
        self.child_path("agent.json")
    }

    /// Path of the message directory.
    pub fn messages_path(&self) -> (r: Result<VirtualPath, StoreError>)
        ensures
            r matches Ok(p) ==> p@ == child_path_text(self.root_view(), "messages"@) && is_virtual_path(p@),
            r is Err ==> !is_virtual_path(child_path_text(self.root_view(), "messages"@)),
    {
        self.child_path("messages")
    }

    /// Path of the message record with sequence number `seq`.
    pub fn message_path(&self, seq: u64) -> (r: Result<VirtualPath, StoreError>)
        ensures
            r matches Ok(p) ==> p@ == message_path_text(self.root_view(), seq) && is_virtual_path(p@),
            r is Err ==> !is_virtual_path(message_path_text(self.root_view(), seq)),
    {
        let mut suffix = String::new();
        push_str(&mut suffix, "messages/");
        push_decimal(&mut suffix, seq);
        push_str(&mut suffix, ".json");
        self.child_path(suffix.as_str())
    }

    /// The sequence number of a message directory entry: its name must be a message file
    /// name, and it must be a file at the message path of that number.
    pub fn message_entry_seq(&self, file_name: &str, is_file: bool, path: &VirtualPath) -> (r: Result<
        u64,
        StoreError,
    >)
        ensures
            match message_file_seq(file_name@) {
                None => r matches Err(StoreError::InvalidMessageFilename { file_name: f }) && f@ == file_name@,
                Some(seq) => if !is_virtual_path(message_path_text(self.root_view(), seq)) {
                    r is Err
                } else if is_file && path@ == message_path_text(self.root_view(), seq) {
                    r == Ok::<u64, StoreError>(seq)
                } else {
                    r matches Err(StoreError::InvalidMessageFilename { file_name: f }) && f@ == file_name@
                },
            },
    {
        let seq = match parse_message_filename(file_name) {
            Ok(seq) => seq,
            Err(e) => return Err(e),
        };
        let expected = match self.message_path(seq) {
            Ok(p) => p,
            Err(e) => return Err(e),
        };
        if !is_file || !expected.same_as(path) {
            return Err(StoreError::InvalidMessageFilename { file_name: owned(file_name) });
        }
        Ok(seq)
    }
}

/// Checks the committed frontier `last_seq + 1` of a store against the message sequence
/// numbers found on disk: none may lie beyond it, and the smallest one that does is reported.
pub fn integrity_frontier(last_seq: u64, sequences: &Vec<u64>) -> (r: Result<u64, StoreError>)
    ensures
        last_seq == u64::MAX ==> r == Err::<u64, StoreError>(StoreError::SequenceOverflow),
        last_seq < u64::MAX ==> {
            let frontier = (last_seq + 1) as u64;
            if exists|i: int| 0 <= i < sequences@.len() && sequences@[i] > frontier {
                r matches Err(StoreError::MessageBeyondFrontier { seq, frontier: f }) && f == frontier
                    && sequences@.contains(seq) && seq > frontier && forall|i: int|
                    0 <= i < sequences@.len() && sequences@[i] > frontier ==> seq <= #[trigger] sequences@[i]
            } else {
                r == Ok::<u64, StoreError>(frontier)
            }
        },
{
    if last_seq == u64::MAX {
        return Err(StoreError::SequenceOverflow);
    }
    let frontier = last_seq + 1;
    let mut least: Option<u64> = None;
    let mut i: usize = 0;
    while i < sequences.len()
        invariant
            i <= sequences@.len(),
            frontier == last_seq + 1,
            match least {
                None => forall|k: int| 0 <= k < i ==> sequences@[k] <= frontier,
                Some(m) => m > frontier && sequences@.contains(m) && forall|k: int|
                    0 <= k < i && sequences@[k] > frontier ==> m <= #[trigger] sequences@[k],
            },
        decreases sequences.len() - i,
    {
        let s = sequences[i];
        if s > frontier {
            match least {
                None => least = Some(s),
                Some(m) => if s < m {
                    least = Some(s);
                },
            }
        }
        i = i + 1;
    }
    match least {
        Some(m) => Err(StoreError::MessageBeyondFrontier { seq: m, frontier }),
        None => Ok(frontier),
    }
}

} // verus!
