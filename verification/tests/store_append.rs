use stratum::append::{AppendAction, AppendEvent, AppendMessage};
use stratum::core_types::{ChatMessage, TokenUsage};
use stratum::envelope::{same_message, same_message_envelope, EventSource, RuntimeEvent, StreamEnvelope};
use stratum::sink::{AgentEvent, EventScope};
use stratum::store::{
    commit_sequence_transition, integrity_frontier, overtaken, validate_message, AgentState,
    AgentStatus, StoreError, AGENT_STATE_VERSION,
};

fn state(last_seq: u64) -> AgentState {
    AgentState {
        state_version: AGENT_STATE_VERSION,
        agent_id: "agent-1".to_string(),
        name: "default-agent".to_string(),
        status: AgentStatus::Running,
        run_id: Some("run-1".to_string()),
        turn_id: Some("turn-1".to_string()),
        next_iteration: 0,
        last_seq,
        usage: TokenUsage::default(),
        model_config: Some("test:model".to_string()),
        updated_at: 0,
    }
}

fn scope() -> EventScope {
    EventScope {
        agent_id: "agent-1".to_string(),
        agent_name: "default-agent".to_string(),
        run_id: "run-1".to_string(),
        turn_id: "turn-1".to_string(),
    }
}

fn message_envelope(text: &str) -> StreamEnvelope {
    scope().envelope(
        AgentEvent::Message { turn_id: "turn-1".to_string(), message: ChatMessage::user(text) },
        42,
    )
}

/// A store in memory: the committed frontier and the records by sequence number.
struct Disk {
    state: AgentState,
    records: Vec<Option<StreamEnvelope>>,
    conflicts: usize,
}

impl Disk {
    fn record(&self, seq: u64) -> Option<StreamEnvelope> {
        self.records.get(seq as usize).and_then(|r| r.as_ref()).map(|e| copy(e))
    }
}

fn copy(e: &StreamEnvelope) -> StreamEnvelope {
    let mut c = message_envelope("");
    c.business_seq = e.business_seq;
    c.run_id = e.run_id.clone();
    c.timestamp = e.timestamp;
    if let RuntimeEvent::Agent { event: AgentEvent::Message { message, .. }, .. } = &e.event {
        if let RuntimeEvent::Agent { event: AgentEvent::Message { message: m, .. }, .. } = &mut c.event {
            *m = message.clone();
        }
    }
    c
}

fn append(disk: &mut Disk, envelope: StreamEnvelope, max_attempts: usize) -> Result<StreamEnvelope, StoreError> {
    let (mut append, mut action) = AppendMessage::start(envelope, max_attempts)?;
    loop {
        let event = match action {
            AppendAction::ReadState | AppendAction::RefreshState => {
                if matches!(action, AppendAction::RefreshState) {
                    AppendEvent::StateRefreshed { last_seq: disk.state.last_seq }
                } else {
                    AppendEvent::StateRead { state: disk.state.duplicate() }
                }
            }
            AppendAction::ReadMessages { seq, beyond } => AppendEvent::MessagesRead {
                existing: disk.record(seq),
                beyond_exists: disk.record(beyond).is_some(),
            },
            AppendAction::Commit { expected_previous, seq } => {
                match commit_sequence_transition(&disk.state, expected_previous, seq, 1) {
                    Ok(next) => {
                        disk.state = next;
                        AppendEvent::Committed
                    }
                    Err(error) if overtaken(&error, seq) => AppendEvent::Committed,
                    Err(error) => AppendEvent::Failed { error },
                }
            }
            AppendAction::Write { seq, envelope } => {
                if disk.conflicts > 0 {
                    disk.conflicts -= 1;
                    AppendEvent::WriteConflict
                } else {
                    while disk.records.len() <= seq as usize {
                        disk.records.push(None);
                    }
                    disk.records[seq as usize] = Some(envelope);
                    AppendEvent::Written
                }
            }
            AppendAction::Finish { result } => return result,
        };
        assert!(append.expects(&event));
        action = append.step(event);
    }
}

#[test]
fn appends_take_consecutive_sequence_numbers() {
    let mut disk = Disk { state: state(0), records: Vec::new(), conflicts: 0 };
    let first = append(&mut disk, message_envelope("one"), 3).unwrap();
    let second = append(&mut disk, message_envelope("two"), 3).unwrap();
    assert_eq!(first.business_seq, Some(1));
    assert_eq!(second.business_seq, Some(2));
    assert_eq!(disk.state.last_seq, 2);
}

#[test]
fn an_already_written_identical_record_is_adopted() {
    let mut disk = Disk { state: state(0), records: Vec::new(), conflicts: 0 };
    let mut written = message_envelope("one");
    written.business_seq = Some(1);
    disk.records = vec![None, Some(written)];
    let adopted = append(&mut disk, message_envelope("one"), 3).unwrap();
    assert_eq!(adopted.business_seq, Some(1));
    assert_eq!(disk.state.last_seq, 1);
}

#[test]
fn write_conflicts_are_retried_within_the_budget() {
    let mut disk = Disk { state: state(0), records: Vec::new(), conflicts: 2 };
    assert!(matches!(
        append(&mut disk, message_envelope("one"), 2),
        Err(StoreError::CasRetriesExhausted)
    ));
    let mut disk = Disk { state: state(0), records: Vec::new(), conflicts: 2 };
    assert_eq!(append(&mut disk, message_envelope("one"), 3).unwrap().business_seq, Some(1));
}

#[test]
fn a_record_beyond_the_frontier_is_corruption() {
    let mut disk = Disk { state: state(0), records: Vec::new(), conflicts: 0 };
    let mut stray = message_envelope("stray");
    stray.business_seq = Some(2);
    disk.records = vec![None, None, Some(stray)];
    assert!(matches!(
        append(&mut disk, message_envelope("one"), 3),
        Err(StoreError::MessageBeyondFrontier { seq: 2, frontier: 1 })
    ));
}

#[test]
fn appends_reject_sequenced_foreign_and_system_messages() {
    let mut sequenced = message_envelope("x");
    sequenced.business_seq = Some(1);
    assert!(matches!(AppendMessage::start(sequenced, 3), Err(StoreError::MessageAlreadySequenced)));
    let system = scope().envelope(
        AgentEvent::Message { turn_id: "turn-1".to_string(), message: ChatMessage::system("s") },
        1,
    );
    assert!(matches!(AppendMessage::start(system, 3), Err(StoreError::InvalidMessageRole { .. })));
    let started = scope().envelope(AgentEvent::Started { turn_id: "turn-1".to_string() }, 1);
    assert!(matches!(AppendMessage::start(started, 3), Err(StoreError::UnexpectedMessageEvent)));

    let mut disk = Disk { state: state(0), records: Vec::new(), conflicts: 0 };
    let mut other_agent = message_envelope("x");
    other_agent.event = RuntimeEvent::Agent {
        agent_id: "agent-2".to_string(),
        event: AgentEvent::Message { turn_id: "turn-1".to_string(), message: ChatMessage::user("x") },
    };
    assert!(matches!(append(&mut disk, other_agent, 3), Err(StoreError::AgentMismatch { .. })));
}

#[test]
fn stored_messages_are_validated_field_by_field() {
    let mut record = message_envelope("one");
    record.business_seq = Some(3);
    let agent = "agent-1".to_string();
    let run = Some("run-1".to_string());
    let turn = Some("turn-1".to_string());
    assert!(validate_message(&record, &agent, 3, &run, &turn).is_ok());
    assert!(matches!(
        validate_message(&record, &agent, 4, &run, &turn),
        Err(StoreError::MessageSequenceMismatch { path_seq: 4, event_seq: 3 })
    ));
    assert!(matches!(
        validate_message(&record, &agent, 3, &Some("run-2".to_string()), &turn),
        Err(StoreError::RunMismatch { .. })
    ));
    assert!(matches!(
        validate_message(&record, &agent, 3, &run, &Some("turn-2".to_string())),
        Err(StoreError::TurnMismatch { .. })
    ));
    assert!(matches!(
        validate_message(&record, &"agent-9".to_string(), 3, &None, &None),
        Err(StoreError::AgentMismatch { .. })
    ));
    record.source = EventSource::Agent { node_id: "n".to_string(), agent_id: "agent-7".to_string() };
    assert!(matches!(
        validate_message(&record, &agent, 3, &None, &None),
        Err(StoreError::AgentMismatch { ref actual, .. }) if actual == "agent-7"
    ));
}

#[test]
fn envelopes_compare_character_for_character() {
    let a = message_envelope("one");
    let b = message_envelope("one");
    let c = message_envelope("two");
    assert!(same_message_envelope(&a, &b));
    assert!(!same_message_envelope(&a, &c));
    assert!(same_message(&ChatMessage::user("x"), &ChatMessage::user("x")));
    assert!(!same_message(&ChatMessage::user("x"), &ChatMessage::assistant("x")));
    let started = scope().envelope(AgentEvent::Started { turn_id: "t".to_string() }, 1);
    assert!(!same_message_envelope(&started, &started));
    assert_eq!(a.agent_scope().unwrap(), "agent-1");
    assert_eq!(a.metadata[0].0, "agent_name");
    assert_eq!(a.metadata[1].1, "\"turn-1\"");
}

#[test]
fn the_integrity_frontier_rejects_records_beyond_it() {
    assert_eq!(integrity_frontier(2, &vec![1, 2, 3]).unwrap(), 3);
    assert!(matches!(
        integrity_frontier(2, &vec![1, 7, 5, 3]),
        Err(StoreError::MessageBeyondFrontier { seq: 5, frontier: 3 })
    ));
    assert!(matches!(integrity_frontier(u64::MAX, &vec![]), Err(StoreError::SequenceOverflow)));
}
