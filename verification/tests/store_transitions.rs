use stratum::core_types::{ChatRole, TokenUsage};
use stratum::store::{model_config_migration, ModelConfigMigration};
use stratum::store::{
    commit_sequence_transition, complete_iteration_transition, next_sequence, overtaken,
    parse_message_filename, plan_history_page, start_turn_transition, update_state_transition,
    validate_message_role, validate_persisted_state, validate_runtime_state, AgentState,
    AgentStatus, StoreError, AGENT_STATE_VERSION, LEGACY_AGENT_STATE_VERSION,
    MAX_HISTORY_PAGE_SIZE,
};

fn usage(n: u64) -> TokenUsage {
    TokenUsage { input_tokens: n, output_tokens: n, total_tokens: 2 * n }
}

fn idle_state() -> AgentState {
    AgentState {
        state_version: AGENT_STATE_VERSION,
        agent_id: "agent-1".to_string(),
        name: "default-agent".to_string(),
        status: AgentStatus::Idle,
        run_id: None,
        turn_id: None,
        next_iteration: 0,
        last_seq: 0,
        usage: usage(0),
        model_config: Some("test:model".to_string()),
        updated_at: 0,
    }
}

#[test]
fn persisted_layouts_are_checked_by_version() {
    assert!(validate_persisted_state(&idle_state()).is_ok());
    let mut legacy = idle_state();
    legacy.state_version = LEGACY_AGENT_STATE_VERSION;
    legacy.model_config = None;
    assert!(validate_persisted_state(&legacy).is_ok());
    assert!(matches!(validate_runtime_state(&legacy), Err(StoreError::MissingModelConfig)));
    let mut missing = idle_state();
    missing.model_config = None;
    assert!(matches!(validate_persisted_state(&missing), Err(StoreError::MissingModelConfig)));
    let mut future = idle_state();
    future.state_version = 9;
    assert!(matches!(
        validate_persisted_state(&future),
        Err(StoreError::UnsupportedStateVersion { version: 9 })
    ));
}

#[test]
fn start_turn_then_complete_iterations_advances_the_frontier_by_one() {
    let started = start_turn_transition(
        &idle_state(),
        "run-1".to_string(),
        "turn-1".to_string(),
        "test:model".to_string(),
        10,
    )
    .unwrap();
    assert_eq!(started.status, AgentStatus::Running);
    assert_eq!(started.run_id.as_deref(), Some("run-1"));
    assert_eq!(started.turn_id.as_deref(), Some("turn-1"));
    assert_eq!(started.next_iteration, 0);
    assert_eq!(started.usage, usage(0));
    assert_eq!(started.updated_at, 10);

    let first = complete_iteration_transition(
        &started,
        "run-1".to_string(),
        "turn-1".to_string(),
        0,
        usage(3),
        11,
    )
    .unwrap();
    assert_eq!(first.next_iteration, 1);
    assert_eq!(first.usage, usage(3));

    let stale = complete_iteration_transition(
        &first,
        "run-1".to_string(),
        "turn-1".to_string(),
        0,
        usage(3),
        12,
    );
    assert!(matches!(stale, Err(StoreError::IterationMismatch { expected: 1, actual: 0 })));

    let other_run = complete_iteration_transition(
        &first,
        "run-2".to_string(),
        "turn-1".to_string(),
        1,
        usage(3),
        12,
    );
    assert!(matches!(other_run, Err(StoreError::RunMismatch { .. })));
    let other_turn = complete_iteration_transition(
        &first,
        "run-1".to_string(),
        "turn-2".to_string(),
        1,
        usage(3),
        12,
    );
    assert!(matches!(other_turn, Err(StoreError::TurnMismatch { .. })));
    let idle = complete_iteration_transition(
        &idle_state(),
        "run-1".to_string(),
        "turn-1".to_string(),
        0,
        usage(3),
        12,
    );
    assert!(matches!(idle, Err(StoreError::AgentNotRunning { actual: AgentStatus::Idle })));
}

#[test]
fn starting_a_second_run_while_running_is_refused() {
    let started = start_turn_transition(
        &idle_state(),
        "run-1".to_string(),
        "turn-1".to_string(),
        "test:model".to_string(),
        10,
    )
    .unwrap();
    let conflict = start_turn_transition(
        &started,
        "run-2".to_string(),
        "turn-2".to_string(),
        "test:model".to_string(),
        11,
    );
    assert!(matches!(conflict, Err(StoreError::RunningRunConflict { .. })));
    let update = update_state_transition(
        &started,
        AgentStatus::Running,
        Some("run-2".to_string()),
        None,
        usage(0),
        11,
    );
    assert!(matches!(update, Err(StoreError::RunningRunConflict { .. })));
}

#[test]
fn update_state_restarts_the_frontier_only_for_a_new_running_run() {
    let mut state = idle_state();
    state.next_iteration = 4;
    let finished = update_state_transition(
        &state,
        AgentStatus::Finished,
        Some("run-9".to_string()),
        Some("turn-9".to_string()),
        usage(1),
        5,
    )
    .unwrap();
    assert_eq!(finished.next_iteration, 4);
    assert_eq!(finished.status, AgentStatus::Finished);
    let running = update_state_transition(
        &state,
        AgentStatus::Running,
        Some("run-9".to_string()),
        Some("turn-9".to_string()),
        usage(1),
        6,
    )
    .unwrap();
    assert_eq!(running.next_iteration, 0);
    assert_eq!(running.updated_at, 6);
}

#[test]
fn commits_follow_the_frontier_and_report_overtaking() {
    let state = idle_state();
    let committed = commit_sequence_transition(&state, 0, 1, 3).unwrap();
    assert_eq!(committed.last_seq, 1);
    let again = commit_sequence_transition(&committed, 0, 1, 4).unwrap();
    assert_eq!(again.last_seq, 1);
    let mut ahead = committed;
    ahead.last_seq = 5;
    let error = commit_sequence_transition(&ahead, 1, 2, 5).unwrap_err();
    assert!(matches!(error, StoreError::MessageBeyondFrontier { seq: 2, frontier: 5 }));
    assert!(overtaken(&error, 2));
    assert!(!overtaken(&error, 7));
    assert!(!overtaken(&StoreError::SequenceOverflow, 2));
}

#[test]
fn next_sequence_checks_agent_and_overflow() {
    let mut state = idle_state();
    assert_eq!(next_sequence(&state, &"agent-1".to_string()).unwrap(), 1);
    assert!(matches!(
        next_sequence(&state, &"agent-2".to_string()),
        Err(StoreError::AgentMismatch { .. })
    ));
    state.last_seq = u64::MAX - 1;
    assert!(matches!(
        next_sequence(&state, &"agent-1".to_string()),
        Err(StoreError::SequenceOverflow)
    ));
}

#[test]
fn system_messages_are_not_stored() {
    assert!(matches!(
        validate_message_role(ChatRole::System),
        Err(StoreError::InvalidMessageRole { role: ChatRole::System })
    ));
    assert!(validate_message_role(ChatRole::User).is_ok());
    assert!(validate_message_role(ChatRole::Tool).is_ok());
}

#[test]
fn history_pages_are_planned_within_the_barrier() {
    let page = plan_history_page(2, 0, None, 5).unwrap();
    assert_eq!((page.after_seq, page.count, page.through_seq), (0, 2, 5));
    assert_eq!(page.next_front_seq(), 2);
    assert!(page.has_more());
    let last = plan_history_page(10, 3, Some(4), 5).unwrap();
    assert_eq!((last.after_seq, last.count, last.through_seq), (3, 1, 4));
    assert!(!last.has_more());
    assert!(matches!(
        plan_history_page(0, 0, None, 5),
        Err(StoreError::InvalidHistoryLimit { actual: 0, maximum: MAX_HISTORY_PAGE_SIZE })
    ));
    assert!(matches!(
        plan_history_page(MAX_HISTORY_PAGE_SIZE + 1, 0, None, 5),
        Err(StoreError::InvalidHistoryLimit { .. })
    ));
    assert!(matches!(
        plan_history_page(1, 0, Some(6), 5),
        Err(StoreError::HistoryBarrierBeyondLast { through_seq: 6, last_seq: 5 })
    ));
    assert!(matches!(
        plan_history_page(1, 5, Some(4), 5),
        Err(StoreError::InvalidHistoryRange { after_seq: 5, through_seq: 4 })
    ));
}

#[test]
fn message_file_names_are_canonical_sequence_numbers() {
    assert_eq!(parse_message_filename("1.json").unwrap(), 1);
    assert_eq!(parse_message_filename("42.json").unwrap(), 42);
    for seq in [1u64, 9, 10, 1234, u64::MAX] {
        assert_eq!(parse_message_filename(&format!("{seq}.json")).unwrap(), seq);
    }
    for bad in ["0.json", "01.json", "07.json", "+7.json", "7.txt", "x.json", ".json", "1.txt", "18446744073709551616.json"] {
        assert!(matches!(
            parse_message_filename(bad),
            Err(StoreError::InvalidMessageFilename { ref file_name }) if file_name == bad
        ));
    }
}

#[test]
fn new_agents_start_idle_and_legacy_states_take_a_model_configuration_once() {
    let legacy = AgentState::new("agent-1".to_string(), "default-agent".to_string(), 7);
    assert_eq!(legacy.status, AgentStatus::Idle);
    assert_eq!(legacy.state_version, LEGACY_AGENT_STATE_VERSION);
    assert!(validate_persisted_state(&legacy).is_ok());
    assert!(matches!(validate_runtime_state(&legacy), Err(StoreError::MissingModelConfig)));
    let migrated = match model_config_migration(&legacy, "test:model".to_string()).unwrap() {
        ModelConfigMigration::Migrated(state) => state,
        ModelConfigMigration::AlreadyPersisted => panic!("legacy state has no configuration"),
    };
    assert_eq!(migrated.state_version, AGENT_STATE_VERSION);
    assert_eq!(migrated.model_config.as_deref(), Some("test:model"));
    assert!(validate_runtime_state(&migrated).is_ok());
    assert!(matches!(
        model_config_migration(&migrated, "other:model".to_string()),
        Ok(ModelConfigMigration::AlreadyPersisted)
    ));
    let configured = AgentState::new_configured("a".to_string(), "n".to_string(), "p:m".to_string(), 0);
    assert!(validate_runtime_state(&configured).is_ok());
}

#[test]
fn message_file_names_round_trip_through_their_sequence_numbers() {
    for seq in [1u64, 9, 10, 12345, u64::MAX] {
        assert_eq!(parse_message_filename(&format!("{seq}.json")).unwrap(), seq);
    }
}
