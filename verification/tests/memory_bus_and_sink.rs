use stratum::infra::EventStreamBusError;
use stratum::memory_bus::{AgentHistory, ReplayStart};
use stratum::sink::{discard_telemetry_before, telemetry_publishable, EnqueueState, NatsEventStreamBusConfig};

#[test]
fn published_records_get_consecutive_cursors_from_one() {
    let mut history = AgentHistory::new();
    assert_eq!(history.publish("a"), 1);
    assert_eq!(history.publish("b"), 2);
    assert_eq!(history.publish("c"), 3);
    assert_eq!(history.len(), 3);
    assert_eq!(history.record_at(1), Some((2, &"b")));
    assert_eq!(history.record_at(3), None);
}

#[test]
fn replay_starts_from_the_requested_cursor() {
    let mut history = AgentHistory::new();
    for payload in ["a", "b", "c"] {
        history.publish(payload);
    }
    assert_eq!(history.start_index(ReplayStart::All).unwrap(), 0);
    assert_eq!(history.start_index(ReplayStart::New).unwrap(), 3);
    assert_eq!(history.start_index(ReplayStart::After(2)).unwrap(), 2);
    assert!(matches!(
        history.start_index(ReplayStart::After(9)),
        Err(EventStreamBusError::CursorExpired { cursor: 9 })
    ));
    assert!(matches!(
        history.start_index(ReplayStart::After(0)),
        Err(EventStreamBusError::CursorExpired { cursor: 0 })
    ));
}

#[test]
fn sequences_are_handed_out_in_order() {
    let mut state = EnqueueState::new();
    assert_eq!(state.take_sequence(), 0);
    assert_eq!(state.take_sequence(), 1);
    assert_eq!(state.take_sequence(), 2);
}

#[test]
fn telemetry_older_than_a_durable_fence_is_dropped() {
    assert!(telemetry_publishable(3, None));
    assert!(telemetry_publishable(5, Some(5)));
    assert!(!telemetry_publishable(4, Some(5)));

    assert_eq!(discard_telemetry_before(5, Some(7), &vec![1, 2]), (Some(7), 0));
    assert_eq!(discard_telemetry_before(5, Some(3), &vec![1, 6, 8]), (Some(6), 1));
    assert_eq!(discard_telemetry_before(5, None, &vec![1, 2]), (None, 2));
    assert_eq!(discard_telemetry_before(0, None, &vec![1, 2]), (Some(1), 0));
}

#[test]
fn nats_config_has_defaults() {
    let config = NatsEventStreamBusConfig::default();
    assert_eq!(config.url, "nats://localhost:4222");
    assert_eq!(config.stream_name, "AGENT_EVENTS");
    assert_eq!(config.subject_prefix, "events.agent");
    assert_eq!(config.replicas, 1);
    assert_eq!(config.max_age_secs, 604_800);
    assert_eq!(config.max_bytes, 1_073_741_824);
    assert_eq!(config.max_messages, 1_000_000);
}

#[test]
fn each_agent_replays_only_its_own_records() {
    let mut streams = stratum::memory_bus::AgentStreams::new();
    assert_eq!(streams.publish("a".to_string(), "a1"), Ok(1));
    assert_eq!(streams.publish("b".to_string(), "b1"), Ok(1));
    assert_eq!(streams.publish("a".to_string(), "a2"), Ok(2));
    assert_eq!(streams.start_index("a", ReplayStart::All), Ok(0));
    assert_eq!(streams.record_at("a", 0), Some((1, &"a1")));
    assert_eq!(streams.record_at("a", 1), Some((2, &"a2")));
    assert_eq!(streams.record_at("a", 2), None);
    assert_eq!(streams.record_at("b", 0), Some((1, &"b1")));
    assert_eq!(streams.record_at("b", 1), None);
    assert_eq!(streams.start_index("a", ReplayStart::After(1)), Ok(1));
    assert_eq!(streams.start_index("b", ReplayStart::After(2)), Err(EventStreamBusError::CursorExpired { cursor: 2 }));
    assert_eq!(streams.start_index("c", ReplayStart::New), Ok(0));
    assert_eq!(streams.start_index("c", ReplayStart::After(1)), Err(EventStreamBusError::CursorExpired { cursor: 1 }));
}

#[test]
fn durable_event_is_scoped_and_returns_bus_error() {
    let scope = stratum::sink::EventScope {
        agent_id: "agent-1".to_string(),
        agent_name: "review-agent".to_string(),
        run_id: "run-1".to_string(),
        turn_id: "turn-1".to_string(),
    };
    let envelope = scope.durable_envelope(stratum::events::DurableAgentEvent::LoopStarted, 7);
    assert_eq!(envelope.run_id, "run-1");
    assert_eq!(envelope.timestamp, 7);
    assert!(matches!(envelope.source, stratum::envelope::EventSource::Run));
    match &envelope.event {
        stratum::envelope::RuntimeEvent::Agent { agent_id, event } => {
            assert_eq!(agent_id, "agent-1");
            assert!(matches!(event, stratum::sink::AgentEvent::Started { turn_id } if turn_id == "turn-1"));
        }
        other => panic!("unexpected event {other:?}"),
    }
    assert_eq!(
        envelope.metadata,
        vec![
            ("agent_name".to_string(), "\"review-agent\"".to_string()),
            ("turn_id".to_string(), "\"turn-1\"".to_string()),
        ]
    );
    let refused = stratum::envelope::durable_publish_result(Err(EventStreamBusError::MissingAgentScope));
    assert!(matches!(
        refused,
        Err(stratum::infra::DurableEventSinkError::EventStreamBus(EventStreamBusError::MissingAgentScope))
    ));
    assert!(stratum::envelope::durable_publish_result(Ok(3)).is_ok());
}

#[test]
fn scope_metadata_escapes_names_as_json_strings() {
    let scope = stratum::sink::EventScope {
        agent_id: "agent-1".to_string(),
        agent_name: "a\"b\\c\u{1}\n\u{7f}é".to_string(),
        run_id: "run-1".to_string(),
        turn_id: "t".to_string(),
    };
    let envelope = scope.durable_envelope(stratum::events::DurableAgentEvent::LoopStarted, 0);
    assert_eq!(envelope.metadata[0].1, "\"a\\\"b\\\\c\\u0001\\n\u{7f}é\"");
}
