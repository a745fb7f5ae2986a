use stratum::agent_loop::error::{
    AgentLoopBuildError, AgentLoopError, AgentLoopHookError, AgentLoopHookStage, ProtocolError,
};
use stratum::agent_loop::runner::AgentLoop;
use stratum::infra::DurableEventSinkError;
use stratum::llm::LlmError;

#[test]
fn durability_conversion_preserves_the_source_chain() {
    let error = AgentLoopError::from(DurableEventSinkError::UnsupportedEvent {
        event_type: "future_event",
    });

    assert!(matches!(&error, AgentLoopError::Durability { .. }));
    assert!(matches!(
        &error,
        AgentLoopError::Durability {
            source: DurableEventSinkError::UnsupportedEvent { event_type: "future_event" }
        }
    ));
}

#[test]
fn llm_conversion_preserves_the_source_chain() {
    let error = AgentLoopError::from(LlmError::MockExhausted);

    assert!(matches!(&error, AgentLoopError::Llm { .. }));
    assert!(matches!(&error, AgentLoopError::Llm { source: LlmError::MockExhausted }));
}

#[test]
fn protocol_conversion_is_typed() {
    let error = AgentLoopError::from(ProtocolError::StreamEndedWithoutFinish);

    assert!(matches!(
        &error,
        AgentLoopError::InvalidProtocol { reason: ProtocolError::StreamEndedWithoutFinish }
    ));
}

#[test]
fn hook_failure_preserves_stage_and_source_chain() {
    let error = AgentLoopError::Hook {
        stage: AgentLoopHookStage::BeforeLlmCall,
        source: AgentLoopHookError::new("hook unavailable"),
    };

    assert!(matches!(
        &error,
        AgentLoopError::Hook { stage: AgentLoopHookStage::BeforeLlmCall, .. }
    ));
    assert_eq!(error.text(), "agent loop hook before_llm_call failed");
    match &error {
        AgentLoopError::Hook { source, .. } => {
            assert_eq!(source.text(), "agent loop hook callback failed");
            assert_eq!(source.source_text, "hook unavailable");
        },
        other => panic!("unexpected error {other:?}"),
    }
}

#[test]
fn builder_reports_a_typed_missing_field() {
    let Err(error) = AgentLoop::<(), (), (), ()>::builder().build() else {
        panic!("an empty builder should fail");
    };

    assert_eq!(error, AgentLoopBuildError::MissingLlmProvider);
}

#[test]
fn builders_name_the_first_missing_component_in_order() {
    let missing_executor = AgentLoop::<u8, u8, u8, u8>::builder().llm_provider(1).build();
    assert!(matches!(missing_executor, Err(AgentLoopBuildError::MissingToolExecutor)));
    let missing_telemetry =
        AgentLoop::<u8, u8, u8, u8>::builder().llm_provider(1).tool_executor(2).build();
    assert!(matches!(missing_telemetry, Err(AgentLoopBuildError::MissingTelemetry)));
    let built = AgentLoop::<u8, u8, u8, u8>::builder()
        .llm_provider(1)
        .tool_executor(2)
        .telemetry(3)
        .hook(4)
        .hook(5)
        .build()
        .ok()
        .unwrap();
    assert_eq!((built.llm_provider, built.tool_executor, built.telemetry), (1, 2, 3));
    assert_eq!(built.hooks, vec![4, 5]);
}
