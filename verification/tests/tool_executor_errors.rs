use stratum::infra::DurableEventSinkError;
use stratum::tool_executor::error::{ToolApprovalError, ToolExecutorError};

#[test]
fn durability_conversion_preserves_typed_source() {
    let error = ToolExecutorError::from(DurableEventSinkError::UnsupportedEvent {
        event_type: "future_event",
    });

    assert!(matches!(&error, ToolExecutorError::Durability { .. }));
    assert!(matches!(
        error.durability_source(),
        Some(DurableEventSinkError::UnsupportedEvent {
            event_type: "future_event"
        })
    ));
}

#[test]
fn approval_conversion_preserves_typed_source() {
    let error = ToolExecutorError::from(ToolApprovalError::Cancelled);

    assert!(matches!(&error, ToolExecutorError::Approval { .. }));
    assert!(matches!(
        error.approval_source(),
        Some(ToolApprovalError::Cancelled)
    ));
}

#[test]
fn sources_are_absent_for_other_variants() {
    let error = ToolExecutorError::UnsupportedApprovalDecision;
    assert!(error.durability_source().is_none());
    assert!(error.approval_source().is_none());
    let approval = ToolExecutorError::from(ToolApprovalError::Cancelled);
    assert!(approval.durability_source().is_none());
}
