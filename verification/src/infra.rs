//! Errors of the event stream bus and durable event sinks.

use vstd::prelude::*;

verus! {

/// Error returned by event stream bus operations.
#[derive(Debug, Clone, PartialEq, Eq)]
pub enum EventStreamBusError {
    /// The envelope carries no agent scope.
    MissingAgentScope,
    /// The requested replay cursor is no longer retained.
    CursorExpired {
        /// Requested transport cursor.
        cursor: u64,
    },
    /// The transport cannot advance past the cursor.
    CursorOverflow {
        /// Cursor that cannot be advanced.
        cursor: u64,
    },
    /// The backend rejected the operation.
    Backend {
        /// Description of the backend failure.
        message: String,
    },
}

/// Error returned when a durable agent-loop event cannot be acknowledged.
#[derive(Debug, Clone, PartialEq, Eq)]
pub enum DurableEventSinkError {
    /// The configured event stream bus rejected the durable event.
    EventStreamBus(EventStreamBusError),
    /// The sink does not know how to project a durable event variant.
    UnsupportedEvent {
        /// Stable type name of the unsupported event.
        event_type: &'static str,
    },
    /// The sink's ordered publisher is no longer available.
    PublisherUnavailable,
}

} // verus!
