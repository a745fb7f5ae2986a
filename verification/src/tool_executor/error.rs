//! Typed failures that prevent safe tool execution.

use vstd::prelude::*;

use crate::infra::DurableEventSinkError;

verus! {

/// Failure returned by a tool approval policy.
#[derive(Debug, Clone, Copy, PartialEq, Eq, Structural)]
pub enum ToolApprovalError {
    /// The approval interaction was cancelled.
    Cancelled,
}

/// Failure that prevents the tool executor from preserving its durable ordering.
#[derive(Debug, Clone, PartialEq, Eq)]
pub enum ToolExecutorError {
    /// A required pre-execution event was not acknowledged.
    Durability {
        /// Durable event sink failure.
        source: DurableEventSinkError,
    },
    /// The approval interaction failed.
    Approval {
        /// Approval failure source.
        source: ToolApprovalError,
    },
    /// A newer approval decision is not understood safely.
    UnsupportedApprovalDecision,
}

impl From<DurableEventSinkError> for ToolExecutorError {
    fn from(source: DurableEventSinkError) -> (r: Self) {
        ToolExecutorError::Durability { source }
    }
}

impl vstd::std_specs::convert::FromSpecImpl<DurableEventSinkError> for ToolExecutorError {
    open spec fn obeys_from_spec() -> bool {
        true
    }

    open spec fn from_spec(source: DurableEventSinkError) -> Self {
        ToolExecutorError::Durability { source }
    }
}

impl From<ToolApprovalError> for ToolExecutorError {
    fn from(source: ToolApprovalError) -> (r: Self) {
        ToolExecutorError::Approval { source }
    }
}

impl vstd::std_specs::convert::FromSpecImpl<ToolApprovalError> for ToolExecutorError {
    open spec fn obeys_from_spec() -> bool {
        true
    }

    open spec fn from_spec(source: ToolApprovalError) -> Self {
        ToolExecutorError::Approval { source }
    }
}

impl ToolExecutorError {
    /// Returns the durable sink failure that caused this error, if any.
    pub fn durability_source(&self) -> (r: Option<&DurableEventSinkError>)
        ensures
            match *self {
                ToolExecutorError::Durability { source } => r == Some(&source),
                _ => r is None,
            },
    {
        match self {
            ToolExecutorError::Durability { source } => Some(source),
            _ => None,
        }
    }

    /// Returns the approval failure that caused this error, if any.
    pub fn approval_source(&self) -> (r: Option<ToolApprovalError>)
        ensures
            match *self {
                ToolExecutorError::Approval { source } => r == Some(source),
                _ => r is None,
            },
    {
        match self {
            ToolExecutorError::Approval { source } => Some(*source),
            _ => None,
        }
    }
}

} // verus!
