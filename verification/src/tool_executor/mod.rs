//! Durable, approval-aware tool execution.

pub mod error;
pub mod execution;

pub use error::{ToolApprovalError, ToolExecutorError};
pub use execution::{
    AllowAllToolApproval, DenyAllToolApproval, ToolApprovalRequest, ToolExecution,
    ToolExecutionOutcome,
};
