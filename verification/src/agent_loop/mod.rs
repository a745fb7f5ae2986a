//! Foundational types, errors and stream assembly for the agent loop kernel.

pub mod error;
pub mod types;

pub use error::{
    AgentLoopBuildError, AgentLoopError, AgentLoopHookError, AgentLoopHookStage, ProtocolError,
};
pub use types::{LoopContext, LoopLimits, LoopOutcome};
pub mod stream;
pub mod hook;

pub use hook::{LlmCallOutput, LlmErrorAction};
pub mod runner;
pub mod machine;
