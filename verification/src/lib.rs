//! Verified core of the Stratum agent runtime: message model, streamed
//! assistant assembly, resume validation, durable store transitions,
//! tool execution gating, event sinks and the builtin tool registry.

pub mod text;
pub mod core_types;
pub mod events;
pub mod json;
pub mod llm;
pub mod infra;
pub mod agent_loop;
pub mod tool_executor;
pub mod filesystem;
pub mod store;
pub mod agent;
pub mod resume;
pub mod turn;
pub mod turn_stream;
pub mod turn_tool;
pub mod llm_manager;
pub mod sink;
pub mod memory_bus;
pub mod sse;
pub mod tools;
pub mod search;
pub mod envelope;
pub mod append;
pub mod record_shape;
pub mod agent_events;
pub mod tool_output;
pub mod console;
