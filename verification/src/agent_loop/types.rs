//! Context, limits, and successful outcome types for the agent loop kernel.

use vstd::prelude::*;

use crate::core_types::{ChatMessage, FinishReason, TokenUsage};

verus! {

/// Committed conversation state supplied to an agent loop run.
#[derive(Debug, Clone, PartialEq)]
pub struct LoopContext {
    /// Instruction prepended to the model conversation.
    pub system_prompt: String,
    /// Complete committed transcript in provider order.
    pub messages: Vec<ChatMessage>,
}

impl LoopContext {
    /// Creates an empty loop context with the provided system instruction.
    pub fn new(system_prompt: &str) -> (r: Self)
        ensures
            r.system_prompt@ == system_prompt@,
            r.messages@.len() == 0,
    {
        LoopContext { system_prompt: system_prompt.to_owned(), messages: Vec::new() }
    }

    /// Moves a committed transcript into this context.
    pub fn with_messages(self, messages: Vec<ChatMessage>) -> (r: Self)
        ensures
            r.system_prompt == self.system_prompt,
            r.messages == messages,
    {
        LoopContext { messages, ..self }
    }
}

/// Default maximum of streamed assistant text bytes.
pub const DEFAULT_MAX_TEXT_BYTES: usize = 1048576;

/// Default maximum of streamed reasoning bytes.
pub const DEFAULT_MAX_REASONING_BYTES: usize = 1048576;

/// Default maximum of streamed argument bytes per tool call.
pub const DEFAULT_MAX_TOOL_ARGUMENT_BYTES: usize = 262144;

/// Safety bounds applied before the loop starts additional work.
#[derive(Debug, Clone, Copy, PartialEq, Eq, Structural)]
pub struct LoopLimits {
    /// Maximum number of model iterations in one run.
    pub max_iterations: usize,
    /// Maximum tool calls accepted from one model iteration.
    pub max_tool_calls_per_iteration: usize,
    /// Maximum streamed assistant text bytes in one model response.
    pub max_text_bytes: usize,
    /// Maximum streamed reasoning bytes in one model response.
    pub max_reasoning_bytes: usize,
    /// Maximum streamed argument bytes for one tool call.
    pub max_tool_argument_bytes: usize,
    /// Maximum number of retries of a failed model call within one iteration.
    pub max_llm_retries_per_iteration: usize,
}

impl LoopLimits {
    /// Creates loop safety bounds with the default stream byte limits and no model retries.
    pub fn new(max_iterations: usize, max_tool_calls_per_iteration: usize) -> (r: Self)
        ensures
            r == (LoopLimits {
                max_iterations,
                max_tool_calls_per_iteration,
                max_text_bytes: DEFAULT_MAX_TEXT_BYTES,
                max_reasoning_bytes: DEFAULT_MAX_REASONING_BYTES,
                max_tool_argument_bytes: DEFAULT_MAX_TOOL_ARGUMENT_BYTES,
                max_llm_retries_per_iteration: 0,
            }),
    {
        LoopLimits {
            max_iterations,
            max_tool_calls_per_iteration,
            max_text_bytes: DEFAULT_MAX_TEXT_BYTES,
            max_reasoning_bytes: DEFAULT_MAX_REASONING_BYTES,
            max_tool_argument_bytes: DEFAULT_MAX_TOOL_ARGUMENT_BYTES,
            max_llm_retries_per_iteration: 0,
        }
    }

    /// Overrides the streamed response byte limits.
    pub fn with_stream_byte_limits(
        self,
        max_text_bytes: usize,
        max_reasoning_bytes: usize,
        max_tool_argument_bytes: usize,
    ) -> (r: Self)
        ensures
            r == (LoopLimits {
                max_text_bytes,
                max_reasoning_bytes,
                max_tool_argument_bytes,
                ..self
            }),
    {
        LoopLimits { max_text_bytes, max_reasoning_bytes, max_tool_argument_bytes, ..self }
    }

    /// Overrides the model retry budget of one iteration.
    pub fn with_llm_retries(self, max_llm_retries_per_iteration: usize) -> (r: Self)
        ensures
            r == (LoopLimits { max_llm_retries_per_iteration, ..self }),
    {
        LoopLimits { max_llm_retries_per_iteration, ..self }
    }
}

impl Default for LoopLimits {
    fn default() -> (r: Self)
        ensures
            r == LoopLimits::spec_default(),
    {
        LoopLimits::new(16, 16)
    }
}

impl LoopLimits {
    /// The default limits: sixteen iterations of at most sixteen tool calls.
    pub open spec fn spec_default() -> LoopLimits {
        LoopLimits {
            max_iterations: 16,
            max_tool_calls_per_iteration: 16,
            max_text_bytes: DEFAULT_MAX_TEXT_BYTES,
            max_reasoning_bytes: DEFAULT_MAX_REASONING_BYTES,
            max_tool_argument_bytes: DEFAULT_MAX_TOOL_ARGUMENT_BYTES,
            max_llm_retries_per_iteration: 0,
        }
    }
}

/// Successful terminal result returned by the agent loop kernel.
#[derive(Debug, Clone, PartialEq)]
pub struct LoopOutcome {
    /// Messages committed during this loop run.
    pub new_messages: Vec<ChatMessage>,
    /// Reason the final model response completed.
    pub finish_reason: FinishReason,
    /// Aggregate model token usage for this loop run.
    pub usage: TokenUsage,
}

} // verus!
