//! Model-provider values: streamed response events and provider errors.

use vstd::prelude::*;

use crate::core_types::{FinishReason, ModelId, TokenUsage};
use crate::text::push_str;

verus! {

/// Error returned by model providers and the provider registry.
#[derive(Debug)]
pub enum LlmError {
    /// A provider is already registered for the model.
    DuplicateProvider {
        /// Model whose provider was registered twice.
        model: ModelId,
    },
    /// No provider is registered for the model.
    ProviderNotFound {
        /// Requested model.
        model: ModelId,
    },
    /// The provider rejected the configured parameters.
    InvalidModelParameters {
        /// Model whose parameters were rejected.
        model: ModelId,
    },
    /// A scripted provider ran out of responses.
    MockExhausted,
    /// The response stream failed.
    Stream {
        /// Description of the stream failure.
        message: String,
    },
}

/// One streamed fragment of a tool call.
#[derive(Debug)]
pub struct ToolCallDelta {
    /// Provider position of the call within the response.
    pub index: usize,
    /// Provider identity of the call, when this fragment carries it.
    pub call_id: Option<String>,
    /// Tool name, when this fragment carries it.
    pub name: Option<String>,
    /// Raw argument text fragment.
    pub arguments_delta: String,
}

/// One event of a streamed model response.
#[derive(Debug)]
pub enum ChatStreamEvent {
    /// Visible assistant text.
    TextDelta {
        /// Text fragment.
        delta: String,
    },
    /// Reasoning text.
    ReasoningDelta {
        /// Reasoning fragment.
        delta: String,
    },
    /// A tool-call fragment.
    ToolCallDelta(ToolCallDelta),
    /// The response finished.
    Finished {
        /// Why the response ended.
        finish_reason: FinishReason,
        /// Usage reported for this response, when available.
        usage: Option<TokenUsage>,
    },
}

/// The human-readable description of a provider error.
pub open spec fn llm_error_text(e: LlmError) -> Seq<char> {
    match e {
        LlmError::DuplicateProvider { model } => "llm provider already registered: "@ + model@,
        LlmError::ProviderNotFound { model } => "llm provider not found: "@ + model@,
        LlmError::InvalidModelParameters { model } => "invalid model parameters: "@ + model@,
        LlmError::MockExhausted => "mock llm responses exhausted"@,
        LlmError::Stream { message } => "llm stream failed: "@ + message@,
    }
}

impl LlmError {
    /// The human-readable description of this failure.
    pub fn text(&self) -> (r: String)
        ensures
            r@ == llm_error_text(*self),
    {
        let mut r = String::new();
        match self {
            LlmError::DuplicateProvider { model } => {
                push_str(&mut r, "llm provider already registered: ");
                push_str(&mut r, model.as_str());
            },
            LlmError::ProviderNotFound { model } => {
                push_str(&mut r, "llm provider not found: ");
                push_str(&mut r, model.as_str());
            },
            LlmError::InvalidModelParameters { model } => {
                push_str(&mut r, "invalid model parameters: ");
                push_str(&mut r, model.as_str());
            },
            LlmError::MockExhausted => push_str(&mut r, "mock llm responses exhausted"),
            LlmError::Stream { message } => {
                push_str(&mut r, "llm stream failed: ");
                push_str(&mut r, message.as_str());
            },
        }
        r
    }
}

} // verus!
