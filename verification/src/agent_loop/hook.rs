//! Assistant output exposed to post-model hooks, and hook recovery choices.

use vstd::prelude::*;

use crate::core_types::{ChatContent, ChatMessage, FinishReason, TokenUsage, ToolCall};

verus! {

/// Validated assistant output exposed to post-model hooks.
///
/// Hooks may rewrite content, reasoning and tool calls before the assistant
/// message is committed; role, finish reason and usage stay runtime-owned.
#[derive(Debug, Clone, PartialEq)]
pub struct LlmCallOutput {
    message: ChatMessage,
    finish_reason: FinishReason,
    usage: Option<TokenUsage>,
}

impl LlmCallOutput {
    /// The assistant message.
    pub closed spec fn spec_message(&self) -> ChatMessage {
        self.message
    }

    /// The provider finish reason.
    pub closed spec fn spec_finish_reason(&self) -> FinishReason {
        self.finish_reason
    }

    /// Usage reported by this model call.
    pub closed spec fn spec_usage(&self) -> Option<TokenUsage> {
        self.usage
    }

    /// Bundles a complete assistant response.
    pub fn new(message: ChatMessage, finish_reason: FinishReason, usage: Option<TokenUsage>) -> (r: Self)
        ensures
            r.spec_message() == message,
            r.spec_finish_reason() == finish_reason,
            r.spec_usage() == usage,
    {
        LlmCallOutput { message, finish_reason, usage }
    }

    /// Returns the assistant message after hook rewrites applied so far.
    pub fn message(&self) -> (r: &ChatMessage)
        ensures
            *r == self.spec_message(),
    {
        &self.message
    }

    /// Returns mutable assistant content.
    pub fn content_mut(&mut self) -> (r: &mut ChatContent)
        ensures
            *r == old(self).spec_message().content,
            final(self).spec_message() == (ChatMessage {
                content: *final(r),
                ..old(self).spec_message()
            }),
            final(self).spec_finish_reason() == old(self).spec_finish_reason(),
            final(self).spec_usage() == old(self).spec_usage(),
            hook_write(*old(self), *final(self)),
    {
        &mut self.message.content
    }

    /// Returns mutable assistant reasoning content.
    pub fn reasoning_content_mut(&mut self) -> (r: &mut Option<String>)
        ensures
            *r == old(self).spec_message().reasoning_content,
            final(self).spec_message() == (ChatMessage {
                reasoning_content: *final(r),
                ..old(self).spec_message()
            }),
            final(self).spec_finish_reason() == old(self).spec_finish_reason(),
            final(self).spec_usage() == old(self).spec_usage(),
            hook_write(*old(self), *final(self)),
    {
        &mut self.message.reasoning_content
    }

    /// Returns mutable tool calls requested by the assistant.
    pub fn tool_calls_mut(&mut self) -> (r: &mut Vec<ToolCall>)
        ensures
            *r == old(self).spec_message().tool_calls,
            final(self).spec_message() == (ChatMessage {
                tool_calls: *final(r),
                ..old(self).spec_message()
            }),
            final(self).spec_finish_reason() == old(self).spec_finish_reason(),
            final(self).spec_usage() == old(self).spec_usage(),
            hook_write(*old(self), *final(self)),
    {
        &mut self.message.tool_calls
    }

    /// Returns the provider finish reason, which hooks cannot rewrite.
    pub fn finish_reason(&self) -> (r: FinishReason)
        ensures
            r == self.spec_finish_reason(),
    {
        self.finish_reason
    }

    /// Returns usage reported by this model call, when available.
    pub fn usage(&self) -> (r: Option<TokenUsage>)
        ensures
            r == self.spec_usage(),
    {
        self.usage
    }

    /// Splits the output into its message and finish reason.
    pub fn into_parts(self) -> (r: (ChatMessage, FinishReason))
        ensures
            r.0 == self.spec_message(),
            r.1 == self.spec_finish_reason(),
    {
        (self.message, self.finish_reason)
    }
}

/// Whether `b` is `a` after one hook write: through `content_mut`, `reasoning_content_mut` or
/// `tool_calls_mut`, each of which replaces one field of the message and nothing else.
pub open spec fn hook_write(a: LlmCallOutput, b: LlmCallOutput) -> bool {
    let m = a.spec_message();
    let n = b.spec_message();
    &&& b.spec_finish_reason() == a.spec_finish_reason()
    &&& b.spec_usage() == a.spec_usage()
    &&& {
        ||| n == (ChatMessage { content: n.content, ..m })
        ||| n == (ChatMessage { reasoning_content: n.reasoning_content, ..m })
        ||| n == (ChatMessage { tool_calls: n.tool_calls, ..m })
    }
}

/// Hooks can rewrite only the content, reasoning and tool calls of a model output: after any
/// sequence of writes, its finish reason, its usage, and the message's role and tool-call
/// identity are those it was created with.
pub proof fn law_hook_writes_keep_runtime_fields(outputs: Seq<LlmCallOutput>)
    requires
        outputs.len() > 0,
        forall|i: int| 0 <= i < outputs.len() - 1 ==> #[trigger] hook_write(outputs[i], outputs[i + 1]),
    ensures
        outputs.last().spec_finish_reason() == outputs[0].spec_finish_reason(),
        outputs.last().spec_usage() == outputs[0].spec_usage(),
        outputs.last().spec_message().role == outputs[0].spec_message().role,
        outputs.last().spec_message().tool_call_id == outputs[0].spec_message().tool_call_id,
    decreases outputs.len(),
{
    if outputs.len() > 1 {
        let front = outputs.drop_last();
        assert forall|i: int| 0 <= i < front.len() - 1 implies #[trigger] hook_write(front[i], front[i + 1]) by {
            assert(hook_write(outputs[i], outputs[i + 1]));
        }
        law_hook_writes_keep_runtime_fields(front);
        let k = outputs.len() - 2;
        assert(hook_write(outputs[k], outputs[k + 1]));
        assert(front.last() == outputs[k]);
    }
}

/// Recovery requested after a model provider or model stream failure.
#[derive(Debug, Clone, Copy, PartialEq, Eq, Structural)]
pub enum LlmErrorAction {
    /// Propagate the model failure.
    Fail,
    /// Retry with a fresh request when the retry budget permits it.
    Retry,
}

impl Default for LlmErrorAction {
    fn default() -> (r: Self)
        ensures
            r == LlmErrorAction::Fail,
    {
        LlmErrorAction::Fail
    }
}

} // verus!
