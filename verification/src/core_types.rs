//! Conversation values exchanged between the agent loop, model providers and tools.

use vstd::prelude::*;

verus! {

/// Token counts reported by a model provider.
#[derive(Debug, Clone, Copy, PartialEq, Eq, Structural, Default)]
pub struct TokenUsage {
    /// Prompt tokens.
    pub input_tokens: u64,
    /// Completion tokens.
    pub output_tokens: u64,
    /// Total tokens.
    pub total_tokens: u64,
}

/// Saturating addition of token counters.
pub open spec fn saturating_sum(a: u64, b: u64) -> u64 {
    if a + b > u64::MAX { u64::MAX } else { (a + b) as u64 }
}

/// Component-wise saturating sum of two usages.
pub open spec fn usage_sum(a: TokenUsage, b: TokenUsage) -> TokenUsage {
    TokenUsage {
        input_tokens: saturating_sum(a.input_tokens, b.input_tokens),
        output_tokens: saturating_sum(a.output_tokens, b.output_tokens),
        total_tokens: saturating_sum(a.total_tokens, b.total_tokens),
    }
}

/// Adds `usage` to `total`, saturating each counter.
pub fn add_usage(total: &mut TokenUsage, usage: TokenUsage)
    ensures
        *final(total) == usage_sum(*old(total), usage),
{
    total.input_tokens = total.input_tokens.saturating_add(usage.input_tokens);
    total.output_tokens = total.output_tokens.saturating_add(usage.output_tokens);
    total.total_tokens = total.total_tokens.saturating_add(usage.total_tokens);
}

} // verus!

verus! {

/// Author role of one chat message.
#[derive(Debug, Clone, Copy, PartialEq, Eq, Structural)]
pub enum ChatRole {
    /// Instruction prepended by the runtime.
    System,
    /// End-user input.
    User,
    /// Model output.
    Assistant,
    /// Result of a tool call.
    Tool,
}

/// Body of a chat message.
#[derive(Debug, PartialEq, Eq)]
pub enum ChatContent {
    /// Plain text.
    Text(String),
    /// JSON document, held as its compact serialization.
    Json(String),
}

impl Clone for ChatContent {
    fn clone(&self) -> (r: Self)
        ensures
            r == *self,
    {
        match self {
            ChatContent::Text(t) => ChatContent::Text(t.clone()),
            ChatContent::Json(t) => ChatContent::Json(t.clone()),
        }
    }
}

/// One tool invocation requested by the assistant.
#[derive(Debug, PartialEq, Eq)]
pub struct ToolCall {
    /// Provider identity of the call.
    pub call_id: String,
    /// Provider-visible tool name.
    pub name: String,
    /// Arguments as compact JSON text.
    pub arguments: String,
}

impl Clone for ToolCall {
    fn clone(&self) -> (r: Self)
        ensures
            r == *self,
    {
        ToolCall {
            call_id: self.call_id.clone(),
            name: self.name.clone(),
            arguments: self.arguments.clone(),
        }
    }
}

/// Returns a copy of a list of tool calls.
pub fn clone_tool_calls(calls: &Vec<ToolCall>) -> (r: Vec<ToolCall>)
    ensures
        r@ == calls@,
{
    let r = calls.clone();
    assert(r@ =~= calls@);
    r
}

/// A complete chat message.
#[derive(Debug, PartialEq, Eq)]
pub struct ChatMessage {
    /// Author role.
    pub role: ChatRole,
    /// Message body.
    pub content: ChatContent,
    /// Reasoning text produced alongside the content.
    pub reasoning_content: Option<String>,
    /// Tool calls requested by an assistant message.
    pub tool_calls: Vec<ToolCall>,
    /// Tool call answered by a tool message.
    pub tool_call_id: Option<String>,
}

/// Mathematical value of a [`ChatMessage`]: its tool calls taken as a sequence.
pub struct ChatMessageView {
    /// Author role.
    pub role: ChatRole,
    /// Message body.
    pub content: ChatContent,
    /// Reasoning text.
    pub reasoning_content: Option<String>,
    /// Requested tool calls in provider order.
    pub tool_calls: Seq<ToolCall>,
    /// Answered tool call.
    pub tool_call_id: Option<String>,
}

impl View for ChatMessage {
    type V = ChatMessageView;

    open spec fn view(&self) -> ChatMessageView {
        ChatMessageView {
            role: self.role,
            content: self.content,
            reasoning_content: self.reasoning_content,
            tool_calls: self.tool_calls@,
            tool_call_id: self.tool_call_id,
        }
    }
}

impl Clone for ChatMessage {
    fn clone(&self) -> (r: Self)
        ensures
            r@ == self@,
    {
        let reasoning_content = match &self.reasoning_content {
            Some(t) => Some(t.clone()),
            None => None,
        };
        let tool_call_id = match &self.tool_call_id {
            Some(t) => Some(t.clone()),
            None => None,
        };
        ChatMessage {
            role: self.role,
            content: self.content.clone(),
            reasoning_content,
            tool_calls: clone_tool_calls(&self.tool_calls),
            tool_call_id,
        }
    }
}

} // verus!

verus! {

impl ChatMessage {
    /// Creates a text message with the given role.
    pub fn text(role: ChatRole, text: &str) -> (m: Self)
        ensures
            m.role == role,
            m.content matches ChatContent::Text(t) && t@ == text@,
            m.reasoning_content is None,
            m.tool_calls@.len() == 0,
            m.tool_call_id is None,
    {
        ChatMessage {
            role,
            content: ChatContent::Text(text.to_owned()),
            reasoning_content: None,
            tool_calls: Vec::new(),
            tool_call_id: None,
        }
    }

    /// Creates a user message.
    pub fn user(text: &str) -> (m: Self)
        ensures
            m.role == ChatRole::User,
            m.content matches ChatContent::Text(t) && t@ == text@,
            m.reasoning_content is None,
            m.tool_calls@.len() == 0,
            m.tool_call_id is None,
    {
        Self::text(ChatRole::User, text)
    }

    /// Creates an assistant message.
    pub fn assistant(text: &str) -> (m: Self)
        ensures
            m.role == ChatRole::Assistant,
            m.content matches ChatContent::Text(t) && t@ == text@,
            m.reasoning_content is None,
            m.tool_calls@.len() == 0,
            m.tool_call_id is None,
    {
        Self::text(ChatRole::Assistant, text)
    }

    /// Creates a system instruction message.
    pub fn system(text: &str) -> (m: Self)
        ensures
            m.role == ChatRole::System,
            m.content matches ChatContent::Text(t) && t@ == text@,
            m.reasoning_content is None,
            m.tool_calls@.len() == 0,
            m.tool_call_id is None,
    {
        Self::text(ChatRole::System, text)
    }

    /// Creates a tool result message carrying a JSON document.
    pub fn tool(call_id: String, json: String) -> (m: Self)
        ensures
            m.role == ChatRole::Tool,
            m.content == ChatContent::Json(json),
            m.reasoning_content is None,
            m.tool_calls@.len() == 0,
            m.tool_call_id == Some(call_id),
    {
        ChatMessage {
            role: ChatRole::Tool,
            content: ChatContent::Json(json),
            reasoning_content: None,
            tool_calls: Vec::new(),
            tool_call_id: Some(call_id),
        }
    }

    /// Attaches reasoning content.
    pub fn with_reasoning_content(self, reasoning: String) -> (m: Self)
        ensures
            m@ == (ChatMessageView { reasoning_content: Some(reasoning), ..self@ }),
    {
        ChatMessage { reasoning_content: Some(reasoning), ..self }
    }

    /// Attaches tool calls.
    pub fn with_tool_calls(self, tool_calls: Vec<ToolCall>) -> (m: Self)
        ensures
            m@ == (ChatMessageView { tool_calls: tool_calls@, ..self@ }),
    {
        ChatMessage { tool_calls, ..self }
    }
}

/// Why a model response ended.
#[derive(Debug, Clone, Copy, PartialEq, Eq, Structural)]
pub enum FinishReason {
    /// Natural end of the response.
    Stop,
    /// The response reached its length limit.
    Length,
    /// The model requested tool calls.
    ToolCalls,
    /// The provider filtered the content.
    ContentFilter,
    /// The provider gave no recognized reason.
    Unknown,
}

/// Stable protocol name of a finish reason.
pub open spec fn finish_reason_text(reason: FinishReason) -> Seq<char> {
    match reason {
        FinishReason::Stop => "stop"@,
        FinishReason::Length => "length"@,
        FinishReason::ToolCalls => "tool_calls"@,
        FinishReason::ContentFilter => "content_filter"@,
        FinishReason::Unknown => "unknown"@,
    }
}

/// Returns the stable protocol name of a finish reason.
pub fn finish_reason_name(finish_reason: FinishReason) -> (r: &'static str)
    ensures
        r@ == finish_reason_text(finish_reason),
{
    match finish_reason {
        FinishReason::Stop => "stop",
        FinishReason::Length => "length",
        FinishReason::ToolCalls => "tool_calls",
        FinishReason::ContentFilter => "content_filter",
        FinishReason::Unknown => "unknown",
    }
}

impl FinishReason {
    /// Returns the stable protocol name of this finish reason.
    pub fn as_str(&self) -> (r: &'static str)
        ensures
            r@ == finish_reason_text(*self),
    {
        finish_reason_name(*self)
    }
}

/// User decision on a tool approval request.
#[derive(Debug, Clone, Copy, PartialEq, Eq, Structural)]
pub enum ApprovalDecision {
    /// The call may run.
    Approve,
    /// The call must not run.
    Reject,
}

/// Whether a tool observes or mutates state.
#[derive(Debug, Clone, Copy, PartialEq, Eq, Structural)]
pub enum ToolKind {
    /// Observes state.
    Read,
    /// Mutates state.
    Write,
}

/// Declared danger of a tool.
#[derive(Debug, Clone, Copy, PartialEq, Eq, Structural)]
pub enum DangerLevel {
    /// Little risk.
    Low,
    /// Moderate risk.
    Medium,
    /// Significant risk.
    High,
}

} // verus!

verus! {

/// Error returned when a model id is not canonical.
#[derive(Debug, Clone, Copy, PartialEq, Eq, Structural)]
pub enum ModelIdParseError {
    /// The value is not exactly `provider:model`.
    InvalidFormat,
}

/// One half of a model id: non-empty and free of `:`.
pub open spec fn valid_model_part(s: Seq<char>) -> bool {
    s.len() > 0 && !s.contains(':')
}

/// The canonical text `provider:model`.
pub open spec fn model_id_text(provider: Seq<char>, model: Seq<char>) -> Seq<char> {
    provider + seq![':'] + model
}

/// Whether `text` is a canonical `provider:model` id.
pub open spec fn is_model_id_text(text: Seq<char>) -> bool {
    exists|i: int|
        0 <= i < text.len() && text[i] == ':' && valid_model_part(#[trigger] text.take(i))
            && valid_model_part(text.skip(i + 1))
}

/// The text of a model identity built from two valid halves parses back as a model
/// identity, and its halves are the ones it was built from.
pub proof fn law_model_id_text_round_trip(provider: Seq<char>, model: Seq<char>)
    requires
        valid_model_part(provider),
        valid_model_part(model),
    ensures
        is_model_id_text(model_id_text(provider, model)),
        model_id_text(provider, model).take(provider.len() as int) == provider,
        model_id_text(provider, model).skip(provider.len() as int + 1) == model,
{
    let t = model_id_text(provider, model);
    assert(t.take(provider.len() as int) =~= provider);
    assert(t.skip(provider.len() as int + 1) =~= model);
    assert(t[provider.len() as int] == ':');
}

/// Canonical `provider:model` model identity.
#[derive(Debug, PartialEq, Eq, PartialOrd, Ord, Hash)]
pub struct ModelId {
    value: String,
    provider: String,
    model: String,
}

impl View for ModelId {
    type V = Seq<char>;

    closed spec fn view(&self) -> Seq<char> {
        self.value@
    }
}

impl ModelId {
    /// Provider half of the id.
    pub closed spec fn provider_view(&self) -> Seq<char> {
        self.provider@
    }

    /// Model half of the id.
    pub closed spec fn model_view(&self) -> Seq<char> {
        self.model@
    }

    /// The parts are valid and the text is their canonical join.
    pub closed spec fn wf(&self) -> bool {
        &&& valid_model_part(self.provider@)
        &&& valid_model_part(self.model@)
        &&& self.value@ == model_id_text(self.provider@, self.model@)
    }

    /// Builds `provider:model` from its two halves.
    pub fn new(provider: &str, model: &str) -> (r: Result<ModelId, ModelIdParseError>)
        ensures
            r is Ok <==> valid_model_part(provider@) && valid_model_part(model@),
            r matches Ok(id) ==> id.wf() && id.provider_view() == provider@ && id.model_view()
                == model@ && id@ == model_id_text(provider@, model@),
    {
        let pc = crate::text::chars_of(provider);
        let mc = crate::text::chars_of(model);
        if pc.len() == 0 || mc.len() == 0 || contains_colon(&pc) || contains_colon(&mc) {
            return Err(ModelIdParseError::InvalidFormat);
        }
        let mut value = crate::text::owned(provider);
        crate::text::push_char(&mut value, ':');
        crate::text::push_str(&mut value, model);
        assert(value@ =~= model_id_text(provider@, model@));
        Ok(ModelId { value, provider: crate::text::owned(provider), model: crate::text::owned(model) })
    }

    /// Parses exactly `provider:model`.
    pub fn parse(text: &str) -> (r: Result<ModelId, ModelIdParseError>)
        ensures
            r is Ok <==> is_model_id_text(text@),
            r matches Ok(id) ==> id.wf() && id@ == text@,
    {
        let cs = crate::text::chars_of(text);
        let mut i: usize = 0;
        while i < cs.len() && cs[i] != ':'
            invariant
                cs@ == text@,
                i <= cs@.len(),
                forall|j: int| 0 <= j < i ==> cs@[j] != ':',
            decreases cs.len() - i,
        {
            i = i + 1;
        }
        if i == cs.len() {
            proof {
                assert forall|k: int| 0 <= k < text@.len() && text@[k] == ':' implies !valid_model_part(
                    #[trigger] text@.take(k),
                ) by {}
            }
            return Err(ModelIdParseError::InvalidFormat);
        }
        let provider = crate::text::string_of_chars(&cs, 0, i);
        let model = crate::text::string_of_chars(&cs, i + 1, cs.len());
        assert(provider@ =~= text@.take(i as int));
        assert(model@ =~= text@.skip(i + 1));
        let r = Self::new(provider.as_str(), model.as_str());
        proof {
            if is_model_id_text(text@) {
                let k = choose|k: int|
                    0 <= k < text@.len() && text@[k] == ':' && valid_model_part(
                        #[trigger] text@.take(k),
                    ) && valid_model_part(text@.skip(k + 1));
                if k > i {
                    assert(text@.take(k)[i as int] == ':');
                } else if k < i {
                    assert(text@[k] != ':');
                }
            }
            if r is Ok {
                assert(model_id_text(provider@, model@) =~= text@);
            }
        }
        r
    }

    /// Returns the canonical `provider:model` text.
    pub fn as_str(&self) -> (r: &str)
        ensures
            r@ == self@,
    {
        self.value.as_str()
    }

    /// Returns the provider half.
    pub fn provider_name(&self) -> (r: &str)
        ensures
            r@ == self.provider_view(),
    {
        self.provider.as_str()
    }

    /// Returns the model half.
    pub fn model_name(&self) -> (r: &str)
        ensures
            r@ == self.model_view(),
    {
        self.model.as_str()
    }

    /// Whether two ids name the same model.
    pub fn same_as(&self, other: &ModelId) -> (r: bool)
        ensures
            r == (self@ == other@),
    {
        self.value == other.value
    }
}

impl Clone for ModelId {
    fn clone(&self) -> (r: Self)
        ensures
            r == *self,
    {
        ModelId {
            value: self.value.clone(),
            provider: self.provider.clone(),
            model: self.model.clone(),
        }
    }
}

fn contains_colon(cs: &Vec<char>) -> (r: bool)
    ensures
        r == cs@.contains(':'),
{
    let mut i: usize = 0;
    while i < cs.len()
        invariant
            i <= cs@.len(),
            forall|j: int| 0 <= j < i ==> cs@[j] != ':',
        decreases cs.len() - i,
    {
        if cs[i] == ':' {
            return true;
        }
        i = i + 1;
    }
    false
}

} // verus!
