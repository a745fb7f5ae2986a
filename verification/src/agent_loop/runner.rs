//! Decisions of the agent-loop runner that do not depend on the model provider,
//! the durable sink or the hooks themselves.

use vstd::prelude::*;

use crate::core_types::{ChatContent, ChatMessage, ChatRole, FinishReason, TokenUsage, ToolCall};
use crate::events::DurableAgentEvent;
use crate::infra::DurableEventSinkError;
use crate::llm::LlmError;
use crate::text::{byte_len, owned, str_byte_len};

use super::{
    error::loop_error_text, AgentLoopBuildError, AgentLoopError, AgentLoopHookError,
    AgentLoopHookStage, LlmCallOutput, LoopLimits, ProtocolError,
};

verus! {

/// Index of the first prompt whose role is not `User`, if any.
pub open spec fn first_non_user(prompts: Seq<ChatMessage>) -> Option<int> {
    if exists|i: int| 0 <= i < prompts.len() && (#[trigger] prompts[i]).role != ChatRole::User {
        Some(
            choose|i: int|
                0 <= i < prompts.len() && (#[trigger] prompts[i]).role != ChatRole::User && forall|
                    j: int,
                | 0 <= j < i ==> prompts[j].role == ChatRole::User,
        )
    } else {
        None
    }
}

/// Rejects an empty prompt batch and prompts whose role is not `User`.
pub fn validate_prompts(prompts: &Vec<ChatMessage>) -> (r: Result<(), ProtocolError>)
    ensures
        prompts@.len() == 0 ==> r matches Err(ProtocolError::EmptyPrompts),
        prompts@.len() > 0 ==> match first_non_user(prompts@) {
            None => r is Ok,
            Some(i) => (r matches Err(ProtocolError::InvalidPromptRole { role })
                && role == prompts@[i].role),
        },
{
    if prompts.len() == 0 {
        return Err(ProtocolError::EmptyPrompts);
    }
    let mut i: usize = 0;
    while i < prompts.len()
        invariant
            i <= prompts@.len(),
            forall|j: int| 0 <= j < i ==> prompts@[j].role == ChatRole::User,
        decreases prompts.len() - i,
    {
        if prompts[i].role != ChatRole::User {
            proof {
                assert(prompts@[i as int].role != ChatRole::User);
                let k = choose|k: int|
                    0 <= k < prompts@.len() && (#[trigger] prompts@[k]).role != ChatRole::User
                        && forall|j: int| 0 <= j < k ==> prompts@[j].role == ChatRole::User;
                if k < i {
                } else if k > i {
                    assert(prompts@[i as int].role == ChatRole::User);
                }
            }
            return Err(ProtocolError::InvalidPromptRole { role: prompts[i].role });
        }
        i = i + 1;
    }
    Ok(())
}

/// Checks made before any external action of a run: the prompt batch, then a zero iteration bound.
pub fn check_run_start(prompts: &Vec<ChatMessage>, limits: LoopLimits) -> (r: Result<(), AgentLoopError>)
    ensures
        prompts@.len() == 0 ==> r matches Err(AgentLoopError::InvalidProtocol { reason: ProtocolError::EmptyPrompts }),
        prompts@.len() > 0 && first_non_user(prompts@) is Some ==> (r matches Err(
            AgentLoopError::InvalidProtocol { reason: ProtocolError::InvalidPromptRole { role } },
        ) && role == prompts@[first_non_user(prompts@).unwrap()].role),
        prompts@.len() > 0 && first_non_user(prompts@) is None ==> if limits.max_iterations == 0 {
            (r matches Err(AgentLoopError::IterationLimitExceeded { maximum }) && maximum == 0)
        } else {
            r is Ok
        },
{
    match validate_prompts(prompts) {
        Err(reason) => return Err(AgentLoopError::InvalidProtocol { reason }),
        Ok(()) => {},
    }
    if limits.max_iterations == 0 {
        return Err(AgentLoopError::IterationLimitExceeded { maximum: 0 });
    }
    Ok(())
}

/// The model request transcript: the system instruction followed by the history.
pub fn request_messages(system_prompt: &str, history: &Vec<ChatMessage>) -> (r: Vec<ChatMessage>)
    ensures
        r@.len() == history@.len() + 1,
        r@[0].role == ChatRole::System,
        r@[0].content matches ChatContent::Text(t) && t@ == system_prompt@,
        r@[0].reasoning_content is None,
        r@[0].tool_calls@.len() == 0,
        r@[0].tool_call_id is None,
        forall|i: int| 0 <= i < history@.len() ==> (#[trigger] r@[i + 1])@ == history@[i]@,
{
    let mut messages: Vec<ChatMessage> = Vec::new();
    messages.push(ChatMessage::system(system_prompt));
    let mut i: usize = 0;
    while i < history.len()
        invariant
            i <= history@.len(),
            messages@.len() == i + 1,
            messages@[0].role == ChatRole::System,
            messages@[0].content matches ChatContent::Text(t) && t@ == system_prompt@,
            messages@[0].reasoning_content is None,
            messages@[0].tool_calls@.len() == 0,
            messages@[0].tool_call_id is None,
            forall|j: int| 0 <= j < i ==> (#[trigger] messages@[j + 1])@ == history@[j]@,
        decreases history.len() - i,
    {
        messages.push(history[i].clone());
        i = i + 1;
    }
    messages
}

/// Whether `m` is an assistant message that requested a tool call with identity `id`.
pub open spec fn requests_call_id(m: ChatMessage, id: Seq<char>) -> bool {
    m.role == ChatRole::Assistant && exists|j: int|
        0 <= j < m.tool_calls@.len() && (#[trigger] m.tool_calls@[j]).call_id@ == id
}

/// Whether some assistant message of `messages` requested a tool call with identity `id`.
pub open spec fn committed_call_id(messages: Seq<ChatMessage>, id: Seq<char>) -> bool {
    exists|i: int| 0 <= i < messages.len() && requests_call_id(#[trigger] messages[i], id)
}

proof fn lemma_committed_step(
    messages: Seq<ChatMessage>,
    i: int,
    before: Seq<String>,
    after: Seq<String>,
)
    requires
        0 <= i < messages.len(),
        forall|id: Seq<char>| holds_id(before, id) <==> committed_call_id(messages.take(i), id),
        forall|id: Seq<char>|
            holds_id(after, id) <==> (holds_id(before, id) || requests_call_id(messages[i], id)),
    ensures
        forall|id: Seq<char>| holds_id(after, id) <==> committed_call_id(messages.take(i + 1), id),
{
    let t = messages.take(i + 1);
    let p = messages.take(i);
    assert forall|id: Seq<char>| holds_id(after, id) <==> committed_call_id(t, id) by {
        if committed_call_id(t, id) {
            let a = choose|a: int| 0 <= a < t.len() && requests_call_id(#[trigger] t[a], id);
            if a < i {
                assert(p[a] == t[a]);
                assert(committed_call_id(p, id));
            } else {
                assert(t[a] == messages[i]);
            }
        }
        if committed_call_id(p, id) {
            let a = choose|a: int| 0 <= a < p.len() && requests_call_id(#[trigger] p[a], id);
            assert(t[a] == p[a]);
        }
        if requests_call_id(messages[i], id) {
            assert(t[i] == messages[i]);
        }
    }
}

/// The identities of `calls`, in order.
pub open spec fn call_id_seq(calls: Seq<ToolCall>) -> Seq<String> {
    calls.map_values(|c: ToolCall| c.call_id)
}

/// An identity is held by two lists joined exactly when one of them holds it.
pub proof fn lemma_holds_id_concat(a: Seq<String>, b: Seq<String>)
    ensures
        forall|x: Seq<char>| holds_id(a + b, x) <==> (holds_id(a, x) || holds_id(b, x)),
{
    assert forall|x: Seq<char>| holds_id(a + b, x) <==> (holds_id(a, x) || holds_id(b, x)) by {
        if holds_id(a + b, x) {
            let k = choose|k: int| 0 <= k < (a + b).len() && (#[trigger] (a + b)[k])@ == x;
            if k < a.len() {
                assert(a[k] == (a + b)[k]);
            } else {
                assert(b[k - a.len()] == (a + b)[k]);
            }
        }
        if holds_id(a, x) {
            let k = choose|k: int| 0 <= k < a.len() && (#[trigger] a[k])@ == x;
            assert((a + b)[k] == a[k]);
        }
        if holds_id(b, x) {
            let k = choose|k: int| 0 <= k < b.len() && (#[trigger] b[k])@ == x;
            assert((a + b)[a.len() + k] == b[k]);
        }
    }
}

proof fn lemma_holds_call_id_seq(calls: Seq<ToolCall>)
    ensures
        forall|x: Seq<char>|
            holds_id(call_id_seq(calls), x) <==> exists|k: int|
                0 <= k < calls.len() && (#[trigger] calls[k]).call_id@ == x,
{
    assert forall|x: Seq<char>|
        holds_id(call_id_seq(calls), x) <==> exists|k: int|
            0 <= k < calls.len() && (#[trigger] calls[k]).call_id@ == x by {
        if holds_id(call_id_seq(calls), x) {
            let k = choose|k: int| 0 <= k < call_id_seq(calls).len() && (#[trigger] call_id_seq(calls)[k])@ == x;
            assert(calls[k].call_id@ == x);
        }
        if exists|k: int| 0 <= k < calls.len() && (#[trigger] calls[k]).call_id@ == x {
            let k = choose|k: int| 0 <= k < calls.len() && (#[trigger] calls[k]).call_id@ == x;
            assert(call_id_seq(calls)[k] == calls[k].call_id);
        }
    }
}

/// Whether `ids` holds `id`.
pub open spec fn holds_id(ids: Seq<String>, id: Seq<char>) -> bool {
    exists|k: int| 0 <= k < ids.len() && (#[trigger] ids[k])@ == id
}

fn contains_id(ids: &Vec<String>, id: &String) -> (r: bool)
    ensures
        r == holds_id(ids@, id@),
{
    let mut k: usize = 0;
    while k < ids.len()
        invariant
            k <= ids@.len(),
            forall|j: int| 0 <= j < k ==> (#[trigger] ids@[j])@ != id@,
        decreases ids.len() - k,
    {
        if ids[k] == *id {
            return true;
        }
        k = k + 1;
    }
    false
}

/// Identities of every tool call requested by committed assistant messages.
pub fn committed_tool_call_ids(messages: &Vec<ChatMessage>) -> (r: Vec<String>)
    ensures
        forall|id: Seq<char>| holds_id(r@, id) <==> committed_call_id(messages@, id),
{
    let mut ids: Vec<String> = Vec::new();
    let mut i: usize = 0;
    while i < messages.len()
        invariant
            i <= messages@.len(),
            forall|id: Seq<char>|
                holds_id(ids@, id) <==> committed_call_id(messages@.take(i as int), id),
        decreases messages.len() - i,
    {
        let ghost before = ids@;
        let m = &messages[i];
        if m.role == ChatRole::Assistant {
            let mut j: usize = 0;
            while j < m.tool_calls.len()
                invariant
                    j <= m.tool_calls@.len(),
                    ids@ == before + call_id_seq(m.tool_calls@.take(j as int)),
                decreases m.tool_calls.len() - j,
            {
                let id = m.tool_calls[j].call_id.clone();
                ids.push(id);
                proof {
                    assert(call_id_seq(m.tool_calls@.take(j + 1)) =~= call_id_seq(
                        m.tool_calls@.take(j as int),
                    ).push(m.tool_calls@[j as int].call_id));
                }
                j = j + 1;
            }
            proof {
                assert(m.tool_calls@.take(j as int) =~= m.tool_calls@);
                lemma_holds_id_concat(before, call_id_seq(m.tool_calls@));
                lemma_holds_call_id_seq(m.tool_calls@);
            }
        }
        proof {
            lemma_committed_step(messages@, i as int, before, ids@);
        }
        i = i + 1;
    }
    assert(messages@.take(messages@.len() as int) =~= messages@);
    ids
}

/// Whether the `k`-th call repeats a seen identity or an identity earlier in the batch.
pub open spec fn repeats_id(calls: Seq<ToolCall>, seen: Seq<String>, k: int) -> bool {
    holds_id(seen, calls[k].call_id@) || exists|j: int| 0 <= j < k && (#[trigger] calls[j]).call_id@
        == calls[k].call_id@
}

/// Accepts a batch of tool calls whose identities are new to the run and to each other,
/// and returns those identities in batch order.
pub fn validate_new_tool_call_ids(tool_calls: &Vec<ToolCall>, seen: &Vec<String>) -> (r: Result<
    Vec<String>,
    ProtocolError,
>)
    ensures
        match r {
            Ok(ids) => (forall|k: int| 0 <= k < tool_calls@.len() ==> !repeats_id(tool_calls@, seen@, k))
                && ids@.len() == tool_calls@.len() && forall|k: int|
                0 <= k < ids@.len() ==> (#[trigger] ids@[k])@ == tool_calls@[k].call_id@,
            Err(e) => exists|k: int|
                0 <= k < tool_calls@.len() && repeats_id(tool_calls@, seen@, k) && (forall|j: int|
                    0 <= j < k ==> !repeats_id(tool_calls@, seen@, j)) && e
                    == ProtocolError::DuplicateToolCallId { call_id: tool_calls@[k].call_id },
        },
{
    let mut ids: Vec<String> = Vec::new();
    let mut k: usize = 0;
    while k < tool_calls.len()
        invariant
            k <= tool_calls@.len(),
            ids@.len() == k,
            forall|j: int| 0 <= j < k ==> (#[trigger] ids@[j])@ == tool_calls@[j].call_id@,
            forall|j: int| 0 <= j < k ==> !repeats_id(tool_calls@, seen@, j),
        decreases tool_calls.len() - k,
    {
        let id = &tool_calls[k].call_id;
        if contains_id(seen, id) || contains_id(&ids, id) {
            proof {
                if holds_id(ids@, id@) {
                    let j = choose|j: int| 0 <= j < ids@.len() && (#[trigger] ids@[j])@ == id@;
                    assert(tool_calls@[j].call_id@ == tool_calls@[k as int].call_id@);
                }
                assert(repeats_id(tool_calls@, seen@, k as int));
            }
            return Err(ProtocolError::DuplicateToolCallId { call_id: id.clone() });
        }
        proof {
            assert forall|j: int| 0 <= j < k implies (#[trigger] tool_calls@[j]).call_id@ != tool_calls@[k as int].call_id@ by {
                assert(ids@[j]@ == tool_calls@[j].call_id@);
            }
        }
        ids.push(id.clone());
        k = k + 1;
    }
    Ok(ids)
}

} // verus!

verus! {

/// Compact JSON result recorded for a tool call that the model was not allowed to run.
pub open spec fn unexecutable_result_text(finish_reason: FinishReason) -> Seq<char> {
    if finish_reason == FinishReason::Length {
        "{\"error\":{\"code\":\"tool_call_truncated\",\"message\":\"tool call was not executed because the model response reached its length limit\"}}"@
    } else {
        "{\"error\":{\"code\":\"tool_call_not_authorized\",\"message\":\"tool call was not executed because the model did not finish with tool_calls\"}}"@
    }
}

/// The tool message that answers a call that was not executed because the model did not
/// finish with `ToolCalls`.
pub fn unexecutable_tool_result(tool_call: &ToolCall, finish_reason: FinishReason) -> (r: ChatMessage)
    ensures
        r.role == ChatRole::Tool,
        r.content matches ChatContent::Json(j) && j@ == unexecutable_result_text(finish_reason),
        r.reasoning_content is None,
        r.tool_calls@.len() == 0,
        r.tool_call_id == Some(tool_call.call_id),
{
    let json = if finish_reason == FinishReason::Length {
        owned(
            "{\"error\":{\"code\":\"tool_call_truncated\",\"message\":\"tool call was not executed because the model response reached its length limit\"}}",
        )
    } else {
        owned(
            "{\"error\":{\"code\":\"tool_call_not_authorized\",\"message\":\"tool call was not executed because the model did not finish with tool_calls\"}}",
        )
    };
    ChatMessage::tool(tool_call.call_id.clone(), json)
}

/// Whether some tool call of `calls` carries more argument bytes than `maximum`.
pub open spec fn some_oversized_arguments(calls: Seq<ToolCall>, maximum: usize) -> bool {
    exists|k: int| 0 <= k < calls.len() && byte_len((#[trigger] calls[k]).arguments@) > maximum
}

/// The first bound, in checking order, that a hook-rewritten assistant message violates.
pub open spec fn output_limit_violation(m: ChatMessage, limits: LoopLimits) -> Option<AgentLoopError> {
    if m.content matches ChatContent::Text(t) && byte_len(t@) > limits.max_text_bytes {
        Some(AgentLoopError::TextByteLimitExceeded { maximum: limits.max_text_bytes })
    } else if m.reasoning_content matches Some(t) && byte_len(t@) > limits.max_reasoning_bytes {
        Some(AgentLoopError::ReasoningByteLimitExceeded { maximum: limits.max_reasoning_bytes })
    } else if m.tool_calls@.len() > limits.max_tool_calls_per_iteration {
        Some(AgentLoopError::ToolCallLimitExceeded { maximum: limits.max_tool_calls_per_iteration })
    } else if some_oversized_arguments(m.tool_calls@, limits.max_tool_argument_bytes) {
        Some(AgentLoopError::ToolArgumentByteLimitExceeded { maximum: limits.max_tool_argument_bytes })
    } else {
        None
    }
}

/// Whether `m` keeps every bound of `limits`: its text, its reasoning and each tool call's
/// arguments within their byte limits, and no more tool calls than one iteration may run.
pub open spec fn within_output_limits(m: ChatMessage, limits: LoopLimits) -> bool {
    &&& (m.content matches ChatContent::Text(t) ==> byte_len(t@) <= limits.max_text_bytes)
    &&& (m.reasoning_content matches Some(t) ==> byte_len(t@) <= limits.max_reasoning_bytes)
    &&& m.tool_calls@.len() <= limits.max_tool_calls_per_iteration
    &&& forall|k: int|
        0 <= k < m.tool_calls@.len() ==> byte_len((#[trigger] m.tool_calls@[k]).arguments@)
            <= limits.max_tool_argument_bytes
}

/// A rewritten model response passes the re-check exactly when it keeps every bound, and a
/// response with too many tool calls is refused with the tool-call limit unless an earlier
/// byte bound already refused it.
pub proof fn law_hook_output_keeps_every_limit(m: ChatMessage, limits: LoopLimits)
    ensures
        output_limit_violation(m, limits) is None <==> within_output_limits(m, limits),
        m.tool_calls@.len() > limits.max_tool_calls_per_iteration ==> output_limit_violation(m, limits) is Some,
        within_output_limits(m, limits) ==> output_limit_violation(m, limits) is None,
{
}

/// Re-checks the byte and count bounds after hooks rewrote a model response.
pub fn validate_hook_output_limits(output: &LlmCallOutput, limits: LoopLimits) -> (r: Result<
    (),
    AgentLoopError,
>)
    ensures
        match output_limit_violation(output.spec_message(), limits) {
            None => r is Ok,
            Some(e) => r == Err::<(), AgentLoopError>(e),
        },
        r is Ok ==> within_output_limits(output.spec_message(), limits),
{
    let m = output.message();
    if let ChatContent::Text(t) = &m.content {
        if str_byte_len(t.as_str()) > limits.max_text_bytes {
            return Err(AgentLoopError::TextByteLimitExceeded { maximum: limits.max_text_bytes });
        }
    }
    if let Some(t) = &m.reasoning_content {
        if str_byte_len(t.as_str()) > limits.max_reasoning_bytes {
            return Err(
                AgentLoopError::ReasoningByteLimitExceeded { maximum: limits.max_reasoning_bytes },
            );
        }
    }
    if m.tool_calls.len() > limits.max_tool_calls_per_iteration {
        return Err(
            AgentLoopError::ToolCallLimitExceeded { maximum: limits.max_tool_calls_per_iteration },
        );
    }
    let mut k: usize = 0;
    while k < m.tool_calls.len()
        invariant
            *m == output.spec_message(),
            !(m.content matches ChatContent::Text(t) && byte_len(t@) > limits.max_text_bytes),
            !(m.reasoning_content matches Some(t) && byte_len(t@) > limits.max_reasoning_bytes),
            m.tool_calls@.len() <= limits.max_tool_calls_per_iteration,
            k <= m.tool_calls@.len(),
            forall|j: int|
                0 <= j < k ==> byte_len((#[trigger] m.tool_calls@[j]).arguments@)
                    <= limits.max_tool_argument_bytes,
        decreases m.tool_calls.len() - k,
    {
        if str_byte_len(m.tool_calls[k].arguments.as_str()) > limits.max_tool_argument_bytes {
            assert(byte_len(m.tool_calls@[k as int].arguments@) > limits.max_tool_argument_bytes);
            return Err(
                AgentLoopError::ToolArgumentByteLimitExceeded {
                    maximum: limits.max_tool_argument_bytes,
                },
            );
        }
        k = k + 1;
    }
    Ok(())
}

/// Maps a lifecycle hook failure to the loop error of its boundary.
pub fn hook_failure(stage: AgentLoopHookStage, source: AgentLoopHookError) -> (r: AgentLoopError)
    ensures
        r == (AgentLoopError::Hook { stage, source }),
{
    AgentLoopError::Hook { stage, source }
}

/// What the model-call boundary returns for a response that the post-model hooks have seen:
/// the bounds are re-checked only when hooks could have rewritten it, then cancellation wins.
pub fn accept_model_output(
    output: LlmCallOutput,
    hooks_present: bool,
    limits: LoopLimits,
    cancelled: bool,
) -> (r: Result<LlmCallOutput, AgentLoopError>)
    ensures
        hooks_present && output_limit_violation(output.spec_message(), limits) is Some ==> r
            == Err::<LlmCallOutput, AgentLoopError>(
            output_limit_violation(output.spec_message(), limits).unwrap(),
        ),
        !(hooks_present && output_limit_violation(output.spec_message(), limits) is Some)
            ==> if cancelled {
            r == Err::<LlmCallOutput, AgentLoopError>(AgentLoopError::Cancelled)
        } else {
            r == Ok::<LlmCallOutput, AgentLoopError>(output)
        },
        hooks_present && r is Ok ==> within_output_limits(output.spec_message(), limits),
{
    if hooks_present {
        match validate_hook_output_limits(&output, limits) {
            Err(e) => return Err(e),
            Ok(()) => {},
        }
    }
    if cancelled {
        return Err(AgentLoopError::Cancelled);
    }
    Ok(output)
}

/// What the model-call boundary does after the provider failed: another attempt, numbered
/// by the result, when some hook asked for a retry and the retry budget allows it.
pub fn after_model_failure(
    source: LlmError,
    retry_requested: bool,
    attempt: usize,
    limits: LoopLimits,
    cancelled: bool,
) -> (r: Result<usize, AgentLoopError>)
    ensures
        cancelled ==> r == Err::<usize, AgentLoopError>(AgentLoopError::Cancelled),
        !cancelled && retry_requested && attempt < limits.max_llm_retries_per_iteration ==> r
            == Ok::<usize, AgentLoopError>((attempt + 1) as usize),
        !cancelled && !(retry_requested && attempt < limits.max_llm_retries_per_iteration) ==> r
            == Err::<usize, AgentLoopError>(AgentLoopError::Llm { source }),
{
    if cancelled {
        return Err(AgentLoopError::Cancelled);
    }
    if retry_requested && attempt < limits.max_llm_retries_per_iteration {
        return Ok(attempt + 1);
    }
    Err(AgentLoopError::Llm { source })
}

} // verus!

verus! {

/// Executes the foundational model and tool control flow without owning session state:
/// the bound model provider, the approval-aware tool executor, the telemetry sink, the
/// ordered lifecycle hooks and the safety limits of a run.
pub struct AgentLoop<P, X, T, H> {
    /// Bound model provider.
    pub llm_provider: P,
    /// Approval-aware tool executor.
    pub tool_executor: X,
    /// Best-effort telemetry sink.
    pub telemetry: T,
    /// Lifecycle hooks in callback order.
    pub hooks: Vec<H>,
    /// Safety limits of one run.
    pub limits: LoopLimits,
}

/// Builder for [`AgentLoop`].
pub struct AgentLoopBuilder<P, X, T, H> {
    llm_provider: Option<P>,
    tool_executor: Option<X>,
    telemetry: Option<T>,
    hooks: Vec<H>,
    limits: LoopLimits,
}

impl<P, X, T, H> AgentLoop<P, X, T, H> {
    /// Starts construction of an agent loop, with no component and the default limits.
    pub fn builder() -> (r: AgentLoopBuilder<P, X, T, H>)
        ensures
            r.spec_llm_provider() is None,
            r.spec_tool_executor() is None,
            r.spec_telemetry() is None,
            r.spec_hooks().len() == 0,
            r.spec_limits() == LoopLimits::spec_default(),
    {
        AgentLoopBuilder {
            llm_provider: None,
            tool_executor: None,
            telemetry: None,
            hooks: Vec::new(),
            limits: LoopLimits::default(),
        }
    }
}

impl<P, X, T, H> AgentLoopBuilder<P, X, T, H> {
    /// The model provider set so far.
    pub closed spec fn spec_llm_provider(&self) -> Option<P> {
        self.llm_provider
    }

    /// The tool executor set so far.
    pub closed spec fn spec_tool_executor(&self) -> Option<X> {
        self.tool_executor
    }

    /// The telemetry sink set so far.
    pub closed spec fn spec_telemetry(&self) -> Option<T> {
        self.telemetry
    }

    /// The hooks appended so far, in callback order.
    pub closed spec fn spec_hooks(&self) -> Seq<H> {
        self.hooks@
    }

    /// The limits set so far.
    pub closed spec fn spec_limits(&self) -> LoopLimits {
        self.limits
    }

    /// Sets the bound model provider.
    pub fn llm_provider(self, llm_provider: P) -> (r: Self)
        ensures
            r.spec_llm_provider() == Some(llm_provider),
            r.spec_tool_executor() == self.spec_tool_executor(),
            r.spec_telemetry() == self.spec_telemetry(),
            r.spec_hooks() == self.spec_hooks(),
            r.spec_limits() == self.spec_limits(),
    {
        AgentLoopBuilder { llm_provider: Some(llm_provider), ..self }
    }

    /// Sets the approval-aware tool executor.
    pub fn tool_executor(self, tool_executor: X) -> (r: Self)
        ensures
            r.spec_llm_provider() == self.spec_llm_provider(),
            r.spec_tool_executor() == Some(tool_executor),
            r.spec_telemetry() == self.spec_telemetry(),
            r.spec_hooks() == self.spec_hooks(),
            r.spec_limits() == self.spec_limits(),
    {
        AgentLoopBuilder { tool_executor: Some(tool_executor), ..self }
    }

    /// Sets the best-effort telemetry sink.
    pub fn telemetry(self, telemetry: T) -> (r: Self)
        ensures
            r.spec_llm_provider() == self.spec_llm_provider(),
            r.spec_tool_executor() == self.spec_tool_executor(),
            r.spec_telemetry() == Some(telemetry),
            r.spec_hooks() == self.spec_hooks(),
            r.spec_limits() == self.spec_limits(),
    {
        AgentLoopBuilder { telemetry: Some(telemetry), ..self }
    }

    /// Appends one lifecycle hook to the ordered callback chain.
    pub fn hook(self, hook: H) -> (r: Self)
        ensures
            r.spec_llm_provider() == self.spec_llm_provider(),
            r.spec_tool_executor() == self.spec_tool_executor(),
            r.spec_telemetry() == self.spec_telemetry(),
            r.spec_hooks() == self.spec_hooks().push(hook),
            r.spec_limits() == self.spec_limits(),
    {
        let mut b = self;
        b.hooks.push(hook);
        b
    }

    /// Sets safety limits for one run.
    pub fn limits(self, limits: LoopLimits) -> (r: Self)
        ensures
            r.spec_llm_provider() == self.spec_llm_provider(),
            r.spec_tool_executor() == self.spec_tool_executor(),
            r.spec_telemetry() == self.spec_telemetry(),
            r.spec_hooks() == self.spec_hooks(),
            r.spec_limits() == limits,
    {
        AgentLoopBuilder { limits, ..self }
    }

    /// Builds the agent loop, or names the first required component, in the order model
    /// provider, tool executor, telemetry, that was not supplied.
    pub fn build(self) -> (r: Result<AgentLoop<P, X, T, H>, AgentLoopBuildError>)
        ensures
            self.spec_llm_provider() is None ==> r == Err::<AgentLoop<P, X, T, H>, AgentLoopBuildError>(
                AgentLoopBuildError::MissingLlmProvider,
            ),
            self.spec_llm_provider() is Some && self.spec_tool_executor() is None ==> r == Err::<
                AgentLoop<P, X, T, H>,
                AgentLoopBuildError,
            >(AgentLoopBuildError::MissingToolExecutor),
            self.spec_llm_provider() is Some && self.spec_tool_executor() is Some
                && self.spec_telemetry() is None ==> r == Err::<AgentLoop<P, X, T, H>, AgentLoopBuildError>(
                AgentLoopBuildError::MissingTelemetry,
            ),
            self.spec_llm_provider() is Some && self.spec_tool_executor() is Some
                && self.spec_telemetry() is Some ==> (r matches Ok(l) && self.spec_llm_provider() == Some(
                l.llm_provider,
            ) && self.spec_tool_executor() == Some(l.tool_executor) && self.spec_telemetry() == Some(l.telemetry)
                && l.hooks@ == self.spec_hooks() && l.limits == self.spec_limits()),
    {
        let llm_provider = match self.llm_provider {
            Some(p) => p,
            None => return Err(AgentLoopBuildError::MissingLlmProvider),
        };
        let tool_executor = match self.tool_executor {
            Some(x) => x,
            None => return Err(AgentLoopBuildError::MissingToolExecutor),
        };
        let telemetry = match self.telemetry {
            Some(t) => t,
            None => return Err(AgentLoopBuildError::MissingTelemetry),
        };
        Ok(AgentLoop { llm_provider, tool_executor, telemetry, hooks: self.hooks, limits: self.limits })
    }
}

} // verus!
