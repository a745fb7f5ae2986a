//! Streaming assistant-response assembly.
//!
//! [`StreamAssembler`] consumes the events of one streamed model response in
//! order, enforces the loop's byte and tool-call limits, reports the telemetry
//! each event produces, and finally assembles the complete assistant message.
//! The caller owns the stream itself, cancellation and telemetry delivery.

use vstd::prelude::*;

use crate::core_types::{
    add_usage, usage_sum, ChatContent, ChatMessage, ChatMessageView, ChatRole, FinishReason,
    TokenUsage, ToolCall, finish_reason_text,
};
use crate::events::AgentTelemetryEvent;
use crate::json::{json_compact_form, parse_json_document};
use crate::llm::{ChatStreamEvent, ToolCallDelta};
use crate::text::{byte_len, lemma_byte_len_concat, push_str, str_byte_len};

use super::{AgentLoopError, LlmCallOutput, LoopLimits, ProtocolError};

verus! {

/// Partially streamed tool call at one provider index.
#[derive(Debug)]
pub struct PendingToolCall {
    /// Provider position of the call.
    pub index: usize,
    /// Provider identity, once received.
    pub call_id: Option<String>,
    /// Tool name, once received.
    pub name: Option<String>,
    /// All argument text received so far.
    pub arguments: String,
    /// Argument text received before the call identity and not yet reported.
    pub unemitted_arguments: String,
}

/// Character view of an optional string.
pub open spec fn opt_text(o: Option<String>) -> Option<Seq<char>> {
    match o {
        Some(s) => Some(s@),
        None => None,
    }
}

/// Character view of a finalized tool call.
pub struct ToolCallText {
    /// Provider identity.
    pub call_id: Seq<char>,
    /// Tool name.
    pub name: Seq<char>,
    /// Compact JSON arguments.
    pub arguments: Seq<char>,
}

/// Character view of a tool call.
pub open spec fn tool_call_text(c: ToolCall) -> ToolCallText {
    ToolCallText { call_id: c.call_id@, name: c.name@, arguments: c.arguments@ }
}

/// Outcome of finalizing a prefix of the pending calls.
pub enum Finalized {
    /// Every call so far is complete.
    Calls(Seq<ToolCallText>),
    /// A provider index skipped the next contiguous position.
    Sparse { expected: int, actual: int },
    /// A call lacks its identity or name.
    Incomplete { index: int, call_id: Option<Seq<char>> },
    /// A call identity repeats an earlier one.
    Duplicate { call_id: Seq<char> },
    /// Argument text is not a JSON document.
    Malformed { call_id: Seq<char> },
}

/// Whether `id` is the identity of one of `calls`.
pub open spec fn has_call_id(calls: Seq<ToolCallText>, id: Seq<char>) -> bool {
    exists|i: int| 0 <= i < calls.len() && (#[trigger] calls[i]).call_id == id
}

/// The JSON arguments of a complete call: `{}` for empty text, otherwise the compact form.
pub open spec fn finalized_arguments(arguments: Seq<char>) -> Option<Seq<char>> {
    if arguments.len() == 0 {
        Some("{}"@)
    } else {
        json_compact_form(arguments)
    }
}

/// Finalizes the `k`-th pending call given the calls finalized before it.
pub open spec fn finalize_step(p: PendingToolCall, k: int, calls: Seq<ToolCallText>) -> Finalized {
    if p.index != k {
        Finalized::Sparse { expected: k, actual: p.index as int }
    } else {
        match p.call_id {
            None => Finalized::Incomplete { index: k, call_id: None },
            Some(id) => match p.name {
                None => Finalized::Incomplete { index: k, call_id: Some(id@) },
                Some(name) => if has_call_id(calls, id@) {
                    Finalized::Duplicate { call_id: id@ }
                } else {
                    match finalized_arguments(p.arguments@) {
                        None => Finalized::Malformed { call_id: id@ },
                        Some(args) => Finalized::Calls(
                            calls.push(ToolCallText { call_id: id@, name: name@, arguments: args }),
                        ),
                    }
                },
            },
        }
    }
}

/// Finalizes the first `n` pending calls in index order, stopping at the first failure.
pub open spec fn finalize_upto(pending: Seq<PendingToolCall>, n: nat) -> Finalized
    decreases n,
{
    if n == 0 {
        Finalized::Calls(Seq::empty())
    } else {
        match finalize_upto(pending, (n - 1) as nat) {
            Finalized::Calls(calls) => finalize_step(pending[n - 1], n - 1, calls),
            other => other,
        }
    }
}

/// Whether a protocol error reports the given finalization failure.
pub open spec fn reports_failure(e: ProtocolError, f: Finalized) -> bool {
    match f {
        Finalized::Calls(_) => false,
        Finalized::Sparse { expected, actual } => e matches ProtocolError::SparseToolCallIndex {
            expected: e1,
            actual: a1,
        } && e1 == expected && a1 == actual,
        Finalized::Incomplete { index, call_id } => e matches ProtocolError::IncompleteToolCall {
            index: i1,
            call_id: c1,
        } && i1 == index && opt_text(c1) == call_id,
        Finalized::Duplicate { call_id } => e matches ProtocolError::DuplicateToolCallId {
            call_id: c1,
        } && c1@ == call_id,
        Finalized::Malformed { call_id } => e matches ProtocolError::MalformedToolCallArguments {
            call_id: c1,
            ..
        } && c1@ == call_id,
    }
}

/// Once finalization fails, later calls do not change the outcome.
pub proof fn lemma_finalize_stuck(pending: Seq<PendingToolCall>, n: nat, m: nat)
    requires
        n <= m,
        !(finalize_upto(pending, n) is Calls),
    ensures
        finalize_upto(pending, m) == finalize_upto(pending, n),
    decreases m - n,
{
    if n < m {
        lemma_finalize_stuck(pending, n, (m - 1) as nat);
    }
}

fn contains_call_id(calls: &Vec<ToolCall>, id: &String) -> (r: bool)
    ensures
        r == has_call_id(calls@.map_values(|c: ToolCall| tool_call_text(c)), id@),
{
    let ghost texts = calls@.map_values(|c: ToolCall| tool_call_text(c));
    let mut i: usize = 0;
    while i < calls.len()
        invariant
            i <= calls@.len(),
            texts == calls@.map_values(|c: ToolCall| tool_call_text(c)),
            forall|j: int| 0 <= j < i ==> texts[j].call_id != id@,
        decreases calls.len() - i,
    {
        if calls[i].call_id == *id {
            assert(texts[i as int].call_id == id@);
            return true;
        }
        i = i + 1;
    }
    false
}

/// Finalizes streamed tool calls held in strictly increasing index order.
pub fn finalize_tool_calls(pending: Vec<PendingToolCall>) -> (r: Result<Vec<ToolCall>, ProtocolError>)
    ensures
        match r {
            Ok(calls) => finalize_upto(pending@, pending@.len()) == Finalized::Calls(
                calls@.map_values(|c: ToolCall| tool_call_text(c)),
            ),
            Err(e) => reports_failure(e, finalize_upto(pending@, pending@.len())),
        },
{
    let ghost all = pending@;
    let mut tool_calls: Vec<ToolCall> = Vec::new();
    let mut k: usize = 0;
    assert(tool_calls@.map_values(|c: ToolCall| tool_call_text(c)) =~= Seq::<ToolCallText>::empty());
    while k < pending.len()
        invariant
            all == pending@,
            k <= all.len(),
            finalize_upto(all, k as nat) == Finalized::Calls(
                tool_calls@.map_values(|c: ToolCall| tool_call_text(c)),
            ),
        decreases all.len() - k,
    {
        let ghost calls = tool_calls@.map_values(|c: ToolCall| tool_call_text(c));
        assert(finalize_upto(all, (k + 1) as nat) == finalize_step(all[k as int], k as int, calls));
        let p = &pending[k];
        if p.index != k {
            proof { lemma_finalize_stuck(all, (k + 1) as nat, all.len()); }
            return Err(ProtocolError::SparseToolCallIndex { expected: k, actual: p.index });
        }
        let id = match &p.call_id {
            None => {
                proof { lemma_finalize_stuck(all, (k + 1) as nat, all.len()); }
                return Err(ProtocolError::IncompleteToolCall { index: k, call_id: None });
            },
            Some(id) => id,
        };
        let name = match &p.name {
            None => {
                proof { lemma_finalize_stuck(all, (k + 1) as nat, all.len()); }
                return Err(ProtocolError::IncompleteToolCall { index: k, call_id: Some(id.clone()) });
            },
            Some(name) => name,
        };
        if contains_call_id(&tool_calls, id) {
            proof { lemma_finalize_stuck(all, (k + 1) as nat, all.len()); }
            return Err(ProtocolError::DuplicateToolCallId { call_id: id.clone() });
        }
        let arguments = if p.arguments.as_str().is_empty() {
            "{}".to_owned()
        } else {
            match parse_json_document(p.arguments.as_str()) {
                Ok(text) => text,
                Err(source) => {
                    proof { lemma_finalize_stuck(all, (k + 1) as nat, all.len()); }
                    return Err(
                        ProtocolError::MalformedToolCallArguments { call_id: id.clone(), source },
                    );
                },
            }
        };
        let call = ToolCall { call_id: id.clone(), name: name.clone(), arguments };
        let ghost before = tool_calls@;
        tool_calls.push(call);
        assert(tool_calls@.map_values(|c: ToolCall| tool_call_text(c)) =~= calls.push(
            tool_call_text(call),
        ));
        k = k + 1;
    }
    Ok(tool_calls)
}

} // verus!

verus! {

/// Character view of a pending tool call.
pub struct PendingView {
    /// Provider position.
    pub index: usize,
    /// Provider identity, once received.
    pub call_id: Option<Seq<char>>,
    /// Tool name, once received.
    pub name: Option<Seq<char>>,
    /// All argument text received so far.
    pub arguments: Seq<char>,
    /// Argument text not yet reported.
    pub unemitted: Seq<char>,
}

/// Character view of a pending call.
pub open spec fn pending_view(p: PendingToolCall) -> PendingView {
    PendingView {
        index: p.index,
        call_id: opt_text(p.call_id),
        name: opt_text(p.name),
        arguments: p.arguments@,
        unemitted: p.unemitted_arguments@,
    }
}

/// The pending call at provider position `index`, if any.
pub open spec fn pending_at(pending: Seq<PendingToolCall>, index: usize) -> Option<PendingView> {
    if exists|i: int| 0 <= i < pending.len() && (#[trigger] pending[i]).index == index {
        let i = choose|i: int| 0 <= i < pending.len() && (#[trigger] pending[i]).index == index;
        Some(pending_view(pending[i]))
    } else {
        None
    }
}

/// The pending call at `index`, or a fresh empty one.
pub open spec fn pending_or_empty(pending: Seq<PendingToolCall>, index: usize) -> PendingView {
    match pending_at(pending, index) {
        Some(p) => p,
        None => PendingView {
            index,
            call_id: None,
            name: None,
            arguments: Seq::empty(),
            unemitted: Seq::empty(),
        },
    }
}

/// Pending calls are held in strictly increasing index order below the tool-call limit,
/// within the argument byte limit, and with unreported text exactly when no identity is known.
pub open spec fn pending_wf(pending: Seq<PendingToolCall>, limits: LoopLimits) -> bool {
    &&& forall|i: int, j: int|
        0 <= i < j < pending.len() ==> (#[trigger] pending[i]).index < (#[trigger] pending[j]).index
    &&& forall|i: int|
        0 <= i < pending.len() ==> {
            let p = #[trigger] pending[i];
            &&& p.index < limits.max_tool_calls_per_iteration
            &&& byte_len(p.arguments@) <= limits.max_tool_argument_bytes
            &&& p.call_id is None ==> p.unemitted_arguments@ == p.arguments@
            &&& p.call_id is Some ==> p.unemitted_arguments@.len() == 0
        }
}

/// Incremental assembler of one streamed assistant response.
pub struct StreamAssembler {
    llm_call_id: String,
    limits: LoopLimits,
    text: String,
    reasoning: String,
    pending: Vec<PendingToolCall>,
    finished: Option<(FinishReason, Option<TokenUsage>)>,
}

impl StreamAssembler {
    /// Telemetry identity of the model call being assembled.
    pub closed spec fn call_id_view(&self) -> Seq<char> {
        self.llm_call_id@
    }

    /// Limits applied while assembling.
    pub closed spec fn limits_view(&self) -> LoopLimits {
        self.limits
    }

    /// Visible text received so far.
    pub closed spec fn text_view(&self) -> Seq<char> {
        self.text@
    }

    /// Reasoning text received so far.
    pub closed spec fn reasoning_view(&self) -> Seq<char> {
        self.reasoning@
    }

    /// Pending tool calls in index order.
    pub closed spec fn pending_view(&self) -> Seq<PendingToolCall> {
        self.pending@
    }

    /// Finish reason and usage, once the response finished.
    pub closed spec fn finished_view(&self) -> Option<(FinishReason, Option<TokenUsage>)> {
        self.finished
    }

    /// Internal invariant of the assembler.
    pub closed spec fn wf(&self) -> bool {
        &&& byte_len(self.text@) <= self.limits.max_text_bytes
        &&& byte_len(self.reasoning@) <= self.limits.max_reasoning_bytes
        &&& pending_wf(self.pending@, self.limits)
    }

    /// Starts assembling the response of the model call `llm_call_id`.
    pub fn new(llm_call_id: String, limits: LoopLimits) -> (r: Self)
        ensures
            r.wf(),
            r.call_id_view() == llm_call_id@,
            r.limits_view() == limits,
            r.text_view().len() == 0,
            r.reasoning_view().len() == 0,
            r.pending_view().len() == 0,
            r.finished_view() is None,
    {
        let r = StreamAssembler {
            llm_call_id,
            limits,
            text: String::new(),
            reasoning: String::new(),
            pending: Vec::new(),
            finished: None,
        };
        proof {
            crate::text::lemma_byte_len_concat(Seq::empty(), Seq::empty());
            assert(Seq::<char>::empty() + Seq::<char>::empty() =~= Seq::<char>::empty());
        }
        r
    }

    /// Whether the response's finish event was received.
    pub fn is_finished(&self) -> (r: bool)
        ensures
            r == self.finished_view() is Some,
    {
        self.finished.is_some()
    }

    /// Error returned when the stream ends before its finish event.
    pub fn ended_without_finish(&self) -> (r: AgentLoopError)
        ensures
            r matches AgentLoopError::InvalidProtocol { reason: ProtocolError::StreamEndedWithoutFinish },
    {
        AgentLoopError::InvalidProtocol { reason: ProtocolError::StreamEndedWithoutFinish }
    }

    fn locate(&self, index: usize) -> (r: (usize, bool))
        requires
            pending_wf(self.pending@, self.limits),
        ensures
            r.0 <= self.pending@.len(),
            r.1 ==> r.0 < self.pending@.len() && self.pending@[r.0 as int].index == index,
            !r.1 ==> forall|i: int|
                0 <= i < self.pending@.len() ==> (#[trigger] self.pending@[i]).index != index
                    && (i < r.0 <==> self.pending@[i].index < index),
    {
        let mut pos: usize = 0;
        while pos < self.pending.len() && self.pending[pos].index < index
            invariant
                pending_wf(self.pending@, self.limits),
                pos <= self.pending@.len(),
                forall|i: int| 0 <= i < pos ==> (#[trigger] self.pending@[i]).index < index,
            decreases self.pending.len() - pos,
        {
            pos = pos + 1;
        }
        if pos < self.pending.len() && self.pending[pos].index == index {
            (pos, true)
        } else {
            proof {
                assert forall|i: int| 0 <= i < self.pending@.len() implies (
                #[trigger] self.pending@[i]).index != index && (i < pos <==> self.pending@[i].index
                    < index) by {
                    if i >= pos {
                        if i > pos {
                            assert(self.pending@[pos as int].index < self.pending@[i].index);
                        }
                    }
                }
            }
            (pos, false)
        }
    }
}

} // verus!

verus! {

/// With strictly increasing indices, `pending_at` finds the unique entry with a given index.
pub proof fn lemma_pending_at(pending: Seq<PendingToolCall>, i: int)
    requires
        0 <= i < pending.len(),
        forall|a: int, b: int|
            0 <= a < b < pending.len() ==> (#[trigger] pending[a]).index < (#[trigger] pending[b]).index,
    ensures
        pending_at(pending, pending[i].index) == Some(pending_view(pending[i])),
{
    let index = pending[i].index;
    assert(pending[i].index == index);
    let k = choose|k: int| 0 <= k < pending.len() && (#[trigger] pending[k]).index == index;
    if k < i {
        assert(pending[k].index < pending[i].index);
    } else if k > i {
        assert(pending[i].index < pending[k].index);
    }
}

/// No entry with the index means `pending_at` is `None`.
pub proof fn lemma_pending_absent(pending: Seq<PendingToolCall>, index: usize)
    requires
        forall|i: int| 0 <= i < pending.len() ==> (#[trigger] pending[i]).index != index,
    ensures
        pending_at(pending, index) is None,
{
}

/// The updated entry a tool-call delta produces from the pending call `p`.
pub open spec fn apply_tool_delta(p: PendingView, d: ToolCallDelta) -> PendingView {
    let call_id = match d.call_id {
        Some(c) => Some(c@),
        None => p.call_id,
    };
    let name = match d.name {
        Some(n) => Some(n@),
        None => p.name,
    };
    let arguments = p.arguments + d.arguments_delta@;
    PendingView {
        index: p.index,
        call_id,
        name,
        arguments,
        unemitted: if call_id is Some { Seq::empty() } else { p.unemitted + d.arguments_delta@ },
    }
}

impl StreamAssembler {
    fn apply_tool_call(&mut self, d: ToolCallDelta) -> (r: Result<Option<AgentTelemetryEvent>, AgentLoopError>)
        requires
            old(self).wf(),
            old(self).finished_view() is None,
        ensures
            final(self).call_id_view() == old(self).call_id_view(),
            final(self).limits_view() == old(self).limits_view(),
            final(self).text_view() == old(self).text_view(),
            final(self).reasoning_view() == old(self).reasoning_view(),
            final(self).finished_view() == old(self).finished_view(),
            tool_delta_outcome(old(self).pending_view(), final(self).pending_view(), old(self).limits_view(),
                old(self).call_id_view(), d, r),
            r is Ok ==> final(self).wf(),
            r is Err ==> final(self).pending_view() == old(self).pending_view(),
    {
        let ghost old_pending = self.pending@;
        let ghost before = pending_or_empty(old_pending, d.index);
        if d.index >= self.limits.max_tool_calls_per_iteration {
            return Err(AgentLoopError::ToolCallLimitExceeded {
                maximum: self.limits.max_tool_calls_per_iteration,
            });
        }
        let (pos, found) = self.locate(d.index);
        proof {
            if found {
                lemma_pending_at(old_pending, pos as int);
            } else {
                lemma_pending_absent(old_pending, d.index);
            }
        }
        let mut entry = if found {
            self.pending.remove(pos)
        } else {
            PendingToolCall {
                index: d.index,
                call_id: None,
                name: None,
                arguments: String::new(),
                unemitted_arguments: String::new(),
            }
        };
        assert(pending_view(entry) == before);
        if let Some(received) = &d.call_id {
            if let Some(existing) = &entry.call_id {
                if !(*existing == *received) {
                    let existing = existing.clone();
                    let received = received.clone();
                    if found {
                        self.pending.insert(pos, entry);
                        assert(self.pending@ =~= old_pending);
                    }
                    return Err(AgentLoopError::InvalidProtocol {
                        reason: ProtocolError::ConflictingToolCallId { index: d.index, existing, received },
                    });
                }
            }
        }
        if let Some(received) = &d.name {
            if let Some(existing) = &entry.name {
                if !(*existing == *received) {
                    let existing = existing.clone();
                    let received = received.clone();
                    if found {
                        self.pending.insert(pos, entry);
                        assert(self.pending@ =~= old_pending);
                    }
                    return Err(AgentLoopError::InvalidProtocol {
                        reason: ProtocolError::ConflictingToolCallName {
                            index: d.index,
                            existing,
                            received,
                        },
                    });
                }
            }
        }
        let current = str_byte_len(entry.arguments.as_str());
        let additional = str_byte_len(d.arguments_delta.as_str());
        if ensure_fits(current, additional, self.limits.max_tool_argument_bytes).is_err() {
            if found {
                self.pending.insert(pos, entry);
                assert(self.pending@ =~= old_pending);
            }
            return Err(AgentLoopError::ToolArgumentByteLimitExceeded {
                maximum: self.limits.max_tool_argument_bytes,
            });
        }
        proof {
            lemma_byte_len_concat(entry.arguments@, d.arguments_delta@);
        }
        let ghost dv = d;
        let index = d.index;
        let (entry, telemetry) = merge_delta(entry, d, &self.llm_call_id);
        let ghost removed = self.pending@;
        self.pending.insert(pos, entry);
        proof {
            if found {
                assert(removed =~= old_pending.remove(pos as int));
                assert(self.pending@ =~= old_pending.update(pos as int, entry));
            } else {
                assert(self.pending@ =~= old_pending.insert(pos as int, entry));
            }
            lemma_reinsert(old_pending, self.pending@, pos as int, found, entry, self.limits);
        }
        Ok(telemetry)
    }
}

/// Merges one delta into a pending call and returns the telemetry it reports.
fn merge_delta(entry: PendingToolCall, d: ToolCallDelta, llm_call_id: &String) -> (r: (
    PendingToolCall,
    Option<AgentTelemetryEvent>,
))
    requires
        entry.index == d.index,
        entry.call_id is None ==> entry.unemitted_arguments@ == entry.arguments@,
        entry.call_id is Some ==> entry.unemitted_arguments@.len() == 0,
    ensures
        pending_view(r.0) == apply_tool_delta(pending_view(entry), d),
        match apply_tool_delta(pending_view(entry), d).call_id {
            None => r.1 is None,
            Some(id) => r.1 matches Some(AgentTelemetryEvent::ToolCallDelta {
                llm_call_id: c,
                call_id: i,
                name: n,
                arguments_delta: a,
            }) && c@ == llm_call_id@ && i@ == id && opt_text(n) == apply_tool_delta(
                pending_view(entry),
                d,
            ).name && a@ == entry.unemitted_arguments@ + d.arguments_delta@,
        },
{
    let mut entry = entry;
    let ghost before = entry;
    let ToolCallDelta { index, call_id, name, arguments_delta } = d;
    match call_id {
        Some(c) => {
            entry.call_id = Some(c);
        },
        None => {},
    }
    match name {
        Some(n) => {
            entry.name = Some(n);
        },
        None => {},
    }
    push_str(&mut entry.arguments, arguments_delta.as_str());
    let telemetry = match &entry.call_id {
        Some(call_id) => {
            let emitted = if entry.unemitted_arguments.as_str().is_empty() {
                proof {
                    assert(entry.unemitted_arguments@ + arguments_delta@ =~= arguments_delta@);
                }
                arguments_delta
            } else {
                push_str(&mut entry.unemitted_arguments, arguments_delta.as_str());
                let mut taken = String::new();
                std::mem::swap(&mut taken, &mut entry.unemitted_arguments);
                taken
            };
            let name = match &entry.name {
                Some(n) => Some(n.clone()),
                None => None,
            };
            Some(
                AgentTelemetryEvent::ToolCallDelta {
                    llm_call_id: llm_call_id.clone(),
                    call_id: call_id.clone(),
                    name,
                    arguments_delta: emitted,
                },
            )
        },
        None => {
            push_str(&mut entry.unemitted_arguments, arguments_delta.as_str());
            None
        },
    };
    proof {
        assert(entry.unemitted_arguments@ =~= apply_tool_delta(pending_view(before), d).unemitted);
    }
    (entry, telemetry)
}

/// Re-inserting an updated entry at its sorted position keeps the pending calls well formed
/// and changes only the entry at that index.
proof fn lemma_reinsert(
    old_pending: Seq<PendingToolCall>,
    np: Seq<PendingToolCall>,
    pos: int,
    found: bool,
    entry: PendingToolCall,
    limits: LoopLimits,
)
    requires
        pending_wf(old_pending, limits),
        0 <= pos <= old_pending.len(),
        found ==> pos < old_pending.len() && old_pending[pos].index == entry.index,
        !found ==> forall|i: int|
            0 <= i < old_pending.len() ==> (#[trigger] old_pending[i]).index != entry.index && (i
                < pos <==> old_pending[i].index < entry.index),
        found ==> np == old_pending.update(pos, entry),
        !found ==> np == old_pending.insert(pos, entry),
        entry.index < limits.max_tool_calls_per_iteration,
        byte_len(entry.arguments@) <= limits.max_tool_argument_bytes,
        entry.call_id is None ==> entry.unemitted_arguments@ == entry.arguments@,
        entry.call_id is Some ==> entry.unemitted_arguments@.len() == 0,
    ensures
        pending_wf(np, limits),
        pending_at(np, entry.index) == Some(pending_view(entry)),
        forall|j: usize| j != entry.index ==> pending_at(np, j) == pending_at(old_pending, j),
{
    let index = entry.index;
    assert forall|a: int, b: int| 0 <= a < b < np.len() implies (#[trigger] np[a]).index < (
    #[trigger] np[b]).index by {
        if found {
            if a != pos && b != pos {
                assert(np[a] == old_pending[a]);
                assert(np[b] == old_pending[b]);
            } else if a == pos {
                assert(old_pending[a].index < old_pending[b].index);
            } else {
                assert(old_pending[a].index < old_pending[b].index);
            }
        } else {
            if b < pos {
                assert(np[a] == old_pending[a] && np[b] == old_pending[b]);
            } else if a > pos {
                assert(np[a] == old_pending[a - 1] && np[b] == old_pending[b - 1]);
            } else if a == pos {
                assert(np[b] == old_pending[b - 1]);
                assert(old_pending[b - 1].index >= index);
            } else if b == pos {
                assert(np[a] == old_pending[a]);
            } else {
                assert(np[a] == old_pending[a] && np[b] == old_pending[b - 1]);
                assert(old_pending[a].index < index);
            }
        }
    }
    assert forall|i: int| 0 <= i < np.len() implies {
        let p = #[trigger] np[i];
        &&& p.index < limits.max_tool_calls_per_iteration
        &&& byte_len(p.arguments@) <= limits.max_tool_argument_bytes
        &&& p.call_id is None ==> p.unemitted_arguments@ == p.arguments@
        &&& p.call_id is Some ==> p.unemitted_arguments@.len() == 0
    } by {
        if i == pos {
        } else if found || i < pos {
            assert(np[i] == old_pending[i]);
        } else {
            assert(np[i] == old_pending[i - 1]);
        }
    }
    assert forall|j: usize| j != index implies pending_at(np, j) == pending_at(old_pending, j) by {
        if exists|i: int| 0 <= i < np.len() && (#[trigger] np[i]).index == j {
            let i = choose|i: int| 0 <= i < np.len() && (#[trigger] np[i]).index == j;
            lemma_pending_at(np, i);
            if found || i < pos {
                assert(np[i] == old_pending[i]);
                lemma_pending_at(old_pending, i);
            } else {
                assert(np[i] == old_pending[i - 1]);
                lemma_pending_at(old_pending, i - 1);
            }
        } else {
            assert forall|i: int| 0 <= i < old_pending.len() implies (
            #[trigger] old_pending[i]).index != j by {
                if found && i == pos {
                } else if found || i < pos {
                    assert(np[i] == old_pending[i]);
                } else {
                    assert(np[i + 1] == old_pending[i]);
                }
            }
        }
    }
    assert(np[pos] == entry);
    lemma_pending_at(np, pos);
}

/// What one tool-call delta does to the pending calls and which telemetry it reports.
pub open spec fn tool_delta_outcome(
    old_pending: Seq<PendingToolCall>,
    new_pending: Seq<PendingToolCall>,
    limits: LoopLimits,
    llm_call_id: Seq<char>,
    d: ToolCallDelta,
    r: Result<Option<AgentTelemetryEvent>, AgentLoopError>,
) -> bool {
    let before = pending_or_empty(old_pending, d.index);
    let after = apply_tool_delta(before, d);
    if d.index >= limits.max_tool_calls_per_iteration {
        r matches Err(AgentLoopError::ToolCallLimitExceeded { maximum })
            && maximum == limits.max_tool_calls_per_iteration
    } else if d.call_id is Some && before.call_id is Some && before.call_id != opt_text(d.call_id) {
        r matches Err(AgentLoopError::InvalidProtocol {
            reason: ProtocolError::ConflictingToolCallId { index, existing, received },
        }) && index == d.index && Some(existing@) == before.call_id && opt_text(d.call_id) == Some(
            received@,
        )
    } else if d.name is Some && before.name is Some && before.name != opt_text(d.name) {
        r matches Err(AgentLoopError::InvalidProtocol {
            reason: ProtocolError::ConflictingToolCallName { index, existing, received },
        }) && index == d.index && Some(existing@) == before.name && opt_text(d.name) == Some(
            received@,
        )
    } else if byte_len(before.arguments) + byte_len(d.arguments_delta@)
        > limits.max_tool_argument_bytes {
        r matches Err(AgentLoopError::ToolArgumentByteLimitExceeded { maximum })
            && maximum == limits.max_tool_argument_bytes
    } else {
        &&& pending_at(new_pending, d.index) == Some(after)
        &&& forall|j: usize| j != d.index ==> pending_at(new_pending, j) == pending_at(old_pending, j)
        &&& match after.call_id {
            None => r == Ok::<Option<AgentTelemetryEvent>, AgentLoopError>(None),
            Some(id) => r matches Ok(Some(AgentTelemetryEvent::ToolCallDelta {
                llm_call_id: c,
                call_id: i,
                name: n,
                arguments_delta: a,
            })) && c@ == llm_call_id && i@ == id && opt_text(n) == after.name && a@
                == before.unemitted + d.arguments_delta@,
        }
    }
}

} // verus!

verus! {

/// What one text fragment does to accumulated text bounded by `maximum` bytes.
pub open spec fn text_delta_outcome(
    old_text: Seq<char>,
    new_text: Seq<char>,
    maximum: usize,
    delta: Seq<char>,
    accepted: bool,
) -> bool {
    if byte_len(old_text) + byte_len(delta) > maximum {
        !accepted && new_text == old_text
    } else {
        accepted && new_text == old_text + delta
    }
}

impl StreamAssembler {
    /// Applies one streamed event and returns the telemetry it reports.
    ///
    /// Text and reasoning fragments are appended within their byte limits; tool-call
    /// fragments update the call at their index, reporting argument text once the call
    /// identity is known; the finish event records the finish reason and adds the reported
    /// usage to `total_usage`.
    pub fn apply(&mut self, event: ChatStreamEvent, total_usage: &mut TokenUsage) -> (r: Result<
        Option<AgentTelemetryEvent>,
        AgentLoopError,
    >)
        requires
            old(self).wf(),
            old(self).finished_view() is None,
        ensures
            final(self).call_id_view() == old(self).call_id_view(),
            final(self).limits_view() == old(self).limits_view(),
            r is Ok ==> final(self).wf(),
            match event {
                ChatStreamEvent::TextDelta { delta } => {
                    &&& text_delta_outcome(
                        old(self).text_view(),
                        final(self).text_view(),
                        old(self).limits_view().max_text_bytes,
                        delta@,
                        r is Ok,
                    )
                    &&& r is Err ==> (r matches Err(AgentLoopError::TextByteLimitExceeded { maximum })
                        && maximum == old(self).limits_view().max_text_bytes)
                    &&& r is Ok ==> (r matches Ok(Some(AgentTelemetryEvent::TextDelta { llm_call_id, delta: d }))
                        && llm_call_id@ == old(self).call_id_view() && d@ == delta@)
                    &&& final(self).reasoning_view() == old(self).reasoning_view()
                    &&& final(self).pending_view() == old(self).pending_view()
                    &&& final(self).finished_view() is None
                    &&& *final(total_usage) == *old(total_usage)
                },
                ChatStreamEvent::ReasoningDelta { delta } => {
                    &&& text_delta_outcome(
                        old(self).reasoning_view(),
                        final(self).reasoning_view(),
                        old(self).limits_view().max_reasoning_bytes,
                        delta@,
                        r is Ok,
                    )
                    &&& r is Err ==> (r matches Err(AgentLoopError::ReasoningByteLimitExceeded { maximum })
                        && maximum == old(self).limits_view().max_reasoning_bytes)
                    &&& r is Ok ==> (r matches Ok(Some(AgentTelemetryEvent::ReasoningDelta { llm_call_id, delta: d }))
                        && llm_call_id@ == old(self).call_id_view() && d@ == delta@)
                    &&& final(self).text_view() == old(self).text_view()
                    &&& final(self).pending_view() == old(self).pending_view()
                    &&& final(self).finished_view() is None
                    &&& *final(total_usage) == *old(total_usage)
                },
                ChatStreamEvent::ToolCallDelta(d) => {
                    &&& tool_delta_outcome(
                        old(self).pending_view(),
                        final(self).pending_view(),
                        old(self).limits_view(),
                        old(self).call_id_view(),
                        d,
                        r,
                    )
                    &&& final(self).text_view() == old(self).text_view()
                    &&& final(self).reasoning_view() == old(self).reasoning_view()
                    &&& final(self).finished_view() is None
                    &&& *final(total_usage) == *old(total_usage)
                },
                ChatStreamEvent::Finished { finish_reason, usage } => {
                    &&& r matches Ok(Some(AgentTelemetryEvent::LlmFinished {
                        llm_call_id,
                        finish_reason: f,
                        usage: u,
                    })) && llm_call_id@ == old(self).call_id_view() && f@ == finish_reason_text(
                        finish_reason,
                    ) && u == usage
                    &&& final(self).finished_view() == Some((finish_reason, usage))
                    &&& final(self).text_view() == old(self).text_view()
                    &&& final(self).reasoning_view() == old(self).reasoning_view()
                    &&& final(self).pending_view() == old(self).pending_view()
                    &&& *final(total_usage) == match usage {
                        Some(u) => usage_sum(*old(total_usage), u),
                        None => *old(total_usage),
                    }
                },
            },
    {
        match event {
            ChatStreamEvent::TextDelta { delta } => {
                let current = str_byte_len(self.text.as_str());
                let additional = str_byte_len(delta.as_str());
                if ensure_fits(current, additional, self.limits.max_text_bytes).is_err() {
                    return Err(AgentLoopError::TextByteLimitExceeded { maximum: self.limits.max_text_bytes });
                }
                proof {
                    lemma_byte_len_concat(self.text@, delta@);
                }
                push_str(&mut self.text, delta.as_str());
                Ok(Some(AgentTelemetryEvent::TextDelta { llm_call_id: self.llm_call_id.clone(), delta }))
            },
            ChatStreamEvent::ReasoningDelta { delta } => {
                let current = str_byte_len(self.reasoning.as_str());
                let additional = str_byte_len(delta.as_str());
                if ensure_fits(current, additional, self.limits.max_reasoning_bytes).is_err() {
                    return Err(
                        AgentLoopError::ReasoningByteLimitExceeded {
                            maximum: self.limits.max_reasoning_bytes,
                        },
                    );
                }
                proof {
                    lemma_byte_len_concat(self.reasoning@, delta@);
                }
                push_str(&mut self.reasoning, delta.as_str());
                Ok(
                    Some(
                        AgentTelemetryEvent::ReasoningDelta {
                            llm_call_id: self.llm_call_id.clone(),
                            delta,
                        },
                    ),
                )
            },
            ChatStreamEvent::ToolCallDelta(d) => self.apply_tool_call(d),
            ChatStreamEvent::Finished { finish_reason, usage } => {
                match usage {
                    Some(u) => add_usage(total_usage, u),
                    None => {},
                }
                self.finished = Some((finish_reason, usage));
                Ok(
                    Some(
                        AgentTelemetryEvent::LlmFinished {
                            llm_call_id: self.llm_call_id.clone(),
                            finish_reason: finish_reason.as_str().to_owned(),
                            usage,
                        },
                    ),
                )
            },
        }
    }
}

} // verus!

verus! {

/// The assistant message assembled from streamed text, reasoning and finalized tool calls.
pub open spec fn is_assembled_message(
    m: ChatMessage,
    text: Seq<char>,
    reasoning: Seq<char>,
    calls: Seq<ToolCallText>,
) -> bool {
    &&& m.role == ChatRole::Assistant
    &&& m.content matches ChatContent::Text(t) && t@ == text
    &&& if reasoning.len() == 0 {
        m.reasoning_content is None
    } else {
        m.reasoning_content matches Some(r) && r@ == reasoning
    }
    &&& m.tool_calls@.map_values(|c: ToolCall| tool_call_text(c)) == calls
    &&& m.tool_call_id is None
}

impl StreamAssembler {
    /// Assembles the complete assistant response after the finish event.
    pub fn finish(self) -> (r: Result<LlmCallOutput, AgentLoopError>)
        requires
            self.finished_view() is Some,
        ensures
            match finalize_upto(self.pending_view(), self.pending_view().len()) {
                Finalized::Calls(calls) => r matches Ok(out) && is_assembled_message(
                    out.spec_message(),
                    self.text_view(),
                    self.reasoning_view(),
                    calls,
                ) && out.spec_finish_reason() == self.finished_view().unwrap().0
                    && out.spec_usage() == self.finished_view().unwrap().1,
                failure => r matches Err(AgentLoopError::InvalidProtocol { reason }) && reports_failure(
                    reason,
                    failure,
                ),
            },
    {
        let (finish_reason, usage) = match self.finished {
            Some(f) => f,
            None => (FinishReason::Unknown, None),
        };
        let reasoning_content = if self.reasoning.as_str().is_empty() {
            None
        } else {
            Some(self.reasoning)
        };
        let tool_calls = match finalize_tool_calls(self.pending) {
            Ok(calls) => calls,
            Err(reason) => {
                return Err(AgentLoopError::InvalidProtocol { reason });
            },
        };
        let message = ChatMessage {
            role: ChatRole::Assistant,
            content: ChatContent::Text(self.text),
            reasoning_content,
            tool_calls,
            tool_call_id: None,
        };
        Ok(LlmCallOutput::new(message, finish_reason, usage))
    }
}

/// Whether `bytes` more can be added to `current` without exceeding `maximum`.
pub fn ensure_fits(current: usize, additional: usize, maximum: usize) -> (r: Result<(), ()>)
    ensures
        r is Ok <==> additional <= (if current <= maximum { maximum - current } else { 0 }),
{
    if additional > maximum.saturating_sub(current) {
        Err(())
    } else {
        Ok(())
    }
}

} // verus!
