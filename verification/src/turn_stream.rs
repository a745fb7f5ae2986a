//! Assembly of a stateful agent's streamed assistant response.
//!
//! Unlike the agent-loop kernel, a turn accepts any provider index for a tool-call fragment:
//! the calls are kept by index, and a call that never received its identity is named
//! `tool-call-{index}`.

use vstd::prelude::*;

use crate::agent::AgentError;
use crate::agent_loop::stream::{finalized_arguments, opt_text};
use crate::core_types::{
    finish_reason_text, ChatContent, ChatMessage, ChatRole, FinishReason, TokenUsage, ToolCall,
};
use crate::json::parse_json_document;
use crate::llm::ChatStreamEvent;
use crate::text::{decimal, owned, push_decimal, push_str};

verus! {

/// A tool call being streamed at one provider index.
#[derive(Debug)]
pub struct StreamedCall {
    /// Provider identity, once received.
    pub call_id: Option<String>,
    /// Tool name, once received.
    pub name: Option<String>,
    /// Argument text received so far.
    pub arguments: String,
}

/// Character view of a streamed call.
pub struct StreamedCallView {
    /// Provider identity.
    pub call_id: Option<Seq<char>>,
    /// Tool name.
    pub name: Option<Seq<char>>,
    /// Argument text.
    pub arguments: Seq<char>,
}

/// Character view of a streamed call.
pub open spec fn streamed_view(c: StreamedCall) -> StreamedCallView {
    StreamedCallView { call_id: opt_text(c.call_id), name: opt_text(c.name), arguments: c.arguments@ }
}

/// The identity a call at index `i` is reported under.
pub open spec fn reported_call_id(c: StreamedCallView, i: nat) -> Seq<char> {
    match c.call_id {
        Some(id) => id,
        None => "tool-call-"@ + decimal(i),
    }
}

/// What publishing one stream event reports.
#[derive(Debug)]
pub enum StreamNotice {
    /// Visible text fragment.
    TextDelta { delta: String },
    /// Reasoning fragment.
    ReasoningDelta { delta: String },
    /// Tool-call fragment, under the call's reported identity and current name.
    ToolCallDelta { call_id: String, name: Option<String>, arguments_delta: String },
    /// The response finished.
    Finished { finish_reason: String, usage: Option<TokenUsage> },
}

/// Accumulates one streamed assistant response of a turn.
pub struct TurnStreamAssembler {
    text: String,
    reasoning: String,
    calls: Vec<StreamedCall>,
    finish_reason: FinishReason,
}

/// The calls after a fragment for index `index`: the list is extended with empty calls up to
/// that index, whose call then takes the fragment's identity and name when given, and its
/// argument text.
pub open spec fn after_fragment(
    calls: Seq<StreamedCallView>,
    index: nat,
    call_id: Option<Seq<char>>,
    name: Option<Seq<char>>,
    arguments_delta: Seq<char>,
) -> Seq<StreamedCallView> {
    let grown = if calls.len() > index {
        calls
    } else {
        calls + Seq::new(
            (index + 1 - calls.len()) as nat,
            |i: int| StreamedCallView { call_id: None, name: None, arguments: Seq::empty() },
        )
    };
    let old_call = grown[index as int];
    grown.update(
        index as int,
        StreamedCallView {
            call_id: if call_id is Some { call_id } else { old_call.call_id },
            name: if name is Some { name } else { old_call.name },
            arguments: old_call.arguments + arguments_delta,
        },
    )
}

/// The tool call at index `i`, or the identity under which it is incomplete.
pub open spec fn finalized_call(c: StreamedCallView, i: nat) -> Result<(Seq<char>, Seq<char>, Seq<char>), Seq<char>> {
    let id = reported_call_id(c, i);
    match c.name {
        None => Err(id),
        Some(name) => match finalized_arguments(c.arguments) {
            None => Err(id),
            Some(args) => Ok((id, name, args)),
        },
    }
}

impl TurnStreamAssembler {
    /// Text received so far.
    pub closed spec fn spec_text(&self) -> Seq<char> {
        self.text@
    }

    /// Reasoning received so far.
    pub closed spec fn spec_reasoning(&self) -> Seq<char> {
        self.reasoning@
    }

    /// Calls received so far, by index.
    pub closed spec fn spec_calls(&self) -> Seq<StreamedCallView> {
        self.calls@.map_values(|c: StreamedCall| streamed_view(c))
    }

    /// Finish reason received, `Unknown` until then.
    pub closed spec fn spec_finish_reason(&self) -> FinishReason {
        self.finish_reason
    }

    /// An empty response.
    pub fn new() -> (r: Self)
        ensures
            r.spec_text().len() == 0,
            r.spec_reasoning().len() == 0,
            r.spec_calls().len() == 0,
            r.spec_finish_reason() == FinishReason::Unknown,
    {
        TurnStreamAssembler {
            text: String::new(),
            reasoning: String::new(),
            calls: Vec::new(),
            finish_reason: FinishReason::Unknown,
        }
    }

    /// Takes one stream event and says what it reports.
    pub fn apply(&mut self, event: ChatStreamEvent) -> (r: StreamNotice)
        requires
            event matches ChatStreamEvent::ToolCallDelta(d) ==> d.index < usize::MAX,
        ensures
            match event {
                ChatStreamEvent::TextDelta { delta } => {
                    &&& final(self).spec_text() == old(self).spec_text() + delta@
                    &&& final(self).spec_reasoning() == old(self).spec_reasoning()
                    &&& final(self).spec_calls() == old(self).spec_calls()
                    &&& final(self).spec_finish_reason() == old(self).spec_finish_reason()
                    &&& r matches StreamNotice::TextDelta { delta: d } && d@ == delta@
                },
                ChatStreamEvent::ReasoningDelta { delta } => {
                    &&& final(self).spec_text() == old(self).spec_text()
                    &&& final(self).spec_reasoning() == old(self).spec_reasoning() + delta@
                    &&& final(self).spec_calls() == old(self).spec_calls()
                    &&& final(self).spec_finish_reason() == old(self).spec_finish_reason()
                    &&& r matches StreamNotice::ReasoningDelta { delta: d } && d@ == delta@
                },
                ChatStreamEvent::ToolCallDelta(d) => {
                    let calls = after_fragment(
                        old(self).spec_calls(),
                        d.index as nat,
                        opt_text(d.call_id),
                        opt_text(d.name),
                        d.arguments_delta@,
                    );
                    &&& final(self).spec_text() == old(self).spec_text()
                    &&& final(self).spec_reasoning() == old(self).spec_reasoning()
                    &&& final(self).spec_calls() == calls
                    &&& final(self).spec_finish_reason() == old(self).spec_finish_reason()
                    &&& r matches StreamNotice::ToolCallDelta { call_id, name, arguments_delta }
                    &&& call_id@ == reported_call_id(calls[d.index as int], d.index as nat)
                    &&& opt_text(name) == calls[d.index as int].name
                    &&& arguments_delta@ == d.arguments_delta@
                },
                ChatStreamEvent::Finished { finish_reason, usage } => {
                    &&& final(self).spec_text() == old(self).spec_text()
                    &&& final(self).spec_reasoning() == old(self).spec_reasoning()
                    &&& final(self).spec_calls() == old(self).spec_calls()
                    &&& final(self).spec_finish_reason() == finish_reason
                    &&& r matches StreamNotice::Finished { finish_reason: f, usage: u }
                    &&& f@ == finish_reason_text(finish_reason)
                    &&& u == usage
                },
            },
    {
        match event {
            ChatStreamEvent::TextDelta { delta } => {
                push_str(&mut self.text, delta.as_str());
                StreamNotice::TextDelta { delta }
            },
            ChatStreamEvent::ReasoningDelta { delta } => {
                push_str(&mut self.reasoning, delta.as_str());
                StreamNotice::ReasoningDelta { delta }
            },
            ChatStreamEvent::ToolCallDelta(d) => self.apply_fragment(
                d.index,
                d.call_id,
                d.name,
                d.arguments_delta,
            ),
            ChatStreamEvent::Finished { finish_reason, usage } => {
                self.finish_reason = finish_reason;
                StreamNotice::Finished { finish_reason: owned(finish_reason.as_str()), usage }
            },
        }
    }

    fn apply_fragment(
        &mut self,
        index: usize,
        call_id: Option<String>,
        name: Option<String>,
        arguments_delta: String,
    ) -> (r: StreamNotice)
        requires
            index < usize::MAX,
        ensures
            ({
                let calls = after_fragment(
                    old(self).spec_calls(),
                    index as nat,
                    opt_text(call_id),
                    opt_text(name),
                    arguments_delta@,
                );
                &&& final(self).spec_text() == old(self).spec_text()
                &&& final(self).spec_reasoning() == old(self).spec_reasoning()
                &&& final(self).spec_calls() == calls
                &&& final(self).spec_finish_reason() == old(self).spec_finish_reason()
                &&& r matches StreamNotice::ToolCallDelta { call_id: c, name: nm, arguments_delta: a }
                &&& c@ == reported_call_id(calls[index as int], index as nat)
                &&& opt_text(nm) == calls[index as int].name
                &&& a@ == arguments_delta@
            }),
    {
        let ghost old_calls = self.spec_calls();
        let ghost grown = if old_calls.len() > index {
            old_calls
        } else {
            old_calls + Seq::new(
                (index + 1 - old_calls.len()) as nat,
                |i: int| StreamedCallView { call_id: None, name: None, arguments: Seq::empty() },
            )
        };
        proof {
            if old_calls.len() <= index {
                assert(grown.len() == index + 1);
                assert forall|k: int| old_calls.len() <= k < grown.len() implies grown[k]
                    == (StreamedCallView { call_id: None, name: None, arguments: Seq::empty() }) by {}
                assert forall|k: int| 0 <= k < old_calls.len() implies grown[k] == old_calls[k] by {}
            }
        }
        while self.calls.len() <= index
            invariant
                index < usize::MAX,
                old_calls.len() <= index ==> grown.len() == index + 1,
                old_calls.len() <= index ==> forall|k: int|
                    old_calls.len() <= k < grown.len() ==> #[trigger] grown[k] == (StreamedCallView {
                        call_id: None,
                        name: None,
                        arguments: Seq::empty(),
                    }),
                old_calls.len() <= index ==> self.calls@.len() <= index + 1,
                old_calls.len() <= index ==> self.calls@.len() >= old_calls.len(),
                old_calls.len() > index ==> self.spec_calls() == old_calls,
                self.calls@.len() <= grown.len(),
                forall|k: int|
                    0 <= k < self.calls@.len() ==> #[trigger] self.spec_calls()[k] == grown[k],
                self.spec_text() == old(self).spec_text(),
                self.spec_reasoning() == old(self).spec_reasoning(),
                self.spec_finish_reason() == old(self).spec_finish_reason(),
            decreases index + 1 - self.calls.len(),
        {
            let ghost before = self.calls@;
            let ghost prev = self.spec_calls();
            self.calls.push(StreamedCall { call_id: None, name: None, arguments: String::new() });
            proof {
                assert forall|k: int| 0 <= k < self.calls@.len() implies #[trigger] self.spec_calls()[k]
                    == grown[k] by {
                    if k < before.len() {
                        assert(self.calls@[k] == before[k]);
                        assert(prev[k] == grown[k]);
                        assert(self.spec_calls()[k] == prev[k]);
                    } else {
                        assert(self.spec_calls()[k] == streamed_view(self.calls@[k]));
                        assert(streamed_view(self.calls@[k]) == (StreamedCallView {
                            call_id: None,
                            name: None,
                            arguments: Seq::empty(),
                        }));
                    }
                }
            }
        }
        assert(self.spec_calls() =~= grown);
        let mut slot = StreamedCall { call_id: None, name: None, arguments: String::new() };
        std::mem::swap(&mut slot, &mut self.calls[index]);
        if call_id.is_some() {
            slot.call_id = call_id;
        }
        if name.is_some() {
            slot.name = name;
        }
        push_str(&mut slot.arguments, arguments_delta.as_str());
        let reported = match &slot.call_id {
            Some(id) => id.clone(),
            None => {
                let mut t = owned("tool-call-");
                push_decimal(&mut t, index as u64);
                t
            },
        };
        let reported_name = match &slot.name {
            Some(n) => Some(n.clone()),
            None => None,
        };
        let ghost updated = streamed_view(slot);
        self.calls.set(index, slot);
        proof {
            reveal_strlit("tool-call-");
            assert(self.spec_calls() =~= grown.update(index as int, updated));
        }
        StreamNotice::ToolCallDelta { call_id: reported, name: reported_name, arguments_delta }
    }

    /// The complete assistant message and finish reason; a call without a name, or with
    /// argument text that is not a JSON document, makes the response incomplete.
    pub fn finish(self) -> (r: Result<(ChatMessage, FinishReason), AgentError>)
        ensures
            ({
                let calls = self.spec_calls();
                match r {
                    Ok((m, f)) => {
                        &&& f == self.spec_finish_reason()
                        &&& m.role == ChatRole::Assistant
                        &&& m.content matches ChatContent::Text(t) && t@ == self.spec_text()
                        &&& (self.spec_reasoning().len() == 0 ==> m.reasoning_content is None)
                        &&& (self.spec_reasoning().len() > 0 ==> (m.reasoning_content matches Some(t)
                            && t@ == self.spec_reasoning()))
                        &&& m.tool_call_id is None
                        &&& m.tool_calls@.len() == calls.len()
                        &&& forall|i: int|
                            0 <= i < calls.len() ==> (#[trigger] finalized_call(calls[i], i as nat))
                                == Ok::<(Seq<char>, Seq<char>, Seq<char>), Seq<char>>(
                                (m.tool_calls@[i].call_id@, m.tool_calls@[i].name@, m.tool_calls@[i].arguments@),
                            )
                    },
                    Err(e) => exists|i: int|
                        0 <= i < calls.len() && (forall|j: int|
                            0 <= j < i ==> (#[trigger] finalized_call(calls[j], j as nat)) is Ok) && ((
                        #[trigger] finalized_call(calls[i], i as nat)) matches Err(id) && (e matches AgentError::IncompleteToolCall { call_id }
                            && call_id@ == id)),
                }
            }),
    {
        let ghost calls = self.spec_calls();
        let text = self.text;
        let reasoning = self.reasoning;
        let finish_reason = self.finish_reason;
        let pending = self.calls;
        let mut tool_calls: Vec<ToolCall> = Vec::new();
        let mut i: usize = 0;
        while i < pending.len()
            invariant
                calls == self.spec_calls(),
                calls == pending@.map_values(|c: StreamedCall| streamed_view(c)),
                i <= pending@.len(),
                tool_calls@.len() == i,
                forall|k: int|
                    0 <= k < i ==> (#[trigger] finalized_call(calls[k], k as nat)) == Ok::<
                        (Seq<char>, Seq<char>, Seq<char>),
                        Seq<char>,
                    >((tool_calls@[k].call_id@, tool_calls@[k].name@, tool_calls@[k].arguments@)),
            decreases pending.len() - i,
        {
            let p = &pending[i];
            assert(calls[i as int] == streamed_view(*p));
            proof {
                reveal_strlit("tool-call-");
            }
            let call_id = match &p.call_id {
                Some(id) => id.clone(),
                None => {
                    let mut t = owned("tool-call-");
                    push_decimal(&mut t, i as u64);
                    t
                },
            };
            assert(call_id@ == reported_call_id(calls[i as int], i as nat));
            let name = match &p.name {
                Some(n) => n.clone(),
                None => {
                    let ghost ii: int = i as int;
                    assert(finalized_call(calls[ii], ii as nat) == Err::<
                        (Seq<char>, Seq<char>, Seq<char>),
                        Seq<char>,
                    >(call_id@));
                    assert(forall|j: int| 0 <= j < ii ==> (#[trigger] finalized_call(calls[j], j as nat)) is Ok);
                    return Err(AgentError::IncompleteToolCall { call_id });
                },
            };
            let arguments = if p.arguments.as_str().is_empty() {
                proof {
                    assert(p.arguments@.len() == 0);
                }
                owned("{}")
            } else {
                match parse_json_document(p.arguments.as_str()) {
                    Ok(a) => a,
                    Err(_) => {
                        let ghost ii: int = i as int;
                        assert(finalized_call(calls[ii], ii as nat) == Err::<
                            (Seq<char>, Seq<char>, Seq<char>),
                            Seq<char>,
                        >(call_id@));
                        assert(forall|j: int| 0 <= j < ii ==> (#[trigger] finalized_call(calls[j], j as nat)) is Ok);
                        return Err(AgentError::IncompleteToolCall { call_id });
                    },
                }
            };
            proof {
                reveal_strlit("{}");
            }
            tool_calls.push(ToolCall { call_id, name, arguments });
            i = i + 1;
        }
        let mut message = ChatMessage::assistant(text.as_str());
        if !reasoning.as_str().is_empty() {
            message = message.with_reasoning_content(reasoning);
        }
        if tool_calls.len() > 0 {
            message = message.with_tool_calls(tool_calls);
        }
        Ok((message, finish_reason))
    }
}

} // verus!
