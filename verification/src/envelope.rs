//! Runtime event envelopes: the ordered records that event buses carry and agent stores
//! persist, with their character-level values.

use vstd::prelude::*;

use crate::agent_loop::stream::opt_text;
use crate::core_types::{ChatContent, ChatMessage, ChatRole, ToolCall};
use crate::events::DurableAgentEvent;
use crate::infra::{DurableEventSinkError, EventStreamBusError};
use crate::json::{json_string_literal, quote_json_string};
use crate::sink::{keeps_scope, scoped_durable_event, AgentEvent, EventScope};
use crate::text::owned;

verus! {

/// Producer of an envelope.
#[derive(Debug)]
pub enum EventSource {
    /// The run itself.
    Run,
    /// A node of the run.
    Node { node_id: String },
    /// An agent hosted on a node.
    Agent { node_id: String, agent_id: String },
}

/// Payload of an envelope.
#[derive(Debug)]
pub enum RuntimeEvent {
    /// The run started.
    RunStarted,
    /// An event of one agent.
    Agent { agent_id: String, event: AgentEvent },
}

/// One ordered runtime record.
#[derive(Debug)]
pub struct StreamEnvelope {
    /// Store sequence number of a committed message; `None` until it is committed.
    pub business_seq: Option<u64>,
    /// Run identity.
    pub run_id: String,
    /// Creation time, in milliseconds since the Unix epoch.
    pub timestamp: i64,
    /// Producer.
    pub source: EventSource,
    /// Payload.
    pub event: RuntimeEvent,
    /// Attributes in strictly increasing key order, each value as compact JSON text.
    pub metadata: Vec<(String, String)>,
}

impl StreamEnvelope {
    /// The agent whose event stream carries this envelope.
    pub fn agent_scope(&self) -> (r: Result<String, EventStreamBusError>)
        ensures
            match self.event {
                RuntimeEvent::Agent { agent_id, .. } => r matches Ok(a) && a@ == agent_id@,
                RuntimeEvent::RunStarted => r == Err::<String, EventStreamBusError>(
                    EventStreamBusError::MissingAgentScope,
                ),
            },
    {
        match &self.event {
            RuntimeEvent::Agent { agent_id, .. } => Ok(agent_id.clone()),
            RuntimeEvent::RunStarted => Err(EventStreamBusError::MissingAgentScope),
        }
    }
}

impl EventScope {
    /// The envelope that carries `event`, created at `timestamp`, for this scope: produced by
    /// the run, addressed to the scope's agent, with the agent name and turn as JSON string
    /// metadata.
    pub fn envelope(&self, event: AgentEvent, timestamp: i64) -> (r: StreamEnvelope)
        ensures
            r.business_seq is None,
            r.run_id@ == self.run_id@,
            r.timestamp == timestamp,
            r.source is Run,
            r.event matches RuntimeEvent::Agent { agent_id, event: e } && agent_id@ == self.agent_id@
                && e == event,
            metadata_text(r.metadata@) == seq![
                ("agent_name"@, json_string_literal(self.agent_name@)),
                ("turn_id"@, json_string_literal(self.turn_id@)),
            ],
    {
        let mut metadata: Vec<(String, String)> = Vec::new();
        metadata.push((owned("agent_name"), quote_json_string(self.agent_name.as_str())));
        metadata.push((owned("turn_id"), quote_json_string(self.turn_id.as_str())));
        let r = StreamEnvelope {
            business_seq: None,
            run_id: self.run_id.clone(),
            timestamp,
            source: EventSource::Run,
            event: RuntimeEvent::Agent { agent_id: self.agent_id.clone(), event },
            metadata,
        };
        assert(metadata_text(r.metadata@) =~= seq![
            ("agent_name"@, json_string_literal(self.agent_name@)),
            ("turn_id"@, json_string_literal(self.turn_id@)),
        ]);
        r
    }
}

impl EventScope {
    /// The envelope in which the scoped sink publishes a durable loop event, created at
    /// `timestamp`: the event's external form within this scope, addressed to the scope's agent.
    pub fn durable_envelope(&self, event: DurableAgentEvent, timestamp: i64) -> (r: StreamEnvelope)
        ensures
            r.business_seq is None,
            r.run_id@ == self.run_id@,
            r.timestamp == timestamp,
            r.source is Run,
            r.event matches RuntimeEvent::Agent { agent_id, event: e } && agent_id@ == self.agent_id@
                && e == scoped_durable_event(*self, event) && keeps_scope(*self, event, e),
            metadata_text(r.metadata@) == seq![
                ("agent_name"@, json_string_literal(self.agent_name@)),
                ("turn_id"@, json_string_literal(self.turn_id@)),
            ],
    {
        let scoped = self.scope_durable(event);
        self.envelope(scoped, timestamp)
    }
}

/// What the scoped sink reports for a durable event once the bus has answered its
/// publication: acknowledged when the bus accepted it, and otherwise the bus's error.
pub fn durable_publish_result(published: Result<u64, EventStreamBusError>) -> (r: Result<(), DurableEventSinkError>)
    ensures
        match published {
            Ok(_) => r is Ok,
            Err(e) => r == Err::<(), DurableEventSinkError>(DurableEventSinkError::EventStreamBus(e)),
        },
{
    match published {
        Ok(_) => Ok(()),
        Err(e) => Err(DurableEventSinkError::EventStreamBus(e)),
    }
}

/// Characters of a message body, with whether it is JSON.
pub open spec fn content_text(c: ChatContent) -> (bool, Seq<char>) {
    match c {
        ChatContent::Text(t) => (false, t@),
        ChatContent::Json(j) => (true, j@),
    }
}

/// Characters of a tool call: identity, name and arguments.
pub open spec fn call_text(c: ToolCall) -> (Seq<char>, Seq<char>, Seq<char>) {
    (c.call_id@, c.name@, c.arguments@)
}

/// Character-level value of a chat message.
pub struct MessageText {
    /// Author role.
    pub role: ChatRole,
    /// Body.
    pub content: (bool, Seq<char>),
    /// Reasoning text.
    pub reasoning: Option<Seq<char>>,
    /// Requested tool calls.
    pub calls: Seq<(Seq<char>, Seq<char>, Seq<char>)>,
    /// Answered tool call.
    pub call_id: Option<Seq<char>>,
}

/// The character-level value of `m`.
pub open spec fn message_text(m: ChatMessage) -> MessageText {
    MessageText {
        role: m.role,
        content: content_text(m.content),
        reasoning: opt_text(m.reasoning_content),
        calls: m.tool_calls@.map_values(|c: ToolCall| call_text(c)),
        call_id: opt_text(m.tool_call_id),
    }
}

/// Characters of an envelope producer: its kind, node and agent.
pub open spec fn source_text(s: EventSource) -> (nat, Seq<char>, Seq<char>) {
    match s {
        EventSource::Run => (0, Seq::empty(), Seq::empty()),
        EventSource::Node { node_id } => (1, node_id@, Seq::empty()),
        EventSource::Agent { node_id, agent_id } => (2, node_id@, agent_id@),
    }
}

/// Characters of envelope metadata.
pub open spec fn metadata_text(m: Seq<(String, String)>) -> Seq<(Seq<char>, Seq<char>)> {
    m.map_values(|p: (String, String)| (p.0@, p.1@))
}

/// Character-level value of an envelope that carries an agent's message.
pub struct MessageEnvelopeText {
    /// Store sequence number.
    pub business_seq: Option<u64>,
    /// Run identity.
    pub run_id: Seq<char>,
    /// Creation time.
    pub timestamp: i64,
    /// Producer.
    pub source: (nat, Seq<char>, Seq<char>),
    /// Agent the message belongs to.
    pub agent_id: Seq<char>,
    /// Turn the message belongs to.
    pub turn_id: Seq<char>,
    /// The message.
    pub message: MessageText,
    /// Metadata.
    pub metadata: Seq<(Seq<char>, Seq<char>)>,
}

/// The character-level value of `e` when it carries an agent's message, `None` otherwise.
pub open spec fn message_envelope_text(e: StreamEnvelope) -> Option<MessageEnvelopeText> {
    match e.event {
        RuntimeEvent::Agent { agent_id, event: AgentEvent::Message { turn_id, message } } => Some(
            MessageEnvelopeText {
                business_seq: e.business_seq,
                run_id: e.run_id@,
                timestamp: e.timestamp,
                source: source_text(e.source),
                agent_id: agent_id@,
                turn_id: turn_id@,
                message: message_text(message),
                metadata: metadata_text(e.metadata@),
            },
        ),
        _ => None,
    }
}

fn same_opt_text(a: &Option<String>, b: &Option<String>) -> (r: bool)
    ensures
        r == (opt_text(*a) == opt_text(*b)),
{
    match (a, b) {
        (Some(x), Some(y)) => *x == *y,
        (None, None) => true,
        _ => false,
    }
}

fn same_content(a: &ChatContent, b: &ChatContent) -> (r: bool)
    ensures
        r == (content_text(*a) == content_text(*b)),
{
    match (a, b) {
        (ChatContent::Text(x), ChatContent::Text(y)) => *x == *y,
        (ChatContent::Json(x), ChatContent::Json(y)) => *x == *y,
        _ => false,
    }
}

fn same_calls(a: &Vec<ToolCall>, b: &Vec<ToolCall>) -> (r: bool)
    ensures
        r == (a@.map_values(|c: ToolCall| call_text(c)) == b@.map_values(|c: ToolCall| call_text(c))),
{
    let ghost ta = a@.map_values(|c: ToolCall| call_text(c));
    let ghost tb = b@.map_values(|c: ToolCall| call_text(c));
    if a.len() != b.len() {
        assert(ta.len() != tb.len());
        return false;
    }
    let mut i: usize = 0;
    while i < a.len()
        invariant
            a@.len() == b@.len(),
            i <= a@.len(),
            ta == a@.map_values(|c: ToolCall| call_text(c)),
            tb == b@.map_values(|c: ToolCall| call_text(c)),
            forall|k: int| 0 <= k < i ==> ta[k] == tb[k],
        decreases a.len() - i,
    {
        if !(a[i].call_id == b[i].call_id && a[i].name == b[i].name && a[i].arguments == b[i].arguments) {
            assert(ta[i as int] != tb[i as int]);
            return false;
        }
        i = i + 1;
    }
    assert(ta =~= tb);
    true
}

/// Whether two messages have the same characters.
pub fn same_message(a: &ChatMessage, b: &ChatMessage) -> (r: bool)
    ensures
        r == (message_text(*a) == message_text(*b)),
{
    let r = a.role == b.role && same_content(&a.content, &b.content) && same_opt_text(
        &a.reasoning_content,
        &b.reasoning_content,
    ) && same_calls(&a.tool_calls, &b.tool_calls) && same_opt_text(&a.tool_call_id, &b.tool_call_id);
    r
}

fn same_source(a: &EventSource, b: &EventSource) -> (r: bool)
    ensures
        r == (source_text(*a) == source_text(*b)),
{
    match (a, b) {
        (EventSource::Run, EventSource::Run) => true,
        (EventSource::Node { node_id: x }, EventSource::Node { node_id: y }) => *x == *y,
        (EventSource::Agent { node_id: x, agent_id: p }, EventSource::Agent { node_id: y, agent_id: q }) => *x
            == *y && *p == *q,
        _ => false,
    }
}

fn same_metadata(a: &Vec<(String, String)>, b: &Vec<(String, String)>) -> (r: bool)
    ensures
        r == (metadata_text(a@) == metadata_text(b@)),
{
    let ghost ta = metadata_text(a@);
    let ghost tb = metadata_text(b@);
    if a.len() != b.len() {
        assert(ta.len() != tb.len());
        return false;
    }
    let mut i: usize = 0;
    while i < a.len()
        invariant
            a@.len() == b@.len(),
            i <= a@.len(),
            ta == metadata_text(a@),
            tb == metadata_text(b@),
            forall|k: int| 0 <= k < i ==> ta[k] == tb[k],
        decreases a.len() - i,
    {
        if !(a[i].0 == b[i].0 && a[i].1 == b[i].1) {
            assert(ta[i as int] != tb[i as int]);
            return false;
        }
        i = i + 1;
    }
    assert(ta =~= tb);
    true
}

/// Whether `a` carries an agent's message and `b` is, character for character, the same
/// envelope.
pub fn same_message_envelope(a: &StreamEnvelope, b: &StreamEnvelope) -> (r: bool)
    ensures
        r == (message_envelope_text(*a) is Some && message_envelope_text(*a) == message_envelope_text(*b)),
{
    match (&a.event, &b.event) {
        (
            RuntimeEvent::Agent { agent_id: aa, event: AgentEvent::Message { turn_id: at, message: am } },
            RuntimeEvent::Agent { agent_id: ba, event: AgentEvent::Message { turn_id: bt, message: bm } },
        ) => {
            a.business_seq == b.business_seq && a.run_id == b.run_id && a.timestamp == b.timestamp
                && same_source(&a.source, &b.source) && *aa == *ba && *at == *bt && same_message(am, bm)
                && same_metadata(&a.metadata, &b.metadata)
        },
        _ => false,
    }
}

} // verus!
