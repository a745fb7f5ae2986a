//! The strict shape of a persisted message record: the JSON members each level of a stored
//! message envelope must have, and may have.

use vstd::prelude::*;

use crate::json::JsonValue;
use crate::text::same_text;

verus! {

/// The value of the first member of `obj` named `key`, searching from index `i`.
pub open spec fn field_from(obj: Seq<(String, JsonValue)>, key: Seq<char>, i: int) -> Option<JsonValue>
    decreases obj.len() - i,
{
    if i < 0 || i >= obj.len() {
        None
    } else if obj[i].0@ == key {
        Some(obj[i].1)
    } else {
        field_from(obj, key, i + 1)
    }
}

/// The value of the member of `obj` named `key`.
pub open spec fn field(obj: Seq<(String, JsonValue)>, key: Seq<char>) -> Option<JsonValue> {
    field_from(obj, key, 0)
}

/// Whether `obj` has every `required` member and no member outside `allowed`.
pub open spec fn has_exactly(obj: Seq<(String, JsonValue)>, required: Seq<Seq<char>>, allowed: Seq<Seq<char>>) -> bool {
    &&& forall|i: int| 0 <= i < required.len() ==> (#[trigger] field(obj, required[i])) is Some
    &&& forall|j: int| 0 <= j < obj.len() ==> allowed.contains(#[trigger] obj[j].0@)
}

/// Whether `v` is present and is the JSON string `t`.
pub open spec fn is_text(v: Option<JsonValue>, t: Seq<char>) -> bool {
    v matches Some(JsonValue::Str(s)) && s@ == t
}

/// Whether `v` is a producer record: `run`, `node` with its node, or `agent` with its node
/// and agent, and nothing else.
pub open spec fn strict_source(v: JsonValue) -> bool {
    match v {
        JsonValue::Object(o) => {
            let t = field(o@, "type"@);
            ||| is_text(t, "run"@) && has_exactly(o@, seq!["type"@], seq!["type"@])
            ||| is_text(t, "node"@) && has_exactly(o@, seq!["type"@, "node_id"@], seq!["type"@, "node_id"@])
            ||| is_text(t, "agent"@) && has_exactly(
                o@,
                seq!["type"@, "node_id"@, "agent_id"@],
                seq!["type"@, "node_id"@, "agent_id"@],
            )
        },
        _ => false,
    }
}

/// Whether `v` is a tool call record with exactly its identity, name and arguments.
pub open spec fn strict_tool_call(v: JsonValue) -> bool {
    v matches JsonValue::Object(c) && has_exactly(
        c@,
        seq!["call_id"@, "name"@, "arguments"@],
        seq!["call_id"@, "name"@, "arguments"@],
    )
}

/// Whether `v` is a chat message record: a role and a text or JSON content, optionally
/// reasoning, the answered call and an array of tool call records.
pub open spec fn strict_chat_message(v: JsonValue) -> bool {
    match v {
        JsonValue::Object(m) => {
            &&& has_exactly(
                m@,
                seq!["role"@, "content"@],
                seq!["role"@, "content"@, "tool_calls"@, "reasoning_content"@, "tool_call_id"@],
            )
            &&& match field(m@, "content"@) {
                Some(JsonValue::Object(c)) => has_exactly(c@, seq!["type"@, "data"@], seq!["type"@, "data"@]) && (
                is_text(field(c@, "type"@), "text"@) || is_text(field(c@, "type"@), "json"@)),
                _ => false,
            }
            &&& match field(m@, "tool_calls"@) {
                None => true,
                Some(JsonValue::Array(items)) => forall|i: int| 0 <= i < items@.len() ==> strict_tool_call(#[trigger] items@[i]),
                Some(_) => false,
            }
        },
        _ => false,
    }
}

/// The `data` member of `v` when `v` is an object with exactly the members `type` and
/// `data` whose `type` is the string `kind`; `None` otherwise.
pub open spec fn tagged(v: Option<JsonValue>, kind: Seq<char>) -> Option<JsonValue> {
    match v {
        Some(JsonValue::Object(o)) => if has_exactly(o@, seq!["type"@, "data"@], seq!["type"@, "data"@]) && is_text(
            field(o@, "type"@),
            kind,
        ) {
            field(o@, "data"@)
        } else {
            None
        },
        _ => None,
    }
}

/// Whether `v` is a stored message record: an envelope with exactly its sequence number, run,
/// time, producer, event and optional metadata, whose event is an agent event carrying a
/// message of a turn.
pub open spec fn strict_message_record(v: JsonValue) -> bool {
    match v {
        JsonValue::Object(env) => {
            &&& has_exactly(
                env@,
                seq!["business_seq"@, "run_id"@, "timestamp"@, "source"@, "event"@],
                seq!["business_seq"@, "run_id"@, "timestamp"@, "source"@, "event"@, "metadata"@],
            )
            &&& strict_source(field(env@, "source"@).unwrap())
            &&& match tagged(field(env@, "event"@), "agent"@) {
                Some(JsonValue::Object(rd)) => {
                    &&& has_exactly(rd@, seq!["agent_id"@, "event"@], seq!["agent_id"@, "event"@])
                    &&& match tagged(field(rd@, "event"@), "message"@) {
                        Some(JsonValue::Object(md)) => {
                            &&& has_exactly(md@, seq!["turn_id"@, "message"@], seq!["turn_id"@, "message"@])
                            &&& strict_chat_message(field(md@, "message"@).unwrap())
                        },
                        _ => false,
                    }
                },
                _ => false,
            }
        },
        _ => false,
    }
}

/// The member of `obj` named `key`.
pub fn get_field<'a>(obj: &'a Vec<(String, JsonValue)>, key: &str) -> (r: Option<&'a JsonValue>)
    ensures
        match field(obj@, key@) {
            None => r is None,
            Some(v) => r matches Some(x) && *x == v,
        },
{
    let mut i: usize = 0;
    while i < obj.len()
        invariant
            i <= obj@.len(),
            field(obj@, key@) == field_from(obj@, key@, i as int),
        decreases obj.len() - i,
    {
        if same_text(obj[i].0.as_str(), key) {
            return Some(&obj[i].1);
        }
        i = i + 1;
    }
    None
}

/// Whether `obj` has every `required` member and no member outside `allowed`.
pub fn strict_keys(obj: &Vec<(String, JsonValue)>, required: &Vec<&str>, allowed: &Vec<&str>) -> (r: bool)
    ensures
        r == has_exactly(obj@, required@.map_values(|s: &str| s@), allowed@.map_values(|s: &str| s@)),
{
    let ghost req = required@.map_values(|s: &str| s@);
    let ghost alw = allowed@.map_values(|s: &str| s@);
    let mut i: usize = 0;
    while i < required.len()
        invariant
            i <= required@.len(),
            req == required@.map_values(|s: &str| s@),
            forall|k: int| 0 <= k < i ==> (#[trigger] field(obj@, req[k])) is Some,
        decreases required.len() - i,
    {
        if get_field(obj, required[i]).is_none() {
            assert(field(obj@, req[i as int]) is None);
            return false;
        }
        i = i + 1;
    }
    let mut j: usize = 0;
    while j < obj.len()
        invariant
            j <= obj@.len(),
            alw == allowed@.map_values(|s: &str| s@),
            forall|k: int| 0 <= k < j ==> alw.contains(#[trigger] obj@[k].0@),
        decreases obj.len() - j,
    {
        let mut found = false;
        let mut a: usize = 0;
        while a < allowed.len()
            invariant
                a <= allowed@.len(),
                j < obj@.len(),
                alw == allowed@.map_values(|s: &str| s@),
                found ==> alw.contains(obj@[j as int].0@),
                !found ==> forall|k: int| 0 <= k < a ==> alw[k] != obj@[j as int].0@,
            decreases allowed.len() - a,
        {
            if !found && same_text(obj[j].0.as_str(), allowed[a]) {
                found = true;
                assert(alw[a as int] == obj@[j as int].0@);
            }
            a = a + 1;
        }
        if !found {
            assert(!alw.contains(obj@[j as int].0@));
            return false;
        }
        j = j + 1;
    }
    true
}

/// Whether `obj` has exactly the members named in `keys`.
fn exact_keys(obj: &Vec<(String, JsonValue)>, keys: &Vec<&str>) -> (r: bool)
    ensures
        r == has_exactly(obj@, keys@.map_values(|s: &str| s@), keys@.map_values(|s: &str| s@)),
{
    strict_keys(obj, keys, keys)
}

/// Whether `v` is present and is the JSON string `t`.
fn text_is(v: Option<&JsonValue>, t: &str) -> (r: bool)
    ensures
        r == is_text(
            match v {
                Some(x) => Some(*x),
                None => None,
            },
            t@,
        ),
{
    match v {
        Some(JsonValue::Str(s)) => same_text(s.as_str(), t),
        _ => false,
    }
}

/// Checks that `v` is a producer record.
pub fn validate_strict_source(v: &JsonValue) -> (r: bool)
    ensures
        r == strict_source(*v),
{
    let o = match v {
        JsonValue::Object(o) => o,
        _ => return false,
    };
    let t = get_field(o, "type");
    proof {
        reveal_strlit("run");
        reveal_strlit("node");
        reveal_strlit("agent");
        assert("run"@.len() == 3 && "node"@.len() == 4 && "agent"@.len() == 5);
    }
    let run = vec!["type"];
    let node = vec!["type", "node_id"];
    let agent = vec!["type", "node_id", "agent_id"];
    assert(run@.map_values(|s: &str| s@) =~= seq!["type"@]);
    assert(node@.map_values(|s: &str| s@) =~= seq!["type"@, "node_id"@]);
    assert(agent@.map_values(|s: &str| s@) =~= seq!["type"@, "node_id"@, "agent_id"@]);
    if text_is(t, "run") {
        exact_keys(o, &run)
    } else if text_is(t, "node") {
        exact_keys(o, &node)
    } else if text_is(t, "agent") {
        exact_keys(o, &agent)
    } else {
        false
    }
}

/// Checks that `v` is a chat message record.
pub fn validate_strict_chat_message(v: &JsonValue) -> (r: bool)
    ensures
        r == strict_chat_message(*v),
{
    let m = match v {
        JsonValue::Object(m) => m,
        _ => return false,
    };
    let required = vec!["role", "content"];
    let allowed = vec!["role", "content", "tool_calls", "reasoning_content", "tool_call_id"];
    let tagged_keys = vec!["type", "data"];
    let call_keys = vec!["call_id", "name", "arguments"];
    assert(required@.map_values(|s: &str| s@) =~= seq!["role"@, "content"@]);
    assert(allowed@.map_values(|s: &str| s@) =~= seq![
        "role"@,
        "content"@,
        "tool_calls"@,
        "reasoning_content"@,
        "tool_call_id"@,
    ]);
    assert(tagged_keys@.map_values(|s: &str| s@) =~= seq!["type"@, "data"@]);
    assert(call_keys@.map_values(|s: &str| s@) =~= seq!["call_id"@, "name"@, "arguments"@]);
    if !strict_keys(m, &required, &allowed) {
        return false;
    }
    let content_ok = match get_field(m, "content") {
        Some(JsonValue::Object(c)) => exact_keys(c, &tagged_keys) && (text_is(get_field(c, "type"), "text") || text_is(
            get_field(c, "type"),
            "json",
        )),
        _ => false,
    };
    if !content_ok {
        return false;
    }
    match get_field(m, "tool_calls") {
        None => true,
        Some(JsonValue::Array(items)) => {
            let mut i: usize = 0;
            while i < items.len()
                invariant
                    i <= items@.len(),
                    call_keys@.map_values(|s: &str| s@) == seq!["call_id"@, "name"@, "arguments"@],
                    *v == JsonValue::Object(*m),
                    field(m@, "tool_calls"@) == Some(JsonValue::Array(*items)),
                    has_exactly(
                        m@,
                        seq!["role"@, "content"@],
                        seq!["role"@, "content"@, "tool_calls"@, "reasoning_content"@, "tool_call_id"@],
                    ),
                    match field(m@, "content"@) {
                        Some(JsonValue::Object(c)) => has_exactly(c@, seq!["type"@, "data"@], seq!["type"@, "data"@]) && (
                        is_text(field(c@, "type"@), "text"@) || is_text(field(c@, "type"@), "json"@)),
                        _ => false,
                    },
                    forall|k: int| 0 <= k < i ==> strict_tool_call(#[trigger] items@[k]),
                decreases items.len() - i,
            {
                let ok = match &items[i] {
                    JsonValue::Object(c) => exact_keys(c, &call_keys),
                    _ => false,
                };
                if !ok {
                    assert(!strict_tool_call(items@[i as int]));
                    assert(field(m@, "tool_calls"@) == Some(JsonValue::Array(*items)));
                    assert(field(m@, "tool_calls"@).unwrap()->Array_0@[i as int] == items@[i as int]);
                    assert(match field(m@, "tool_calls"@) {
                        None => true,
                        Some(JsonValue::Array(its)) => forall|k: int| 0 <= k < its@.len() ==> strict_tool_call(#[trigger] its@[k]),
                        Some(_) => false,
                    } == false);
                    return false;
                }
                i = i + 1;
            }
            true
        },
        Some(_) => false,
    }
}

/// The `data` member of `v` when `v` is a record tagged `kind`.
fn tagged_data<'a>(v: Option<&'a JsonValue>, kind: &str) -> (r: Option<&'a JsonValue>)
    ensures
        match tagged(
            match v {
                Some(x) => Some(*x),
                None => None,
            },
            kind@,
        ) {
            None => r is None,
            Some(d) => r matches Some(x) && *x == d,
        },
{
    let tagged_keys = vec!["type", "data"];
    assert(tagged_keys@.map_values(|s: &str| s@) =~= seq!["type"@, "data"@]);
    match v {
        Some(JsonValue::Object(o)) => if exact_keys(o, &tagged_keys) && text_is(get_field(o, "type"), kind) {
            get_field(o, "data")
        } else {
            None
        },
        _ => None,
    }
}

/// Checks that `v` is a stored message record.
pub fn validate_strict_message_json(v: &JsonValue) -> (r: bool)
    ensures
        r == strict_message_record(*v),
{
    let env = match v {
        JsonValue::Object(env) => env,
        _ => return false,
    };
    let required = vec!["business_seq", "run_id", "timestamp", "source", "event"];
    let allowed = vec!["business_seq", "run_id", "timestamp", "source", "event", "metadata"];
    let data_keys = vec!["agent_id", "event"];
    let message_keys = vec!["turn_id", "message"];
    assert(required@.map_values(|s: &str| s@) =~= seq!["business_seq"@, "run_id"@, "timestamp"@, "source"@, "event"@]);
    assert(allowed@.map_values(|s: &str| s@) =~= seq![
        "business_seq"@,
        "run_id"@,
        "timestamp"@,
        "source"@,
        "event"@,
        "metadata"@,
    ]);
    assert(data_keys@.map_values(|s: &str| s@) =~= seq!["agent_id"@, "event"@]);
    assert(message_keys@.map_values(|s: &str| s@) =~= seq!["turn_id"@, "message"@]);
    if !strict_keys(env, &required, &allowed) {
        return false;
    }
    assert(field(env@, seq!["business_seq"@, "run_id"@, "timestamp"@, "source"@, "event"@][3]) is Some);
    assert(field(env@, seq!["business_seq"@, "run_id"@, "timestamp"@, "source"@, "event"@][4]) is Some);
    let source = match get_field(env, "source") {
        Some(s) => s,
        None => return false,
    };
    if !validate_strict_source(source) {
        return false;
    }
    let rd = match tagged_data(get_field(env, "event"), "agent") {
        Some(JsonValue::Object(rd)) => rd,
        _ => return false,
    };
    if !exact_keys(rd, &data_keys) {
        return false;
    }
    let md = match tagged_data(get_field(rd, "event"), "message") {
        Some(JsonValue::Object(md)) => md,
        _ => return false,
    };
    if !exact_keys(md, &message_keys) {
        return false;
    }
    assert(field(md@, seq!["turn_id"@, "message"@][1]) is Some);
    match get_field(md, "message") {
        Some(m) => validate_strict_chat_message(m),
        None => false,
    }
}

} // verus!
