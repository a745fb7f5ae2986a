use stratum::json::JsonValue;
use stratum::record_shape::{
    validate_strict_chat_message, validate_strict_message_json, validate_strict_source,
};

fn s(text: &str) -> JsonValue {
    JsonValue::Str(text.to_string())
}

fn obj(members: Vec<(&str, JsonValue)>) -> JsonValue {
    JsonValue::Object(members.into_iter().map(|(k, v)| (k.to_string(), v)).collect())
}

fn message() -> JsonValue {
    obj(vec![
        ("role", s("user")),
        ("content", obj(vec![("type", s("text")), ("data", s("hello"))])),
    ])
}

fn record(message: JsonValue, source: JsonValue) -> JsonValue {
    obj(vec![
        ("business_seq", JsonValue::Number("1".to_string())),
        ("run_id", s("run-1")),
        ("timestamp", s("2024-01-01T00:00:00Z")),
        ("source", source),
        (
            "event",
            obj(vec![
                ("type", s("agent")),
                (
                    "data",
                    obj(vec![
                        ("agent_id", s("agent-1")),
                        (
                            "event",
                            obj(vec![
                                ("type", s("message")),
                                ("data", obj(vec![("turn_id", s("turn-1")), ("message", message)])),
                            ]),
                        ),
                    ]),
                ),
            ]),
        ),
    ])
}

#[test]
fn sources_have_exactly_the_members_of_their_kind() {
    assert!(validate_strict_source(&obj(vec![("type", s("run"))])));
    assert!(validate_strict_source(&obj(vec![("type", s("node")), ("node_id", s("n"))])));
    assert!(validate_strict_source(&obj(vec![
        ("type", s("agent")),
        ("node_id", s("n")),
        ("agent_id", s("a")),
    ])));
    assert!(!validate_strict_source(&obj(vec![("type", s("run")), ("node_id", s("n"))])));
    assert!(!validate_strict_source(&obj(vec![("type", s("node"))])));
    assert!(!validate_strict_source(&obj(vec![("type", s("other"))])));
    assert!(!validate_strict_source(&s("run")));
}

#[test]
fn chat_messages_allow_only_their_members() {
    assert!(validate_strict_chat_message(&message()));
    let with_calls = obj(vec![
        ("role", s("assistant")),
        ("content", obj(vec![("type", s("json")), ("data", s("{}"))])),
        (
            "tool_calls",
            JsonValue::Array(vec![obj(vec![
                ("call_id", s("c1")),
                ("name", s("echo")),
                ("arguments", s("{}")),
            ])]),
        ),
    ]);
    assert!(validate_strict_chat_message(&with_calls));
    let extra = obj(vec![
        ("role", s("user")),
        ("content", obj(vec![("type", s("text")), ("data", s("x"))])),
        ("surprise", JsonValue::Null),
    ]);
    assert!(!validate_strict_chat_message(&extra));
    let bad_content = obj(vec![("role", s("user")), ("content", obj(vec![("type", s("image")), ("data", s("x"))]))]);
    assert!(!validate_strict_chat_message(&bad_content));
    let bad_calls = obj(vec![
        ("role", s("assistant")),
        ("content", obj(vec![("type", s("text")), ("data", s(""))])),
        ("tool_calls", JsonValue::Array(vec![obj(vec![("call_id", s("c1"))])])),
    ]);
    assert!(!validate_strict_chat_message(&bad_calls));
    let calls_not_array = obj(vec![
        ("role", s("assistant")),
        ("content", obj(vec![("type", s("text")), ("data", s(""))])),
        ("tool_calls", JsonValue::Bool(true)),
    ]);
    assert!(!validate_strict_chat_message(&calls_not_array));
}

#[test]
fn message_records_are_agent_message_envelopes() {
    assert!(validate_strict_message_json(&record(message(), obj(vec![("type", s("run"))]))));
    assert!(!validate_strict_message_json(&record(message(), obj(vec![("type", s("nowhere"))]))));
    assert!(!validate_strict_message_json(&record(obj(vec![("role", s("user"))]), obj(vec![("type", s("run"))]))));
    let mut not_message = record(message(), obj(vec![("type", s("run"))]));
    if let JsonValue::Object(members) = &mut not_message {
        members.retain(|(k, _)| k != "run_id");
    }
    assert!(!validate_strict_message_json(&not_message));
    assert!(!validate_strict_message_json(&JsonValue::Null));
}
