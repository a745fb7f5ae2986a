use stratum::agent::AgentError;
use stratum::core_types::{ChatMessage, ToolCall};
use stratum::resume::{
    prepare_resume_continuation, validate_active_turn, ActiveTurnEnd, ResumeBoundary,
};

fn call(id: &str) -> ToolCall {
    ToolCall { call_id: id.to_string(), name: "echo".to_string(), arguments: "{}".to_string() }
}

fn assistant_calling(ids: &[&str]) -> ChatMessage {
    ChatMessage::assistant("").with_tool_calls(ids.iter().map(|id| call(id)).collect())
}

fn result(id: &str) -> ChatMessage {
    ChatMessage::tool(id.to_string(), "{}".to_string())
}

#[test]
fn a_lone_user_message_is_a_valid_turn() {
    let summary = validate_active_turn(&[ChatMessage::user("hi")]).unwrap();
    assert_eq!(summary.assistant_count, 0);
    assert_eq!(summary.end, ActiveTurnEnd::UserOnly);
}

#[test]
fn a_terminal_answer_ends_the_turn() {
    let turn = [ChatMessage::user("hi"), ChatMessage::assistant("hello")];
    let summary = validate_active_turn(&turn).unwrap();
    assert_eq!(summary.assistant_count, 1);
    assert_eq!(summary.end, ActiveTurnEnd::Terminal);
}

#[test]
fn partially_answered_calls_are_reported_with_their_position() {
    let turn = [ChatMessage::user("hi"), assistant_calling(&["a", "b"]), result("a")];
    let summary = validate_active_turn(&turn).unwrap();
    assert_eq!(summary.assistant_count, 1);
    assert_eq!(
        summary.end,
        ActiveTurnEnd::ToolCalls { assistant_index: 1, answered_count: 1, call_count: 2 }
    );
}

#[test]
fn malformed_turns_are_rejected() {
    let cases: Vec<Vec<ChatMessage>> = vec![
        vec![],
        vec![ChatMessage::assistant("no user")],
        vec![ChatMessage::user("hi"), ChatMessage::user("again")],
        vec![ChatMessage::user("hi"), ChatMessage::assistant("done"), ChatMessage::assistant("more")],
        vec![ChatMessage::user("hi"), assistant_calling(&["a", "b"]), result("b")],
        vec![ChatMessage::user("hi"), assistant_calling(&["a", "a"])],
        vec![
            ChatMessage::user("hi"),
            assistant_calling(&["a", "b"]),
            result("a"),
            ChatMessage::assistant("early"),
        ],
    ];
    for turn in cases {
        assert!(matches!(validate_active_turn(&turn), Err(AgentError::InvalidResumeHistory)));
    }
}

#[test]
fn resume_boundaries_follow_the_iteration_frontier() {
    let history = vec![
        ChatMessage::user("earlier"),
        ChatMessage::assistant("earlier answer"),
        ChatMessage::user("hi"),
        assistant_calling(&["a", "b"]),
        result("a"),
    ];
    let continuation = prepare_resume_continuation(history, 2, 0).unwrap();
    assert_eq!(
        continuation.boundary(),
        ResumeBoundary::ReconcileTools { assistant_index: 3, next_tool_index: 1 }
    );
    assert_eq!(continuation.iteration(), 0);
    assert_eq!(continuation.history().len(), 5);
    assert_eq!(continuation.into_history().len(), 5);

    let answered = vec![
        ChatMessage::user("hi"),
        assistant_calling(&["a"]),
        result("a"),
    ];
    let continuation = prepare_resume_continuation(answered, 0, 1).unwrap();
    assert_eq!(continuation.boundary(), ResumeBoundary::Continue);

    let terminal = vec![ChatMessage::user("hi"), ChatMessage::assistant("done")];
    let pending = prepare_resume_continuation(terminal, 0, 0).unwrap();
    assert_eq!(pending.boundary(), ResumeBoundary::Finish { advance_iteration: true });
    let terminal = vec![ChatMessage::user("hi"), ChatMessage::assistant("done")];
    let reached = prepare_resume_continuation(terminal, 0, 1).unwrap();
    assert_eq!(reached.boundary(), ResumeBoundary::Finish { advance_iteration: false });

    let terminal = vec![ChatMessage::user("hi"), ChatMessage::assistant("done")];
    assert!(matches!(
        prepare_resume_continuation(terminal, 0, 5),
        Err(AgentError::InvalidResumeHistory)
    ));
    let short = vec![ChatMessage::user("hi")];
    assert!(matches!(
        prepare_resume_continuation(short, 3, 0),
        Err(AgentError::InvalidResumeHistory)
    ));
}

#[test]
fn agent_error_texts_are_stable() {
    assert_eq!(AgentError::InvalidResumeHistory.text(), "invalid resume history");
    assert_eq!(AgentError::ToolCallLimitExceeded { limit: 16 }.text(), "tool call limit exceeded: 16");
    assert_eq!(
        AgentError::MissingBuilderField { field: "store" }.text(),
        "missing builder field: store"
    );
}
