//! Validation of a persisted active turn, and the boundary from which a resumed turn continues.
//!
//! A turn is a user message followed by assistant messages, each followed by the tool
//! results that answer its calls in order. Only the last assistant message may be
//! followed by fewer results than it has calls.

use vstd::prelude::*;

use crate::agent::AgentError;
use crate::core_types::{ChatMessage, ChatRole, ToolCall};

verus! {

/// How a persisted active turn ends.
#[derive(Debug, Clone, Copy, PartialEq, Eq, Structural)]
pub enum ActiveTurnEnd {
    /// Only the user message is committed.
    UserOnly,
    /// The last assistant message requested no tool call.
    Terminal,
    /// The last assistant message, at `assistant_index` in the turn, requested
    /// `call_count` calls of which the first `answered_count` have results.
    ToolCalls { assistant_index: usize, answered_count: usize, call_count: usize },
}

/// Shape of a valid persisted active turn.
#[derive(Debug, Clone, Copy, PartialEq, Eq, Structural)]
pub struct ActiveTurnSummary {
    /// Number of assistant messages in the turn.
    pub assistant_count: u64,
    /// How the turn ends.
    pub end: ActiveTurnEnd,
}

/// Whether no two calls share an identity.
pub open spec fn distinct_call_ids(calls: Seq<ToolCall>) -> bool {
    forall|i: int, j: int|
        0 <= i < j < calls.len() ==> (#[trigger] calls[i]).call_id@ != (#[trigger] calls[j]).call_id@
}

/// Number of consecutive tool messages of `s` from index `q`.
pub open spec fn tool_run(s: Seq<ChatMessage>, q: int) -> nat
    decreases s.len() - q,
{
    if 0 <= q < s.len() && s[q].role == ChatRole::Tool {
        1 + tool_run(s, q + 1)
    } else {
        0
    }
}

/// Whether the `k` messages after the assistant message at `a` answer its first `k` calls,
/// in order.
pub open spec fn answers_in_order(s: Seq<ChatMessage>, a: int, k: nat) -> bool {
    &&& k <= s[a].tool_calls@.len()
    &&& forall|j: int|
        0 <= j < k ==> ((#[trigger] s[a + 1 + j]).tool_call_id matches Some(id) && id@
            == s[a].tool_calls@[j].call_id@)
}

/// The assistant groups of `s` from index `p`, given `count` groups and the `end` seen so far:
/// the number of assistant messages and how the turn ends, or `None` when `s` breaks the
/// turn grammar.
pub open spec fn turn_groups(s: Seq<ChatMessage>, p: int, count: nat, end: ActiveTurnEnd) -> Option<
    (nat, ActiveTurnEnd),
>
    decreases s.len() - p,
{
    if p < 1 || p >= s.len() {
        Some((count, end))
    } else if s[p].role != ChatRole::Assistant || !distinct_call_ids(s[p].tool_calls@) {
        None
    } else if s[p].tool_calls@.len() == 0 {
        if p + 1 == s.len() {
            Some((count + 1, ActiveTurnEnd::Terminal))
        } else {
            None
        }
    } else {
        let k = tool_run(s, p + 1);
        let calls = s[p].tool_calls@.len();
        proof {
            lemma_tool_run_bound(s, p + 1);
        }
        if !answers_in_order(s, p, k) {
            None
        } else if k < calls && p + 1 + k != s.len() {
            None
        } else {
            turn_groups(
                s,
                p + 1 + k,
                count + 1,
                ActiveTurnEnd::ToolCalls {
                    assistant_index: p as usize,
                    answered_count: k as usize,
                    call_count: calls as usize,
                },
            )
        }
    }
}

/// The shape of the active turn `s`, or `None` when it is not a valid turn.
pub open spec fn active_turn_summary(s: Seq<ChatMessage>) -> Option<(nat, ActiveTurnEnd)> {
    if s.len() == 0 || s[0].role != ChatRole::User {
        None
    } else {
        turn_groups(s, 1, 0, ActiveTurnEnd::UserOnly)
    }
}

/// The run of tool messages from `q` ends within `s`.
pub proof fn lemma_tool_run_bound(s: Seq<ChatMessage>, q: int)
    requires
        0 <= q <= s.len(),
    ensures
        q + tool_run(s, q) <= s.len(),
    decreases s.len() - q,
{
    if q < s.len() {
        lemma_tool_run_bound(s, q + 1);
    }
}

proof fn lemma_tool_run(s: Seq<ChatMessage>, q: int, m: int)
    requires
        0 <= q,
        0 <= m,
        q + m <= s.len(),
        forall|j: int| 0 <= j < m ==> (#[trigger] s[q + j]).role == ChatRole::Tool,
    ensures
        tool_run(s, q) >= m,
        (q + m == s.len() || s[q + m].role != ChatRole::Tool) ==> tool_run(s, q) == m,
    decreases m,
{
    if m > 0 {
        assert(s[q + 0].role == ChatRole::Tool);
        assert forall|j: int| 0 <= j < m - 1 implies (#[trigger] s[(q + 1) + j]).role == ChatRole::Tool by {
            assert(s[q + (j + 1)].role == ChatRole::Tool);
        }
        lemma_tool_run(s, q + 1, m - 1);
    }
}

fn distinct_ids(calls: &Vec<ToolCall>) -> (r: bool)
    ensures
        r == distinct_call_ids(calls@),
{
    let mut i: usize = 0;
    while i < calls.len()
        invariant
            i <= calls@.len(),
            forall|a: int, b: int|
                0 <= a < i && a < b < calls@.len() ==> (#[trigger] calls@[a]).call_id@ != (
                #[trigger] calls@[b]).call_id@,
        decreases calls.len() - i,
    {
        let mut j: usize = i + 1;
        while j < calls.len()
            invariant
                i < calls@.len(),
                i < j <= calls@.len(),
                forall|a: int, b: int|
                    0 <= a < i && a < b < calls@.len() ==> (#[trigger] calls@[a]).call_id@ != (
                    #[trigger] calls@[b]).call_id@,
                forall|b: int| i < b < j ==> calls@[i as int].call_id@ != (#[trigger] calls@[b]).call_id@,
            decreases calls.len() - j,
        {
            if calls[i].call_id == calls[j].call_id {
                return false;
            }
            j = j + 1;
        }
        i = i + 1;
    }
    true
}

/// Checks a persisted active turn against the turn grammar and summarizes its shape.
pub fn validate_active_turn(active_turn: &[ChatMessage]) -> (r: Result<ActiveTurnSummary, AgentError>)
    ensures
        match active_turn_summary(active_turn@) {
            None => r matches Err(AgentError::InvalidResumeHistory),
            Some((count, end)) => r matches Ok(summary) && summary.assistant_count == count
                && summary.end == end,
        },
{
    let s = active_turn;
    let n = s.len();
    if n == 0 || s[0].role != ChatRole::User {
        return Err(AgentError::InvalidResumeHistory);
    }
    let mut cursor: usize = 1;
    let mut count: usize = 0;
    let mut end = ActiveTurnEnd::UserOnly;
    while cursor < n
        invariant_except_break
            cursor < n ==> active_turn_summary(s@) == turn_groups(s@, cursor as int, count as nat, end),
        invariant
            s@ == active_turn@,
            n == s@.len(),
            n > 0,
            s@[0].role == ChatRole::User,
            1 <= cursor <= n,
            count < cursor,
            cursor == n ==> active_turn_summary(s@) == Some((count as nat, end)),
        ensures
            active_turn_summary(s@) == Some((count as nat, end)),
            count < n,
        decreases n - cursor,
    {
        let a = cursor;
        let ghost c0 = count as nat;
        let ghost e0 = end;
        assert(active_turn_summary(s@) == turn_groups(s@, a as int, c0, e0));
        let assistant = &s[a];
        if assistant.role != ChatRole::Assistant || !distinct_ids(&assistant.tool_calls) {
            assert(turn_groups(s@, a as int, c0, e0) is None);
            return Err(AgentError::InvalidResumeHistory);
        }
        count = count + 1;
        cursor = cursor + 1;
        let calls = assistant.tool_calls.len();
        if calls == 0 {
            if cursor != n {
                assert(turn_groups(s@, a as int, c0, e0) is None);
                return Err(AgentError::InvalidResumeHistory);
            }
            end = ActiveTurnEnd::Terminal;
            assert(turn_groups(s@, a as int, c0, e0) == Some((count as nat, end)));
            break;
        }
        let mut answered: usize = 0;
        while cursor < n && s[cursor].role == ChatRole::Tool
            invariant
                s@ == active_turn@,
                n == s@.len(),
                1 <= a < n,
                *assistant == s@[a as int],
                s@[a as int].role == ChatRole::Assistant,
                distinct_call_ids(s@[a as int].tool_calls@),
                active_turn_summary(s@) == turn_groups(s@, a as int, c0, e0),
                calls == assistant.tool_calls@.len(),
                calls > 0,
                cursor == a + 1 + answered,
                cursor <= n,
                answered <= calls,
                forall|j: int| 0 <= j < answered ==> (#[trigger] s@[a + 1 + j]).role == ChatRole::Tool,
                forall|j: int|
                    0 <= j < answered ==> ((#[trigger] s@[a + 1 + j]).tool_call_id matches Some(id)
                        && id@ == assistant.tool_calls@[j].call_id@),
            decreases n - cursor,
        {
            if answered >= calls {
                proof {
                    assert forall|j: int| 0 <= j < answered + 1 implies (#[trigger] s@[(a + 1) + j]).role
                        == ChatRole::Tool by {
                        if j == answered {
                            assert(s@[cursor as int].role == ChatRole::Tool);
                        }
                    }
                    lemma_tool_run(s@, a + 1, answered + 1);
                    assert(!answers_in_order(s@, a as int, tool_run(s@, a + 1)));
                    assert(turn_groups(s@, a as int, c0, e0) is None);
                }
                return Err(AgentError::InvalidResumeHistory);
            }
            let matches = match &s[cursor].tool_call_id {
                Some(id) => *id == assistant.tool_calls[answered].call_id,
                None => false,
            };
            if !matches {
                proof {
                    assert forall|j: int| 0 <= j < answered + 1 implies (#[trigger] s@[(a + 1) + j]).role
                        == ChatRole::Tool by {
                        if j == answered {
                            assert(s@[cursor as int].role == ChatRole::Tool);
                        }
                    }
                    lemma_tool_run(s@, a + 1, answered + 1);
                    let k = tool_run(s@, a + 1);
                    if k <= calls {
                        assert(s@[a + 1 + answered as int] == s@[cursor as int]);
                    }
                    assert(!answers_in_order(s@, a as int, k));
                    assert(turn_groups(s@, a as int, c0, e0) is None);
                }
                return Err(AgentError::InvalidResumeHistory);
            }
            answered = answered + 1;
            cursor = cursor + 1;
        }
        proof {
            lemma_tool_run(s@, a + 1, answered as int);
            assert(tool_run(s@, a + 1) == answered);
            assert(answers_in_order(s@, a as int, answered as nat));
        }
        end = ActiveTurnEnd::ToolCalls { assistant_index: a, answered_count: answered, call_count: calls };
        if answered < calls && cursor != n {
            assert(turn_groups(s@, a as int, c0, e0) is None);
            return Err(AgentError::InvalidResumeHistory);
        }
        assert(turn_groups(s@, a as int, c0, e0) == turn_groups(s@, cursor as int, count as nat, end));
    }
    Ok(ActiveTurnSummary { assistant_count: count as u64, end })
}


/// Where a resumed turn continues.
#[derive(Debug, Clone, Copy, PartialEq, Eq, Structural)]
pub enum ResumeBoundary {
    /// The next iteration calls the model.
    Continue,
    /// The turn only has to finish; `advance_iteration` completes the pending iteration first.
    Finish { advance_iteration: bool },
    /// The calls of the assistant message at `assistant_index` of the history still need
    /// results from `next_tool_index` on.
    ReconcileTools { assistant_index: usize, next_tool_index: usize },
}

/// A validated history and the boundary from which its active turn continues.
#[derive(Debug)]
pub struct ResumeContinuation {
    history: Vec<ChatMessage>,
    iteration: u64,
    boundary: ResumeBoundary,
}

impl ResumeContinuation {
    /// The committed history.
    pub closed spec fn spec_history(&self) -> Seq<ChatMessage> {
        self.history@
    }

    /// The iteration to continue with.
    pub closed spec fn spec_iteration(&self) -> u64 {
        self.iteration
    }

    /// Where the turn continues.
    pub closed spec fn spec_boundary(&self) -> ResumeBoundary {
        self.boundary
    }

    /// The committed history.
    pub fn history(&self) -> (r: &[ChatMessage])
        ensures
            r@ == self.spec_history(),
    {
        self.history.as_slice()
    }

    /// The iteration to continue with.
    pub fn iteration(&self) -> (r: u64)
        ensures
            r == self.spec_iteration(),
    {
        self.iteration
    }

    /// Where the turn continues.
    pub fn boundary(&self) -> (r: ResumeBoundary)
        ensures
            r == self.spec_boundary(),
    {
        self.boundary
    }

    /// Gives back the committed history.
    pub fn into_history(self) -> (r: Vec<ChatMessage>)
        ensures
            r@ == self.spec_history(),
    {
        self.history
    }
}

/// The boundary of a valid active turn starting at `start` whose persisted iteration frontier
/// is `next_iteration`: the turn must have as many assistant messages as completed
/// iterations, or exactly one more whose iteration did not reach its boundary.
pub open spec fn resume_boundary(count: nat, end: ActiveTurnEnd, start: nat, next_iteration: u64) -> Option<
    ResumeBoundary,
> {
    if count == next_iteration {
        match end {
            ActiveTurnEnd::UserOnly => Some(ResumeBoundary::Continue),
            ActiveTurnEnd::Terminal => Some(ResumeBoundary::Finish { advance_iteration: false }),
            ActiveTurnEnd::ToolCalls { answered_count, call_count, .. } => if answered_count == call_count {
                Some(ResumeBoundary::Continue)
            } else {
                None
            },
        }
    } else if count == next_iteration + 1 {
        match end {
            ActiveTurnEnd::ToolCalls { assistant_index, answered_count, .. } => if start + assistant_index
                <= usize::MAX {
                Some(
                    ResumeBoundary::ReconcileTools {
                        assistant_index: (start + assistant_index) as usize,
                        next_tool_index: answered_count,
                    },
                )
            } else {
                None
            },
            ActiveTurnEnd::Terminal => Some(ResumeBoundary::Finish { advance_iteration: true }),
            ActiveTurnEnd::UserOnly => None,
        }
    } else {
        None
    }
}

/// Validates the active turn of `history`, which starts at `active_turn_start`, against
/// the persisted iteration frontier, and returns where the turn continues.
pub fn prepare_resume_continuation(history: Vec<ChatMessage>, active_turn_start: usize, next_iteration: u64) -> (r:
    Result<ResumeContinuation, AgentError>)
    ensures
        active_turn_start > history@.len() ==> r matches Err(AgentError::InvalidResumeHistory),
        active_turn_start <= history@.len() ==> match active_turn_summary(
            history@.subrange(active_turn_start as int, history@.len() as int),
        ) {
            None => r matches Err(AgentError::InvalidResumeHistory),
            Some((count, end)) => match resume_boundary(count, end, active_turn_start as nat, next_iteration) {
                None => r matches Err(AgentError::InvalidResumeHistory),
                Some(b) => r matches Ok(c) && c.spec_boundary() == b && c.spec_history() == history@
                    && c.spec_iteration() == next_iteration,
            },
        },
{
    if active_turn_start > history.len() {
        return Err(AgentError::InvalidResumeHistory);
    }
    let (_, active_turn) = history.as_slice().split_at(active_turn_start);
    let summary = match validate_active_turn(active_turn) {
        Ok(s) => s,
        Err(e) => return Err(e),
    };
    let count = summary.assistant_count;
    let boundary = if count == next_iteration {
        match summary.end {
            ActiveTurnEnd::UserOnly => ResumeBoundary::Continue,
            ActiveTurnEnd::Terminal => ResumeBoundary::Finish { advance_iteration: false },
            ActiveTurnEnd::ToolCalls { answered_count, call_count, .. } => {
                if answered_count == call_count {
                    ResumeBoundary::Continue
                } else {
                    return Err(AgentError::InvalidResumeHistory);
                }
            },
        }
    } else if next_iteration < u64::MAX && count == next_iteration + 1 {
        match summary.end {
            ActiveTurnEnd::ToolCalls { assistant_index, answered_count, .. } => {
                if active_turn_start > usize::MAX - assistant_index {
                    return Err(AgentError::InvalidResumeHistory);
                }
                ResumeBoundary::ReconcileTools {
                    assistant_index: active_turn_start + assistant_index,
                    next_tool_index: answered_count,
                }
            },
            ActiveTurnEnd::Terminal => ResumeBoundary::Finish { advance_iteration: true },
            ActiveTurnEnd::UserOnly => return Err(AgentError::InvalidResumeHistory),
        }
    } else {
        return Err(AgentError::InvalidResumeHistory);
    };
    Ok(ResumeContinuation { history, iteration: next_iteration, boundary })
}

} // verus!
