//! Retained per-agent event history of the in-memory event stream bus.
//!
//! Each published record gets the next cursor of its agent's history, starting at one; a
//! subscription replays the history from a chosen position and then follows it live.

use vstd::prelude::*;

use crate::infra::EventStreamBusError;
use crate::text::same_text;

verus! {

/// Where a subscription starts.
#[derive(Debug, Clone, Copy, PartialEq, Eq, Structural)]
pub enum ReplayStart {
    /// Every retained record.
    All,
    /// Only records published after subscribing.
    New,
    /// Records after the one with this cursor.
    After(u64),
}

/// The retained records of one agent, each with its cursor.
pub struct AgentHistory<T> {
    records: Vec<(u64, T)>,
    next_cursor: u64,
}

impl<T> AgentHistory<T> {
    /// The cursors of the retained records, in publication order.
    pub closed spec fn spec_cursors(&self) -> Seq<u64> {
        self.records@.map_values(|r: (u64, T)| r.0)
    }

    /// The retained records, in publication order.
    pub closed spec fn spec_payloads(&self) -> Seq<T> {
        self.records@.map_values(|r: (u64, T)| r.1)
    }

    /// The cursor the next record gets.
    pub closed spec fn spec_next_cursor(&self) -> u64 {
        self.next_cursor
    }

    /// Cursors are the consecutive numbers from one, in publication order.
    pub closed spec fn wf(&self) -> bool {
        &&& self.next_cursor == self.records@.len() + 1
        &&& forall|i: int| 0 <= i < self.records@.len() ==> (#[trigger] self.records@[i]).0 == i + 1
    }

    /// An empty history.
    pub fn new() -> (r: Self)
        ensures
            r.wf(),
            r.spec_cursors().len() == 0,
            r.spec_next_cursor() == 1,
    {
        AgentHistory { records: Vec::new(), next_cursor: 1 }
    }

    /// Retains `payload` under the next cursor and returns that cursor.
    pub fn publish(&mut self, payload: T) -> (r: u64)
        requires
            old(self).wf(),
            old(self).spec_next_cursor() < u64::MAX,
        ensures
            final(self).wf(),
            r == old(self).spec_next_cursor(),
            final(self).spec_cursors() == old(self).spec_cursors().push(r),
            final(self).spec_payloads() == old(self).spec_payloads().push(payload),
    {
        let cursor = self.next_cursor;
        self.next_cursor = self.next_cursor + 1;
        let ghost before = self.records@;
        self.records.push((cursor, payload));
        assert(self.records@.map_values(|r: (u64, T)| r.0) =~= before.map_values(|r: (u64, T)| r.0).push(cursor));
        assert(self.records@.map_values(|r: (u64, T)| r.1) =~= before.map_values(|r: (u64, T)| r.1).push(payload));
        cursor
    }

    /// The number of retained records.
    pub fn len(&self) -> (r: usize)
        ensures
            r == self.spec_cursors().len(),
    {
        self.records.len()
    }

    /// The index of the first record a subscription from `start` delivers; a cursor that is
    /// not retained cannot be resumed from.
    pub fn start_index(&self, start: ReplayStart) -> (r: Result<usize, EventStreamBusError>)
        requires
            self.wf(),
        ensures
            start is All ==> r == Ok::<usize, EventStreamBusError>(0),
            start is New ==> r == Ok::<usize, EventStreamBusError>(self.spec_cursors().len() as usize),
            start matches ReplayStart::After(c) ==> if 1 <= c <= self.spec_cursors().len() {
                r == Ok::<usize, EventStreamBusError>(c as usize) && self.spec_cursors()[c - 1] == c
            } else {
                r == Err::<usize, EventStreamBusError>(EventStreamBusError::CursorExpired { cursor: c })
            },
    {
        match start {
            ReplayStart::All => Ok(0),
            ReplayStart::New => Ok(self.records.len()),
            ReplayStart::After(cursor) => {
                let mut i: usize = 0;
                while i < self.records.len() && self.records[i].0 != cursor
                    invariant
                        self.wf(),
                        i <= self.records@.len(),
                        forall|k: int| 0 <= k < i ==> (#[trigger] self.records@[k]).0 != cursor,
                    decreases self.records.len() - i,
                {
                    i = i + 1;
                }
                if i < self.records.len() {
                    Ok(i + 1)
                } else {
                    proof {
                        if 1 <= cursor <= self.records@.len() {
                            assert(self.records@[cursor - 1].0 == cursor);
                        }
                    }
                    Err(EventStreamBusError::CursorExpired { cursor })
                }
            },
        }
    }

    /// Every history that publication builds numbers its records one, two, three, and so on:
    /// so a subscription after cursor `c` delivers exactly the records whose cursor exceeds `c`,
    /// in publication order.
    pub proof fn law_cursors_count_from_one(&self)
        requires
            self.wf(),
        ensures
            self.spec_next_cursor() == self.spec_cursors().len() + 1,
            forall|i: int| 0 <= i < self.spec_cursors().len() ==> #[trigger] self.spec_cursors()[i] == i + 1,
    {
    }

    /// The record at `index`, if it is retained.
    pub fn record_at(&self, index: usize) -> (r: Option<(u64, &T)>)
        ensures
            index < self.spec_cursors().len() ==> (r matches Some((c, p)) && c == self.spec_cursors()[index as int]
                && *p == self.spec_payloads()[index as int]),
            index >= self.spec_cursors().len() ==> r is None,
    {
        if index < self.records.len() {
            Some((self.records[index].0, &self.records[index].1))
        } else {
            None
        }
    }
}

/// The retained histories of all agents: each agent's records are numbered and replayed
/// on their own, so a subscription to one agent never yields another agent's record.
pub struct AgentStreams<T> {
    agents: Vec<(String, AgentHistory<T>)>,
}

impl<T> AgentStreams<T> {
    /// The records retained for `agent`, in publication order; none for an agent that never
    /// published.
    pub closed spec fn spec_records(&self, agent: Seq<char>) -> Seq<T> {
        if self.holds(agent) {
            self.agents@[self.index_of(agent)].1.spec_payloads()
        } else {
            Seq::empty()
        }
    }

    closed spec fn holds(&self, agent: Seq<char>) -> bool {
        exists|i: int| 0 <= i < self.agents@.len() && self.agents@[i].0@ == agent
    }

    closed spec fn index_of(&self, agent: Seq<char>) -> int {
        choose|i: int| 0 <= i < self.agents@.len() && self.agents@[i].0@ == agent
    }

    /// Each agent has one history, and each history numbers its records from one.
    pub closed spec fn wf(&self) -> bool {
        &&& forall|i: int, j: int|
            0 <= i < j < self.agents@.len() ==> (#[trigger] self.agents@[i]).0@ != (#[trigger] self.agents@[j]).0@
        &&& forall|i: int| 0 <= i < self.agents@.len() ==> (#[trigger] self.agents@[i]).1.wf()
    }

    proof fn lemma_index_of(&self, i: int)
        requires
            self.wf(),
            0 <= i < self.agents@.len(),
        ensures
            self.holds(self.agents@[i].0@),
            self.index_of(self.agents@[i].0@) == i,
            self.spec_records(self.agents@[i].0@) == self.agents@[i].1.spec_payloads(),
    {
        let a = self.agents@[i].0@;
        assert(self.holds(a));
        let j = self.index_of(a);
        if j < i {
            assert(self.agents@[j].0@ != self.agents@[i].0@);
        } else if i < j {
            assert(self.agents@[i].0@ != self.agents@[j].0@);
        }
    }

    /// No agent has published yet.
    pub fn new() -> (r: Self)
        ensures
            r.wf(),
            forall|agent: Seq<char>| #[trigger] r.spec_records(agent).len() == 0,
    {
        AgentStreams { agents: Vec::new() }
    }

    fn find(&self, agent: &str) -> (r: Option<usize>)
        requires
            self.wf(),
        ensures
            r is None ==> !self.holds(agent@),
            r matches Some(i) ==> i < self.agents@.len() && self.agents@[i as int].0@ == agent@,
    {
        let mut i: usize = 0;
        while i < self.agents.len()
            invariant
                i <= self.agents@.len(),
                forall|k: int| 0 <= k < i ==> (#[trigger] self.agents@[k]).0@ != agent@,
            decreases self.agents.len() - i,
        {
            if same_text(self.agents[i].0.as_str(), agent) {
                return Some(i);
            }
            i = i + 1;
        }
        None
    }

    /// Retains `payload` as the next record of `agent_id` and returns its cursor, one more
    /// than the number of records the agent had; the other agents' records are unchanged.
    /// An agent whose cursor would overflow is refused.
    pub fn publish(&mut self, agent_id: String, payload: T) -> (r: Result<u64, EventStreamBusError>)
        requires
            old(self).wf(),
        ensures
            final(self).wf(),
            ({
                let before = old(self).spec_records(agent_id@);
                if before.len() >= u64::MAX - 1 {
                    &&& r == Err::<u64, EventStreamBusError>(
                        EventStreamBusError::CursorOverflow { cursor: before.len() as u64 },
                    )
                    &&& forall|a: Seq<char>| #[trigger] final(self).spec_records(a) == old(self).spec_records(a)
                } else {
                    &&& r == Ok::<u64, EventStreamBusError>((before.len() + 1) as u64)
                    &&& final(self).spec_records(agent_id@) == before.push(payload)
                    &&& forall|a: Seq<char>|
                        a != agent_id@ ==> #[trigger] final(self).spec_records(a) == old(self).spec_records(a)
                }
            }),
    {
        let idx = match self.find(agent_id.as_str()) {
            Some(i) => i,
            None => {
                let ghost before = self.agents@;
                self.agents.push((agent_id, AgentHistory::new()));
                proof {
                    let n = self.agents@.len() - 1;
                    assert forall|i: int, j: int|
                        0 <= i < j < self.agents@.len() implies (#[trigger] self.agents@[i]).0@
                        != (#[trigger] self.agents@[j]).0@ by {
                        if j == n {
                            assert(self.agents@[i] == before[i]);
                            assert(!old(self).holds(self.agents@[n].0@));
                        } else {
                            assert(self.agents@[i] == before[i] && self.agents@[j] == before[j]);
                        }
                    }
                    assert forall|a: Seq<char>| #[trigger] self.spec_records(a) == old(self).spec_records(a) by {
                        if self.holds(a) {
                            let i = self.index_of(a);
                            self.lemma_index_of(i);
                            if i < n {
                                assert(self.agents@[i] == before[i]);
                                old(self).lemma_index_of(i);
                            } else {
                                assert(self.agents@[n].1.spec_payloads().len() == 0);
                                assert(!old(self).holds(a));
                                assert(self.agents@[n].1.spec_payloads() =~= Seq::<T>::empty());
                            }
                        } else {
                            if old(self).holds(a) {
                                let i = old(self).index_of(a);
                                assert(self.agents@[i] == before[i]);
                            }
                        }
                    }
                }
                self.agents.len() - 1
            },
        };
        let ghost mid = *self;
        proof {
            mid.lemma_index_of(idx as int);
        }
        let count = self.agents[idx].1.len();
        if count as u64 >= u64::MAX - 1 {
            proof {
                assert(mid.spec_records(mid.agents@[idx as int].0@) == old(self).spec_records(
                    mid.agents@[idx as int].0@,
                ));
            }
            return Err(EventStreamBusError::CursorOverflow { cursor: count as u64 });
        }
        let (name, mut history) = self.agents.remove(idx);
        proof {
            history.law_cursors_count_from_one();
        }
        let cursor = history.publish(payload);
        self.agents.insert(idx, (name, history));
        proof {
            let e = self.agents@;
            let m = mid.agents@;
            assert forall|i: int| 0 <= i < e.len() implies #[trigger] e[i] == if i == idx {
                e[i]
            } else {
                m[i]
            } by {}
            assert(e.len() == m.len());
            assert forall|i: int, j: int| 0 <= i < j < e.len() implies (#[trigger] e[i]).0@ != (#[trigger] e[j]).0@ by {
                assert(e[i].0@ == m[i].0@ && e[j].0@ == m[j].0@);
            }
            assert forall|i: int| 0 <= i < e.len() implies (#[trigger] e[i]).1.wf() by {
                assert(m[i].1.wf());
            }
            self.lemma_index_of(idx as int);
            assert forall|a: Seq<char>| a != agent_id@ implies #[trigger] self.spec_records(a) == old(self).spec_records(a) by {
                assert(mid.spec_records(a) == old(self).spec_records(a));
                if self.holds(a) {
                    let i = self.index_of(a);
                    self.lemma_index_of(i);
                    assert(i != idx);
                    assert(e[i] == m[i]);
                    mid.lemma_index_of(i);
                } else if mid.holds(a) {
                    let i = mid.index_of(a);
                    assert(e[i].0@ == m[i].0@);
                }
            }
        }
        Ok(cursor)
    }

    /// The index of the first record of `agent` that a subscription from `start` delivers; an
    /// agent without records has none to resume after.
    pub fn start_index(&self, agent: &str, start: ReplayStart) -> (r: Result<usize, EventStreamBusError>)
        requires
            self.wf(),
        ensures
            start is All ==> r == Ok::<usize, EventStreamBusError>(0),
            start is New ==> r == Ok::<usize, EventStreamBusError>(self.spec_records(agent@).len() as usize),
            start matches ReplayStart::After(c) ==> if 1 <= c <= self.spec_records(agent@).len() {
                r == Ok::<usize, EventStreamBusError>(c as usize)
            } else {
                r == Err::<usize, EventStreamBusError>(EventStreamBusError::CursorExpired { cursor: c })
            },
    {
        match self.find(agent) {
            Some(i) => {
                proof {
                    self.lemma_index_of(i as int);
                }
                self.agents[i].1.start_index(start)
            },
            None => match start {
                ReplayStart::All => Ok(0),
                ReplayStart::New => Ok(0),
                ReplayStart::After(cursor) => Err(EventStreamBusError::CursorExpired { cursor }),
            },
        }
    }

    /// The record of `agent` at `index` with its cursor, `index + 1`; only that agent's
    /// records are ever returned.
    pub fn record_at(&self, agent: &str, index: usize) -> (r: Option<(u64, &T)>)
        requires
            self.wf(),
        ensures
            index < self.spec_records(agent@).len() ==> (r matches Some((c, p)) && c == index + 1
                && *p == self.spec_records(agent@)[index as int]),
            index >= self.spec_records(agent@).len() ==> r is None,
    {
        match self.find(agent) {
            Some(i) => {
                proof {
                    self.lemma_index_of(i as int);
                    self.agents@[i as int].1.law_cursors_count_from_one();
                }
                self.agents[i].1.record_at(index)
            },
            None => None,
        }
    }
}

} // verus!
