//! Attributes of the live events an agent publishes: its name and model, merged with the
//! attributes of the event at hand, in key order.

use vstd::prelude::*;

use crate::core_types::ModelId;
use crate::envelope::metadata_text;
use crate::json::{json_string_literal, quote_json_string};
use crate::llm_manager::{
    less_str, lemma_text_less_at, lemma_text_less_irreflexive, lemma_text_less_total, lemma_text_less_transitive,
    text_less,
};
use crate::text::{decimal, owned, push_decimal, same_text};

verus! {

/// Whether the keys of `m` strictly increase.
pub open spec fn keys_increasing(m: Seq<(Seq<char>, Seq<char>)>) -> bool {
    forall|i: int, j: int| 0 <= i < j < m.len() ==> text_less(#[trigger] m[i].0, #[trigger] m[j].0)
}

/// The value of the key `k` in `m`.
pub open spec fn lookup(m: Seq<(Seq<char>, Seq<char>)>, k: Seq<char>) -> Option<Seq<char>> {
    if exists|i: int| 0 <= i < m.len() && m[i].0 == k {
        Some(m[choose|i: int| 0 <= i < m.len() && m[i].0 == k].1)
    } else {
        None
    }
}

/// The attributes every live event of an agent carries: its name and its model, as JSON
/// strings.
pub open spec fn agent_base_metadata(name: Seq<char>, model: ModelId) -> Seq<(Seq<char>, Seq<char>)> {
    seq![
        ("agent_name"@, json_string_literal(name)),
        ("llm"@, json_string_literal(model@)),
        ("llm_provider"@, json_string_literal(model.provider_view())),
        ("model"@, json_string_literal(model.model_view())),
    ]
}

proof fn lemma_lookup_at(m: Seq<(Seq<char>, Seq<char>)>, idx: int)
    requires
        keys_increasing(m),
        0 <= idx < m.len(),
    ensures
        lookup(m, m[idx].0) == Some(m[idx].1),
{
    let k = m[idx].0;
    assert(exists|i: int| 0 <= i < m.len() && m[i].0 == m[idx].0);
    let j = choose|i: int| 0 <= i < m.len() && m[i].0 == m[idx].0;
    assert(j == idx) by {
        lemma_text_less_irreflexive(k);
        if j < idx {
            assert(text_less(m[j].0, m[idx].0));
        } else if j > idx {
            assert(text_less(m[idx].0, m[j].0));
        }
    }
}

fn contains_key(m: &Vec<(String, String)>, key: &str) -> (r: bool)
    ensures
        r == (lookup(metadata_text(m@), key@) is Some),
{
    let ghost t = metadata_text(m@);
    let mut i: usize = 0;
    while i < m.len()
        invariant
            i <= m@.len(),
            t == metadata_text(m@),
            forall|k: int| 0 <= k < i ==> t[k].0 != key@,
        decreases m.len() - i,
    {
        if same_text(m[i].0.as_str(), key) {
            assert(t[i as int].0 == key@);
            return true;
        }
        i = i + 1;
    }
    false
}

/// Inserts the absent key `key` with `value` at its place in key order.
fn insert_sorted(m: &mut Vec<(String, String)>, key: String, value: String)
    requires
        keys_increasing(metadata_text(old(m)@)),
        lookup(metadata_text(old(m)@), key@) is None,
    ensures
        keys_increasing(metadata_text(final(m)@)),
        forall|k: Seq<char>|
            #[trigger] lookup(metadata_text(final(m)@), k) == if k == key@ {
                Some(value@)
            } else {
                lookup(metadata_text(old(m)@), k)
            },
{
    let ghost t = metadata_text(m@);
    let mut p: usize = 0;
    while p < m.len() && less_str(m[p].0.as_str(), key.as_str())
        invariant
            p <= m@.len(),
            t == metadata_text(m@),
            forall|k: int| 0 <= k < p ==> text_less(#[trigger] t[k].0, key@),
        decreases m.len() - p,
    {
        p = p + 1;
    }
    proof {
        if p < t.len() {
            lemma_text_less_total(t[p as int].0, key@);
            if t[p as int].0 == key@ {
                assert(lookup(t, key@) is Some);
            }
            assert forall|k: int| p <= k < t.len() implies text_less(key@, #[trigger] t[k].0) by {
                if k > p {
                    lemma_text_less_transitive(key@, t[p as int].0, t[k].0);
                }
            }
        }
    }
    let ghost kv = (key@, value@);
    m.insert(p, (key, value));
    let ghost n = metadata_text(m@);
    assert(n =~= t.insert(p as int, kv));
    assert forall|i: int, j: int| 0 <= i < j < n.len() implies text_less(#[trigger] n[i].0, #[trigger] n[j].0) by {
        if i < p && j > p {
            lemma_text_less_transitive(n[i].0, key@, n[j].0);
        }
    }
    assert forall|k: Seq<char>| #[trigger] lookup(n, k) == if k == key@ {
        Some(value@)
    } else {
        lookup(t, k)
    } by {
        if k == key@ {
            lemma_lookup_at(n, p as int);
        } else if exists|i: int| 0 <= i < t.len() && t[i].0 == k {
            let i = choose|i: int| 0 <= i < t.len() && t[i].0 == k;
            lemma_lookup_at(t, i);
            let ni = if i < p { i } else { i + 1 };
            assert(n[ni].0 == k);
            lemma_lookup_at(n, ni);
        } else {
            assert forall|i: int| 0 <= i < n.len() implies n[i].0 != k by {
                if i < p {
                    assert(n[i] == t[i]);
                } else if i > p {
                    assert(n[i] == t[i - 1]);
                }
            }
        }
    }
}

/// The attributes of a live event of the agent `name` bound to `model`: the agent's own
/// attributes, overridden by those of `extra`, in key order.
pub fn agent_event_metadata(name: &str, model: &ModelId, extra: &Vec<(String, String)>) -> (r: Vec<(String, String)>)
    requires
        keys_increasing(metadata_text(extra@)),
    ensures
        keys_increasing(metadata_text(r@)),
        forall|k: Seq<char>|
            #[trigger] lookup(metadata_text(r@), k) == match lookup(metadata_text(extra@), k) {
                Some(v) => Some(v),
                None => lookup(agent_base_metadata(name@, *model), k),
            },
{
    let mut r: Vec<(String, String)> = Vec::new();
    let mut i: usize = 0;
    while i < extra.len()
        invariant
            i <= extra@.len(),
            r@.len() == i,
            forall|k: int| 0 <= k < i ==> (#[trigger] r@[k]).0@ == extra@[k].0@ && r@[k].1@ == extra@[k].1@,
        decreases extra.len() - i,
    {
        r.push((extra[i].0.clone(), extra[i].1.clone()));
        i = i + 1;
    }
    assert(metadata_text(r@) =~= metadata_text(extra@));
    let ghost e = metadata_text(extra@);
    let ghost b = agent_base_metadata(name@, *model);
    proof {
        reveal_strlit("agent_name");
        reveal_strlit("llm");
        reveal_strlit("llm_provider");
        reveal_strlit("model");
    }
    let keys = vec!["agent_name", "llm", "llm_provider", "model"];
    let values = vec![
        quote_json_string(name),
        quote_json_string(model.as_str()),
        quote_json_string(model.provider_name()),
        quote_json_string(model.model_name()),
    ];
    assert(b[0].0 == keys@[0]@ && b[1].0 == keys@[1]@ && b[2].0 == keys@[2]@ && b[3].0 == keys@[3]@);
    assert(b[0].1 == values@[0]@ && b[1].1 == values@[1]@ && b[2].1 == values@[2]@ && b[3].1 == values@[3]@);
    assert(b.len() == 4);
    let mut j: usize = 0;
    while j < 4
        invariant
            j <= 4,
            keys@.len() == 4,
            values@.len() == 4,
            b.len() == 4,
            b == agent_base_metadata(name@, *model),
            e == metadata_text(extra@),
            forall|q: int| 0 <= q < 4 ==> b[q].0 == (#[trigger] keys@[q])@ && b[q].1 == values@[q]@,
            keys_increasing(metadata_text(r@)),
            forall|k: Seq<char>|
                #[trigger] lookup(metadata_text(r@), k) == match lookup(e, k) {
                    Some(v) => Some(v),
                    None => if exists|q: int| 0 <= q < j && b[q].0 == k {
                        lookup(b, k)
                    } else {
                        None
                    },
                },
        decreases 4 - j,
    {
        let ghost before = metadata_text(r@);
        if !contains_key(&r, keys[j]) {
            insert_sorted(&mut r, owned(keys[j]), values[j].clone());
        }
        proof {
            assert forall|k: Seq<char>|
                #[trigger] lookup(metadata_text(r@), k) == match lookup(e, k) {
                    Some(v) => Some(v),
                    None => if exists|q: int| 0 <= q < j + 1 && b[q].0 == k {
                        lookup(b, k)
                    } else {
                        None
                    },
                } by {
                assert(keys_increasing(b)) by {
                    reveal_strlit("agent_name");
                    reveal_strlit("llm");
                    reveal_strlit("llm_provider");
                    reveal_strlit("model");
                    assert("agent_name"@ =~= seq!['a', 'g', 'e', 'n', 't', '_', 'n', 'a', 'm', 'e']);
                    assert("llm"@ =~= seq!['l', 'l', 'm']);
                    assert("llm_provider"@ =~= seq!['l', 'l', 'm', '_', 'p', 'r', 'o', 'v', 'i', 'd', 'e', 'r']);
                    assert("model"@ =~= seq!['m', 'o', 'd', 'e', 'l']);
                    lemma_text_less_at("agent_name"@, "llm"@, 0);
                    lemma_text_less_at("llm"@, "llm_provider"@, 3);
                    lemma_text_less_at("llm_provider"@, "model"@, 0);
                    lemma_text_less_transitive(b[0].0, b[1].0, b[2].0);
                    lemma_text_less_transitive(b[0].0, b[2].0, b[3].0);
                    lemma_text_less_transitive(b[1].0, b[2].0, b[3].0);
                }
                lemma_lookup_at(b, j as int);
                if k != b[j as int].0 {
                    if exists|q: int| 0 <= q < j + 1 && b[q].0 == k {
                        let q = choose|q: int| 0 <= q < j + 1 && b[q].0 == k;
                        assert(q < j);
                    }
                }
            }
        }
        j = j + 1;
    }
    proof {
        assert forall|k: Seq<char>| #[trigger] lookup(b, k) == (if exists|q: int| 0 <= q < 4 && b[q].0 == k {
            lookup(b, k)
        } else {
            None
        }) by {}
    }
    r
}

/// The attributes of a model-call event of turn step `turn_index`, naming the tool and the
/// call when it concerns one, in key order.
pub fn llm_event_metadata(turn_index: usize, tool_name: Option<&str>, tool_call_id: Option<&str>) -> (r: Vec<
    (String, String),
>)
    ensures
        metadata_text(r@) == (match tool_call_id {
            Some(id) => seq![("tool_call_id"@, json_string_literal(id@))],
            None => Seq::empty(),
        }) + (match tool_name {
            Some(n) => seq![("tool_name"@, json_string_literal(n@))],
            None => Seq::empty(),
        }) + seq![("turn_index"@, decimal(turn_index as nat))],
        keys_increasing(metadata_text(r@)),
{
    let mut r: Vec<(String, String)> = Vec::new();
    if let Some(id) = tool_call_id {
        r.push((owned("tool_call_id"), quote_json_string(id)));
    }
    if let Some(n) = tool_name {
        r.push((owned("tool_name"), quote_json_string(n)));
    }
    let mut index = String::new();
    push_decimal(&mut index, turn_index as u64);
    r.push((owned("turn_index"), index));
    let ghost t = metadata_text(r@);
    assert(t =~= (match tool_call_id {
        Some(id) => seq![("tool_call_id"@, json_string_literal(id@))],
        None => Seq::empty(),
    }) + (match tool_name {
        Some(n) => seq![("tool_name"@, json_string_literal(n@))],
        None => Seq::empty(),
    }) + seq![("turn_index"@, decimal(turn_index as nat))]);
    proof {
        reveal_strlit("tool_call_id");
        reveal_strlit("tool_name");
        reveal_strlit("turn_index");
        assert("tool_call_id"@ =~= seq!['t', 'o', 'o', 'l', '_', 'c', 'a', 'l', 'l', '_', 'i', 'd']);
        assert("tool_name"@ =~= seq!['t', 'o', 'o', 'l', '_', 'n', 'a', 'm', 'e']);
        assert("turn_index"@ =~= seq!['t', 'u', 'r', 'n', '_', 'i', 'n', 'd', 'e', 'x']);
        lemma_text_less_at("tool_call_id"@, "tool_name"@, 5);
        lemma_text_less_at("tool_name"@, "turn_index"@, 1);
        lemma_text_less_transitive("tool_call_id"@, "tool_name"@, "turn_index"@);
    }
    r
}

} // verus!
