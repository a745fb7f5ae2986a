//! Literal text search within one file's lines, and the depth-first walk of a search.

use vstd::prelude::*;

use crate::filesystem::{is_virtual_path, VirtualPath};
use crate::tools::{normalize_path, normalized_path_text, ToolError};
use crate::sse::text_lines;
use crate::text::{byte_len, chars_of, str_byte_len, string_of_chars};

verus! {

/// Whether `q` occurs in `line` at character index `c`.
pub open spec fn occurs_at(line: Seq<char>, q: Seq<char>, c: int) -> bool {
    0 <= c && c + q.len() <= line.len() && line.subrange(c, c + q.len()) == q
}

/// The first character index at or after `c` where `q` occurs in `line`.
pub open spec fn occurrence_from(line: Seq<char>, q: Seq<char>, c: int) -> Option<int>
    decreases line.len() + 1 - c,
{
    if c < 0 || c + q.len() > line.len() {
        None
    } else if occurs_at(line, q, c) {
        Some(c)
    } else {
        occurrence_from(line, q, c + 1)
    }
}

proof fn lemma_occurrence_bounds(line: Seq<char>, q: Seq<char>, c: int)
    ensures
        occurrence_from(line, q, c) matches Some(k) ==> c <= k && k + q.len() <= line.len() && occurs_at(line, q, k),
    decreases line.len() + 1 - c,
{
    if !(c < 0 || c + q.len() > line.len()) && !occurs_at(line, q, c) {
        lemma_occurrence_bounds(line, q, c + 1);
    }
}

/// One line that contains the query.
#[derive(Debug)]
pub struct LineMatch {
    /// One-based line number.
    pub line_number: usize,
    /// The line's text.
    pub line_text: String,
    /// Byte offset of the first occurrence in the line.
    pub match_start: usize,
    /// Byte offset just past it.
    pub match_end: usize,
}

/// Whether `m` reports line `i` of `lines`, whose first occurrence of `q` is at `c`.
pub open spec fn reports(m: LineMatch, lines: Seq<Seq<char>>, q: Seq<char>, i: int, c: int) -> bool {
    &&& m.line_number == i + 1
    &&& m.line_text@ == lines[i]
    &&& m.match_start == byte_len(lines[i].take(c))
    &&& m.match_end == byte_len(lines[i].take(c)) + byte_len(q)
}

/// The indices of the lines of `lines` before `n` that contain `q`, in order.
pub open spec fn matching_lines(lines: Seq<Seq<char>>, q: Seq<char>, n: int) -> Seq<int>
    decreases n,
{
    if n <= 0 {
        Seq::empty()
    } else {
        let rest = matching_lines(lines, q, n - 1);
        if occurrence_from(lines[n - 1], q, 0) is Some {
            rest.push(n - 1)
        } else {
            rest
        }
    }
}

proof fn lemma_matching_prefix(lines: Seq<Seq<char>>, q: Seq<char>, i: int, n: int)
    requires
        0 <= i <= n,
    ensures
        matching_lines(lines, q, i).len() <= matching_lines(lines, q, n).len(),
        forall|k: int|
            0 <= k < matching_lines(lines, q, i).len() ==> matching_lines(lines, q, n)[k]
                == #[trigger] matching_lines(lines, q, i)[k],
    decreases n - i,
{
    if i < n {
        lemma_matching_prefix(lines, q, i, n - 1);
    }
}

fn first_occurrence(line: &Vec<char>, q: &Vec<char>) -> (r: Option<usize>)
    ensures
        match occurrence_from(line@, q@, 0) {
            None => r is None,
            Some(c) => r == Some(c as usize),
        },
{
    let n = line.len();
    let m = q.len();
    if m > n {
        return None;
    }
    let mut c: usize = 0;
    while c <= n - m
        invariant
            m <= n,
            n == line@.len(),
            m == q@.len(),
            c <= n - m + 1,
            occurrence_from(line@, q@, 0) == occurrence_from(line@, q@, c as int),
        decreases n - m + 1 - c,
    {
        let mut k: usize = 0;
        while k < m && line[c + k] == q[k]
            invariant
                m <= n,
                c <= n - m,
                n == line@.len(),
                m == q@.len(),
                k <= m,
                forall|j: int| 0 <= j < k ==> line@[c + j] == q@[j],
            decreases m - k,
        {
            k = k + 1;
        }
        if k == m {
            assert(line@.subrange(c as int, c + m) =~= q@);
            return Some(c);
        }
        proof {
            if occurs_at(line@, q@, c as int) {
                assert(line@.subrange(c as int, c + m)[k as int] == q@[k as int]);
            }
        }
        c = c + 1;
    }
    None
}

/// Reports the lines of `text` that contain `query`, in order, stopping once
/// `already + result.len()` reaches `max_results`.
pub fn search_lines(text: &str, query: &str, max_results: usize, already: usize) -> (r: Vec<LineMatch>)
    ensures
        ({
            let lines = text_lines(text@);
            let hits = matching_lines(lines, query@, lines.len() as int);
            let room = if already >= max_results { 0 } else { max_results - already };
            &&& r@.len() == if hits.len() < room { hits.len() as int } else { room }
            &&& forall|k: int|
                0 <= k < r@.len() ==> reports(
                    #[trigger] r@[k],
                    lines,
                    query@,
                    hits[k],
                    occurrence_from(lines[hits[k]], query@, 0).unwrap(),
                )
        }),
{
    let ghost lines = text_lines(text@);
    let chars = chars_of(text);
    let line_vec = crate::sse::lines_of(&chars);
    let q = chars_of(query);
    let qbytes = str_byte_len(query);
    let mut r: Vec<LineMatch> = Vec::new();
    let mut i: usize = 0;
    let ghost room: int = if already >= max_results { 0 } else { max_results - already };
    while i < line_vec.len() && !(already >= max_results || r.len() >= max_results - already)
        invariant
            line_vec@.map_values(|l: Vec<char>| l@) == lines,
            q@ == query@,
            qbytes == byte_len(query@),
            room == (if already >= max_results { 0int } else { max_results - already }),
            i <= line_vec@.len(),
            r@.len() <= room,
            r@.len() < room ==> r@.len() == matching_lines(lines, query@, i as int).len(),
            r@.len() == room ==> r@.len() <= matching_lines(lines, query@, i as int).len(),
            forall|k: int|
                0 <= k < r@.len() ==> reports(
                    #[trigger] r@[k],
                    lines,
                    query@,
                    matching_lines(lines, query@, i as int)[k],
                    occurrence_from(lines[matching_lines(lines, query@, i as int)[k]], query@, 0).unwrap(),
                ),
        decreases line_vec.len() - i,
    {
        let line = &line_vec[i];
        assert(lines[i as int] == line@);
        let ghost before = matching_lines(lines, query@, i as int);
        proof {
            lemma_occurrence_bounds(line@, q@, 0);
        }
        match first_occurrence(line, &q) {
            Some(c) => {
                let prefix = string_of_chars(line, 0, c);
                let start = str_byte_len(prefix.as_str());
                assert(prefix@ =~= line@.take(c as int));
                let text_of_line = string_of_chars(line, 0, line.len());
                assert(text_of_line@ =~= line@);
                let total = str_byte_len(text_of_line.as_str());
                proof {
                    crate::text::lemma_byte_len_concat(line@.take(c as int), line@.skip(c as int));
                    assert(line@.take(c as int) + line@.skip(c as int) =~= line@);
                    crate::text::lemma_byte_len_concat(line@.skip(c as int).take(q@.len() as int), line@.skip(c as int).skip(q@.len() as int));
                    assert(line@.skip(c as int).take(q@.len() as int) + line@.skip(c as int).skip(q@.len() as int) =~= line@.skip(c as int));
                    assert(line@.skip(c as int).take(q@.len() as int) =~= line@.subrange(c as int, c + q@.len()));
                    assert(start + qbytes <= total);
                }
                r.push(LineMatch { line_number: i + 1, line_text: text_of_line, match_start: start, match_end: start + qbytes });
                assert(matching_lines(lines, query@, i + 1) == before.push(i as int));
            },
            None => {
                assert(matching_lines(lines, query@, i + 1) == before);
            },
        }
        i = i + 1;
    }
    proof {
        lemma_matching_prefix(lines, query@, i as int, lines.len() as int);
        if r@.len() < room {
            assert(i == line_vec@.len());
        }
    }
    r
}

/// Results a search reports when the caller sets no limit.
pub const DEFAULT_MAX_RESULTS: usize = 100;

/// A checked search request.
#[derive(Debug)]
pub struct SearchRequest {
    /// Where the search starts.
    pub path: VirtualPath,
    /// The literal text searched for; never empty.
    pub query: String,
    /// Most matches reported; at least one.
    pub max_results: usize,
}

/// Checks the arguments of a search: a non-empty query, a path argument that names a
/// virtual path, and a positive result limit that defaults to [`DEFAULT_MAX_RESULTS`].
pub fn parse_search_input(path: &str, query: String, max_results: Option<usize>) -> (r: Result<SearchRequest, ToolError>)
    requires
        max_results != Some(0usize),
    ensures
        query@.len() == 0 ==> r == Err::<SearchRequest, ToolError>(
            ToolError::InvalidArgument { name: "query", reason: "must not be empty" },
        ),
        query@.len() > 0 && (path@.len() == 0 || !is_virtual_path(normalized_path_text(path@))) ==> (r matches Err(
            ToolError::InvalidPath { path: p, .. },
        ) && p@ == path@),
        query@.len() > 0 && path@.len() > 0 && is_virtual_path(normalized_path_text(path@)) ==> (r matches Ok(req)
            && req.path@ == normalized_path_text(path@) && req.query == query && req.max_results == match max_results {
            Some(n) => n,
            None => DEFAULT_MAX_RESULTS,
        } && req.max_results >= 1),
{
    if query.as_str().is_empty() {
        return Err(ToolError::InvalidArgument { name: "query", reason: "must not be empty" });
    }
    let path = match normalize_path(path) {
        Ok(p) => p,
        Err(e) => return Err(e),
    };
    let max_results = match max_results {
        Some(n) => n,
        None => DEFAULT_MAX_RESULTS,
    };
    Ok(SearchRequest { path, query, max_results })
}

/// The depth-first walk of a search: the paths still to visit, the next one on top.
pub struct SearchWalk {
    pending: Vec<VirtualPath>,
}

impl SearchWalk {
    /// Paths still to visit; the last one is visited next.
    pub closed spec fn spec_pending(&self) -> Seq<Seq<char>> {
        self.pending@.map_values(|p: VirtualPath| p@)
    }

    /// A walk that starts at `root`.
    pub fn new(root: VirtualPath) -> (r: Self)
        ensures
            r.spec_pending() == seq![root@],
    {
        let mut pending = Vec::new();
        pending.push(root);
        let r = SearchWalk { pending };
        assert(r.spec_pending() =~= seq![root@]);
        r
    }

    /// The next path to visit, unless the walk is over or enough matches were found.
    pub fn next(&mut self, matches: usize, max_results: usize) -> (r: Option<VirtualPath>)
        ensures
            old(self).spec_pending().len() == 0 ==> r is None && final(self).spec_pending() == old(
                self,
            ).spec_pending(),
            old(self).spec_pending().len() > 0 && matches >= max_results ==> r is None,
            old(self).spec_pending().len() > 0 && matches < max_results ==> (r matches Some(p) && p@
                == old(self).spec_pending().last()) && final(self).spec_pending() == old(
                self,
            ).spec_pending().drop_last(),
    {
        let ghost before = self.pending@;
        match self.pending.pop() {
            None => None,
            Some(path) => {
                assert(self.pending@.map_values(|p: VirtualPath| p@) =~= before.map_values(|p: VirtualPath| p@).drop_last());
                if matches >= max_results {
                    None
                } else {
                    Some(path)
                }
            },
        }
    }

    /// Queues the entries of a visited directory so that they are visited in listing order.
    pub fn enter(&mut self, entries: Vec<VirtualPath>)
        ensures
            final(self).spec_pending() == old(self).spec_pending() + entries@.map_values(
                |p: VirtualPath| p@,
            ).reverse(),
    {
        let mut entries = entries;
        let ghost all = entries@.map_values(|p: VirtualPath| p@);
        let ghost start = self.spec_pending();
        let mut k: usize = entries.len();
        while k > 0
            invariant
                k <= all.len(),
                entries@.len() == k,
                entries@.map_values(|p: VirtualPath| p@) == all.take(k as int),
                self.spec_pending() == start + all.skip(k as int).reverse(),
            decreases k,
        {
            let ghost e = entries@;
            let ghost pend = self.pending@;
            let p = entries.pop().unwrap();
            proof {
                assert(e.map_values(|p: VirtualPath| p@)[k - 1] == e[k - 1]@);
                assert(p@ == all[k - 1]);
            }
            self.pending.push(p);
            k = k - 1;
            proof {
                assert(entries@ =~= e.drop_last());
                assert(entries@.map_values(|p: VirtualPath| p@) =~= all.take(k as int));
                assert(all.skip(k as int).reverse() =~= all.skip(k + 1).reverse().push(all[k as int]));
                assert(self.pending@.map_values(|p: VirtualPath| p@) =~= pend.map_values(|p: VirtualPath| p@).push(
                    all[k as int],
                ));
            }
        }
        assert(all.skip(0) =~= all);
    }
}

} // verus!
