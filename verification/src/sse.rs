//! Server-sent event framing for streamed provider responses.
//!
//! Bytes arrive in arbitrary chunks. A frame ends at the first blank line, written `\n\n` or
//! `\r\n\r\n`; each complete frame is decoded as UTF-8 and its `data:` lines are joined with
//! newlines. A frame whose data is `[DONE]` ends the stream.

use vstd::prelude::*;
use vstd::utf8::*;

use crate::llm::LlmError;
use crate::text::{owned, push_char, push_str};

verus! {

/// One decoded server-sent event.
#[derive(Debug, PartialEq, Eq)]
pub enum SseEvent {
    /// A data payload.
    Data(String),
    /// The end-of-stream marker.
    Done,
}

/// The message that `String::from_utf8` reports for bytes that are not UTF-8.
pub uninterp spec fn utf8_error_text(bytes: Seq<u8>) -> Seq<char>;

/// Calls `String::from_utf8`, which accepts exactly the well-formed UTF-8 byte strings
/// and decodes them; a rejection is reported by the text of its error.
#[verifier::external_body]
fn decode_utf8_bytes(bytes: Vec<u8>) -> (r: Result<String, String>)
    ensures
        match r {
            Ok(s) => valid_utf8(bytes@) && s@ == decode_utf8(bytes@),
            Err(m) => !valid_utf8(bytes@) && m@ == utf8_error_text(bytes@),
        },
{
    match String::from_utf8(bytes) {
        Ok(s) => Ok(s),
        Err(e) => Err(e.to_string()),
    }
}

/// Whether a frame delimiter starts at `p`: `\n\n` (two bytes) or `\r\n\r\n` (four).
pub open spec fn delimiter_at(buf: Seq<u8>, p: int) -> Option<int> {
    if p + 2 <= buf.len() && buf[p] == 10u8 && buf[p + 1] == 10u8 {
        Some(2)
    } else if p + 4 <= buf.len() && buf[p] == 13u8 && buf[p + 1] == 10u8 && buf[p + 2] == 13u8 && buf[p + 3] == 10u8 {
        Some(4)
    } else {
        None
    }
}

/// The first frame delimiter of `buf` at or after `p`: where it starts and how long it is.
pub open spec fn delimiter_from(buf: Seq<u8>, p: int) -> Option<(int, int)>
    decreases buf.len() - p,
{
    if p < 0 || p >= buf.len() {
        None
    } else {
        match delimiter_at(buf, p) {
            Some(l) => Some((p, l)),
            None => delimiter_from(buf, p + 1),
        }
    }
}

/// The first frame delimiter of `buf`.
pub open spec fn first_delimiter(buf: Seq<u8>) -> Option<(int, int)> {
    delimiter_from(buf, 0)
}

/// A delimiter found from `p` on lies within `buf`, at or after `p`, and is two or four bytes long.
pub proof fn lemma_delimiter_bounds(buf: Seq<u8>, p: int)
    requires
        0 <= p,
    ensures
        delimiter_from(buf, p) matches Some((q, l)) ==> p <= q && q + l <= buf.len() && (l == 2 || l == 4),
    decreases buf.len() - p,
{
    if p < buf.len() && delimiter_at(buf, p) is None {
        lemma_delimiter_bounds(buf, p + 1);
    }
}

/// Finds the first frame delimiter of `buffer`.
pub fn event_delimiter(buffer: &[u8]) -> (r: Option<(usize, usize)>)
    ensures
        match first_delimiter(buffer@) {
            None => r is None,
            Some((p, l)) => r matches Some((e, n)) && e == p && n == l,
        },
{
    let n = buffer.len();
    let mut p: usize = 0;
    while p < n
        invariant
            n == buffer@.len(),
            p <= n,
            first_delimiter(buffer@) == delimiter_from(buffer@, p as int),
        decreases n - p,
    {
        if n - p >= 2 && buffer[p] == 10u8 && buffer[p + 1] == 10u8 {
            return Some((p, 2));
        }
        if n - p >= 4 && buffer[p] == 13u8 && buffer[p + 1] == 10u8 && buffer[p + 2] == 13u8 && buffer[p + 3]
            == 10u8 {
            return Some((p, 4));
        }
        p = p + 1;
    }
    None
}

/// Index of the first `\n` of `t`, or its length when it has none.
pub open spec fn first_newline(t: Seq<char>) -> nat
    decreases t.len(),
{
    if t.len() == 0 {
        0
    } else if t[0] == '\n' {
        0
    } else {
        1 + first_newline(t.drop_first())
    }
}

proof fn lemma_first_newline(t: Seq<char>, i: int)
    requires
        0 <= i <= t.len(),
        forall|j: int| 0 <= j < i ==> t[j] != '\n',
        i == t.len() || t[i] == '\n',
    ensures
        first_newline(t) == i,
    decreases i,
{
    if i > 0 {
        lemma_first_newline(t.drop_first(), i - 1);
    }
}

/// The lines of `text` as `str::lines` yields them: split at `\n`, a `\r` before the `\n`
/// removed, a final line without `\n` kept whole, and no line after a final `\n`.
pub open spec fn text_lines(text: Seq<char>) -> Seq<Seq<char>>
    decreases text.len(),
{
    if text.len() == 0 {
        Seq::empty()
    } else {
        let i = first_newline(text);
        if i < text.len() {
            seq![strip_cr(text.take(i as int))] + text_lines(text.skip(i as int + 1))
        } else {
            seq![text]
        }
    }
}

/// `s` without one trailing `\r`.
pub open spec fn strip_cr(s: Seq<char>) -> Seq<char> {
    if s.len() > 0 && s.last() == '\r' {
        s.drop_last()
    } else {
        s
    }
}

/// The payload of a `data:` line, without one leading space; `None` for other lines.
pub open spec fn data_of(line: Seq<char>) -> Option<Seq<char>> {
    let l = strip_cr(line);
    if l.len() >= 5 && l.take(5) == "data:"@ {
        let d = l.skip(5);
        Some(if d.len() > 0 && d[0] == ' ' { d.skip(1) } else { d })
    } else {
        None
    }
}

/// The `data:` payloads of `lines`, in order.
pub open spec fn data_lines(lines: Seq<Seq<char>>) -> Seq<Seq<char>>
    decreases lines.len(),
{
    if lines.len() == 0 {
        Seq::empty()
    } else {
        let rest = data_lines(lines.drop_last());
        match data_of(lines.last()) {
            Some(d) => rest.push(d),
            None => rest,
        }
    }
}

/// `parts` joined with `\n`.
pub open spec fn join_lines(parts: Seq<Seq<char>>) -> Seq<char>
    decreases parts.len(),
{
    if parts.len() == 0 {
        Seq::empty()
    } else if parts.len() == 1 {
        parts[0]
    } else {
        join_lines(parts.drop_last()) + seq!['\n'] + parts.last()
    }
}

/// What one frame decodes to: an error text for bytes that are not UTF-8, nothing for a frame
/// without data lines, the end marker for `[DONE]`, and otherwise the joined data.
pub enum FrameMeaning {
    /// The frame is not UTF-8.
    Invalid(Seq<char>),
    /// The frame has no data line.
    Empty,
    /// The end-of-stream marker.
    Done,
    /// A data payload.
    Data(Seq<char>),
}

/// The meaning of one frame.
pub open spec fn frame_meaning(frame: Seq<u8>) -> FrameMeaning {
    if !valid_utf8(frame) {
        FrameMeaning::Invalid(utf8_error_text(frame))
    } else {
        let data = data_lines(text_lines(decode_utf8(frame)));
        if data.len() == 0 {
            FrameMeaning::Empty
        } else if join_lines(data) == "[DONE]"@ {
            FrameMeaning::Done
        } else {
            FrameMeaning::Data(join_lines(data))
        }
    }
}

/// Whether `r` is what a frame with meaning `m` yields.
pub open spec fn yields(m: FrameMeaning, r: Result<SseEvent, LlmError>) -> bool {
    match m {
        FrameMeaning::Invalid(t) => r matches Err(LlmError::Stream { message }) && message@ == t,
        FrameMeaning::Empty => false,
        FrameMeaning::Done => r == Ok::<SseEvent, LlmError>(SseEvent::Done),
        FrameMeaning::Data(d) => r matches Ok(SseEvent::Data(s)) && s@ == d,
    }
}

pub(crate) fn lines_of(text: &Vec<char>) -> (r: Vec<Vec<char>>)
    ensures
        r@.map_values(|l: Vec<char>| l@) == text_lines(text@),
    decreases text@.len(),
{
    let n = text.len();
    let mut i: usize = 0;
    while i < n && text[i] != '\n'
        invariant
            n == text@.len(),
            i <= n,
            forall|j: int| 0 <= j < i ==> text@[j] != '\n',
        decreases n - i,
    {
        i = i + 1;
    }
    if n == 0 {
        return Vec::new();
    }
    let mut line: Vec<char> = Vec::new();
    let mut k: usize = 0;
    let end = if i < n && i > 0 && text[i - 1] == '\r' { i - 1 } else { i };
    while k < end
        invariant
            end <= i <= n,
            n == text@.len(),
            k <= end,
            line@ == text@.take(k as int),
        decreases end - k,
    {
        line.push(text[k]);
        k = k + 1;
        assert(line@ =~= text@.take(k as int));
    }
    let mut result: Vec<Vec<char>> = Vec::new();
    if i == n {
        proof {
            lemma_first_newline(text@, i as int);
            assert(text@.take(i as int) =~= text@);
            assert(line@ =~= text@);
        }
        result.push(line);
        assert(result@.map_values(|l: Vec<char>| l@) =~= text_lines(text@));
        return result;
    }
    let mut rest: Vec<char> = Vec::new();
    let mut m: usize = i + 1;
    while m < n
        invariant
            i < n,
            n == text@.len(),
            i + 1 <= m <= n,
            rest@ == text@.subrange(i + 1, m as int),
        decreases n - m,
    {
        rest.push(text[m]);
        m = m + 1;
        assert(rest@ =~= text@.subrange(i + 1, m as int));
    }
    proof {
        assert(rest@ =~= text@.skip(i + 1));
        lemma_first_newline(text@, i as int);
        assert(line@ =~= strip_cr(text@.take(i as int)));
    }
    let tail = lines_of(&rest);
    result.push(line);
    let mut t: usize = 0;
    while t < tail.len()
        invariant
            t <= tail@.len(),
            result@.len() == t + 1,
            result@[0]@ == strip_cr(text@.take(i as int)),
            forall|q: int| 0 <= q < t ==> (#[trigger] result@[q + 1])@ == tail@[q]@,
        decreases tail.len() - t,
    {
        result.push(tail[t].clone());
        t = t + 1;
    }
    proof {
        assert(text_lines(text@) == seq![strip_cr(text@.take(i as int))] + text_lines(text@.skip(i + 1)));
        assert(tail@.map_values(|l: Vec<char>| l@) == text_lines(rest@));
        let mapped = result@.map_values(|l: Vec<char>| l@);
        assert forall|q: int| 0 <= q < result@.len() implies #[trigger] mapped[q] == text_lines(text@)[q] by {
            if q > 0 {
                assert(result@[(q - 1) + 1]@ == tail@[q - 1]@);
                assert(tail@.map_values(|l: Vec<char>| l@)[q - 1] == tail@[q - 1]@);
            }
        }
    }
    assert(result@.map_values(|l: Vec<char>| l@) =~= text_lines(text@));
    result
}

fn data_payload(line: &Vec<char>) -> (r: Option<Vec<char>>)
    ensures
        match data_of(line@) {
            None => r is None,
            Some(d) => r matches Some(v) && v@ == d,
        },
{
    proof {
        reveal_strlit("data:");
    }
    let n0 = line.len();
    let n = if n0 > 0 && line[n0 - 1] == '\r' { n0 - 1 } else { n0 };
    assert(strip_cr(line@) =~= line@.take(n as int));
    if n < 5 || line[0] != 'd' || line[1] != 'a' || line[2] != 't' || line[3] != 'a' || line[4] != ':' {
        proof {
            let l = strip_cr(line@);
            if l.len() >= 5 && l.take(5) == "data:"@ {
                assert(l.take(5)[0] == 'd' && l.take(5)[1] == 'a' && l.take(5)[2] == 't' && l.take(5)[3]
                    == 'a' && l.take(5)[4] == ':');
            }
        }
        return None;
    }
    assert(strip_cr(line@).take(5) =~= "data:"@);
    let start = if n > 5 && line[5] == ' ' { 6 } else { 5 };
    let mut d: Vec<char> = Vec::new();
    let mut k: usize = start;
    while k < n
        invariant
            start <= k <= n,
            n <= line@.len(),
            d@ == line@.subrange(start as int, k as int),
        decreases n - k,
    {
        d.push(line[k]);
        k = k + 1;
        assert(d@ =~= line@.subrange(start as int, k as int));
    }
    proof {
        let l = strip_cr(line@);
        let dd = l.skip(5);
        if dd.len() > 0 && dd[0] == ' ' {
            assert(d@ =~= dd.skip(1));
        } else {
            assert(d@ =~= dd);
        }
    }
    Some(d)
}

/// Decodes one complete frame; `None` for a frame without data lines.
pub fn parse_sse_event(event: Vec<u8>) -> (r: Result<Option<SseEvent>, LlmError>)
    ensures
        match frame_meaning(event@) {
            FrameMeaning::Empty => r == Ok::<Option<SseEvent>, LlmError>(None),
            m => (r matches Ok(Some(e)) && yields(m, Ok(e))) || (r matches Err(e) && yields(m, Err(e))),
        },
{
    let ghost frame = event@;
    let text = match decode_utf8_bytes(event) {
        Ok(t) => t,
        Err(message) => return Err(LlmError::Stream { message }),
    };
    let chars = crate::text::chars_of(text.as_str());
    let lines = lines_of(&chars);
    let mut data: Vec<Vec<char>> = Vec::new();
    let mut i: usize = 0;
    while i < lines.len()
        invariant
            i <= lines@.len(),
            data@.map_values(|l: Vec<char>| l@) == data_lines(
                lines@.map_values(|l: Vec<char>| l@).take(i as int),
            ),
        decreases lines.len() - i,
    {
        let ghost ls = lines@.map_values(|l: Vec<char>| l@);
        proof {
            assert(ls.take(i + 1).drop_last() =~= ls.take(i as int));
            assert(ls.take(i + 1).last() == lines@[i as int]@);
        }
        match data_payload(&lines[i]) {
            Some(d) => {
                let ghost before = data@;
                data.push(d);
                assert(data@.map_values(|l: Vec<char>| l@) =~= before.map_values(|l: Vec<char>| l@).push(
                    data@[before.len() as int]@,
                ));
            },
            None => {},
        }
        i = i + 1;
    }
    proof {
        assert(lines@.map_values(|l: Vec<char>| l@).take(lines@.len() as int) =~= lines@.map_values(
            |l: Vec<char>| l@,
        ));
    }
    if data.len() == 0 {
        return Ok(None);
    }
    let mut joined = String::new();
    let mut k: usize = 0;
    while k < data.len()
        invariant
            data@.len() > 0,
            k <= data@.len(),
            k > 0 ==> joined@ == join_lines(data@.map_values(|l: Vec<char>| l@).take(k as int)),
            k == 0 ==> joined@.len() == 0,
        decreases data.len() - k,
    {
        let ghost ds = data@.map_values(|l: Vec<char>| l@);
        if k > 0 {
            push_char(&mut joined, '\n');
        }
        let piece = &data[k];
        let mut c: usize = 0;
        let ghost start = joined@;
        while c < piece.len()
            invariant
                c <= piece@.len(),
                joined@ == start + piece@.take(c as int),
            decreases piece.len() - c,
        {
            push_char(&mut joined, piece[c]);
            c = c + 1;
            assert(joined@ =~= start + piece@.take(c as int));
        }
        proof {
            assert(piece@.take(c as int) =~= piece@);
            assert(ds.take(k + 1).drop_last() =~= ds.take(k as int));
            assert(ds.take(k + 1).last() == piece@);
            if k == 0 {
                assert(joined@ =~= ds.take(1)[0]);
            } else {
                assert(joined@ =~= join_lines(ds.take(k as int)) + seq!['\n'] + piece@);
            }
        }
        k = k + 1;
    }
    proof {
        assert(data@.map_values(|l: Vec<char>| l@).take(data@.len() as int) =~= data@.map_values(
            |l: Vec<char>| l@,
        ));
        reveal_strlit("[DONE]");
    }
    if crate::text::same_text(joined.as_str(), "[DONE]") {
        return Ok(Some(SseEvent::Done));
    }
    Ok(Some(SseEvent::Data(joined)))
}

fn split_frame(buffer: &Vec<u8>, end: usize, len: usize) -> (r: (Vec<u8>, Vec<u8>))
    requires
        end + len <= buffer@.len(),
        len > 0,
    ensures
        r.0@ == buffer@.take(end as int),
        r.1@ == buffer@.skip(end + len),
{
    let mut frame: Vec<u8> = Vec::new();
    let mut j: usize = 0;
    while j < end
        invariant
            j <= end,
            end + len <= buffer@.len(),
            frame@ == buffer@.take(j as int),
        decreases end - j,
    {
        frame.push(buffer[j]);
        j = j + 1;
        assert(frame@ =~= buffer@.take(j as int));
    }
    let mut rest: Vec<u8> = Vec::new();
    let n = buffer.len();
    let mut m: usize = end + len;
    while m < n
        invariant
            n == buffer@.len(),
            end + len <= m <= buffer@.len(),
            rest@ == buffer@.subrange(end + len, m as int),
        decreases buffer.len() - m,
    {
        rest.push(buffer[m]);
        m = m + 1;
        assert(rest@ =~= buffer@.subrange(end + len, m as int));
    }
    assert(rest@ =~= buffer@.skip(end + len));
    (frame, rest)
}

/// The meanings of the complete frames at the front of `buf`, in order, up to and including
/// the first frame that is not UTF-8; frames without data lines mean nothing and are left out.
pub open spec fn frame_meanings(buf: Seq<u8>) -> Seq<FrameMeaning>
    decreases buf.len(),
{
    match first_delimiter(buf) {
        None => Seq::empty(),
        Some((p, l)) => {
            proof {
                lemma_delimiter_bounds(buf, 0);
            }
            let m = frame_meaning(buf.take(p));
            let rest = buf.skip(p + l);
            match m {
                FrameMeaning::Invalid(_) => seq![m],
                FrameMeaning::Empty => frame_meanings(rest),
                _ => seq![m] + frame_meanings(rest),
            }
        },
    }
}

/// What stays buffered of `buf` once its frames are read: the bytes after the last complete
/// frame, or after the first frame that is not UTF-8.
pub open spec fn unread(buf: Seq<u8>) -> Seq<u8>
    decreases buf.len(),
{
    match first_delimiter(buf) {
        None => buf,
        Some((p, l)) => {
            proof {
                lemma_delimiter_bounds(buf, 0);
            }
            let rest = buf.skip(p + l);
            if frame_meaning(buf.take(p)) is Invalid {
                rest
            } else {
                unread(rest)
            }
        },
    }
}

proof fn lemma_delimiter_found(buf: Seq<u8>, q: int)
    requires
        0 <= q,
    ensures
        delimiter_from(buf, q) matches Some((p, l)) ==> delimiter_at(buf, p) == Some(l) && q <= p && p + l
            <= buf.len(),
    decreases buf.len() - q,
{
    lemma_delimiter_bounds(buf, q);
    if q < buf.len() && delimiter_at(buf, q) is None {
        lemma_delimiter_found(buf, q + 1);
    }
}

proof fn lemma_delimiter_extends(a: Seq<u8>, b: Seq<u8>, q: int)
    requires
        0 <= q,
        delimiter_from(a, q) is Some,
    ensures
        delimiter_from(a + b, q) == delimiter_from(a, q),
    decreases a.len() - q,
{
    let ab = a + b;
    lemma_delimiter_found(a, q);
    let (p, l) = delimiter_from(a, q)->0;
    assert(ab[p] == a[p] && ab[p + 1] == a[p + 1]);
    if l == 4 {
        assert(ab[p + 2] == a[p + 2] && ab[p + 3] == a[p + 3]);
    }
    if delimiter_at(a, q) is Some {
        assert(q == p);
    } else {
        lemma_delimiter_extends(a, b, q + 1);
        assert(ab[q] == a[q] && ab[q + 1] == a[q + 1]);
        if q + 2 < a.len() {
            assert(ab[q + 2] == a[q + 2]);
        }
        if q + 3 < a.len() {
            assert(ab[q + 3] == a[q + 3]);
        }
    }
}

/// Reading a byte stream in two pushes gives what one push of all its bytes gives: the events
/// of the first push followed by those of the second, and the same bytes left buffered. This
/// holds whenever the first push met no frame that is not UTF-8, after which reading stops.
pub proof fn law_split_push_reads_as_one(a: Seq<u8>, b: Seq<u8>)
    requires
        forall|k: int| 0 <= k < frame_meanings(a).len() ==> !(#[trigger] frame_meanings(a)[k] is Invalid),
    ensures
        frame_meanings(a + b) == frame_meanings(a) + frame_meanings(unread(a) + b),
        unread(a + b) == unread(unread(a) + b),
    decreases a.len(),
{
    match first_delimiter(a) {
        None => {
            assert(frame_meanings(a) =~= Seq::<FrameMeaning>::empty());
            assert(frame_meanings(a) + frame_meanings(unread(a) + b) =~= frame_meanings(a + b));
        },
        Some((p, l)) => {
            lemma_delimiter_extends(a, b, 0);
            lemma_delimiter_bounds(a, 0);
            let ab = a + b;
            let rest = a.skip(p + l);
            assert(ab.take(p) =~= a.take(p));
            assert(ab.skip(p + l) =~= rest + b);
            let m = frame_meaning(a.take(p));
            if m is Invalid {
                assert(frame_meanings(a)[0] is Invalid);
            } else {
                assert forall|k: int| 0 <= k < frame_meanings(rest).len() implies !(
                #[trigger] frame_meanings(rest)[k] is Invalid) by {
                    if !(m is Empty) {
                        assert(frame_meanings(a)[k + 1] == frame_meanings(rest)[k]);
                    }
                }
                law_split_push_reads_as_one(rest, b);
                if m is Empty {
                    assert(frame_meanings(a) == frame_meanings(rest));
                } else {
                    assert(frame_meanings(a + b) =~= seq![m] + frame_meanings(rest + b));
                    assert(frame_meanings(a + b) =~= frame_meanings(a) + frame_meanings(unread(a) + b));
                }
            }
        },
    }
}

/// The frames read from a stream's first part are the first frames read from the whole
/// stream.
pub proof fn lemma_frame_meanings_prefix(a: Seq<u8>, b: Seq<u8>)
    ensures
        frame_meanings(a).len() <= frame_meanings(a + b).len(),
        forall|k: int| 0 <= k < frame_meanings(a).len() ==> #[trigger] frame_meanings(a)[k] == frame_meanings(a + b)[k],
    decreases a.len(),
{
    match first_delimiter(a) {
        None => {},
        Some((p, l)) => {
            lemma_delimiter_extends(a, b, 0);
            lemma_delimiter_bounds(a, 0);
            let ab = a + b;
            let rest = a.skip(p + l);
            assert(ab.take(p) =~= a.take(p));
            assert(ab.skip(p + l) =~= rest + b);
            let m = frame_meaning(a.take(p));
            if !(m is Invalid) {
                lemma_frame_meanings_prefix(rest, b);
                if !(m is Empty) {
                    assert forall|k: int| 0 <= k < frame_meanings(a).len() implies #[trigger] frame_meanings(a)[k]
                        == frame_meanings(a + b)[k] by {
                        if k > 0 {
                            assert(frame_meanings(a)[k] == frame_meanings(rest)[k - 1]);
                            assert(frame_meanings(a + b)[k] == frame_meanings(rest + b)[k - 1]);
                        }
                    }
                }
            }
        },
    }
}

/// Whenever no frame of a whole byte stream is undecodable, reading it in two pushes at
/// any boundary gives what one push of all its bytes gives: the same events in the same
/// order, and the same bytes left buffered.
pub proof fn law_chunk_boundaries_do_not_change_events(a: Seq<u8>, b: Seq<u8>)
    requires
        forall|k: int| 0 <= k < frame_meanings(a + b).len() ==> !(#[trigger] frame_meanings(a + b)[k] is Invalid),
    ensures
        frame_meanings(a + b) == frame_meanings(a) + frame_meanings(unread(a) + b),
        unread(a + b) == unread(unread(a) + b),
{
    lemma_frame_meanings_prefix(a, b);
    assert forall|k: int| 0 <= k < frame_meanings(a).len() implies !(#[trigger] frame_meanings(a)[k] is Invalid) by {
        assert(frame_meanings(a)[k] == frame_meanings(a + b)[k]);
    }
    law_split_push_reads_as_one(a, b);
}

/// Incremental frame reader over a byte stream.
#[derive(Debug, Default)]
pub struct SseParser {
    buffer: Vec<u8>,
}

impl SseParser {
    /// Bytes received but not yet part of a complete frame.
    pub closed spec fn spec_buffer(&self) -> Seq<u8> {
        self.buffer@
    }

    /// An empty reader.
    pub fn new() -> (r: Self)
        ensures
            r.spec_buffer().len() == 0,
    {
        SseParser { buffer: Vec::new() }
    }

    /// Appends `chunk` and decodes every frame it completes, in order; after a frame that is
    /// not UTF-8, the remaining frames stay buffered. Frames without data yield nothing.
    pub fn push(&mut self, chunk: &[u8]) -> (r: Vec<Result<SseEvent, LlmError>>)
        ensures
            ({
                let all = old(self).spec_buffer() + chunk@;
                &&& final(self).spec_buffer() == unread(all)
                &&& r@.len() == frame_meanings(all).len()
                &&& forall|k: int| 0 <= k < r@.len() ==> yields(frame_meanings(all)[k], #[trigger] r@[k])
            }),
    {
        let mut k: usize = 0;
        while k < chunk.len()
            invariant
                k <= chunk@.len(),
                self.buffer@ == old(self).spec_buffer() + chunk@.take(k as int),
            decreases chunk.len() - k,
        {
            self.buffer.push(chunk[k]);
            k = k + 1;
            assert(self.buffer@ =~= old(self).spec_buffer() + chunk@.take(k as int));
        }
        assert(chunk@.take(k as int) =~= chunk@);
        let ghost all = self.buffer@;
        let mut events: Vec<Result<SseEvent, LlmError>> = Vec::new();
        loop
            invariant_except_break
                events@.len() + frame_meanings(self.buffer@).len() == frame_meanings(all).len(),
                forall|q: int|
                    0 <= q < frame_meanings(self.buffer@).len() ==> frame_meanings(all)[events@.len() + q]
                        == #[trigger] frame_meanings(self.buffer@)[q],
                unread(self.buffer@) == unread(all),
            invariant
                forall|q: int| 0 <= q < events@.len() ==> yields(frame_meanings(all)[q], #[trigger] events@[q]),
            ensures
                self.buffer@ == unread(all),
                events@.len() == frame_meanings(all).len(),
            decreases self.buffer@.len(),
        {
            let ghost before = self.buffer@;
            match self.next_frame() {
                None => {
                    break;
                },
                Some(frame) => {
                    let ghost m = frame_meaning(frame@);
                    let ghost rest = self.buffer@;
                    assert(frame_meanings(before) == match m {
                        FrameMeaning::Invalid(_) => seq![m],
                        FrameMeaning::Empty => frame_meanings(rest),
                        _ => seq![m] + frame_meanings(rest),
                    });
                    let ghost n0: int = events@.len() as int;
                    match parse_sse_event(frame) {
                        Ok(Some(event)) => {
                            assert(frame_meanings(before)[0] == m);
                            assert(frame_meanings(all)[n0 as int] == frame_meanings(before)[0]);
                            events.push(Ok(event));
                            assert forall|q: int| 0 <= q < frame_meanings(self.buffer@).len() implies frame_meanings(all)[events@.len() + q]
                                == #[trigger] frame_meanings(self.buffer@)[q] by {
                                assert(frame_meanings(before)[q + 1] == frame_meanings(rest)[q]);
                                assert(frame_meanings(all)[n0 + (q + 1)] == frame_meanings(before)[q + 1]);
                            }
                        },
                        Ok(None) => {},
                        Err(error) => {
                            assert(frame_meanings(before)[0] == m);
                            assert(frame_meanings(all)[n0 as int] == frame_meanings(before)[0]);
                            events.push(Err(error));
                            break;
                        },
                    }
                },
            }
        }
        events
    }

    fn next_frame(&mut self) -> (r: Option<Vec<u8>>)
        ensures
            r is None ==> final(self).spec_buffer() == old(self).spec_buffer() && first_delimiter(
                old(self).spec_buffer(),
            ) is None,
            r matches Some(frame) ==> (first_delimiter(old(self).spec_buffer()) matches Some((p, l))
                && frame@ == old(self).spec_buffer().take(p) && final(self).spec_buffer() == old(
                self,
            ).spec_buffer().skip(p + l) && 0 <= p && p + l <= old(self).spec_buffer().len() && l > 0),
    {
        proof {
            lemma_delimiter_bounds(self.buffer@, 0);
        }
        match event_delimiter(self.buffer.as_slice()) {
            None => None,
            Some((end, len)) => {
                let ghost before = self.buffer@;
                let (frame, rest) = split_frame(&self.buffer, end, len);
                self.buffer = rest;
                assert(first_delimiter(before) == Some((end as int, len as int)));
                Some(frame)
            },
        }
    }

    /// Whether bytes of an incomplete frame remain.
    pub fn has_pending(&self) -> (r: bool)
        ensures
            r == (self.spec_buffer().len() > 0),
    {
        self.buffer.len() > 0
    }
}

/// The error of a stream that ended unexpectedly with `message`.
pub fn stream_eof_error(message: &'static str) -> (r: LlmError)
    ensures
        r matches LlmError::Stream { message: m } && m@ == message@,
{
    LlmError::Stream { message: owned(message) }
}

} // verus!
