use vstd::prelude::*;

verus! {

/// A parameter byte of a cursor-position sequence: a digit or `;`.
pub open spec fn is_param(c: u8) -> bool {
    c == 59 || (48 <= c <= 57)
}

/// How far back from `i` the parameter bytes reach.
pub open spec fn params_start(vt: Seq<u8>, i: int) -> int
    decreases i,
{
    if i > 0 && i <= vt.len() && is_param(vt[i - 1]) {
        params_start(vt, i - 1)
    } else {
        i
    }
}

/// Where the rows of a VT dump end: before a trailing cursor-position
/// sequence (`ESC [ params H`) when there is one, else at the end.
pub open spec fn content_end(vt: Seq<u8>) -> int {
    if vt.len() > 0 && vt.last() == 72 {
        let start = params_start(vt, vt.len() - 1);
        if start >= 2 && vt[start - 2] == 0x1b && vt[start - 1] == 91 {
            start - 2
        } else {
            vt.len() as int
        }
    } else {
        vt.len() as int
    }
}

/// A row's end: before the `\r` of a `\r\n` line ending (or of a final `\r`).
pub open spec fn row_end(content: Seq<u8>, start: int, stop: int) -> int {
    if stop > start && content[stop - 1] == 13 {
        stop - 1
    } else {
        stop
    }
}

/// No line feed in `content[from..to]`.
pub open spec fn no_newline(content: Seq<u8>, from: int, to: int) -> bool {
    forall|k: int| from <= k < to ==> content[k] != 10
}

/// `rows` are the line ranges of `content`: one per `\n`-terminated line and
/// one for the rest, each without its `\r`.
pub open spec fn line_ranges(content: Seq<u8>, rows: Seq<core::ops::Range<usize>>) -> bool {
    &&& rows.len() >= 1
    &&& rows[0].start == 0
    &&& forall|i: int| 0 <= i < rows.len() - 1 ==> {
        let next = #[trigger] rows[i + 1].start as int;
        &&& rows[i].start < next <= content.len()
        &&& content[next - 1] == 10
        &&& no_newline(content, rows[i].start as int, next - 1)
        &&& rows[i].end == row_end(content, rows[i].start as int, next - 1)
    }
    &&& rows.last().start <= content.len()
    &&& no_newline(content, rows.last().start as int, content.len() as int)
    &&& rows.last().end == row_end(content, rows.last().start as int, content.len() as int)
}

/// How many line feeds `content[from..to]` holds.
pub open spec fn newlines(content: Seq<u8>, from: int, to: int) -> nat
    decreases to - from,
{
    if to <= from {
        0
    } else {
        newlines(content, from, to - 1) + if content[to - 1] == 10 { 1nat } else { 0nat }
    }
}

proof fn lemma_newlines_split(content: Seq<u8>, a: int, b: int, c: int)
    requires
        a <= b <= c,
    ensures
        newlines(content, a, c) == newlines(content, a, b) + newlines(content, b, c),
    decreases c - b,
{
    if c > b {
        lemma_newlines_split(content, a, b, c - 1);
    }
}

proof fn lemma_newlines_none(content: Seq<u8>, a: int, b: int)
    requires
        no_newline(content, a, b),
    ensures
        newlines(content, a, b) == 0,
    decreases b - a,
{
    if b > a {
        lemma_newlines_none(content, a, b - 1);
    }
}

proof fn lemma_rows_before(content: Seq<u8>, rows: Seq<core::ops::Range<usize>>, k: int)
    requires
        line_ranges(content, rows),
        0 <= k < rows.len(),
    ensures
        newlines(content, 0, rows[k].start as int) == k,
    decreases k,
{
    if k == 0 {
    } else {
        lemma_rows_before(content, rows, k - 1);
        let a = rows[k - 1].start as int;
        let b = rows[k].start as int;
        assert(rows[(k - 1) + 1].start == rows[k].start);
        assert(a < b <= content.len());
        lemma_newlines_none(content, a, b - 1);
        lemma_newlines_split(content, 0, a, b - 1);
        lemma_newlines_split(content, 0, b - 1, b);
    }
}

/// The rows of a text, as [`line_ranges`] gives them, are one more than its
/// line feeds; each lies inside the text, holds no line feed, and ends
/// before the next one starts.
pub proof fn lemma_rows_law(content: Seq<u8>, rows: Seq<core::ops::Range<usize>>)
    requires
        line_ranges(content, rows),
    ensures
        rows.len() == 1 + newlines(content, 0, content.len() as int),
        forall|i: int| 0 <= i < rows.len() ==> (#[trigger] rows[i]).start <= rows[i].end <= content.len()
            && no_newline(content, rows[i].start as int, rows[i].end as int),
        forall|i: int| 0 <= i < rows.len() - 1 ==> (#[trigger] rows[i]).end < rows[i + 1].start,
{
    lemma_rows_before(content, rows, rows.len() - 1);
    let last = rows[rows.len() - 1].start as int;
    lemma_newlines_none(content, last, content.len() as int);
    lemma_newlines_split(content, 0, last, content.len() as int);
    assert forall|i: int| 0 <= i < rows.len() implies (#[trigger] rows[i]).start <= rows[i].end <= content.len()
        && no_newline(content, rows[i].start as int, rows[i].end as int) by {
        if i < rows.len() - 1 {
            let next = rows[i + 1].start as int;
            assert(rows[i].start < next);
        }
    }
    assert forall|i: int| 0 <= i < rows.len() - 1 implies (#[trigger] rows[i]).end < rows[i + 1].start by {
        let next = rows[i + 1].start as int;
        assert(rows[i].start < next);
    }
}

/// The byte ranges of the rows of a VT dump: split at `\n`, each without a
/// `\r` before it, the whole without a trailing cursor-position sequence.
pub fn copy_vt_row_ranges(vt: &[u8]) -> (rows: Vec<core::ops::Range<usize>>)
    ensures
        line_ranges(vt@.take(content_end(vt@)), rows@),
{
    let ghost v = vt@;
    let len = vt.len();
    let mut content_len = len;
    if len > 0 && vt[len - 1] == 72 {
        let mut start = len - 1;
        while start > 0 && (vt[start - 1] == 59 || (48 <= vt[start - 1] && vt[start - 1] <= 57))
            invariant
                0 <= start < len,
                len == v.len(),
                v == vt@,
                params_start(v, start as int) == params_start(v, len - 1),
            decreases start,
        {
            start -= 1;
        }
        if start >= 2 && vt[start - 2] == 0x1b && vt[start - 1] == 91 {
            content_len = start - 2;
        }
    }
    proof {
        assert(content_len == content_end(v));
    }
    let ghost content = v.take(content_len as int);
    let mut rows: Vec<core::ops::Range<usize>> = Vec::new();
    let mut start: usize = 0;
    let mut offset: usize = 0;
    while offset < content_len
        invariant
            0 <= start <= offset <= content_len <= len,
            len == v.len(),
            v == vt@,
            content == v.take(content_len as int),
            no_newline(content, start as int, offset as int),
            rows@.len() >= 1 ==> rows@.last().end <= start,
            rows@.len() >= 1 ==> rows@[0].start == 0,
            rows@.len() == 0 ==> start == 0,
            rows@.len() >= 1 ==> rows@.last().start < start && content[start - 1] == 10
                && no_newline(content, rows@.last().start as int, start - 1)
                && rows@.last().end == row_end(content, rows@.last().start as int, start - 1),
            forall|i: int| 0 <= i < rows@.len() - 1 ==> {
                let next = #[trigger] rows@[i + 1].start as int;
                &&& rows@[i].start < next <= content.len()
                &&& content[next - 1] == 10
                &&& no_newline(content, rows@[i].start as int, next - 1)
                &&& rows@[i].end == row_end(content, rows@[i].start as int, next - 1)
            },
        decreases content_len - offset,
    {
        if vt[offset] == 10 {
            let end = if offset > start && vt[offset - 1] == 13 { offset - 1 } else { offset };
            let ghost prev = rows@;
            rows.push(start..end);
            proof {
                assert forall|i: int| 0 <= i < rows@.len() - 1 implies {
                    let next = #[trigger] rows@[i + 1].start as int;
                    &&& rows@[i].start < next <= content.len()
                    &&& content[next - 1] == 10
                    &&& no_newline(content, rows@[i].start as int, next - 1)
                    &&& rows@[i].end == row_end(content, rows@[i].start as int, next - 1)
                } by {
                    if i < prev.len() - 1 {
                        assert(rows@[i] == prev[i] && rows@[i + 1] == prev[i + 1]);
                    } else {
                        assert(rows@[i] == prev.last());
                    }
                }
            }
            start = offset + 1;
        }
        offset += 1;
    }
    let end = if content_len > start && vt[content_len - 1] == 13 { content_len - 1 } else { content_len };
    let ghost prev = rows@;
    rows.push(start..end);
    proof {
        assert forall|i: int| 0 <= i < rows@.len() - 1 implies {
            let next = #[trigger] rows@[i + 1].start as int;
            &&& rows@[i].start < next <= content.len()
            &&& content[next - 1] == 10
            &&& no_newline(content, rows@[i].start as int, next - 1)
            &&& rows@[i].end == row_end(content, rows@[i].start as int, next - 1)
        } by {
            if i < prev.len() - 1 {
                assert(rows@[i] == prev[i] && rows@[i + 1] == prev[i + 1]);
            } else {
                assert(rows@[i] == prev.last());
            }
        }
    }
    rows
}

/// Output as a terminal would receive it: each `\n` not already preceded by
/// `\r` gets one.
pub open spec fn crlf_text(output: Seq<u8>) -> Seq<u8>
    decreases output.len(),
{
    if output.len() == 0 {
        Seq::empty()
    } else {
        let last = output.last();
        let tail = if last == 10 && !(output.len() >= 2 && output[output.len() - 2] == 13) {
            seq![13u8, 10u8]
        } else {
            seq![last]
        };
        crlf_text(output.drop_last()) + tail
    }
}

/// Turn captured output into VT text: a bare `\n` becomes `\r\n`.
pub fn view_output_vt(output: &[u8]) -> (vt: Vec<u8>)
    ensures
        vt@ == crlf_text(output@),
{
    let mut vt: Vec<u8> = Vec::new();
    let mut previous: Option<u8> = None;
    let mut i: usize = 0;
    while i < output.len()
        invariant
            0 <= i <= output.len(),
            vt@ == crlf_text(output@.take(i as int)),
            previous == (if i == 0 { None } else { Some(output@[i - 1]) }),
        decreases output.len() - i,
    {
        let byte = output[i];
        let ghost before = vt@;
        if byte == 10 && previous != Some(13u8) {
            vt.push(13);
        }
        vt.push(byte);
        proof {
            let t = output@.take(i + 1);
            assert(t.drop_last() =~= output@.take(i as int));
            assert(t.last() == byte);
            if i >= 1 {
                assert(t[t.len() - 2] == output@[i - 1]);
            }
            assert(vt@ =~= crlf_text(t));
        }
        previous = Some(byte);
        i += 1;
    }
    proof {
        assert(output@.take(i as int) =~= output@);
    }
    vt
}

} // verus!
