use vstd::prelude::*;
use crate::analysis::{finding_of, first_write, is_error, is_write, last_error, Finding};
use crate::syntax::Span;
use crate::walk::{Match, MatchKind};
use crate::text::occurs_in;

verus! {

proof fn lemma_first_write_none(ms: Seq<Match>, marker: Seq<char>)
    requires
        forall|j: int| 0 <= j < ms.len() ==> !is_write(#[trigger] ms[j], marker),
    ensures
        first_write(ms, marker) is None,
    decreases ms.len(),
{
    if ms.len() > 0 {
        let d = ms.drop_last();
        assert forall|j: int| 0 <= j < d.len() implies !is_write(#[trigger] d[j], marker) by {
            assert(d[j] == ms[j]);
        }
        lemma_first_write_none(d, marker);
    }
}

proof fn lemma_first_write_at(ms: Seq<Match>, marker: Seq<char>, i: int)
    requires
        0 <= i < ms.len(),
        is_write(ms[i], marker),
        forall|j: int| 0 <= j < i ==> !is_write(#[trigger] ms[j], marker),
    ensures
        first_write(ms, marker) == Some(ms[i].span),
    decreases ms.len(),
{
    let d = ms.drop_last();
    if i == ms.len() - 1 {
        assert forall|j: int| 0 <= j < d.len() implies !is_write(#[trigger] d[j], marker) by {
            assert(d[j] == ms[j]);
        }
        lemma_first_write_none(d, marker);
    } else {
        assert forall|j: int| 0 <= j < i implies !is_write(#[trigger] d[j], marker) by {
            assert(d[j] == ms[j]);
        }
        assert(d[i] == ms[i]);
        lemma_first_write_at(d, marker, i);
    }
}

proof fn lemma_last_error_none(ms: Seq<Match>)
    requires
        forall|j: int| 0 <= j < ms.len() ==> !is_error(#[trigger] ms[j]),
    ensures
        last_error(ms) is None,
    decreases ms.len(),
{
    if ms.len() > 0 {
        let d = ms.drop_last();
        assert forall|j: int| 0 <= j < d.len() implies !is_error(#[trigger] d[j]) by {
            assert(d[j] == ms[j]);
        }
        lemma_last_error_none(d);
    }
}

proof fn lemma_last_error_at(ms: Seq<Match>, i: int)
    requires
        0 <= i < ms.len(),
        is_error(ms[i]),
        forall|j: int| i < j < ms.len() ==> !is_error(#[trigger] ms[j]),
    ensures
        last_error(ms) == Some(ms[i].span),
    decreases ms.len(),
{
    if i < ms.len() - 1 {
        let d = ms.drop_last();
        assert forall|j: int| i < j < d.len() implies !is_error(#[trigger] d[j]) by {
            assert(d[j] == ms[j]);
        }
        assert(d[i] == ms[i]);
        lemma_last_error_at(d, i);
    }
}

proof fn lemma_first_write_concat(p: Seq<Match>, q: Seq<Match>, marker: Seq<char>)
    ensures
        first_write(p + q, marker) == (if first_write(p, marker) is Some {
            first_write(p, marker)
        } else {
            first_write(q, marker)
        }),
    decreases q.len(),
{
    if q.len() == 0 {
        assert(p + q == p);
    } else {
        assert((p + q).drop_last() == p + q.drop_last());
        assert((p + q).last() == q.last());
        lemma_first_write_concat(p, q.drop_last(), marker);
    }
}

proof fn lemma_last_error_concat(p: Seq<Match>, q: Seq<Match>)
    ensures
        last_error(p + q) == (if last_error(q) is Some {
            last_error(q)
        } else {
            last_error(p)
        }),
    decreases q.len(),
{
    if q.len() == 0 {
        assert(p + q == p);
    } else {
        assert((p + q).drop_last() == p + q.drop_last());
        assert((p + q).last() == q.last());
        lemma_last_error_concat(p, q.drop_last());
    }
}

/// With exactly one write and exactly one return or `?` among the records, the
/// function is reported if and only if the write starts strictly before the
/// return; the finding then points at those two. Exchanging their places in the
/// source therefore turns a report into none and back.
pub proof fn lemma_order_decides(ms: Seq<Match>, marker: Seq<char>, fn_span: Span, w: int, e: int)
    requires
        0 <= w < ms.len(),
        0 <= e < ms.len(),
        is_write(ms[w], marker),
        is_error(ms[e]),
        forall|j: int| 0 <= j < ms.len() && j != w ==> !is_write(#[trigger] ms[j], marker),
        forall|j: int| 0 <= j < ms.len() && j != e ==> !is_error(#[trigger] ms[j]),
    ensures
        finding_of(ms, marker, fn_span) is Some <==> ms[w].span.lo < ms[e].span.lo,
        finding_of(ms, marker, fn_span) is Some ==> finding_of(ms, marker, fn_span) == Some(
            Finding { primary_span: fn_span, write_span: ms[w].span, error_span: ms[e].span },
        ),
{
    lemma_first_write_at(ms, marker, w);
    lemma_last_error_at(ms, e);
}

/// Of two writes, the one met first in the walk is the one compared: with a
/// single return or `?` that starts after the first write and before the second,
/// the function is reported, with the first write.
pub proof fn lemma_first_write_wins(
    ms: Seq<Match>,
    marker: Seq<char>,
    fn_span: Span,
    w1: int,
    w2: int,
    e: int,
)
    requires
        0 <= w1 < w2 < ms.len(),
        0 <= e < ms.len(),
        is_write(ms[w1], marker),
        is_write(ms[w2], marker),
        is_error(ms[e]),
        forall|j: int|
            0 <= j < ms.len() && j != w1 && j != w2 ==> !is_write(#[trigger] ms[j], marker),
        forall|j: int| 0 <= j < ms.len() && j != e ==> !is_error(#[trigger] ms[j]),
        ms[w1].span.lo < ms[e].span.lo,
        ms[e].span.lo < ms[w2].span.lo,
    ensures
        finding_of(ms, marker, fn_span) == Some(
            Finding { primary_span: fn_span, write_span: ms[w1].span, error_span: ms[e].span },
        ),
{
    lemma_first_write_at(ms, marker, w1);
    lemma_last_error_at(ms, e);
}

/// Of two returns or `?`s, the one met last in the walk is the one compared:
/// with a single write before both, the function is reported with the later one.
pub proof fn lemma_last_error_wins(
    ms: Seq<Match>,
    marker: Seq<char>,
    fn_span: Span,
    w: int,
    e1: int,
    e2: int,
)
    requires
        0 <= w < ms.len(),
        0 <= e1 < e2 < ms.len(),
        is_write(ms[w], marker),
        is_error(ms[e1]),
        is_error(ms[e2]),
        forall|j: int| 0 <= j < ms.len() && j != w ==> !is_write(#[trigger] ms[j], marker),
        forall|j: int|
            0 <= j < ms.len() && j != e1 && j != e2 ==> !is_error(#[trigger] ms[j]),
        ms[w].span.lo < ms[e1].span.lo,
        ms[e1].span.lo < ms[e2].span.lo,
    ensures
        finding_of(ms, marker, fn_span) == Some(
            Finding { primary_span: fn_span, write_span: ms[w].span, error_span: ms[e2].span },
        ),
{
    lemma_first_write_at(ms, marker, w);
    lemma_last_error_at(ms, e2);
}

/// Without a write among the records, nothing is reported, whatever returns
/// and `?`s there are.
pub proof fn lemma_no_write_no_finding(ms: Seq<Match>, marker: Seq<char>, fn_span: Span)
    requires
        forall|j: int| 0 <= j < ms.len() ==> !is_write(#[trigger] ms[j], marker),
    ensures
        finding_of(ms, marker, fn_span) is None,
{
    lemma_first_write_none(ms, marker);
}

/// Without a return or `?` among the records, nothing is reported, whatever
/// writes there are.
pub proof fn lemma_no_error_no_finding(ms: Seq<Match>, marker: Seq<char>, fn_span: Span)
    requires
        forall|j: int| 0 <= j < ms.len() ==> !is_error(#[trigger] ms[j]),
    ensures
        finding_of(ms, marker, fn_span) is None,
{
    lemma_last_error_none(ms);
}

/// A call whose source text is unknown or lacks the marker plays no part:
/// dropping it from the records leaves the outcome as it was.
pub proof fn lemma_unmarked_call_ignored(ms: Seq<Match>, marker: Seq<char>, fn_span: Span, i: int)
    requires
        0 <= i < ms.len(),
        ms[i].kind == MatchKind::Call,
        match ms[i].snippet {
            Some(s) => !occurs_in(marker, s@),
            None => true,
        },
    ensures
        finding_of(ms, marker, fn_span) == finding_of(ms.remove(i), marker, fn_span),
{
    let a = ms.subrange(0, i);
    let x = seq![ms[i]];
    let b = ms.subrange(i + 1, ms.len() as int);
    assert(ms == (a + x) + b);
    assert(ms.remove(i) == a + b);
    assert(x.drop_last() == Seq::<Match>::empty());
    assert(x.last() == ms[i]);
    assert(!is_write(ms[i], marker));
    assert(!is_error(ms[i]));
    reveal_with_fuel(first_write, 2);
    reveal_with_fuel(last_error, 2);
    assert(first_write(x, marker) is None);
    assert(last_error(x) is None);
    lemma_first_write_concat(a + x, b, marker);
    lemma_first_write_concat(a, x, marker);
    lemma_first_write_concat(a, b, marker);
    lemma_last_error_concat(a + x, b);
    lemma_last_error_concat(a, x);
    lemma_last_error_concat(a, b);
}

} // verus!
