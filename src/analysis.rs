use vstd::prelude::*;
use crate::syntax::Span;
use crate::text::{occurs_in, text_contains};
use crate::walk::{Match, MatchKind};

verus! {

/// A reported hazard: a write that may be followed by an error in the same
/// function.
#[derive(Clone, Copy, Debug, PartialEq, Eq, Structural)]
pub struct Finding {
    /// The whole function.
    pub primary_span: Span,
    /// The earliest call taken for a write.
    pub write_span: Span,
    /// The latest return or `?`.
    pub error_span: Span,
}

/// A plain call whose source text is known and holds the marker.
pub open spec fn is_write(m: Match, marker: Seq<char>) -> bool {
    m.kind == MatchKind::Call && match m.snippet {
        Some(s) => occurs_in(marker, s@),
        None => false,
    }
}

/// A return or a `?`.
pub open spec fn is_error(m: Match) -> bool {
    m.kind == MatchKind::Return || m.kind == MatchKind::TryPropagate
}

/// The span of the first write in the sequence.
pub open spec fn first_write(ms: Seq<Match>, marker: Seq<char>) -> Option<Span>
    decreases ms.len(),
{
    if ms.len() == 0 {
        None
    } else {
        match first_write(ms.drop_last(), marker) {
            Some(sp) => Some(sp),
            None => if is_write(ms.last(), marker) {
                Some(ms.last().span)
            } else {
                None
            },
        }
    }
}

/// The span of the last return or `?` in the sequence.
pub open spec fn last_error(ms: Seq<Match>) -> Option<Span>
    decreases ms.len(),
{
    if ms.len() == 0 {
        None
    } else if is_error(ms.last()) {
        Some(ms.last().span)
    } else {
        last_error(ms.drop_last())
    }
}

/// The finding for one function, if its first write starts strictly before
/// its last return or `?`.
pub open spec fn finding_of(ms: Seq<Match>, marker: Seq<char>, fn_span: Span) -> Option<Finding> {
    match (first_write(ms, marker), last_error(ms)) {
        (Some(w), Some(e)) => if w.lo < e.lo {
            Some(Finding { primary_span: fn_span, write_span: w, error_span: e })
        } else {
            None
        },
        _ => None,
    }
}

/// Whether one record counts as a write; a missing snippet never does.
pub fn is_write_match(m: &Match, marker: &str) -> (r: bool)
    ensures
        r == is_write(*m, marker@),
{
    match m.kind {
        MatchKind::Call => match &m.snippet {
            Some(s) => text_contains(s.as_str(), marker),
            None => false,
        },
        _ => false,
    }
}

/// Reduces the records of one function body to at most one finding.
pub fn analyze(ms: &Vec<Match>, marker: &str, fn_span: Span) -> (r: Option<Finding>)
    ensures
        r == finding_of(ms@, marker@, fn_span),
{
    let mut earliest_write: Option<Span> = None;
    let mut latest_error: Option<Span> = None;
    let n: usize = ms.len();
    let mut i: usize = 0;
    while i < n
        invariant
            n == ms@.len(),
            i <= n,
            earliest_write == first_write(ms@.subrange(0, i as int), marker@),
            latest_error == last_error(ms@.subrange(0, i as int)),
        decreases n - i,
    {
        let m = &ms[i];
        proof {
            let s = ms@.subrange(0, i + 1);
            assert(s.drop_last() == ms@.subrange(0, i as int));
            assert(s.last() == ms@[i as int]);
        }
        match m.kind {
            MatchKind::Call => {
                if earliest_write.is_none() {
                    if is_write_match(m, marker) {
                        earliest_write = Some(m.span);
                    }
                }
            },
            MatchKind::Return | MatchKind::TryPropagate => {
                latest_error = Some(m.span);
            },
            MatchKind::MethodCall => {},
        }
        i = i + 1;
    }
    assert(ms@.subrange(0, n as int) == ms@);
    match (earliest_write, latest_error) {
        (Some(w), Some(e)) => if w.lo < e.lo {
            Some(Finding { primary_span: fn_span, write_span: w, error_span: e })
        } else {
            None
        },
        _ => None,
    }
}

} // verus!
