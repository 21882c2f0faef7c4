//! Spans are ordered by file path, then by start, then by end.
use vstd::prelude::*;
use core::cmp::Ordering;
use vstd::std_specs::cmp::PartialOrdSpecImpl;
use crate::location::source_span::{SourceSpan, SpanView};
use crate::text::chars_of;

verus! {

/// The dictionary order of two texts by their characters, as -1, 0 or 1;
/// a proper prefix comes first. On UTF-8 texts this is the order of their
/// bytes.
pub open spec fn text_rank(a: Seq<char>, b: Seq<char>) -> int
    decreases a.len(),
{
    if a.len() == 0 && b.len() == 0 {
        0
    } else if a.len() == 0 {
        -1
    } else if b.len() == 0 {
        1
    } else if a[0] < b[0] {
        -1
    } else if a[0] > b[0] {
        1
    } else {
        text_rank(a.drop_first(), b.drop_first())
    }
}

/// The numeric order of two offsets, as -1, 0 or 1.
pub open spec fn offset_rank(a: i64, b: i64) -> int {
    if a < b {
        -1
    } else if a > b {
        1
    } else {
        0
    }
}

/// The order of two spans, as -1, 0 or 1: by file path, then start offset,
/// then end offset.
pub open spec fn span_rank(a: SpanView, b: SpanView) -> int {
    if text_rank(a.file_path, b.file_path) != 0 {
        text_rank(a.file_path, b.file_path)
    } else if offset_rank(a.start.spec_offset(), b.start.spec_offset()) != 0 {
        offset_rank(a.start.spec_offset(), b.start.spec_offset())
    } else {
        offset_rank(a.end.spec_offset(), b.end.spec_offset())
    }
}

/// The dictionary order of two texts, as -1, 0 or 1.
fn text_rank_of(a: &str, b: &str) -> (r: i8)
    ensures
        r == text_rank(a@, b@),
{
    let x = chars_of(a);
    let y = chars_of(b);
    let mut i: usize = 0;
    assert(x@.subrange(0, x@.len() as int) =~= x@);
    assert(y@.subrange(0, y@.len() as int) =~= y@);
    while i < x.len() && i < y.len()
        invariant
            i <= x@.len(),
            i <= y@.len(),
            x@ == a@,
            y@ == b@,
            text_rank(a@, b@) == text_rank(x@.subrange(i as int, x@.len() as int), y@.subrange(
                i as int,
                y@.len() as int,
            )),
        decreases x.len() - i,
    {
        let ghost xs = x@.subrange(i as int, x@.len() as int);
        let ghost ys = y@.subrange(i as int, y@.len() as int);
        if x[i] < y[i] {
            assert(xs[0] == x@[i as int] && ys[0] == y@[i as int]);
            return -1;
        }
        if x[i] > y[i] {
            assert(xs[0] == x@[i as int] && ys[0] == y@[i as int]);
            return 1;
        }
        proof {
            assert(xs.drop_first() =~= x@.subrange(i + 1, x@.len() as int));
            assert(ys.drop_first() =~= y@.subrange(i + 1, y@.len() as int));
        }
        i = i + 1;
    }
    let ghost xs = x@.subrange(i as int, x@.len() as int);
    let ghost ys = y@.subrange(i as int, y@.len() as int);
    if x.len() == y.len() {
        assert(xs.len() == 0 && ys.len() == 0);
        0
    } else if i == x.len() {
        assert(xs.len() == 0 && ys.len() > 0);
        -1
    } else {
        assert(xs.len() > 0 && ys.len() == 0);
        1
    }
}

/// The numeric order of two offsets, as -1, 0 or 1.
fn offset_rank_of(a: i64, b: i64) -> (r: i8)
    ensures
        r == offset_rank(a, b),
{
    if a < b {
        -1
    } else if a > b {
        1
    } else {
        0
    }
}

/// The order of two spans, as -1, 0 or 1.
fn span_rank_of(a: &SourceSpan, b: &SourceSpan) -> (r: i8)
    ensures
        r == span_rank(a@, b@),
{
    let by_file = text_rank_of(a.file_path(), b.file_path());
    if by_file != 0 {
        return by_file;
    }
    let by_start = offset_rank_of(a.start().offset(), b.start().offset());
    if by_start != 0 {
        return by_start;
    }
    offset_rank_of(a.end().offset(), b.end().offset())
}

/// Spans compare by file path, then start offset, then end offset.
impl PartialOrd for SourceSpan {
    fn partial_cmp(&self, other: &Self) -> (r: Option<Ordering>) {
        let rank = span_rank_of(self, other);
        if rank < 0 {
            Some(Ordering::Less)
        } else if rank > 0 {
            Some(Ordering::Greater)
        } else {
            Some(Ordering::Equal)
        }
    }
}

impl PartialOrdSpecImpl for SourceSpan {
    open spec fn obeys_partial_cmp_spec() -> bool {
        true
    }

    open spec fn partial_cmp_spec(&self, other: &Self) -> Option<Ordering> {
        if span_rank(self@, other@) < 0 {
            Some(Ordering::Less)
        } else if span_rank(self@, other@) > 0 {
            Some(Ordering::Greater)
        } else {
            Some(Ordering::Equal)
        }
    }
}

} // verus!
