use vstd::prelude::*;
use crate::location::path_text::{truncate_path, truncated_path};
use crate::location::source_location::{location_text, SourceLocation};
use crate::location::utf8::{char_index_of_byte, is_boundary, position_of, utf8_len};
use crate::text::chars_of;

verus! {

/// Extent of a token in the source text: `start` is inclusive, `end` exclusive.
#[derive(Debug, PartialEq, Eq, Hash)]
pub struct SourceSpan {
    file_path: String,
    start: SourceLocation,
    end: SourceLocation,
}

/// Why a span could not be built.
#[derive(Debug, Clone, Copy, PartialEq, Eq)]
pub enum SpanError {
    /// The end lies before the start.
    EndBeforeStart,
}

/// The mathematical value of a span: the file path as characters and the two
/// locations.
pub struct SpanView {
    pub file_path: Seq<char>,
    pub start: SourceLocation,
    pub end: SourceLocation,
}

/// The printed form of a span: its path shortened to the last two components,
/// then `:` and the start location, and `-` and the end location unless the
/// span is empty.
pub open spec fn span_text(s: SpanView) -> Seq<char> {
    let head = truncated_path(s.file_path, 2) + ":"@ + location_text(s.start);
    if s.start.spec_offset() == s.end.spec_offset() {
        head
    } else {
        head + "-"@ + location_text(s.end)
    }
}

/// The span from the earlier start to the later end of two spans, in the
/// file of the first; on equal offsets the first span's bound is kept.
pub open spec fn merged(a: SpanView, b: SpanView) -> SpanView {
    SpanView {
        file_path: a.file_path,
        start: if a.start.spec_offset() <= b.start.spec_offset() {
            a.start
        } else {
            b.start
        },
        end: if a.end.spec_offset() >= b.end.spec_offset() {
            a.end
        } else {
            b.end
        },
    }
}

/// A merged span starts no later and ends no earlier than either span, and
/// each of its bounds is a bound of one of them: it is the smallest span
/// holding both.
pub proof fn law_merge_covers_both(a: SpanView, b: SpanView)
    ensures
        merged(a, b).start.spec_offset() <= a.start.spec_offset(),
        merged(a, b).start.spec_offset() <= b.start.spec_offset(),
        merged(a, b).end.spec_offset() >= a.end.spec_offset(),
        merged(a, b).end.spec_offset() >= b.end.spec_offset(),
        merged(a, b).start == a.start || merged(a, b).start == b.start,
        merged(a, b).end == a.end || merged(a, b).end == b.end,
        merged(a, b).file_path == a.file_path,
{
}

/// Byte offset `o` lies within the span's `[start, end)` range.
pub open spec fn covers(s: SpanView, o: int) -> bool {
    s.start.spec_offset() <= o < s.end.spec_offset()
}

impl View for SourceSpan {
    type V = SpanView;

    closed spec fn view(&self) -> SpanView {
        SpanView { file_path: self.file_path@, start: self.start, end: self.end }
    }
}

impl Clone for SourceSpan {
    fn clone(&self) -> (r: Self)
        ensures
            r@ == self@,
    {
        proof {
            use_type_invariant(self);
        }
        SourceSpan { file_path: self.file_path.clone(), start: self.start, end: self.end }
    }
}

/// The default span lies at the start of an unnamed file.
impl Default for SourceSpan {
    fn default() -> (r: Self)
        ensures
            r@.file_path == Seq::<char>::empty(),
            r@.start.has_fields(1, 1, 0, 0, -1i64, -1i64),
            r@.end.has_fields(1, 1, 0, 0, -1i64, -1i64),
    {
        SourceSpan { file_path: String::new(), start: SourceLocation::default(), end: SourceLocation::default() }
    }
}

impl SourceSpan {
    /// A span never ends before it starts.
    #[verifier::type_invariant]
    spec fn ordered(&self) -> bool {
        self.start.spec_offset() <= self.end.spec_offset()
    }

    /// Builds a span from its file path and bounds; the end must not come
    /// before the start.
    pub fn new(file_path: String, start: SourceLocation, end: SourceLocation) -> (r: Self)
        requires
            start.spec_offset() <= end.spec_offset(),
        ensures
            r@ == (SpanView { file_path: file_path@, start, end }),
    {
        Self { file_path, start, end }
    }

    /// Builds a span from its file path and bounds, refusing it with
    /// [`SpanError::EndBeforeStart`] when the end lies before the start.
    pub fn try_new(file_path: String, start: SourceLocation, end: SourceLocation) -> (r: Result<Self, SpanError>)
        ensures
            match r {
                Ok(s) => start.spec_offset() <= end.spec_offset()
                    && s@ == (SpanView { file_path: file_path@, start, end }),
                Err(e) => end.spec_offset() < start.spec_offset() && e == SpanError::EndBeforeStart,
            },
    {
        if end.offset() < start.offset() {
            Err(SpanError::EndBeforeStart)
        } else {
            Ok(Self::new(file_path, start, end))
        }
    }

    /// A zero-length span at `location`.
    pub fn point(file_path: String, location: SourceLocation) -> (r: Self)
        ensures
            r@ == (SpanView { file_path: file_path@, start: location, end: location }),
    {
        Self { file_path, start: location, end: location }
    }

    /// The file path of the span.
    pub fn file_path(&self) -> (r: &str)
        ensures
            r@ == self@.file_path,
    {
        self.file_path.as_str()
    }

    /// The printed form of the span (see [`span_text`]).
    pub fn to_text(&self) -> (r: String)
        ensures
            r@ == span_text(self@),
    {
        let mut out = truncate_path(self.file_path.as_str(), 2);
        out.append(":");
        let start = self.start.to_text();
        out.append(start.as_str());
        if self.start.offset() != self.end.offset() {
            out.append("-");
            let end = self.end.to_text();
            out.append(end.as_str());
        }
        out
    }

    /// Whether two spans are the same: same file path and same bounds.
    pub fn same_as(&self, other: &Self) -> (r: bool)
        ensures
            r == (self@ == other@),
    {
        self.file_path == other.file_path && self.start == other.start && self.end == other.end
    }

    /// Start position (inclusive).
    pub fn start(&self) -> (r: SourceLocation)
        ensures
            r == self@.start,
    {
        self.start
    }

    /// End position (exclusive).
    pub fn end(&self) -> (r: SourceLocation)
        ensures
            r == self@.end,
    {
        self.end
    }

    /// Length in UTF-8 bytes: the difference of the two offsets.
    pub fn length(&self) -> (r: usize)
        requires
            self@.end.spec_offset() - self@.start.spec_offset() <= usize::MAX,
        ensures
            r == self@.end.spec_offset() - self@.start.spec_offset(),
    {
        proof {
            use_type_invariant(self);
        }
        (self.end.offset() as i128 - self.start.offset() as i128) as usize
    }

    /// Whether the span has length zero: its two offsets coincide.
    pub fn is_empty(&self) -> (r: bool)
        ensures
            r == (self@.end.spec_offset() == self@.start.spec_offset()),
    {
        self.end.offset() == self.start.offset()
    }

    /// Whether the span starts and ends on different lines.
    pub fn is_multiline(&self) -> (r: bool)
        ensures
            r == (self@.start.spec_line() != self@.end.spec_line()),
    {
        self.start.line() != self.end.line()
    }

    /// Whether `location` falls within `[start, end)`.
    pub fn contains(&self, location: SourceLocation) -> (r: bool)
        ensures
            r == (self@.start.spec_offset() <= location.spec_offset() < self@.end.spec_offset()),
    {
        location.offset() >= self.start.offset() && location.offset() < self.end.offset()
    }

    /// Whether two spans share at least one byte: some offset lies in both
    /// `[start, end)` ranges, which an empty span never has.
    pub fn overlaps(&self, other: &Self) -> (r: bool)
        ensures
            r == (exists|o: int| #[trigger] covers(self@, o) && covers(other@, o)),
    {
        proof {
            use_type_invariant(self);
            use_type_invariant(other);
        }
        let result = !self.is_empty() && !other.is_empty() && self.start.offset() < other.end.offset()
            && other.start.offset() < self.end.offset();
        proof {
            if result {
                let o = if self.start.spec_offset() <= other.start.spec_offset() {
                    other.start.spec_offset()
                } else {
                    self.start.spec_offset()
                };
                assert(covers(self@, o as int) && covers(other@, o as int));
            }
        }
        result
    }

    /// The smallest span holding both spans; it keeps this span's file path.
    /// On equal offsets the bound of this span is kept.
    pub fn merge(&self, other: &Self) -> (r: Self)
        ensures
            r@ == merged(self@, other@),
    {
        proof {
            use_type_invariant(self);
            use_type_invariant(other);
        }
        let merged_start = if self.start.offset() <= other.start.offset() {
            self.start
        } else {
            other.start
        };
        let merged_end = if self.end.offset() >= other.end.offset() {
            self.end
        } else {
            other.end
        };
        Self { file_path: self.file_path.clone(), start: merged_start, end: merged_end }
    }
}

impl SourceSpan {
    /// The text of the span in `source`: from the character at the start
    /// offset to the one at the end offset. Both offsets must be character
    /// boundaries of `source`, in order.
    pub fn extract_from<'a>(&self, source: &'a str) -> (r: &'a str)
        requires
            0 <= self@.start.spec_offset() <= self@.end.spec_offset() <= utf8_len(source@),
            utf8_len(source@) <= usize::MAX,
            is_boundary(source@, self@.start.spec_offset() as int),
            is_boundary(source@, self@.end.spec_offset() as int),
        ensures
            r@ == source@.subrange(
                position_of(source@, self@.start.spec_offset() as int),
                position_of(source@, self@.end.spec_offset() as int),
            ),
    {
        let c = chars_of(source);
        let start = char_index_of_byte(&c, self.start.offset() as usize);
        let end = char_index_of_byte(&c, self.end.offset() as usize);
        proof {
            if end < start {
                crate::location::utf8::lemma_byte_offset_strictly_increasing(c@, end as int, start as int);
            }
        }
        source.substring_char(start, end)
    }
}

} // verus!
