//! Maps byte offsets of a source text to line, column and the other
//! offsets of a [`SourceLocation`].
//!
//! Lines end at `\n`, `\r`, U+0085, U+2028 and U+2029; `\r\n` is a single
//! line break. Columns count code points from 1.
use vstd::prelude::*;
use crate::location::source_location::{SourceLocation, UNKNOWN};
use crate::location::source_span::{SourceSpan, SpanView};
use crate::location::utf8::{
    byte_offset_of, char_utf16_width, position_of, char_utf8_width, is_boundary, lemma_byte_offset_strictly_increasing,
    lemma_utf8_len_take, utf16_len, utf16_width, utf8_len, utf8_width,
};
use crate::text::chars_of;

verus! {

/// The character at `i` ends a line: a line feed, a carriage return not
/// followed by a line feed, U+0085, U+2028 or U+2029.
pub open spec fn is_line_break(s: Seq<char>, i: int) -> bool {
    let c = s[i];
    ||| c == '\n'
    ||| c == '\u{85}'
    ||| c == '\u{2028}'
    ||| c == '\u{2029}'
    ||| c == '\r' && (i + 1 >= s.len() || s[i + 1] != '\n')
}

/// The code point positions at which the lines among the first `k`
/// characters start: 0, and the position after each line break.
pub open spec fn line_starts_upto(s: Seq<char>, k: int) -> Seq<int>
    decreases k,
{
    if k <= 0 {
        seq![0]
    } else if is_line_break(s, k - 1) {
        line_starts_upto(s, k - 1).push(k)
    } else {
        line_starts_upto(s, k - 1)
    }
}

/// The code point positions at which the lines of `s` start.
pub open spec fn line_starts(s: Seq<char>) -> Seq<int> {
    line_starts_upto(s, s.len() as int)
}

/// The number of line breaks among the first `k` characters.
pub open spec fn breaks_before(s: Seq<char>, k: int) -> nat
    decreases k,
{
    if k <= 0 {
        0
    } else {
        breaks_before(s, k - 1) + if is_line_break(s, k - 1) {
            1nat
        } else {
            0nat
        }
    }
}

/// The position at which the line holding position `k` starts.
pub open spec fn line_start_before(s: Seq<char>, k: int) -> int
    decreases k,
{
    if k <= 0 {
        0
    } else if is_line_break(s, k - 1) {
        k
    } else {
        line_start_before(s, k - 1)
    }
}

/// The location at byte `offset` of `s`, a character boundary: its line and
/// column (both from 1), the byte offset, the UTF-16 offset as index, the
/// byte offset again as UTF-8 offset, and the code point offset.
pub open spec fn location_at(s: Seq<char>, offset: int) -> SourceLocation {
    let cp = position_of(s, offset);
    SourceLocation::spec_from(
        (breaks_before(s, cp) + 1) as i32,
        (cp - line_start_before(s, cp) + 1) as i32,
        offset as i64,
        utf16_len(s.take(cp)) as i32,
        offset as i64,
        cp as i64,
    )
}

/// A line without its line break: `\r\n`, or a single line-break character.
pub open spec fn strip_line_break(l: Seq<char>) -> Seq<char> {
    if l.len() >= 2 && l[l.len() - 2] == '\r' && l.last() == '\n' {
        l.subrange(0, l.len() - 2)
    } else if l.len() >= 1 && (l.last() == '\n' || l.last() == '\r' || l.last() == '\u{85}' || l.last() == '\u{2028}'
        || l.last() == '\u{2029}') {
        l.drop_last()
    } else {
        l
    }
}

/// The text of line `number` (from 1) without its line break, if the text
/// has such a line.
pub open spec fn line_text(s: Seq<char>, number: int) -> Option<Seq<char>> {
    let l = line_starts(s);
    if number < 1 || number > l.len() {
        None
    } else {
        let start = l[number - 1];
        let end = if number < l.len() {
            l[number]
        } else {
            s.len() as int
        };
        Some(strip_line_break(s.subrange(start, end)))
    }
}

/// The line starts among the first `k` characters: one more than the line
/// breaks, starting at 0, strictly increasing, at most `k`, the last being
/// the start of the line holding `k`.
pub proof fn lemma_line_starts_upto(s: Seq<char>, k: int)
    requires
        0 <= k <= s.len(),
    ensures
        line_starts_upto(s, k).len() == breaks_before(s, k) + 1,
        line_starts_upto(s, k)[0] == 0,
        forall|j: int| 0 <= j < line_starts_upto(s, k).len() ==> 0 <= #[trigger] line_starts_upto(s, k)[j] <= k,
        forall|i: int, j: int|
            0 <= i < j < line_starts_upto(s, k).len() ==> line_starts_upto(s, k)[i] < line_starts_upto(s, k)[j],
        line_starts_upto(s, k).last() == line_start_before(s, k),
        breaks_before(s, k) <= k,
    decreases k,
{
    if k > 0 {
        lemma_line_starts_upto(s, k - 1);
    }
}

/// Line starts found among more characters extend those found among fewer,
/// and the new ones lie beyond the fewer.
pub proof fn lemma_line_starts_extend(s: Seq<char>, k: int, m: int)
    requires
        0 <= k <= m <= s.len(),
    ensures
        line_starts_upto(s, k).len() <= line_starts_upto(s, m).len(),
        forall|j: int| 0 <= j < line_starts_upto(s, k).len() ==> #[trigger] line_starts_upto(s, m)[j]
            == line_starts_upto(s, k)[j],
        forall|j: int|
            line_starts_upto(s, k).len() <= j < line_starts_upto(s, m).len() ==> #[trigger] line_starts_upto(s, m)[j]
                > k,
    decreases m - k,
{
    if k < m {
        lemma_line_starts_extend(s, k, m - 1);
        lemma_line_starts_upto(s, m - 1);
    }
}

/// Every character takes at least one byte and at least as many bytes as
/// UTF-16 code units.
pub proof fn lemma_widths(s: Seq<char>)
    ensures
        s.len() <= utf8_len(s),
        utf16_len(s) <= utf8_len(s),
    decreases s.len(),
{
    if s.len() > 0 {
        lemma_widths(s.drop_last());
    }
}

/// A prefix is no longer in bytes or UTF-16 units than the whole text.
pub proof fn lemma_take_lengths(s: Seq<char>, k: int)
    requires
        0 <= k <= s.len(),
    ensures
        utf8_len(s.take(k)) <= utf8_len(s),
        utf16_len(s.take(k)) <= utf16_len(s),
    decreases s.len() - k,
{
    if k < s.len() {
        lemma_take_lengths(s, k + 1);
        lemma_utf8_len_take(s, k);
    } else {
        assert(s.take(k) =~= s);
    }
}

/// Counts the elements of a strictly increasing vector that are at most `x`.
fn count_at_most(v: &Vec<usize>, x: usize) -> (r: usize)
    requires
        forall|i: int, j: int| 0 <= i < j < v@.len() ==> v@[i] < v@[j],
    ensures
        r <= v@.len(),
        forall|j: int| 0 <= j < r ==> v@[j] <= x,
        forall|j: int| r <= j < v@.len() ==> v@[j] > x,
{
    let mut lo: usize = 0;
    let mut hi: usize = v.len();
    while lo < hi
        invariant
            lo <= hi <= v@.len(),
            forall|i: int, j: int| 0 <= i < j < v@.len() ==> v@[i] < v@[j],
            forall|j: int| 0 <= j < lo ==> v@[j] <= x,
            forall|j: int| hi <= j < v@.len() ==> v@[j] > x,
        decreases hi - lo,
    {
        let mid = lo + (hi - lo) / 2;
        if v[mid] <= x {
            lo = mid + 1;
        } else {
            hi = mid;
        }
    }
    lo
}

/// A source text with the tables that map its byte offsets to locations.
#[derive(Debug, PartialEq, Eq)]
pub struct LineTracker {
    source: String,
    line_starts: Vec<usize>,
    char_starts: Vec<usize>,
    utf16_offsets: Vec<usize>,
    line_char_starts: Vec<usize>,
    file_path: String,
}

impl LineTracker {
    /// The tables describe the source text.
    #[verifier::type_invariant]
    spec fn tables_describe_source(&self) -> bool {
        let s = self.source@;
        let l = line_starts(s);
        &&& self.char_starts@.len() == s.len() + 1
        &&& forall|i: int| 0 <= i <= s.len() ==> #[trigger] self.char_starts@[i] == byte_offset_of(s, i)
        &&& self.utf16_offsets@.len() == s.len() + 1
        &&& forall|i: int| 0 <= i <= s.len() ==> #[trigger] self.utf16_offsets@[i] == utf16_len(s.take(i))
        &&& self.line_char_starts@.len() == l.len()
        &&& forall|j: int| 0 <= j < l.len() ==> #[trigger] self.line_char_starts@[j] == l[j]
        &&& self.line_starts@.len() == l.len()
        &&& forall|j: int| 0 <= j < l.len() ==> #[trigger] self.line_starts@[j] == byte_offset_of(s, l[j])
    }

    /// The source text.
    pub closed spec fn text(&self) -> Seq<char> {
        self.source@
    }

    /// The path of the source file.
    pub closed spec fn path(&self) -> Seq<char> {
        self.file_path@
    }
}

impl LineTracker {
    /// Builds the tables of `source`, a text of the file at `file_path`.
    pub fn new(file_path: &str, source: String) -> (r: Self)
        requires
            utf8_len(source@) <= usize::MAX,
        ensures
            r.text() == source@,
            r.path() == file_path@,
    {
        let c = chars_of(source.as_str());
        let n = c.len();
        let ghost s = source@;
        let mut line_starts: Vec<usize> = Vec::new();
        line_starts.push(0);
        let mut line_char_starts: Vec<usize> = Vec::new();
        line_char_starts.push(0);
        let mut char_starts: Vec<usize> = Vec::new();
        let mut utf16_offsets: Vec<usize> = Vec::new();
        let mut byte_offset: usize = 0;
        let mut utf16_offset: usize = 0;
        let mut i: usize = 0;
        proof {
            assert(s.take(0) =~= Seq::<char>::empty());
            lemma_widths(s);
        }
        while i < n
            invariant
                c@ == s,
                n == s.len(),
                i <= n,
                utf8_len(s) <= usize::MAX,
                utf16_len(s) <= utf8_len(s),
                byte_offset == utf8_len(s.take(i as int)),
                utf16_offset == utf16_len(s.take(i as int)),
                char_starts@.len() == i,
                forall|k: int| 0 <= k < i ==> #[trigger] char_starts@[k] == byte_offset_of(s, k),
                utf16_offsets@.len() == i,
                forall|k: int| 0 <= k < i ==> #[trigger] utf16_offsets@[k] == utf16_len(s.take(k)),
                line_char_starts@.len() == line_starts_upto(s, i as int).len(),
                forall|j: int|
                    0 <= j < line_starts_upto(s, i as int).len() ==> #[trigger] line_char_starts@[j]
                        == line_starts_upto(s, i as int)[j],
                line_starts@.len() == line_starts_upto(s, i as int).len(),
                forall|j: int|
                    0 <= j < line_starts_upto(s, i as int).len() ==> #[trigger] line_starts@[j] == byte_offset_of(
                        s,
                        line_starts_upto(s, i as int)[j],
                    ),
            decreases n - i,
        {
            let ch = c[i];
            char_starts.push(byte_offset);
            utf16_offsets.push(utf16_offset);
            let w8 = char_utf8_width(ch);
            let w16 = char_utf16_width(ch);
            proof {
                lemma_utf8_len_take(s, i as int);
                lemma_take_lengths(s, i + 1);
            }
            utf16_offset = utf16_offset + w16;
            let is_break = ch == '\n' || ch == '\u{85}' || ch == '\u{2028}' || ch == '\u{2029}' || (ch == '\r' && (
            i + 1 >= n || c[i + 1] != '\n'));
            assert(is_break == is_line_break(s, i as int));
            if is_break {
                line_starts.push(byte_offset + w8);
                line_char_starts.push(i + 1);
            }
            byte_offset = byte_offset + w8;
            i = i + 1;
        }
        char_starts.push(byte_offset);
        utf16_offsets.push(utf16_offset);
        proof {
            assert(s.take(n as int) =~= s);
        }
        let r = Self {
            source,
            line_starts,
            char_starts,
            utf16_offsets,
            line_char_starts,
            file_path: file_path.to_owned(),
        };
        r
    }
}

impl LineTracker {
    /// The location of byte `offset`, which must be a character boundary of
    /// the text; the text must be shorter than `i32::MAX` bytes so that every
    /// field fits.
    pub fn location_for(&self, offset: usize) -> (r: SourceLocation)
        requires
            offset <= utf8_len(self.text()),
            is_boundary(self.text(), offset as int),
            utf8_len(self.text()) < i32::MAX,
        ensures
            r == location_at(self.text(), offset as int),
    {
        proof {
            use_type_invariant(self);
        }
        let ghost s = self.source@;
        let ghost n = s.len() as int;
        let ghost l = line_starts(s);
        let ghost p = position_of(s, offset as int);
        proof {
            lemma_line_starts_upto(s, n);
            assert forall|i: int, j: int| 0 <= i < j < self.line_starts@.len() implies self.line_starts@[i]
                < self.line_starts@[j] by {
                lemma_byte_offset_strictly_increasing(s, l[i], l[j]);
            }
            assert forall|i: int, j: int| 0 <= i < j < self.char_starts@.len() implies self.char_starts@[i]
                < self.char_starts@[j] by {
                lemma_byte_offset_strictly_increasing(s, i, j);
            }
        }
        let lines = count_at_most(&self.line_starts, offset);
        let chars = count_at_most(&self.char_starts, offset);
        proof {
            assert(0 <= p <= n && byte_offset_of(s, p) == offset);
            assert(self.char_starts@[p] == offset);
            if p >= chars {
                assert(self.char_starts@[p] > offset);
            }
            if p + 1 < chars {
                lemma_byte_offset_strictly_increasing(s, p, chars - 1);
                assert(self.char_starts@[chars - 1] <= offset);
                assert(self.char_starts@[chars - 1] == byte_offset_of(s, chars - 1));
            }
            assert(chars - 1 == p);
            lemma_line_starts_upto(s, p);
            lemma_line_starts_extend(s, p, n);
            let lp = line_starts_upto(s, p);
            assert(self.line_starts@[0] == 0);
            assert forall|j: int| 0 <= j < l.len() implies (self.line_starts@[j] <= offset <==> j < lp.len()) by {
                if j < lp.len() {
                    assert(l[j] == lp[j]);
                    if l[j] < p {
                        lemma_byte_offset_strictly_increasing(s, l[j], p);
                    }
                } else {
                    lemma_byte_offset_strictly_increasing(s, p, l[j]);
                }
            }
            if lines < lp.len() {
                assert(self.line_starts@[lines as int] <= offset);
            }
            if lines > lp.len() {
                assert(self.line_starts@[lp.len() as int] <= offset);
            }
            assert(lines == lp.len());
            assert(l[lines - 1] == lp.last());
            lemma_widths(s.take(p));
        }
        let cp = chars - 1;
        let line_index = lines - 1;
        let column = cp - self.line_char_starts[line_index] + 1;
        let index = self.utf16_offsets[cp];
        match SourceLocation::try_new(
            (line_index + 1) as i32,
            column as i32,
            offset as i64,
            index as i32,
            offset as i64,
            cp as i64,
        ) {
            Ok(location) => {
                proof {
                    SourceLocation::lemma_spec_from(
                        location,
                        (line_index + 1) as i32,
                        column as i32,
                        offset as i64,
                        index as i32,
                        offset as i64,
                        cp as i64,
                    );
                }
                location
            },
            Err(_) => {
                assert(false);
                SourceLocation::default()
            },
        }
    }

    /// The span of the bytes `range` of the text, whose ends must be
    /// character boundaries.
    pub fn span_for(&self, range: std::ops::Range<usize>) -> (r: SourceSpan)
        requires
            range.start <= range.end,
            range.start <= utf8_len(self.text()),
            range.end <= utf8_len(self.text()),
            is_boundary(self.text(), range.start as int),
            is_boundary(self.text(), range.end as int),
            utf8_len(self.text()) < i32::MAX,
        ensures
            r@ == (SpanView {
                file_path: self.path(),
                start: location_at(self.text(), range.start as int),
                end: location_at(self.text(), range.end as int),
            }),
    {
        let start = self.location_for(range.start);
        let end = self.location_for(range.end);
        proof {
            law_locations_are_valid(self.text(), range.start as int);
            law_locations_are_valid(self.text(), range.end as int);
        }
        SourceSpan::new(self.file_path.clone(), start, end)
    }

    /// The length of the text in bytes.
    pub fn source_len(&self) -> (r: usize)
        ensures
            r == utf8_len(self.text()),
    {
        proof {
            use_type_invariant(self);
            assert(self.source@.take(self.source@.len() as int) =~= self.source@);
        }
        self.char_starts[self.char_starts.len() - 1]
    }

    /// The text of line `line_number` (from 1) without its line break;
    /// nothing when the text has no such line.
    pub fn get_line(&self, line_number: usize) -> (r: Option<&str>)
        ensures
            match r {
                Some(t) => line_text(self.text(), line_number as int) == Some(t@),
                None => line_text(self.text(), line_number as int) is None,
            },
    {
        proof {
            use_type_invariant(self);
            lemma_line_starts_upto(self.source@, self.source@.len() as int);
        }
        let ghost s = self.source@;
        let ghost l = line_starts(s);
        if line_number == 0 || line_number > self.line_char_starts.len() {
            return None;
        }
        let line_index = line_number - 1;
        let n = self.char_starts.len() - 1;
        let start = self.line_char_starts[line_index];
        let end = if line_index + 1 < self.line_char_starts.len() {
            self.line_char_starts[line_index + 1]
        } else {
            n
        };
        proof {
            assert(l[line_index as int] <= n);
            if line_index + 1 < l.len() {
                assert(l[line_index as int] < l[line_index + 1]);
            }
        }
        let source = self.source.as_str();
        let line = source.substring_char(start, end);
        let ghost lv = s.subrange(start as int, end as int);
        let len = end - start;
        let ends_with_break = if len >= 1 {
            let last = line.get_char(len - 1);
            last == '\n' || last == '\r' || last == '\u{85}' || last == '\u{2028}' || last == '\u{2029}'
        } else {
            false
        };
        let stripped = if len >= 2 && line.get_char(len - 2) == '\r' && line.get_char(len - 1) == '\n' {
            end - 2
        } else if ends_with_break {
            end - 1
        } else {
            end
        };
        proof {
            assert(lv.len() == len);
            if stripped == end - 2 {
                assert(s.subrange(start as int, stripped as int) =~= lv.subrange(0, lv.len() - 2));
            } else if stripped == end - 1 {
                assert(s.subrange(start as int, stripped as int) =~= lv.drop_last());
            }
        }
        Some(source.substring_char(start, stripped))
    }
}

/// Every location of a character boundary is valid, keeps the byte offset
/// as its offset and its UTF-8 offset, and names a line that the text has.
pub proof fn law_locations_are_valid(s: Seq<char>, offset: int)
    requires
        is_boundary(s, offset),
        utf8_len(s) < i32::MAX,
    ensures
        location_at(s, offset).valid(),
        location_at(s, offset).spec_offset() == offset,
        location_at(s, offset).spec_utf8_offset() == offset,
        line_text(s, location_at(s, offset).spec_line() as int) is Some,
{
    let cp = position_of(s, offset);
    assert(0 <= cp <= s.len() && byte_offset_of(s, cp) == offset);
    lemma_widths(s);
    lemma_take_lengths(s, cp);
    lemma_widths(s.take(cp));
    lemma_line_starts_upto(s, cp);
    lemma_line_starts_upto(s, s.len() as int);
    lemma_line_starts_extend(s, cp, s.len() as int);
    lemma_take_lengths(s, cp);
    let line = breaks_before(s, cp) + 1;
    let column = cp - line_start_before(s, cp) + 1;
    let index = utf16_len(s.take(cp));
    assert(offset == utf8_len(s.take(cp)));
    assert(1 <= line <= i32::MAX);
    assert(1 <= column <= i32::MAX);
    assert(0 <= index <= i32::MAX);
    SourceLocation::lemma_spec_from(
        location_at(s, offset),
        line as i32,
        column as i32,
        offset as i64,
        index as i32,
        offset as i64,
        cp as i64,
    );
}

} // verus!
