//! Helpers shared across the compiler: spans for tests, removal of ANSI
//! escape codes, and a pool of reusable objects.
use vstd::prelude::*;
use crate::location::source_location::{SourceLocation, UNKNOWN};
use crate::location::source_id::{is_white_space, white_space};
use crate::location::source_span::{SourceSpan, SpanView};
use crate::text::chars_of;

verus! {

/// The regular expression of an ANSI escape sequence: `ESC [`, then any
/// characters from `0` to `?`, then any from space to `/`, then one from
/// `@` to `~`.
pub const ANSI_PATTERN: &'static str = "\\x1B\\[[0-?]*[ -/]*[@-~]";

/// The characters of [`ANSI_PATTERN`].
pub open spec fn ansi_pattern() -> Seq<char> {
    "\\x1B\\[[0-?]*[ -/]*[@-~]"@
}

/// What `regex::Regex::replace_all` gives for the regular expression
/// `pattern` on `text` with an empty replacement: `text` with every
/// leftmost non-overlapping match of `pattern` removed.
pub uninterp spec fn matches_removed(pattern: Seq<char>, text: Seq<char>) -> Seq<char>;

/// Compiles `pattern` (`regex::Regex::new`) and replaces every match in
/// `text` by nothing (`Regex::replace_all`). The result is named over the
/// pattern and the text, not spelled out. Only [`ANSI_PATTERN`] is known here
/// to compile; on a pattern that does not, the call would panic, so no other
/// pattern is admitted.
#[verifier::external_body]
fn remove_matches(pattern: &str, text: &str) -> (r: String)
    requires
        pattern@ == ansi_pattern(),
    ensures
        r@ == matches_removed(pattern@, text@),
{
    regex::Regex::new(pattern).expect("the pattern is valid").replace_all(text, "").into_owned()
}

/// A span without meaningful location, for tests.
pub fn dummy_span() -> (r: SourceSpan)
    ensures
        r@.file_path == Seq::<char>::empty(),
        r@.start.has_fields(1, 1, 0, 0, -1i64, -1i64),
        r@.end.has_fields(1, 1, 0, 0, -1i64, -1i64),
{
    SourceSpan::default()
}

/// The text with every ANSI escape sequence removed, for comparing
/// terminal output in tests.
pub fn strip_ansi_codes(s: &str) -> (r: String)
    ensures
        r@ == matches_removed(ansi_pattern(), s@),
{
    remove_matches(ANSI_PATTERN, s)
}

/// A span of `file_path` from line `start_line`, column `start_col` (byte
/// offset 0) to line `end_line`, column `end_col` (byte offset 1), for tests.
pub fn create_span(file_path: &str, start_line: usize, start_col: usize, end_line: usize, end_col: usize) -> (r:
    SourceSpan)
    requires
        1 <= start_line <= i32::MAX,
        1 <= start_col <= i32::MAX,
        1 <= end_line <= i32::MAX,
        1 <= end_col <= i32::MAX,
    ensures
        r@.file_path == file_path@,
        r@.start.has_fields(start_line as i32, start_col as i32, 0, 0, UNKNOWN, UNKNOWN),
        r@.end.has_fields(end_line as i32, end_col as i32, 1, 1, UNKNOWN, UNKNOWN),
{
    let start = location(start_line as i32, start_col as i32, 0, 0);
    let end = location(end_line as i32, end_col as i32, 1, 1);
    SourceSpan::new(file_path.to_owned(), start, end)
}

/// A valid location without the optional offsets.
fn location(line: i32, column: i32, offset: i64, index: i32) -> (r: SourceLocation)
    requires
        line >= 1,
        column >= 1,
        offset >= 0,
        index >= 0,
    ensures
        r.has_fields(line, column, offset, index, UNKNOWN, UNKNOWN),
{
    match SourceLocation::try_new(line, column, offset, index, UNKNOWN, UNKNOWN) {
        Ok(l) => l,
        Err(_) => {
            assert(false);
            SourceLocation::default()
        },
    }
}

/// A span of `test_file` on line `line`, columns 1 to 2, for tests.
pub fn t_span(line: usize) -> (r: SourceSpan)
    requires
        1 <= line <= i32::MAX,
    ensures
        r@.file_path == "test_file"@,
        r@.start.has_fields(line as i32, 1, 0, 0, UNKNOWN, UNKNOWN),
        r@.end.has_fields(line as i32, 2, 1, 1, UNKNOWN, UNKNOWN),
{
    create_span("test_file", line, 1, line, 2)
}

/// A pool of objects kept for reuse: the last one released is the first
/// one acquired.
pub struct ObjectPool<T> {
    pool: Vec<T>,
}

impl<T> View for ObjectPool<T> {
    type V = Seq<T>;

    closed spec fn view(&self) -> Seq<T> {
        self.pool@
    }
}

impl<T> ObjectPool<T> {
    /// An empty pool.
    pub fn new() -> (r: Self)
        ensures
            r@ == Seq::<T>::empty(),
    {
        Self { pool: Vec::new() }
    }

    /// Takes the object released last, if the pool holds any.
    pub fn acquire(&mut self) -> (r: Option<T>)
        ensures
            old(self)@.len() == 0 ==> r is None && final(self)@ == old(self)@,
            old(self)@.len() > 0 ==> r == Some(old(self)@.last()) && final(self)@ == old(self)@.drop_last(),
    {
        self.pool.pop()
    }

    /// Gives an object back to the pool.
    pub fn release(&mut self, obj: T)
        ensures
            final(self)@ == old(self)@.push(obj),
    {
        self.pool.push(obj);
    }

    /// An empty pool with room for `capacity` objects.
    pub fn with_capacity(capacity: usize) -> (r: Self)
        ensures
            r@ == Seq::<T>::empty(),
    {
        Self { pool: Vec::with_capacity(capacity) }
    }
}

impl<T> Default for ObjectPool<T> {
    fn default() -> (r: Self)
        ensures
            r@ == Seq::<T>::empty(),
    {
        Self::new()
    }
}

/// What is released is acquired next: releasing an object and acquiring
/// one gives that object back and leaves the pool as it was.
pub proof fn law_acquire_returns_last_released<T>(pool: Seq<T>, obj: T)
    ensures
        pool.push(obj).len() > 0,
        pool.push(obj).last() == obj,
        pool.push(obj).drop_last() == pool,
{
    assert(pool.push(obj).drop_last() =~= pool);
}

/// The text without the white space at its start.
pub open spec fn trimmed_start(s: Seq<char>) -> Seq<char>
    decreases s.len(),
{
    if s.len() > 0 && is_white_space(s[0]) {
        trimmed_start(s.drop_first())
    } else {
        s
    }
}

/// The text without the white space at its end.
pub open spec fn trimmed_end(s: Seq<char>) -> Seq<char>
    decreases s.len(),
{
    if s.len() > 0 && is_white_space(s.last()) {
        trimmed_end(s.drop_last())
    } else {
        s
    }
}

/// A hexadecimal digit, in either case.
pub open spec fn is_hex_digit(c: char) -> bool {
    ('0' <= c && c <= '9') || ('a' <= c && c <= 'f') || ('A' <= c && c <= 'F')
}

/// A full commit hash: forty hexadecimal digits.
pub open spec fn is_commit_hash(s: Seq<char>) -> bool {
    s.len() == 40 && forall|i: int| 0 <= i < s.len() ==> is_hex_digit(#[trigger] s[i])
}

/// The commit hash that `git rev-parse HEAD` printed, if it printed one:
/// the output trimmed of white space, kept only when it is forty
/// hexadecimal digits.
pub fn commit_hash_from_output(output: &str) -> (r: Option<String>)
    ensures
        match r {
            Some(h) => is_commit_hash(trimmed_end(trimmed_start(output@))) && h@ == trimmed_end(
                trimmed_start(output@),
            ),
            None => !is_commit_hash(trimmed_end(trimmed_start(output@))),
        },
{
    let c = chars_of(output);
    let mut start: usize = 0;
    assert(c@.subrange(0, c@.len() as int) =~= c@);
    while start < c.len() && white_space(c[start])
        invariant
            start <= c@.len(),
            c@ == output@,
            trimmed_start(c@.subrange(start as int, c@.len() as int)) == trimmed_start(output@),
        decreases c.len() - start,
    {
        proof {
            let rest = c@.subrange(start as int, c@.len() as int);
            assert(rest.drop_first() =~= c@.subrange(start + 1, c@.len() as int));
        }
        start = start + 1;
    }
    let ghost lead = c@.subrange(start as int, c@.len() as int);
    assert(trimmed_start(lead) == lead);
    let mut end: usize = c.len();
    while end > start && white_space(c[end - 1])
        invariant
            start <= end <= c@.len(),
            c@ == output@,
            trimmed_start(output@) == lead,
            lead == c@.subrange(start as int, c@.len() as int),
            trimmed_end(c@.subrange(start as int, end as int)) == trimmed_end(lead),
        decreases end,
    {
        proof {
            let part = c@.subrange(start as int, end as int);
            assert(part.drop_last() =~= c@.subrange(start as int, end - 1));
            assert(part.last() == c@[end - 1]);
        }
        end = end - 1;
    }
    let ghost hash = c@.subrange(start as int, end as int);
    assert(trimmed_end(hash) == hash);
    assert(hash == trimmed_end(trimmed_start(output@)));
    if end - start != 40 {
        return None;
    }
    let mut out = String::new();
    let mut i: usize = start;
    while i < end
        invariant
            start <= i <= end <= c@.len(),
            end - start == 40,
            hash == c@.subrange(start as int, end as int),
            hash == trimmed_end(trimmed_start(output@)),
            out@ == c@.subrange(start as int, i as int),
            forall|k: int| start <= k < i ==> is_hex_digit(#[trigger] c@[k]),
        decreases end - i,
    {
        let ch = c[i];
        if !(('0' <= ch && ch <= '9') || ('a' <= ch && ch <= 'f') || ('A' <= ch && ch <= 'F')) {
            assert(hash[i - start] == ch);
            return None;
        }
        crate::text::push_char(&mut out, ch);
        proof {
            assert(out@ =~= c@.subrange(start as int, i + 1));
        }
        i = i + 1;
    }
    proof {
        assert forall|k: int| 0 <= k < hash.len() implies is_hex_digit(#[trigger] hash[k]) by {
            assert(hash[k] == c@[start + k]);
        }
    }
    Some(out)
}

} // verus!
