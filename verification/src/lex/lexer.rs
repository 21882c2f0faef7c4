//! The lexer's own decisions: which escape sequences a literal may hold,
//! how a lexical error is reported, and what each step of scanning yields.
//!
//! Recognizing the tokens themselves is the scanner's work; [`LexerState`]
//! takes what the scanner found at each step and turns it into a token or
//! an error, ending with one end-of-file token.
use vstd::prelude::*;
use crate::error::error_code::ErrorCode;
use crate::error::errors::{CompileError, CompileErrorView, ErrorPhase};
use crate::lex::error::LexError;
use crate::location::line_tracker::{location_at, LineTracker};
use crate::location::source_span::{SourceSpan, SpanView};
use crate::location::utf8::{is_boundary, position_of, utf8_len};
use crate::text::{cat3, chars_of};
use crate::tokens::parsers::base::{radix_digit, radix_value};
use crate::tokens::parsers::value::slice_chars;
use crate::tokens::token::Token;
use crate::tokens::token_kind::TokenKind;

verus! {

/// The text between the quotes of a string or character literal.
pub open spec fn literal_inner(s: Seq<char>) -> Option<Seq<char>> {
    if s.len() >= 2 && s[0] == '"' && s.last() == '"' {
        Some(s.subrange(1, s.len() - 1))
    } else if s.len() >= 2 && s[0] == '\'' && s.last() == '\'' {
        Some(s.subrange(1, s.len() - 1))
    } else {
        None
    }
}

/// The end of the run of hexadecimal digits of `s` that starts at `k`.
pub open spec fn hex_run_end(s: Seq<char>, k: int) -> int
    decreases s.len() - k,
{
    if 0 <= k < s.len() && radix_digit(s[k]) is Some {
        hex_run_end(s, k + 1)
    } else {
        k
    }
}

/// A Unicode scalar value: at most U+10FFFF and not a surrogate.
pub open spec fn is_scalar_value(v: nat) -> bool {
    v <= 0x10FFFF && !(0xD800 <= v <= 0xDFFF)
}

/// The end of a Unicode escape whose text after `\u` starts at `k`: `{`,
/// one to six hexadecimal digits naming a scalar value, and `}`.
pub open spec fn unicode_escape_end(s: Seq<char>, k: int) -> Option<int> {
    if 0 <= k < s.len() && s[k] == '{' {
        let e = hex_run_end(s, k + 1);
        if 1 <= e - (k + 1) <= 6 && e < s.len() && s[e] == '}' && is_scalar_value(
            radix_value(s.subrange(k + 1, e), 16),
        ) {
            Some(e + 1)
        } else {
            None
        }
    } else {
        None
    }
}

/// The escapes of `s` from position `i` on are supported: `\n`, `\r`,
/// `\t`, `\\`, `\'`, `\"`, `\0` and Unicode escapes.
pub open spec fn escapes_ok_from(s: Seq<char>, i: int) -> bool
    decreases s.len() - i,
{
    if i < 0 || i >= s.len() {
        true
    } else if s[i] != '\\' {
        escapes_ok_from(s, i + 1)
    } else if i + 1 >= s.len() {
        false
    } else {
        let c = s[i + 1];
        if c == 'n' || c == 'r' || c == 't' || c == '\\' || c == '\'' || c == '"' || c == '0' {
            escapes_ok_from(s, i + 2)
        } else if c == 'u' {
            proof {
                lemma_hex_run_end(s, i + 3);
            }
            match unicode_escape_end(s, i + 2) {
                Some(j) => escapes_ok_from(s, j),
                None => false,
            }
        } else {
            false
        }
    }
}

/// A string or character literal, quotes included, whose escapes are all
/// supported.
pub open spec fn escapes_valid(slice: Seq<char>) -> bool {
    match literal_inner(slice) {
        Some(inner) => escapes_ok_from(inner, 0),
        None => false,
    }
}

/// The letters that may follow a backslash on their own: `n`, `r`, `t`,
/// `\\`, `'`, `"` and `0`.
pub open spec fn simple_escape_letter(c: char) -> bool {
    seq!['n', 'r', 't', '\\', '\'', '"', '0'].contains(c)
}

/// How the escapes of a literal's text are read, position by position: a
/// character other than a backslash is accepted as it is; a backslash
/// followed by one of the simple escape letters is accepted and reading goes
/// on after the letter; a backslash at the end, or followed by a letter that
/// is neither a simple escape letter nor `u`, is refused.
pub proof fn law_escape_reading(s: Seq<char>, i: int)
    requires
        0 <= i < s.len(),
    ensures
        s[i] != '\\' ==> escapes_ok_from(s, i) == escapes_ok_from(s, i + 1),
        s[i] == '\\' && i + 1 < s.len() && simple_escape_letter(s[i + 1]) ==> escapes_ok_from(s, i)
            == escapes_ok_from(s, i + 2),
        s[i] == '\\' && i + 1 == s.len() ==> !escapes_ok_from(s, i),
        s[i] == '\\' && i + 1 < s.len() && !simple_escape_letter(s[i + 1]) && s[i + 1] != 'u'
            ==> !escapes_ok_from(s, i),
{
    if s[i] == '\\' && i + 1 < s.len() {
        let c = s[i + 1];
        let letters = seq!['n', 'r', 't', '\\', '\'', '"', '0'];
        if simple_escape_letter(c) {
            let k = choose|k: int| 0 <= k < letters.len() && letters[k] == c;
            assert(0 <= k < 7 && letters[k] == c);
        } else {
            assert(c != 'n' && c != 'r' && c != 't' && c != '\\' && c != '\'' && c != '"' && c != '0') by {
                if c == 'n' { assert(letters[0] == c); }
                if c == 'r' { assert(letters[1] == c); }
                if c == 't' { assert(letters[2] == c); }
                if c == '\\' { assert(letters[3] == c); }
                if c == '\'' { assert(letters[4] == c); }
                if c == '"' { assert(letters[5] == c); }
                if c == '0' { assert(letters[6] == c); }
            }
        }
    }
}

/// A string or character literal holding text without backslashes and any
/// number of simple escapes is accepted: for every simple escape letter `c`
/// and texts `a` and `b` free of backslashes and of the literal's quote,
/// the literal `a\cb` in either kind of quotes is accepted.
pub proof fn law_simple_escapes_accepted(a: Seq<char>, c: char, b: Seq<char>, quote: char)
    requires
        simple_escape_letter(c),
        quote == '"' || quote == '\'',
        forall|k: int| 0 <= k < a.len() ==> #[trigger] a[k] != '\\',
        forall|k: int| 0 <= k < b.len() ==> #[trigger] b[k] != '\\',
    ensures
        escapes_valid(seq![quote] + a + seq!['\\', c] + b + seq![quote]),
{
    let lit = seq![quote] + a + seq!['\\', c] + b + seq![quote];
    let inner = a + seq!['\\', c] + b;
    assert(lit.subrange(1, lit.len() - 1) =~= inner);
    assert(literal_inner(lit) == Some(inner));
    let m = a.len() as int;
    lemma_plain_run(inner, m + 2, inner.len() as int);
    assert(inner[m] == '\\' && inner[m + 1] == c);
    law_escape_reading(inner, m);
    lemma_plain_run(inner, 0, m);
}

/// A stretch of text without backslashes is read past as it is.
proof fn lemma_plain_run(s: Seq<char>, from: int, to: int)
    requires
        0 <= from <= to <= s.len(),
        forall|k: int| from <= k < to ==> #[trigger] s[k] != '\\',
        escapes_ok_from(s, to),
    ensures
        escapes_ok_from(s, from),
    decreases to - from,
{
    if from < to {
        law_escape_reading(s, to - 1);
        lemma_plain_run(s, from, to - 1);
    }
}

/// The digits `0` to `9` and the letters `a` to `f`, in either case, are
/// worth zero to fifteen in that order, and no other character is a digit;
/// so a text is a literal of base 2, 8 or 16 exactly when each of its
/// characters is one of the first `radix` of those digits.
pub proof fn law_digit_values(d: int, c: char)
    requires
        0 <= d < 16,
    ensures
        radix_digit(seq!['0', '1', '2', '3', '4', '5', '6', '7', '8', '9', 'a', 'b', 'c', 'd', 'e', 'f'][d]) == Some(
            d as nat,
        ),
        radix_digit(seq!['0', '1', '2', '3', '4', '5', '6', '7', '8', '9', 'A', 'B', 'C', 'D', 'E', 'F'][d]) == Some(
            d as nat,
        ),
        radix_digit(c) is Some <==> (seq!['0', '1', '2', '3', '4', '5', '6', '7', '8', '9', 'a', 'b', 'c', 'd', 'e', 'f'].contains(c)
            || seq!['A', 'B', 'C', 'D', 'E', 'F'].contains(c)),
{
    let lower = seq!['0', '1', '2', '3', '4', '5', '6', '7', '8', '9', 'a', 'b', 'c', 'd', 'e', 'f'];
    let upper = seq!['A', 'B', 'C', 'D', 'E', 'F'];
    if radix_digit(c) is Some {
        if '0' <= c && c <= '9' {
            let k = c as int - '0' as int;
            assert(lower[k] == c);
        } else if 'a' <= c && c <= 'f' {
            let k = c as int - 'a' as int + 10;
            assert(lower[k] == c);
        } else {
            let k = c as int - 'A' as int;
            assert(upper[k] == c);
        }
    }
}

/// A run of `n` hexadecimal digits from `k`, followed by the end of the text
/// or by another character, ends `n` places after its start.
proof fn lemma_hex_run_length(s: Seq<char>, k: int, n: int)
    requires
        0 <= k,
        0 <= n,
        k + n <= s.len(),
        forall|j: int| k <= j < k + n ==> #[trigger] radix_digit(s[j]) is Some,
        k + n == s.len() || radix_digit(s[k + n]) is None,
    ensures
        hex_run_end(s, k) == k + n,
    decreases n,
{
    if n > 0 {
        lemma_hex_run_length(s, k + 1, n - 1);
    }
}

/// A literal holding a single Unicode escape `\u{h}`, with `h` a nonempty
/// run of hexadecimal digits, is accepted exactly when there are at most
/// six digits and they name a Unicode scalar value: at most `0x10FFFF` and
/// outside the surrogates `0xD800` to `0xDFFF`.
pub proof fn law_unicode_escapes(h: Seq<char>, quote: char)
    requires
        quote == '"' || quote == '\'',
        h.len() >= 1,
        forall|k: int| 0 <= k < h.len() ==> #[trigger] radix_digit(h[k]) is Some,
    ensures
        escapes_valid(seq![quote, '\\', 'u', '{'] + h + seq!['}', quote]) <==> (h.len() <= 6 && radix_value(h, 16)
            <= 0x10FFFF && !(0xD800 <= radix_value(h, 16) <= 0xDFFF)),
{
    let lit = seq![quote, '\\', 'u', '{'] + h + seq!['}', quote];
    let inner = seq!['\\', 'u', '{'] + h + seq!['}'];
    assert(lit.subrange(1, lit.len() - 1) =~= inner);
    assert(literal_inner(lit) == Some(inner));
    let n = h.len() as int;
    assert forall|j: int| 3 <= j < 3 + n implies #[trigger] radix_digit(inner[j]) is Some by {
        assert(inner[j] == h[j - 3]);
    }
    assert(inner[3 + n] == '}');
    lemma_hex_run_length(inner, 3, n);
    assert(inner.subrange(3, 3 + n) =~= h);
    assert(escapes_ok_from(inner, inner.len() as int));
}

/// A run of hexadecimal digits ends at or after its start.
pub proof fn lemma_hex_run_end(s: Seq<char>, k: int)
    ensures
        hex_run_end(s, k) >= k,
        0 <= k ==> hex_run_end(s, k) <= s.len() || hex_run_end(s, k) == k,
    decreases s.len() - k,
{
    if 0 <= k < s.len() && radix_digit(s[k]) is Some {
        lemma_hex_run_end(s, k + 1);
    }
}

/// The code, message and help text reporting lexical error `e` on the text
/// `slice` of the offending token.
pub open spec fn lex_error_report(e: LexError, slice: Seq<char>) -> (ErrorCode, Seq<char>, Option<Seq<char>>) {
    match e {
        LexError::InvalidToken => (ErrorCode::E0001, "Invalid or unrecognized token: \""@ + slice + "\""@, None),
        LexError::MalformedBinary => (ErrorCode::E0002, "Malformed binary number: \""@ + slice + "\""@, None),
        LexError::MalformedOctal => (ErrorCode::E0003, "Malformed octal number: \""@ + slice + "\""@, None),
        LexError::MalformedHexadecimal => (ErrorCode::E0004, "Malformed hexadecimal number: \""@ + slice + "\""@, None),
        LexError::UnterminatedString => (
            ErrorCode::E0005,
            "Unterminated string literal: \""@ + slice + "\""@,
            Some("Add a closing double quote."@),
        ),
        LexError::UnterminatedChar => (
            ErrorCode::E0006,
            "Unterminated character literal: \""@ + slice + "\""@,
            Some("Add a closing single quote."@),
        ),
        LexError::InvalidEscapeSequence => (
            ErrorCode::E0007,
            "Invalid escape sequence: \""@ + slice + "\""@,
            Some("Use a supported escape sequence."@),
        ),
        LexError::UnterminatedComment => (
            ErrorCode::E0008,
            "Unterminated multi-line comment: \""@ + slice + "\""@,
            Some("Add a closing */ to the comment."@),
        ),
        LexError::InvalidNumberSuffix => (
            ErrorCode::E0009,
            "Invalid number suffix"@,
            Some("Use a supported numeric suffix."@),
        ),
        LexError::NumberOverflow => (
            ErrorCode::E0010,
            "Number literal overflow: \""@ + slice + "\""@,
            Some("Use a smaller value or a compatible type."@),
        ),
    }
}

/// The compiler error reporting lexical error `e` at `span` on `slice`.
pub open spec fn lex_error_view(e: LexError, span: SpanView, slice: Seq<char>) -> CompileErrorView {
    let (code, message, help) = lex_error_report(e, slice);
    CompileErrorView::Located { phase: ErrorPhase::Lexer, code: Some(code), message, span, help }
}

/// Checks the Unicode escape whose text after `\u` starts at `k`, and
/// returns where the escape ends.
fn validate_unicode_escape(c: &Vec<char>, k: usize) -> (r: Result<usize, LexError>)
    ensures
        match r {
            Ok(j) => unicode_escape_end(c@, k as int) == Some(j as int),
            Err(e) => e == LexError::InvalidEscapeSequence && unicode_escape_end(c@, k as int) is None,
        },
{
    let len = c.len();
    if k >= len || c[k] != '{' {
        return Err(LexError::InvalidEscapeSequence);
    }
    let ghost s = c@;
    let mut digits: usize = 0;
    let mut value: u32 = 0;
    let mut j: usize = k + 1;
    assert(s.subrange(k + 1, k + 1).len() == 0);
    loop
        invariant
            s == c@,
            len == s.len(),
            k < len && s[k as int] == '{',
            j == k + 1 + digits,
            digits <= 6,
            j <= len,
            forall|t: int| k + 1 <= t < j ==> #[trigger] radix_digit(s[t]) is Some,
            hex_run_end(s, k + 1) == hex_run_end(s, j as int),
            value as nat == radix_value(s.subrange(k + 1, j as int), 16),
            digits == 0 ==> value < 0x1,
            digits == 1 ==> value < 0x10,
            digits == 2 ==> value < 0x100,
            digits == 3 ==> value < 0x1000,
            digits == 4 ==> value < 0x10000,
            digits == 5 ==> value < 0x100000,
            digits == 6 ==> value < 0x1000000,
        decreases len - j,
    {
        if j >= len {
            return Err(LexError::InvalidEscapeSequence);
        }
        let ch = c[j];
        let d: u32 = if '0' <= ch && ch <= '9' {
            ch as u32 - '0' as u32
        } else if 'a' <= ch && ch <= 'f' {
            ch as u32 - 'a' as u32 + 10
        } else if 'A' <= ch && ch <= 'F' {
            ch as u32 - 'A' as u32 + 10
        } else {
            16
        };
        assert(d < 16 <==> radix_digit(ch) is Some);
        assert(d < 16 ==> radix_digit(ch) == Some(d as nat));
        if ch == '}' && digits > 0 {
            if value > 0x10FFFF || (0xD800 <= value && value <= 0xDFFF) {
                return Err(LexError::InvalidEscapeSequence);
            }
            return Ok(j + 1);
        } else if d < 16 {
            if digits == 6 {
                proof {
                    lemma_hex_run_end(s, j + 1);
                }
                return Err(LexError::InvalidEscapeSequence);
            }
            proof {
                assert(s.subrange(k + 1, j + 1).drop_last() =~= s.subrange(k + 1, j as int));
                assert(s.subrange(k + 1, j + 1).last() == ch);
            }
            value = value * 16 + d;
            digits = digits + 1;
            j = j + 1;
        } else {
            return Err(LexError::InvalidEscapeSequence);
        }
    }
}

/// Checks the escape sequences of a string or character literal, quotes
/// included: `\n`, `\r`, `\t`, `\\`, `\'`, `\"`, `\0`, and `\u{…}` with one
/// to six hexadecimal digits naming a Unicode scalar value.
pub fn validate_escapes(slice: &str) -> (r: Result<(), LexError>)
    ensures
        r is Ok <==> escapes_valid(slice@),
        r is Err ==> r == Err::<(), LexError>(LexError::InvalidEscapeSequence),
{
    let c = chars_of(slice);
    let n = c.len();
    let inner = if n >= 2 && c[0] == '"' && c[n - 1] == '"' {
        slice_chars(&c, 1, n - 1)
    } else if n >= 2 && c[0] == '\'' && c[n - 1] == '\'' {
        slice_chars(&c, 1, n - 1)
    } else {
        return Err(LexError::InvalidEscapeSequence);
    };
    let ghost s = inner@;
    let len = inner.len();
    let mut i: usize = 0;
    while i < len
        invariant
            s == inner@,
            len == s.len(),
            i <= len,
            escapes_ok_from(s, 0) == escapes_ok_from(s, i as int),
            literal_inner(slice@) == Some(s),
        decreases len - i,
    {
        if inner[i] != '\\' {
            i = i + 1;
            continue;
        }
        if i + 1 >= len {
            return Err(LexError::InvalidEscapeSequence);
        }
        let e = inner[i + 1];
        if e == 'n' || e == 'r' || e == 't' || e == '\\' || e == '\'' || e == '"' || e == '0' {
            i = i + 2;
        } else if e == 'u' {
            proof {
                lemma_hex_run_end(s, i + 3);
            }
            match validate_unicode_escape(&inner, i + 2) {
                Ok(j) => {
                    i = j;
                },
                Err(err) => {
                    return Err(err);
                },
            }
        } else {
            return Err(LexError::InvalidEscapeSequence);
        }
    }
    Ok(())
}

/// The compiler error reporting lexical error `error` at `span` on the text
/// `slice` of the offending token.
pub fn convert_lex_error(error: LexError, span: SourceSpan, slice: &str) -> (r: CompileError)
    ensures
        r@ == lex_error_view(error, span@, slice@),
{
    let (code, message, help) = match error {
        LexError::InvalidToken => (ErrorCode::E0001, cat3("Invalid or unrecognized token: \"", slice, "\""), None),
        LexError::MalformedBinary => (ErrorCode::E0002, cat3("Malformed binary number: \"", slice, "\""), None),
        LexError::MalformedOctal => (ErrorCode::E0003, cat3("Malformed octal number: \"", slice, "\""), None),
        LexError::MalformedHexadecimal => (
            ErrorCode::E0004,
            cat3("Malformed hexadecimal number: \"", slice, "\""),
            None,
        ),
        LexError::UnterminatedString => (
            ErrorCode::E0005,
            cat3("Unterminated string literal: \"", slice, "\""),
            Some(String::from_str("Add a closing double quote.")),
        ),
        LexError::UnterminatedChar => (
            ErrorCode::E0006,
            cat3("Unterminated character literal: \"", slice, "\""),
            Some(String::from_str("Add a closing single quote.")),
        ),
        LexError::InvalidEscapeSequence => (
            ErrorCode::E0007,
            cat3("Invalid escape sequence: \"", slice, "\""),
            Some(String::from_str("Use a supported escape sequence.")),
        ),
        LexError::UnterminatedComment => (
            ErrorCode::E0008,
            cat3("Unterminated multi-line comment: \"", slice, "\""),
            Some(String::from_str("Add a closing */ to the comment.")),
        ),
        LexError::InvalidNumberSuffix => (
            ErrorCode::E0009,
            String::from_str("Invalid number suffix"),
            Some(String::from_str("Use a supported numeric suffix.")),
        ),
        LexError::NumberOverflow => (
            ErrorCode::E0010,
            cat3("Number literal overflow: \"", slice, "\""),
            Some(String::from_str("Use a smaller value or a compatible type.")),
        ),
    };
    CompileError::LexerError { code: Some(code), message, span, help }
}

/// A string or character literal token.
pub open spec fn is_literal_kind(k: TokenKind) -> bool {
    k is StringLiteral || k is CharLiteral
}

/// What a step of the lexer yields for what the scanner found at `span` on
/// `slice`: the token, unless it is a literal with an unsupported escape
/// (an `InvalidEscapeSequence` error); or the reported scanner error.
pub open spec fn step_outcome(
    r: Option<Result<Token, CompileError>>,
    found: Result<TokenKind, LexError>,
    span: SpanView,
    slice: Seq<char>,
) -> bool {
    match found {
        Ok(kind) => if is_literal_kind(kind) && !escapes_valid(slice) {
            r matches Some(Err(e)) && e@ == lex_error_view(LexError::InvalidEscapeSequence, span, slice)
        } else {
            r matches Some(Ok(t)) && t.kind == kind && t.span@ == span
        },
        Err(le) => r matches Some(Err(e)) && e@ == lex_error_view(le, span, slice),
    }
}

/// The lexer between scanner steps: the line tracker of the source, the
/// source length in bytes, and whether the end-of-file token was given.
pub struct LexerState {
    line_tracker: LineTracker,
    source_len: usize,
    eof_emitted: bool,
}

impl LexerState {
    /// The recorded length is the length of the text in bytes.
    #[verifier::type_invariant]
    spec fn length_recorded(&self) -> bool {
        self.source_len == utf8_len(self.line_tracker.text())
    }

    /// The source text.
    pub closed spec fn text(&self) -> Seq<char> {
        self.line_tracker.text()
    }

    /// The path of the source file.
    pub closed spec fn path(&self) -> Seq<char> {
        self.line_tracker.path()
    }

    /// The end-of-file token was given.
    pub closed spec fn finished(&self) -> bool {
        self.eof_emitted
    }

    /// The state before the first step over `source`, the text of the file
    /// at `file_path`.
    pub fn new(file_path: &str, source: &str) -> (r: Self)
        requires
            utf8_len(source@) <= usize::MAX,
        ensures
            r.text() == source@,
            r.path() == file_path@,
            !r.finished(),
    {
        let line_tracker = LineTracker::new(file_path, source.to_owned());
        let source_len = line_tracker.source_len();
        Self { line_tracker, source_len, eof_emitted: false }
    }

    /// The line tracker of the source.
    pub fn get_line_tracker(&self) -> (r: &LineTracker)
        ensures
            r.text() == self.text(),
            r.path() == self.path(),
    {
        &self.line_tracker
    }

    /// Whether the end-of-file token was given.
    pub fn is_finished(&self) -> (r: bool)
        ensures
            r == self.finished(),
    {
        self.eof_emitted
    }

    /// One step of the lexer. `scanned` is what the scanner recognized next
    /// (its result and byte range) or nothing at the end of the text, and
    /// `slice` the text that range covers. Once the end-of-file token has been given
    /// there is nothing more; at the end of the text the step gives that
    /// token, spanning the empty range at the end.
    pub fn next_token(
        &mut self,
        scanned: Option<(Result<TokenKind, LexError>, std::ops::Range<usize>)>,
        slice: &str,
    ) -> (r: Option<Result<Token, CompileError>>)
        requires
            utf8_len(old(self).text()) < i32::MAX,
            scanned matches Some((_, range)) ==> range.start <= range.end <= utf8_len(old(self).text())
                && is_boundary(old(self).text(), range.start as int) && is_boundary(
                old(self).text(),
                range.end as int,
            ),
            scanned matches Some((_, range)) ==> slice@ == old(self).text().subrange(
                position_of(old(self).text(), range.start as int),
                position_of(old(self).text(), range.end as int),
            ),
        ensures
            final(self).text() == old(self).text(),
            final(self).path() == old(self).path(),
            old(self).finished() ==> r is None && final(self).finished(),
            !old(self).finished() ==> (final(self).finished() <==> scanned is None),
            !old(self).finished() ==> match scanned {
                Some((found, range)) => step_outcome(
                    r,
                    found,
                    SpanView {
                        file_path: old(self).path(),
                        start: location_at(old(self).text(), range.start as int),
                        end: location_at(old(self).text(), range.end as int),
                    },
                    slice@,
                ),
                None => step_outcome(
                    r,
                    Ok(TokenKind::Eof),
                    SpanView {
                        file_path: old(self).path(),
                        start: location_at(old(self).text(), utf8_len(old(self).text()) as int),
                        end: location_at(old(self).text(), utf8_len(old(self).text()) as int),
                    },
                    slice@,
                ),
            },
    {
        proof {
            use_type_invariant(&*self);
        }
        if self.eof_emitted {
            return None;
        }
        let (result, range) = match scanned {
            Some((result, range)) => (result, range),
            None => {
                self.eof_emitted = true;
                proof {
                    let t = self.line_tracker.text();
                    assert(t.take(t.len() as int) =~= t);
                    assert(crate::location::utf8::byte_offset_of(t, t.len() as int) == utf8_len(t));
                }
                (Ok(TokenKind::Eof), self.source_len..self.source_len)
            },
        };
        let span = self.line_tracker.span_for(range);
        Some(
            match result {
                Ok(kind) => {
                    if matches!(kind, TokenKind::StringLiteral(_) | TokenKind::CharLiteral(_)) {
                        match validate_escapes(slice) {
                            Err(error) => {
                                return Some(Err(convert_lex_error(error, span, slice)));
                            },
                            Ok(()) => {},
                        }
                    }
                    Ok(Token { kind, span })
                },
                Err(error) => Err(convert_lex_error(error, span, slice)),
            },
        )
    }
}

/// The tokens among a run of lexer steps, in order.
pub open spec fn tokens_of(steps: Seq<Result<Token, CompileError>>) -> Seq<Token>
    decreases steps.len(),
{
    if steps.len() == 0 {
        Seq::empty()
    } else {
        match steps.last() {
            Ok(t) => tokens_of(steps.drop_last()).push(t),
            Err(_) => tokens_of(steps.drop_last()),
        }
    }
}

/// The errors among a run of lexer steps, in order.
pub open spec fn errors_of(steps: Seq<Result<Token, CompileError>>) -> Seq<CompileError>
    decreases steps.len(),
{
    if steps.len() == 0 {
        Seq::empty()
    } else {
        match steps.last() {
            Ok(_) => errors_of(steps.drop_last()),
            Err(e) => errors_of(steps.drop_last()).push(e),
        }
    }
}

/// Sorts the outcomes of the lexer's steps into the tokens and the errors,
/// each kept in the order the steps gave them.
pub fn partition_steps(steps: Vec<Result<Token, CompileError>>) -> (r: (Vec<Token>, Vec<CompileError>))
    ensures
        r.0@ == tokens_of(steps@),
        r.1@ == errors_of(steps@),
{
    let ghost all = steps@;
    let count = steps.len();
    let mut tokens: Vec<Token> = Vec::new();
    let mut errors: Vec<CompileError> = Vec::new();
    let mut rest = steps;
    let mut taken: usize = 0;
    assert(all.subrange(0, 0) =~= Seq::<Result<Token, CompileError>>::empty());
    while rest.len() > 0
        invariant
            taken + rest@.len() == all.len(),
            all.len() == count,
            rest@ == all.subrange(taken as int, all.len() as int),
            tokens@ == tokens_of(all.subrange(0, taken as int)),
            errors@ == errors_of(all.subrange(0, taken as int)),
        decreases rest.len(),
    {
        let step = rest.remove(0);
        proof {
            assert(step == all[taken as int]);
            let next = all.subrange(0, taken + 1);
            assert(next.drop_last() =~= all.subrange(0, taken as int));
            assert(next.last() == step);
            assert(rest@ =~= all.subrange(taken + 1, all.len() as int));
        }
        match step {
            Ok(t) => tokens.push(t),
            Err(e) => errors.push(e),
        }
        taken = taken + 1;
    }
    assert(all.subrange(0, all.len() as int) =~= all);
    (tokens, errors)
}

} // verus!
