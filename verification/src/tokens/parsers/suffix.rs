//! Numeric suffixes: their spellings, where a literal's suffix starts, and
//! the parser each suffix selects.
use vstd::prelude::*;
use crate::lex::error::LexError;
use crate::text::chars_of;
use crate::tokens::number::Number;
use crate::tokens::parsers::value::{
    default_result, f64_suffix_result, float_suffix_result, handle_default_suffix, handle_f64_suffix,
    handle_float_suffix, integer_result, is_digit, letter_is, parse_integer, result_view, IntegerType,
};
use crate::tokens::number::NumberView;

verus! {

/// The supported decimal numeric suffixes.
///
/// The language has no explicit `i64` or `u64` suffix: an unsuffixed
/// integer is an `i64`, and `u`/`U` asks for a `u64`.
#[derive(Debug, Clone, Copy, PartialEq, Eq, Structural)]
pub enum NumericSuffix {
    U64,
    I8,
    I16,
    I32,
    U8,
    U16,
    U32,
    F32,
    F64,
}

/// The suffix a spelling names: `i8`, `i16`, `i32`, `u8`, `u16`, `u32`, `u`,
/// `f` and `d`, each in lower or upper case.
pub open spec fn suffix_of(s: Seq<char>) -> Option<NumericSuffix> {
    if s.len() == 1 {
        if letter_is(s[0], 'u') {
            Some(NumericSuffix::U64)
        } else if letter_is(s[0], 'f') {
            Some(NumericSuffix::F32)
        } else if letter_is(s[0], 'd') {
            Some(NumericSuffix::F64)
        } else {
            None
        }
    } else if s.len() == 2 && s[1] == '8' {
        if letter_is(s[0], 'i') {
            Some(NumericSuffix::I8)
        } else if letter_is(s[0], 'u') {
            Some(NumericSuffix::U8)
        } else {
            None
        }
    } else if s.len() == 3 && ((s[1] == '1' && s[2] == '6') || (s[1] == '3' && s[2] == '2')) {
        if letter_is(s[0], 'i') {
            Some(
                if s[1] == '1' {
                    NumericSuffix::I16
                } else {
                    NumericSuffix::I32
                },
            )
        } else if letter_is(s[0], 'u') {
            Some(
                if s[1] == '1' {
                    NumericSuffix::U16
                } else {
                    NumericSuffix::U32
                },
            )
        } else {
            None
        }
    } else {
        None
    }
}

/// The suffix spellings, in either case of their letter: `i8`, `i16` and
/// `i32` name the signed types of those widths, `u8`, `u16` and `u32` the
/// unsigned ones, a lone `u` the 64-bit unsigned type, `f` the 32-bit and
/// `d` the 64-bit floating-point type; every other spelling names none.
pub proof fn law_suffix_spellings(s: Seq<char>)
    ensures
        suffix_of(seq!['i', '8']) == Some(NumericSuffix::I8) && suffix_of(seq!['I', '8']) == Some(NumericSuffix::I8),
        suffix_of(seq!['i', '1', '6']) == Some(NumericSuffix::I16) && suffix_of(seq!['I', '1', '6']) == Some(
            NumericSuffix::I16,
        ),
        suffix_of(seq!['i', '3', '2']) == Some(NumericSuffix::I32) && suffix_of(seq!['I', '3', '2']) == Some(
            NumericSuffix::I32,
        ),
        suffix_of(seq!['u', '8']) == Some(NumericSuffix::U8) && suffix_of(seq!['U', '8']) == Some(NumericSuffix::U8),
        suffix_of(seq!['u', '1', '6']) == Some(NumericSuffix::U16) && suffix_of(seq!['U', '1', '6']) == Some(
            NumericSuffix::U16,
        ),
        suffix_of(seq!['u', '3', '2']) == Some(NumericSuffix::U32) && suffix_of(seq!['U', '3', '2']) == Some(
            NumericSuffix::U32,
        ),
        suffix_of(seq!['u']) == Some(NumericSuffix::U64) && suffix_of(seq!['U']) == Some(NumericSuffix::U64),
        suffix_of(seq!['f']) == Some(NumericSuffix::F32) && suffix_of(seq!['F']) == Some(NumericSuffix::F32),
        suffix_of(seq!['d']) == Some(NumericSuffix::F64) && suffix_of(seq!['D']) == Some(NumericSuffix::F64),
        suffix_of(s) is Some ==> (s.len() == 1 && (s[0] == 'u' || s[0] == 'U' || s[0] == 'f' || s[0] == 'F'
            || s[0] == 'd' || s[0] == 'D')) || (s.len() == 2 && (s[0] == 'i' || s[0] == 'I' || s[0] == 'u'
            || s[0] == 'U') && s[1] == '8') || (s.len() == 3 && (s[0] == 'i' || s[0] == 'I' || s[0] == 'u'
            || s[0] == 'U') && ((s[1] == '1' && s[2] == '6') || (s[1] == '3' && s[2] == '2'))),
{
}

/// The last `k` characters of `s`.
pub open spec fn last_chars(s: Seq<char>, k: int) -> Seq<char> {
    s.subrange(s.len() - k, s.len() as int)
}

/// The length of the longest supported suffix that ends `s` and leaves a
/// nonempty numeric part before it; zero when there is none.
pub open spec fn supported_suffix_len(s: Seq<char>) -> nat {
    if s.len() > 3 && suffix_of(last_chars(s, 3)) is Some {
        3
    } else if s.len() > 2 && suffix_of(last_chars(s, 2)) is Some {
        2
    } else if s.len() > 1 && suffix_of(last_chars(s, 1)) is Some {
        1
    } else {
        0
    }
}

/// The end of the run of digits of `s` that starts at `i`.
pub open spec fn digits_end(s: Seq<char>, i: int) -> int
    decreases s.len() - i,
{
    if 0 <= i < s.len() && is_digit(s[i]) {
        digits_end(s, i + 1)
    } else {
        i
    }
}

/// The end of the decimal numeric core of `s`: digits, then optionally a
/// `.` and digits, then optionally an exponent marker, a sign and at least
/// one digit.
pub open spec fn numeric_core_end(s: Seq<char>) -> int {
    let a = digits_end(s, 0);
    let b = if a < s.len() && s[a] == '.' {
        digits_end(s, a + 1)
    } else {
        a
    };
    if b < s.len() && (s[b] == 'e' || s[b] == 'E') {
        let d0 = if b + 1 < s.len() && (s[b + 1] == '+' || s[b + 1] == '-') {
            b + 2
        } else {
            b + 1
        };
        let d1 = digits_end(s, d0);
        if d1 == d0 {
            b
        } else {
            d1
        }
    } else {
        b
    }
}

/// A literal's numeric part and suffix: a supported suffix when one ends
/// the literal; otherwise whatever follows the numeric core, if anything.
pub open spec fn numeric_split(s: Seq<char>) -> (Seq<char>, Option<Seq<char>>) {
    let k = supported_suffix_len(s);
    if k > 0 {
        (s.subrange(0, s.len() - k), Some(last_chars(s, k as int)))
    } else {
        let e = numeric_core_end(s);
        if e < s.len() {
            (s.subrange(0, e), Some(s.subrange(e, s.len() as int)))
        } else {
            (s, None)
        }
    }
}

/// The result of reading `numeric` under `suffix`: unsuffixed literals take
/// their default type, unsupported suffixes are `InvalidNumberSuffix`.
pub open spec fn suffix_result(numeric: Seq<char>, suffix: Option<Seq<char>>) -> Result<NumberView, LexError> {
    match suffix {
        None => default_result(numeric),
        Some(raw) => match suffix_of(raw) {
            None => Err(LexError::InvalidNumberSuffix),
            Some(NumericSuffix::U64) => integer_result(numeric, IntegerType::U64),
            Some(NumericSuffix::U8) => integer_result(numeric, IntegerType::U8),
            Some(NumericSuffix::U16) => integer_result(numeric, IntegerType::U16),
            Some(NumericSuffix::U32) => integer_result(numeric, IntegerType::U32),
            Some(NumericSuffix::I8) => integer_result(numeric, IntegerType::I8),
            Some(NumericSuffix::I16) => integer_result(numeric, IntegerType::I16),
            Some(NumericSuffix::I32) => integer_result(numeric, IntegerType::I32),
            Some(NumericSuffix::F32) => float_suffix_result(numeric),
            Some(NumericSuffix::F64) => f64_suffix_result(numeric),
        },
    }
}

/// The view of an optional text.
pub open spec fn opt_str_view(o: Option<&str>) -> Option<Seq<char>> {
    match o {
        Some(s) => Some(s@),
        None => None,
    }
}

/// The suffix named by the characters of `c`.
fn suffix_of_chars(c: &Vec<char>) -> (r: Option<NumericSuffix>)
    ensures
        r == suffix_of(c@),
{
    let letter = |ch: char, lower: char, upper: char| -> (b: bool)
        ensures
            b == (ch == lower || ch == upper),
        { ch == lower || ch == upper };
    if c.len() == 1 {
        if letter(c[0], 'u', 'U') {
            Some(NumericSuffix::U64)
        } else if letter(c[0], 'f', 'F') {
            Some(NumericSuffix::F32)
        } else if letter(c[0], 'd', 'D') {
            Some(NumericSuffix::F64)
        } else {
            None
        }
    } else if c.len() == 2 && c[1] == '8' {
        if letter(c[0], 'i', 'I') {
            Some(NumericSuffix::I8)
        } else if letter(c[0], 'u', 'U') {
            Some(NumericSuffix::U8)
        } else {
            None
        }
    } else if c.len() == 3 && ((c[1] == '1' && c[2] == '6') || (c[1] == '3' && c[2] == '2')) {
        let sixteen = c[1] == '1';
        if letter(c[0], 'i', 'I') {
            Some(
                if sixteen {
                    NumericSuffix::I16
                } else {
                    NumericSuffix::I32
                },
            )
        } else if letter(c[0], 'u', 'U') {
            Some(
                if sixteen {
                    NumericSuffix::U16
                } else {
                    NumericSuffix::U32
                },
            )
        } else {
            None
        }
    } else {
        None
    }
}

impl NumericSuffix {
    /// The suffix a spelling names, if it names one.
    pub fn parse(value: &str) -> (r: Option<Self>)
        ensures
            r == suffix_of(value@),
    {
        let c = chars_of(value);
        suffix_of_chars(&c)
    }

    /// The longest supported suffix ending `slice` that leaves a nonempty
    /// numeric part, split off.
    fn split_supported(slice: &str) -> (r: Option<(&str, &str)>)
        ensures
            supported_suffix_len(slice@) > 0 ==> (r matches Some((n, s)) && n@ == slice@.subrange(
                0,
                slice@.len() - supported_suffix_len(slice@),
            ) && s@ == last_chars(slice@, supported_suffix_len(slice@) as int)),
            supported_suffix_len(slice@) == 0 ==> r is None,
    {
        let c = chars_of(slice);
        let n = c.len();
        let mut k: usize = 3;
        while k > 0
            invariant
                k <= 3,
                c@ == slice@,
                n == c@.len(),
                forall|j: int| k < j <= 3 ==> !(n > j && suffix_of(#[trigger] last_chars(c@, j)) is Some),
            decreases k,
        {
            if n > k {
                let tail = crate::tokens::parsers::value::slice_chars(&c, n - k, n);
                if suffix_of_chars(&tail).is_some() {
                    return Some((slice.substring_char(0, n - k), slice.substring_char(n - k, n)));
                }
            }
            k = k - 1;
        }
        None
    }
}

/// The end of the run of digits of `c` that starts at `i`.
fn digits_end_at(c: &Vec<char>, i: usize) -> (r: usize)
    requires
        i <= c@.len(),
    ensures
        r as int == digits_end(c@, i as int),
        i <= r <= c@.len(),
{
    let mut j = i;
    while j < c.len() && '0' <= c[j] && c[j] <= '9'
        invariant
            i <= j <= c@.len(),
            digits_end(c@, j as int) == digits_end(c@, i as int),
        decreases c.len() - j,
    {
        j = j + 1;
    }
    j
}

/// The end of the decimal numeric core of `slice`.
fn core_end(c: &Vec<char>) -> (r: usize)
    ensures
        r as int == numeric_core_end(c@),
        r <= c@.len(),
{
    let len = c.len();
    let a = digits_end_at(c, 0);
    let b = if a < len && c[a] == '.' {
        digits_end_at(c, a + 1)
    } else {
        a
    };
    if b < len && (c[b] == 'e' || c[b] == 'E') {
        let d0 = if b + 1 < len && (c[b + 1] == '+' || c[b + 1] == '-') {
            b + 2
        } else {
            b + 1
        };
        let d1 = digits_end_at(c, d0);
        if d1 == d0 {
            b
        } else {
            d1
        }
    } else {
        b
    }
}

/// Splits a numeric literal into its numeric part and its suffix, if any.
///
/// A supported suffix is split off when it ends the literal. Otherwise any
/// text after the numeric core is kept as the suffix, so that a malformed
/// candidate such as `100i64` is reported whole as an invalid suffix.
pub fn split_numeric_and_suffix(slice: &str) -> (r: (&str, Option<&str>))
    ensures
        r.0@ == numeric_split(slice@).0,
        opt_str_view(r.1) == numeric_split(slice@).1,
{
    match NumericSuffix::split_supported(slice) {
        Some((numeric_part, suffix)) => {
            return (numeric_part, Some(suffix));
        },
        None => {},
    }
    let c = chars_of(slice);
    let numeric_end = core_end(&c);
    if numeric_end < c.len() {
        (slice.substring_char(0, numeric_end), Some(slice.substring_char(numeric_end, c.len())))
    } else {
        proof {
            assert(slice@.subrange(0, slice@.len() as int) =~= slice@);
        }
        (slice, None)
    }
}

/// Reads `numeric_part` as `suffix` asks: unsuffixed literals take their
/// default type; `InvalidNumberSuffix` for an unsupported suffix, and
/// `NumberOverflow` when the value does not fit.
pub fn handle_suffix(numeric_part: &str, suffix: Option<&str>) -> (r: Result<Number, LexError>)
    ensures
        result_view(r) == suffix_result(numeric_part@, opt_str_view(suffix)),
{
    let raw_suffix = match suffix {
        Some(s) => s,
        None => {
            return handle_default_suffix(numeric_part);
        },
    };
    let suffix = match NumericSuffix::parse(raw_suffix) {
        Some(s) => s,
        None => {
            return Err(LexError::InvalidNumberSuffix);
        },
    };
    match suffix {
        NumericSuffix::U64 => parse_integer(numeric_part, IntegerType::U64),
        NumericSuffix::U8 => parse_integer(numeric_part, IntegerType::U8),
        NumericSuffix::U16 => parse_integer(numeric_part, IntegerType::U16),
        NumericSuffix::U32 => parse_integer(numeric_part, IntegerType::U32),
        NumericSuffix::I8 => parse_integer(numeric_part, IntegerType::I8),
        NumericSuffix::I16 => parse_integer(numeric_part, IntegerType::I16),
        NumericSuffix::I32 => parse_integer(numeric_part, IntegerType::I32),
        NumericSuffix::F32 => handle_float_suffix(numeric_part),
        NumericSuffix::F64 => handle_f64_suffix(numeric_part),
    }
}

} // verus!
