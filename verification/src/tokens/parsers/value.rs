//! Construction of numeric values from the text of decimal literals.
//!
//! A suffixed integer literal must be decimal digits only, and its value
//! must fit its type. Exponents and unsuffixed integer texts are read as the
//! standard library reads a signed integer: digits with an optional sign,
//! in range. Floating-point
//! texts are checked against the standard library's floating-point grammar
//! and kept as text: the value they denote is exact, and turning it into a
//! machine float is left to the consumer.
use vstd::prelude::*;
use crate::lex::error::LexError;
use crate::text::chars_of;
use crate::tokens::number::{Number, NumberView};

verus! {

/// A decimal digit.
pub open spec fn is_digit(c: char) -> bool {
    '0' <= c && c <= '9'
}

/// The value of a decimal digit.
pub open spec fn digit_value(c: char) -> nat {
    (c as int - '0' as int) as nat
}

/// A nonempty run of decimal digits.
pub open spec fn is_digit_text(s: Seq<char>) -> bool {
    s.len() > 0 && forall|i: int| 0 <= i < s.len() ==> #[trigger] is_digit(s[i])
}

/// The value of decimal digits, most significant first.
pub open spec fn decimal_value(s: Seq<char>) -> nat
    decreases s.len(),
{
    if s.len() == 0 {
        0
    } else {
        decimal_value(s.drop_last()) * 10 + digit_value(s.last())
    }
}

/// The value of an optionally signed decimal integer: `+` or `-`, then digits.
pub open spec fn signed_value(s: Seq<char>) -> Option<int> {
    if s.len() > 0 && (s[0] == '-' || s[0] == '+') {
        let digits = s.subrange(1, s.len() as int);
        if is_digit_text(digits) {
            Some(
                if s[0] == '-' {
                    -(decimal_value(digits) as int)
                } else {
                    decimal_value(digits) as int
                },
            )
        } else {
            None
        }
    } else if is_digit_text(s) {
        Some(decimal_value(s) as int)
    } else {
        None
    }
}

/// The value of `s` as an `i64`, when it is a signed integer in range.
pub open spec fn i64_value(s: Seq<char>) -> Option<i64> {
    match signed_value(s) {
        Some(v) => if i64::MIN <= v <= i64::MAX {
            Some(v as i64)
        } else {
            None
        },
        None => None,
    }
}

/// The value of `s` as an `i32`, when it is a signed integer in range.
pub open spec fn i32_value(s: Seq<char>) -> Option<i32> {
    match signed_value(s) {
        Some(v) => if i32::MIN <= v <= i32::MAX {
            Some(v as i32)
        } else {
            None
        },
        None => None,
    }
}

/// `c` is the lowercase letter `lower` or its uppercase form.
pub open spec fn letter_is(c: char, lower: char) -> bool {
    c == lower || c as int == lower as int - 32
}

/// The spellings of infinity and not-a-number, in any ASCII case.
pub open spec fn is_special_float(b: Seq<char>) -> bool {
    ||| b.len() == 3 && letter_is(b[0], 'i') && letter_is(b[1], 'n') && letter_is(b[2], 'f')
    ||| b.len() == 8 && letter_is(b[0], 'i') && letter_is(b[1], 'n') && letter_is(b[2], 'f') && letter_is(b[3], 'i')
        && letter_is(b[4], 'n') && letter_is(b[5], 'i') && letter_is(b[6], 't') && letter_is(b[7], 'y')
    ||| b.len() == 3 && letter_is(b[0], 'n') && letter_is(b[1], 'a') && letter_is(b[2], 'n')
}

/// The exponent marker of a floating-point text.
pub open spec fn is_exp_marker(c: char) -> bool {
    c == 'e' || c == 'E'
}

/// Position of the first exponent marker at or after `i`, or the length.
pub open spec fn exp_marker_from(b: Seq<char>, i: int) -> int
    decreases b.len() - i,
{
    if i < 0 || i >= b.len() {
        b.len() as int
    } else if is_exp_marker(b[i]) {
        i
    } else {
        exp_marker_from(b, i + 1)
    }
}

/// A mantissa: digits with at most one `.`, and at least one digit.
pub open spec fn is_mantissa(m: Seq<char>) -> bool {
    &&& forall|i: int| 0 <= i < m.len() ==> is_digit(#[trigger] m[i]) || m[i] == '.'
    &&& forall|i: int, j: int| 0 <= i < j < m.len() && #[trigger] m[i] == '.' ==> #[trigger] m[j] != '.'
    &&& exists|i: int| 0 <= i < m.len() && is_digit(#[trigger] m[i])
}

/// An exponent: an optional sign, then digits.
pub open spec fn is_exponent(x: Seq<char>) -> bool {
    if x.len() > 0 && (x[0] == '+' || x[0] == '-') {
        is_digit_text(x.subrange(1, x.len() as int))
    } else {
        is_digit_text(x)
    }
}

/// A finite floating-point spelling: a mantissa, then optionally an
/// exponent marker and an exponent.
pub open spec fn is_float_number(b: Seq<char>) -> bool {
    let e = exp_marker_from(b, 0);
    if e < b.len() {
        is_mantissa(b.subrange(0, e)) && is_exponent(b.subrange(e + 1, b.len() as int))
    } else {
        is_mantissa(b)
    }
}

/// A text the standard library reads as a floating-point number: an
/// optional sign, then `inf`, `infinity` or `nan` in any case, or a finite
/// spelling.
pub open spec fn is_float_text(s: Seq<char>) -> bool {
    let b = if s.len() > 0 && (s[0] == '+' || s[0] == '-') {
        s.subrange(1, s.len() as int)
    } else {
        s
    };
    is_special_float(b) || is_float_number(b)
}

/// The integer types a suffix can select.
#[derive(Debug, Clone, Copy, PartialEq, Eq, Structural)]
pub enum IntegerType {
    I8,
    I16,
    I32,
    I64,
    U8,
    U16,
    U32,
    U64,
}

/// The largest value of an integer type.
pub open spec fn max_value(t: IntegerType) -> nat {
    match t {
        IntegerType::I8 => 0x7f,
        IntegerType::I16 => 0x7fff,
        IntegerType::I32 => 0x7fff_ffff,
        IntegerType::I64 => 0x7fff_ffff_ffff_ffff,
        IntegerType::U8 => 0xff,
        IntegerType::U16 => 0xffff,
        IntegerType::U32 => 0xffff_ffff,
        IntegerType::U64 => 0xffff_ffff_ffff_ffff,
    }
}

/// The number of type `t` with value `v`.
pub open spec fn integer_number(t: IntegerType, v: nat) -> NumberView {
    match t {
        IntegerType::I8 => NumberView::I8(v as i8),
        IntegerType::I16 => NumberView::I16(v as i16),
        IntegerType::I32 => NumberView::I32(v as i32),
        IntegerType::I64 => NumberView::Integer(v as i64),
        IntegerType::U8 => NumberView::U8(v as u8),
        IntegerType::U16 => NumberView::U16(v as u16),
        IntegerType::U32 => NumberView::U32(v as u32),
        IntegerType::U64 => NumberView::UnsignedInteger(v as u64),
    }
}

/// The view of a parse result.
pub open spec fn result_view(r: Result<Number, LexError>) -> Result<NumberView, LexError> {
    match r {
        Ok(n) => Ok(n@),
        Err(e) => Err(e),
    }
}

/// Reading `s` as an integer of type `t`: only digits are accepted
/// (`InvalidNumberSuffix` otherwise), and the value must fit the type
/// (`NumberOverflow` otherwise).
pub open spec fn integer_result(s: Seq<char>, t: IntegerType) -> Result<NumberView, LexError> {
    if !is_digit_text(s) {
        Err(LexError::InvalidNumberSuffix)
    } else if decimal_value(s) <= max_value(t) {
        Ok(integer_number(t, decimal_value(s)))
    } else {
        Err(LexError::NumberOverflow)
    }
}

/// A suffixed integer literal of decimal digits is accepted exactly when its
/// value lies within the range of its type, up to that type's largest value
/// (`i8::MAX`, `i16::MAX`, `i32::MAX`, `i64::MAX`, `u8::MAX`, `u16::MAX`,
/// `u32::MAX` or `u64::MAX`), and then gives a number of that type holding
/// the value; a larger value is `NumberOverflow`; a text that is not digits
/// is `InvalidNumberSuffix`, whatever the type.
pub proof fn law_suffixed_integers_fit_their_type(s: Seq<char>, t: IntegerType)
    ensures
        !is_digit_text(s) ==> integer_result(s, t) == Err::<NumberView, LexError>(LexError::InvalidNumberSuffix),
        is_digit_text(s) ==> ({
            let v = decimal_value(s);
            &&& t == IntegerType::I8 ==> if v <= i8::MAX {
                integer_result(s, t) matches Ok(NumberView::I8(x)) && x == v
            } else {
                integer_result(s, t) == Err::<NumberView, LexError>(LexError::NumberOverflow)
            }
            &&& t == IntegerType::I16 ==> if v <= i16::MAX {
                integer_result(s, t) matches Ok(NumberView::I16(x)) && x == v
            } else {
                integer_result(s, t) == Err::<NumberView, LexError>(LexError::NumberOverflow)
            }
            &&& t == IntegerType::I32 ==> if v <= i32::MAX {
                integer_result(s, t) matches Ok(NumberView::I32(x)) && x == v
            } else {
                integer_result(s, t) == Err::<NumberView, LexError>(LexError::NumberOverflow)
            }
            &&& t == IntegerType::I64 ==> if v <= i64::MAX {
                integer_result(s, t) matches Ok(NumberView::Integer(x)) && x == v
            } else {
                integer_result(s, t) == Err::<NumberView, LexError>(LexError::NumberOverflow)
            }
            &&& t == IntegerType::U8 ==> if v <= u8::MAX {
                integer_result(s, t) matches Ok(NumberView::U8(x)) && x == v
            } else {
                integer_result(s, t) == Err::<NumberView, LexError>(LexError::NumberOverflow)
            }
            &&& t == IntegerType::U16 ==> if v <= u16::MAX {
                integer_result(s, t) matches Ok(NumberView::U16(x)) && x == v
            } else {
                integer_result(s, t) == Err::<NumberView, LexError>(LexError::NumberOverflow)
            }
            &&& t == IntegerType::U32 ==> if v <= u32::MAX {
                integer_result(s, t) matches Ok(NumberView::U32(x)) && x == v
            } else {
                integer_result(s, t) == Err::<NumberView, LexError>(LexError::NumberOverflow)
            }
            &&& t == IntegerType::U64 ==> if v <= u64::MAX {
                integer_result(s, t) matches Ok(NumberView::UnsignedInteger(x)) && x == v
            } else {
                integer_result(s, t) == Err::<NumberView, LexError>(LexError::NumberOverflow)
            }
        }),
{
}

/// Scientific notation: the text before the first exponent marker must be a
/// floating-point text and the text after it an `i32`; the mantissa text and
/// the exponent are kept apart.
pub open spec fn scientific(s: Seq<char>, is_f32: bool) -> Option<NumberView> {
    let e = exp_marker_from(s, 0);
    if e >= s.len() {
        None
    } else {
        let base = s.subrange(0, e);
        match i32_value(s.subrange(e + 1, s.len() as int)) {
            Some(x) => if is_float_text(base) {
                Some(
                    if is_f32 {
                        NumberView::Scientific32(base, x)
                    } else {
                        NumberView::Scientific64(base, x)
                    },
                )
            } else {
                None
            },
            None => None,
        }
    }
}

/// A floating-point literal of 64 bits, or `NumberOverflow`.
pub open spec fn float64_result(s: Seq<char>) -> Result<NumberView, LexError> {
    if is_float_text(s) {
        Ok(NumberView::Float64(s))
    } else {
        Err(LexError::NumberOverflow)
    }
}

/// A literal without exponent: with a `.`, a 64-bit float; otherwise an `i64`.
pub open spec fn non_scientific_result(s: Seq<char>) -> Result<NumberView, LexError> {
    if s.contains('.') {
        float64_result(s)
    } else {
        match i64_value(s) {
            Some(v) => Ok(NumberView::Integer(v)),
            None => Err(LexError::NumberOverflow),
        }
    }
}

/// An unsuffixed literal: scientific notation as `Scientific64`, otherwise
/// as [`non_scientific_result`].
pub open spec fn default_result(s: Seq<char>) -> Result<NumberView, LexError> {
    match scientific(s, false) {
        Some(n) => Ok(n),
        None => non_scientific_result(s),
    }
}

/// An `f`-suffixed literal: scientific notation as `Scientific32`,
/// otherwise a 32-bit float.
pub open spec fn float_suffix_result(s: Seq<char>) -> Result<NumberView, LexError> {
    match scientific(s, true) {
        Some(n) => Ok(n),
        None => if is_float_text(s) {
            Ok(NumberView::Float32(s))
        } else {
            Err(LexError::NumberOverflow)
        },
    }
}

/// A literal read as 64 bits: scientific notation as `Scientific64`,
/// otherwise a 64-bit float.
pub open spec fn f64_suffix_result(s: Seq<char>) -> Result<NumberView, LexError> {
    match scientific(s, false) {
        Some(n) => Ok(n),
        None => float64_result(s),
    }
}

/// A prefix of digits is worth no more than the digits it starts.
pub proof fn lemma_decimal_prefix(s: Seq<char>, j: int)
    requires
        0 <= j <= s.len(),
    ensures
        decimal_value(s.subrange(0, j)) <= decimal_value(s),
    decreases s.len() - j,
{
    if j < s.len() {
        lemma_decimal_prefix(s, j + 1);
        assert(s.subrange(0, j + 1).drop_last() =~= s.subrange(0, j));
    } else {
        assert(s.subrange(0, j) =~= s);
    }
}

/// The first exponent marker, found by scanning from the start.
pub proof fn lemma_exp_marker(b: Seq<char>, p: int, i: int)
    requires
        0 <= i <= p <= b.len(),
        forall|k: int| 0 <= k < p ==> !is_exp_marker(#[trigger] b[k]),
        p == b.len() || is_exp_marker(b[p]),
    ensures
        exp_marker_from(b, i) == p,
    decreases p - i,
{
    if i < p {
        lemma_exp_marker(b, p, i + 1);
    }
}

/// The characters of `c` from `from` to `to`.
pub fn slice_chars(c: &Vec<char>, from: usize, to: usize) -> (r: Vec<char>)
    requires
        from <= to <= c@.len(),
    ensures
        r@ == c@.subrange(from as int, to as int),
{
    let mut r: Vec<char> = Vec::new();
    let mut i = from;
    while i < to
        invariant
            from <= i <= to <= c@.len(),
            r@ == c@.subrange(from as int, i as int),
        decreases to - i,
    {
        r.push(c[i]);
        i = i + 1;
        assert(r@ =~= c@.subrange(from as int, i as int));
    }
    r
}

/// Whether the characters form a nonempty run of decimal digits.
fn all_digits(c: &Vec<char>) -> (r: bool)
    ensures
        r == is_digit_text(c@),
{
    if c.len() == 0 {
        return false;
    }
    let mut i: usize = 0;
    while i < c.len()
        invariant
            i <= c@.len(),
            forall|k: int| 0 <= k < i ==> #[trigger] is_digit(c@[k]),
        decreases c.len() - i,
    {
        if !('0' <= c[i] && c[i] <= '9') {
            assert(!is_digit(c@[i as int]));
            return false;
        }
        i = i + 1;
    }
    true
}

/// The value of decimal digits, when it fits in a `u64`.
fn decimal_u64(c: &Vec<char>) -> (r: Option<u64>)
    requires
        is_digit_text(c@),
    ensures
        match r {
            Some(v) => v as nat == decimal_value(c@),
            None => decimal_value(c@) > u64::MAX,
        },
{
    let mut value: u64 = 0;
    let mut i: usize = 0;
    assert(c@.subrange(0, 0).len() == 0);
    while i < c.len()
        invariant
            i <= c@.len(),
            is_digit_text(c@),
            value as nat == decimal_value(c@.subrange(0, i as int)),
        decreases c.len() - i,
    {
        assert(is_digit(c@[i as int]));
        let d = (c[i] as u32 - '0' as u32) as u64;
        proof {
            assert(c@.subrange(0, i + 1).drop_last() =~= c@.subrange(0, i as int));
            assert(c@.subrange(0, i + 1).last() == c@[i as int]);
        }
        let next = match value.checked_mul(10) {
            Some(m) => m.checked_add(d),
            None => None,
        };
        match next {
            Some(v) => {
                value = v;
            },
            None => {
                proof {
                    lemma_decimal_prefix(c@, i + 1);
                }
                return None;
            },
        }
        i = i + 1;
    }
    assert(c@.subrange(0, i as int) =~= c@);
    Some(value)
}

/// The value of an optionally signed decimal integer, when it fits an `i64`.
fn signed_i64(c: &Vec<char>) -> (r: Option<i64>)
    ensures
        r == i64_value(c@),
{
    let negative = c.len() > 0 && c[0] == '-';
    let signed = c.len() > 0 && (c[0] == '-' || c[0] == '+');
    let digits = if signed {
        slice_chars(c, 1, c.len())
    } else {
        slice_chars(c, 0, c.len())
    };
    proof {
        if !signed {
            assert(digits@ =~= c@);
        }
    }
    if !all_digits(&digits) {
        return None;
    }
    match decimal_u64(&digits) {
        Some(m) => {
            if negative {
                if m <= 0x8000_0000_0000_0000u64 {
                    if m == 0x8000_0000_0000_0000u64 {
                        Some(i64::MIN)
                    } else {
                        Some(-(m as i64))
                    }
                } else {
                    None
                }
            } else if m <= 0x7fff_ffff_ffff_ffffu64 {
                Some(m as i64)
            } else {
                None
            }
        },
        None => None,
    }
}

/// The value of an optionally signed decimal integer, when it fits an `i32`.
fn signed_i32(c: &Vec<char>) -> (r: Option<i32>)
    ensures
        r == i32_value(c@),
{
    match signed_i64(c) {
        Some(v) => if i32::MIN as i64 <= v && v <= i32::MAX as i64 {
            Some(v as i32)
        } else {
            None
        },
        None => None,
    }
}

/// Whether the characters are `inf`, `infinity` or `nan` in any ASCII case.
fn special_float(c: &Vec<char>) -> (r: bool)
    ensures
        r == is_special_float(c@),
{
    let inf = c.len() == 3 && (c[0] == 'i' || c[0] == 'I') && (c[1] == 'n' || c[1] == 'N') && (c[2] == 'f' || c[2]
        == 'F');
    let infinity = c.len() == 8 && (c[0] == 'i' || c[0] == 'I') && (c[1] == 'n' || c[1] == 'N') && (c[2] == 'f'
        || c[2] == 'F') && (c[3] == 'i' || c[3] == 'I') && (c[4] == 'n' || c[4] == 'N') && (c[5] == 'i' || c[5]
        == 'I') && (c[6] == 't' || c[6] == 'T') && (c[7] == 'y' || c[7] == 'Y');
    let nan = c.len() == 3 && (c[0] == 'n' || c[0] == 'N') && (c[1] == 'a' || c[1] == 'A') && (c[2] == 'n' || c[2]
        == 'N');
    inf || infinity || nan
}

/// Whether the characters form a mantissa.
fn mantissa(c: &Vec<char>) -> (r: bool)
    ensures
        r == is_mantissa(c@),
{
    let mut seen_dot = false;
    let mut seen_digit = false;
    let mut i: usize = 0;
    while i < c.len()
        invariant
            i <= c@.len(),
            forall|k: int| 0 <= k < i ==> is_digit(#[trigger] c@[k]) || c@[k] == '.',
            forall|k: int, j: int| 0 <= k < j < i && #[trigger] c@[k] == '.' ==> #[trigger] c@[j] != '.',
            seen_dot == (exists|k: int| 0 <= k < i && #[trigger] c@[k] == '.'),
            seen_digit == (exists|k: int| 0 <= k < i && is_digit(#[trigger] c@[k])),
        decreases c.len() - i,
    {
        let ch = c[i];
        if ch == '.' {
            if seen_dot {
                let ghost k = choose|k: int| 0 <= k < i && #[trigger] c@[k] == '.';
                assert(c@[k] == '.' && c@[i as int] == '.');
                return false;
            }
            seen_dot = true;
        } else if '0' <= ch && ch <= '9' {
            seen_digit = true;
        } else {
            assert(!(is_digit(c@[i as int]) || c@[i as int] == '.'));
            return false;
        }
        i = i + 1;
    }
    seen_digit
}

/// Whether the characters form an exponent.
fn exponent(c: &Vec<char>) -> (r: bool)
    ensures
        r == is_exponent(c@),
{
    if c.len() > 0 && (c[0] == '+' || c[0] == '-') {
        let digits = slice_chars(c, 1, c.len());
        all_digits(&digits)
    } else {
        all_digits(c)
    }
}

/// Position of the first exponent marker, or the length.
fn find_exp_marker(c: &Vec<char>) -> (r: usize)
    ensures
        r as int == exp_marker_from(c@, 0),
        r <= c@.len(),
{
    let mut i: usize = 0;
    while i < c.len()
        invariant
            i <= c@.len(),
            forall|k: int| 0 <= k < i ==> !is_exp_marker(#[trigger] c@[k]),
        decreases c.len() - i,
    {
        if c[i] == 'e' || c[i] == 'E' {
            proof {
                lemma_exp_marker(c@, i as int, 0);
            }
            return i;
        }
        i = i + 1;
    }
    proof {
        lemma_exp_marker(c@, i as int, 0);
    }
    i
}

/// Whether the characters are a text that reads as a floating-point number.
fn float_text(c: &Vec<char>) -> (r: bool)
    ensures
        r == is_float_text(c@),
{
    let body = if c.len() > 0 && (c[0] == '+' || c[0] == '-') {
        slice_chars(c, 1, c.len())
    } else {
        slice_chars(c, 0, c.len())
    };
    proof {
        if !(c@.len() > 0 && (c@[0] == '+' || c@[0] == '-')) {
            assert(body@ =~= c@);
        }
    }
    if special_float(&body) {
        return true;
    }
    let e = find_exp_marker(&body);
    if e < body.len() {
        let m = slice_chars(&body, 0, e);
        let x = slice_chars(&body, e + 1, body.len());
        mantissa(&m) && exponent(&x)
    } else {
        mantissa(&body)
    }
}

/// Reads an integer literal as the type `target` selects.
///
/// Returns `InvalidNumberSuffix` when `numeric_part` is not a nonempty run
/// of decimal digits, and `NumberOverflow` when its value does not fit the
/// type.
pub fn parse_integer(numeric_part: &str, target: IntegerType) -> (r: Result<Number, LexError>)
    ensures
        result_view(r) == integer_result(numeric_part@, target),
{
    if !is_valid_integer_literal(numeric_part) {
        return Err(LexError::InvalidNumberSuffix);
    }
    let c = chars_of(numeric_part);
    let v = match decimal_u64(&c) {
        Some(v) => v,
        None => {
            return Err(LexError::NumberOverflow);
        },
    };
    match target {
        IntegerType::I8 => if v <= 0x7f {
            Ok(Number::I8(v as i8))
        } else {
            Err(LexError::NumberOverflow)
        },
        IntegerType::I16 => if v <= 0x7fff {
            Ok(Number::I16(v as i16))
        } else {
            Err(LexError::NumberOverflow)
        },
        IntegerType::I32 => if v <= 0x7fff_ffff {
            Ok(Number::I32(v as i32))
        } else {
            Err(LexError::NumberOverflow)
        },
        IntegerType::I64 => if v <= 0x7fff_ffff_ffff_ffff {
            Ok(Number::Integer(v as i64))
        } else {
            Err(LexError::NumberOverflow)
        },
        IntegerType::U8 => if v <= 0xff {
            Ok(Number::U8(v as u8))
        } else {
            Err(LexError::NumberOverflow)
        },
        IntegerType::U16 => if v <= 0xffff {
            Ok(Number::U16(v as u16))
        } else {
            Err(LexError::NumberOverflow)
        },
        IntegerType::U32 => if v <= 0xffff_ffff {
            Ok(Number::U32(v as u32))
        } else {
            Err(LexError::NumberOverflow)
        },
        IntegerType::U64 => Ok(Number::UnsignedInteger(v)),
    }
}

/// Whether a text is a nonempty run of decimal digits.
pub fn is_valid_integer_literal(numeric_part: &str) -> (r: bool)
    ensures
        r == is_digit_text(numeric_part@),
{
    let c = chars_of(numeric_part);
    all_digits(&c)
}

/// Reads an `f`-suffixed literal: scientific notation as `Scientific32`,
/// other spellings as `Float32`; `NumberOverflow` when the text is not a
/// floating-point text.
pub fn handle_float_suffix(numeric_part: &str) -> (r: Result<Number, LexError>)
    ensures
        result_view(r) == float_suffix_result(numeric_part@),
{
    match parse_scientific(numeric_part, true) {
        Some(n) => Ok(n),
        None => {
            let c = chars_of(numeric_part);
            if float_text(&c) {
                Ok(Number::Float32(numeric_part.to_owned()))
            } else {
                Err(LexError::NumberOverflow)
            }
        },
    }
}

/// Reads an unsuffixed literal: integers as `i64`, other spellings as
/// `Float64`, scientific notation as `Scientific64`.
pub fn handle_default_suffix(numeric_part: &str) -> (r: Result<Number, LexError>)
    ensures
        result_view(r) == default_result(numeric_part@),
{
    match parse_scientific(numeric_part, false) {
        Some(n) => Ok(n),
        None => handle_non_scientific(numeric_part),
    }
}

/// Reads a literal as 64 bits: scientific notation as `Scientific64`, any
/// other spelling, integer-shaped ones included, as `Float64`.
pub fn handle_f64_suffix(numeric_part: &str) -> (r: Result<Number, LexError>)
    ensures
        result_view(r) == f64_suffix_result(numeric_part@),
{
    match parse_scientific(numeric_part, false) {
        Some(n) => Ok(n),
        None => {
            let c = chars_of(numeric_part);
            if float_text(&c) {
                Ok(Number::Float64(numeric_part.to_owned()))
            } else {
                Err(LexError::NumberOverflow)
            }
        },
    }
}

/// Reads a literal without exponent: with a `.` as `Float64`, otherwise as
/// `i64`; `NumberOverflow` when the text is neither.
pub fn handle_non_scientific(numeric_part: &str) -> (r: Result<Number, LexError>)
    ensures
        result_view(r) == non_scientific_result(numeric_part@),
{
    let c = chars_of(numeric_part);
    let mut has_dot = false;
    let mut i: usize = 0;
    while i < c.len()
        invariant
            i <= c@.len(),
            c@ == numeric_part@,
            has_dot == (exists|k: int| 0 <= k < i && #[trigger] c@[k] == '.'),
        decreases c.len() - i,
    {
        if c[i] == '.' {
            has_dot = true;
        }
        i = i + 1;
    }
    assert(has_dot == numeric_part@.contains('.'));
    if has_dot {
        if float_text(&c) {
            Ok(Number::Float64(numeric_part.to_owned()))
        } else {
            Err(LexError::NumberOverflow)
        }
    } else {
        match signed_i64(&c) {
            Some(v) => Ok(Number::Integer(v)),
            None => Err(LexError::NumberOverflow),
        }
    }
}

/// Reads scientific notation, keeping the mantissa text and the exponent
/// apart; nothing when `source` has no exponent marker, its exponent is not
/// an `i32`, or its mantissa is not a floating-point text.
pub fn parse_scientific(source: &str, is_f32: bool) -> (r: Option<Number>)
    ensures
        match r {
            Some(n) => scientific(source@, is_f32) == Some(n@),
            None => scientific(source@, is_f32) is None,
        },
{
    let c = chars_of(source);
    let e = find_exp_marker(&c);
    if e >= c.len() {
        return None;
    }
    let exponent_chars = slice_chars(&c, e + 1, c.len());
    let exponent = match signed_i32(&exponent_chars) {
        Some(x) => x,
        None => {
            return None;
        },
    };
    let base_chars = slice_chars(&c, 0, e);
    if !float_text(&base_chars) {
        return None;
    }
    let base = source.substring_char(0, e).to_owned();
    if is_f32 {
        Some(Number::Scientific32(base, exponent))
    } else {
        Some(Number::Scientific64(base, exponent))
    }
}

} // verus!
