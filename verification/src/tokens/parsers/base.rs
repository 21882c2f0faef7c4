//! Binary, octal and hexadecimal literals: `#b…`, `#o…` and `#x…`, each
//! with an optional `u`/`U` suffix asking for a `u64`.
use vstd::prelude::*;
use crate::lex::error::LexError;
use crate::location::utf8::{char_utf8_width, utf8_width};
use crate::text::chars_of;
use crate::tokens::number::{Number, NumberView};
use crate::tokens::parsers::value::{letter_is, result_view, slice_chars};

verus! {

/// The value of a digit of any base up to sixteen.
pub open spec fn radix_digit(c: char) -> Option<nat> {
    if '0' <= c && c <= '9' {
        Some((c as int - '0' as int) as nat)
    } else if 'a' <= c && c <= 'f' {
        Some((c as int - 'a' as int + 10) as nat)
    } else if 'A' <= c && c <= 'F' {
        Some((c as int - 'A' as int + 10) as nat)
    } else {
        None
    }
}

/// A nonempty run of digits of base `radix`, one of 2, 8 and 16.
pub open spec fn is_radix_text(s: Seq<char>, radix: nat) -> bool {
    &&& radix == 2 || radix == 8 || radix == 16
    &&& s.len() > 0
    &&& forall|i: int| 0 <= i < s.len() ==> (#[trigger] radix_digit(s[i]) matches Some(d) && d < radix)
}

/// The value of digits of base `radix`, most significant first.
pub open spec fn radix_value(s: Seq<char>, radix: nat) -> nat
    decreases s.len(),
{
    if s.len() == 0 {
        0
    } else {
        radix_value(s.drop_last(), radix) * radix + radix_digit(s.last()).unwrap_or(0)
    }
}

/// The error of a malformed literal of base `radix`.
pub open spec fn radix_error(radix: nat) -> LexError {
    if radix == 2 {
        LexError::MalformedBinary
    } else if radix == 8 {
        LexError::MalformedOctal
    } else if radix == 16 {
        LexError::MalformedHexadecimal
    } else {
        LexError::InvalidToken
    }
}

/// The text is under two bytes long in UTF-8.
pub open spec fn shorter_than_two_bytes(s: Seq<char>) -> bool {
    s.len() == 0 || (s.len() == 1 && utf8_width(s[0]) < 2)
}

/// The text after its first two bytes: the base prefix such as `#x`.
pub open spec fn after_prefix(s: Seq<char>) -> Seq<char> {
    if utf8_width(s[0]) == 2 {
        s.subrange(1, s.len() as int)
    } else {
        s.subrange(2, s.len() as int)
    }
}

/// Reading a literal of base `radix`: after the two-byte prefix, digits of
/// the base, optionally followed by `u`/`U`; a missing or wrong digit is the
/// base's malformed-literal error, and a value too large for `u64` (with
/// the suffix) or `i64` (without) is `NumberOverflow`.
pub open spec fn base_number_result(radix: nat, s: Seq<char>) -> Result<NumberView, LexError> {
    if shorter_than_two_bytes(s) {
        Err(radix_error(radix))
    } else {
        let rest = after_prefix(s);
        let unsigned = rest.len() > 0 && letter_is(rest.last(), 'u');
        let digits = if unsigned {
            rest.drop_last()
        } else {
            rest
        };
        if !is_radix_text(digits, radix) {
            Err(radix_error(radix))
        } else if unsigned {
            if radix_value(digits, radix) <= u64::MAX {
                Ok(NumberView::UnsignedInteger(radix_value(digits, radix) as u64))
            } else {
                Err(LexError::NumberOverflow)
            }
        } else if radix_value(digits, radix) <= i64::MAX {
            Ok(NumberView::Integer(radix_value(digits, radix) as i64))
        } else {
            Err(LexError::NumberOverflow)
        }
    }
}

/// A prefix of digits is worth no more than the digits it starts.
proof fn lemma_radix_prefix(s: Seq<char>, radix: nat, j: int)
    requires
        0 <= j <= s.len(),
        radix >= 1,
    ensures
        radix_value(s.subrange(0, j), radix) <= radix_value(s, radix),
    decreases s.len() - j,
{
    if j < s.len() {
        lemma_radix_prefix(s, radix, j + 1);
        let p = s.subrange(0, j + 1);
        assert(p.drop_last() =~= s.subrange(0, j));
        let v = radix_value(s.subrange(0, j), radix);
        assert(v * radix >= v) by (nonlinear_arith)
            requires
                radix >= 1,
        ;
    } else {
        assert(s.subrange(0, j) =~= s);
    }
}

/// The error of a malformed literal of base `radix`.
pub fn error_for_radix(radix: u32) -> (e: LexError)
    ensures
        e == radix_error(radix as nat),
{
    match radix {
        2 => LexError::MalformedBinary,
        8 => LexError::MalformedOctal,
        16 => LexError::MalformedHexadecimal,
        _ => LexError::InvalidToken,
    }
}

/// The value of a digit of any base up to sixteen.
fn digit_of(c: char) -> (r: Option<u64>)
    ensures
        match r {
            Some(d) => radix_digit(c) == Some(d as nat),
            None => radix_digit(c) is None,
        },
{
    if '0' <= c && c <= '9' {
        Some((c as u32 - '0' as u32) as u64)
    } else if 'a' <= c && c <= 'f' {
        Some((c as u32 - 'a' as u32 + 10) as u64)
    } else if 'A' <= c && c <= 'F' {
        Some((c as u32 - 'A' as u32 + 10) as u64)
    } else {
        None
    }
}

/// Parses a literal of base `radix` (2, 8 or 16) from its text, prefix
/// included; any other base is `InvalidToken`.
///
/// The prefix is the text's first two bytes, so the text must not have a
/// character that the second byte would split.
#[verifier::loop_isolation(false)]
pub fn parse_base_number(radix: u32, slice: &str) -> (r: Result<Number, LexError>)
    requires
        slice@.len() > 0 ==> utf8_width(slice@[0]) <= 2,
        slice@.len() > 1 && utf8_width(slice@[0]) == 1 ==> utf8_width(slice@[1]) == 1,
    ensures
        result_view(r) == base_number_result(radix as nat, slice@),
{
    let c = chars_of(slice);
    let n = c.len();
    if n == 0 || (n == 1 && char_utf8_width(c[0]) < 2) {
        return Err(error_for_radix(radix));
    }
    let start: usize = if char_utf8_width(c[0]) == 2 {
        1
    } else {
        2
    };
    let rest = slice_chars(&c, start, n);
    let unsigned = rest.len() > 0 && (rest[rest.len() - 1] == 'u' || rest[rest.len() - 1] == 'U');
    let digits = if unsigned {
        slice_chars(&rest, 0, rest.len() - 1)
    } else {
        slice_chars(&rest, 0, rest.len())
    };
    proof {
        if unsigned {
            assert(digits@ =~= rest@.drop_last());
        } else {
            assert(digits@ =~= rest@);
        }
    }
    if digits.len() == 0 || !(radix == 2 || radix == 8 || radix == 16) {
        return Err(error_for_radix(radix));
    }
    let mut value: u64 = 0;
    let mut overflow = false;
    let mut i: usize = 0;
    assert(digits@.subrange(0, 0).len() == 0);
    while i < digits.len()
        invariant
            i <= digits@.len(),
            radix == 2 || radix == 8 || radix == 16,
            forall|k: int| 0 <= k < i ==> (#[trigger] radix_digit(digits@[k]) matches Some(d) && d < radix),
            !overflow ==> value as nat == radix_value(digits@.subrange(0, i as int), radix as nat),
            overflow ==> radix_value(digits@, radix as nat) > u64::MAX,
        decreases digits.len() - i,
    {
        let d = match digit_of(digits[i]) {
            Some(d) => d,
            None => {
                assert(!(radix_digit(digits@[i as int]) matches Some(d) && d < radix));
                return Err(error_for_radix(radix));
            },
        };
        if d >= radix as u64 {
            assert(!(radix_digit(digits@[i as int]) matches Some(d) && d < radix));
            return Err(error_for_radix(radix));
        }
        if !overflow {
            proof {
                assert(digits@.subrange(0, i + 1).drop_last() =~= digits@.subrange(0, i as int));
                assert(digits@.subrange(0, i + 1).last() == digits@[i as int]);
            }
            let next = match value.checked_mul(radix as u64) {
                Some(m) => m.checked_add(d),
                None => None,
            };
            match next {
                Some(v) => {
                    value = v;
                },
                None => {
                    proof {
                        lemma_radix_prefix(digits@, radix as nat, i + 1);
                    }
                    overflow = true;
                },
            }
        }
        i = i + 1;
    }
    assert(digits@.subrange(0, i as int) =~= digits@);
    assert(is_radix_text(digits@, radix as nat));
    if overflow {
        return Err(LexError::NumberOverflow);
    }
    if unsigned {
        Ok(Number::UnsignedInteger(value))
    } else if value <= 0x7fff_ffff_ffff_ffffu64 {
        Ok(Number::Integer(value as i64))
    } else {
        Err(LexError::NumberOverflow)
    }
}

/// Parses a binary literal (`#b…`).
pub fn parse_binary(slice: &str) -> (r: Result<Number, LexError>)
    requires
        slice@.len() > 0 ==> utf8_width(slice@[0]) <= 2,
        slice@.len() > 1 && utf8_width(slice@[0]) == 1 ==> utf8_width(slice@[1]) == 1,
    ensures
        result_view(r) == base_number_result(2, slice@),
{
    parse_base_number(2, slice)
}

/// Parses an octal literal (`#o…`).
pub fn parse_octal(slice: &str) -> (r: Result<Number, LexError>)
    requires
        slice@.len() > 0 ==> utf8_width(slice@[0]) <= 2,
        slice@.len() > 1 && utf8_width(slice@[0]) == 1 ==> utf8_width(slice@[1]) == 1,
    ensures
        result_view(r) == base_number_result(8, slice@),
{
    parse_base_number(8, slice)
}

/// Parses a hexadecimal literal (`#x…`).
pub fn parse_hex(slice: &str) -> (r: Result<Number, LexError>)
    requires
        slice@.len() > 0 ==> utf8_width(slice@[0]) <= 2,
        slice@.len() > 1 && utf8_width(slice@[0]) == 1 ==> utf8_width(slice@[1]) == 1,
    ensures
        result_view(r) == base_number_result(16, slice@),
{
    parse_base_number(16, slice)
}

} // verus!
