//! Numeric values carried by numeric literal tokens.
use vstd::prelude::*;
use crate::text::{int_text, i64_text, u64_text};

verus! {

/// The value of a numeric literal.
///
/// Integer literals carry their value in the type that their suffix selects.
/// Floating-point literals carry the decimal text of their value (for
/// scientific notation: the mantissa text and the exponent), which denotes the
/// value exactly; converting it to a machine float is left to the consumer.
#[derive(Debug, PartialEq, Eq, Hash)]
pub enum Number {
    I8(i8),
    I16(i16),
    I32(i32),
    Integer(i64),
    U8(u8),
    U16(u16),
    U32(u32),
    UnsignedInteger(u64),
    Float32(String),
    Float64(String),
    Scientific32(String, i32),
    Scientific64(String, i32),
}

/// The mathematical value of a [`Number`].
pub enum NumberView {
    I8(i8),
    I16(i16),
    I32(i32),
    Integer(i64),
    U8(u8),
    U16(u16),
    U32(u32),
    UnsignedInteger(u64),
    Float32(Seq<char>),
    Float64(Seq<char>),
    Scientific32(Seq<char>, i32),
    Scientific64(Seq<char>, i32),
}

impl View for Number {
    type V = NumberView;

    open spec fn view(&self) -> NumberView {
        match self {
            Number::I8(v) => NumberView::I8(*v),
            Number::I16(v) => NumberView::I16(*v),
            Number::I32(v) => NumberView::I32(*v),
            Number::Integer(v) => NumberView::Integer(*v),
            Number::U8(v) => NumberView::U8(*v),
            Number::U16(v) => NumberView::U16(*v),
            Number::U32(v) => NumberView::U32(*v),
            Number::UnsignedInteger(v) => NumberView::UnsignedInteger(*v),
            Number::Float32(t) => NumberView::Float32(t@),
            Number::Float64(t) => NumberView::Float64(t@),
            Number::Scientific32(t, e) => NumberView::Scientific32(t@, *e),
            Number::Scientific64(t, e) => NumberView::Scientific64(t@, *e),
        }
    }
}

impl Clone for Number {
    fn clone(&self) -> (r: Self)
        ensures
            r@ == self@,
    {
        match self {
            Number::I8(v) => Number::I8(*v),
            Number::I16(v) => Number::I16(*v),
            Number::I32(v) => Number::I32(*v),
            Number::Integer(v) => Number::Integer(*v),
            Number::U8(v) => Number::U8(*v),
            Number::U16(v) => Number::U16(*v),
            Number::U32(v) => Number::U32(*v),
            Number::UnsignedInteger(v) => Number::UnsignedInteger(*v),
            Number::Float32(t) => Number::Float32(t.clone()),
            Number::Float64(t) => Number::Float64(t.clone()),
            Number::Scientific32(t, e) => Number::Scientific32(t.clone(), *e),
            Number::Scientific64(t, e) => Number::Scientific64(t.clone(), *e),
        }
    }
}

/// The text of a number: integers in decimal, decimal floats as written, and
/// scientific values as mantissa, `e`, exponent.
pub open spec fn number_text(n: NumberView) -> Seq<char> {
    match n {
        NumberView::I8(v) => int_text(v as int),
        NumberView::I16(v) => int_text(v as int),
        NumberView::I32(v) => int_text(v as int),
        NumberView::Integer(v) => int_text(v as int),
        NumberView::U8(v) => int_text(v as int),
        NumberView::U16(v) => int_text(v as int),
        NumberView::U32(v) => int_text(v as int),
        NumberView::UnsignedInteger(v) => int_text(v as int),
        NumberView::Float32(t) => t,
        NumberView::Float64(t) => t,
        NumberView::Scientific32(t, e) => t + seq!['e'] + int_text(e as int),
        NumberView::Scientific64(t, e) => t + seq!['e'] + int_text(e as int),
    }
}

/// Equality of two numbers, by their values.
pub fn number_eq(a: &Number, b: &Number) -> (r: bool)
    ensures
        r == (a@ == b@),
{
    match a {
        Number::I8(x) => match b {
            Number::I8(y) => *x as i64 == *y as i64,
            _ => false,
        },
        Number::I16(x) => match b {
            Number::I16(y) => *x as i64 == *y as i64,
            _ => false,
        },
        Number::I32(x) => match b {
            Number::I32(y) => *x == *y,
            _ => false,
        },
        Number::Integer(x) => match b {
            Number::Integer(y) => *x == *y,
            _ => false,
        },
        Number::U8(x) => match b {
            Number::U8(y) => *x == *y,
            _ => false,
        },
        Number::U16(x) => match b {
            Number::U16(y) => *x == *y,
            _ => false,
        },
        Number::U32(x) => match b {
            Number::U32(y) => *x == *y,
            _ => false,
        },
        Number::UnsignedInteger(x) => match b {
            Number::UnsignedInteger(y) => *x == *y,
            _ => false,
        },
        Number::Float32(x) => match b {
            Number::Float32(y) => *x == *y,
            _ => false,
        },
        Number::Float64(x) => match b {
            Number::Float64(y) => *x == *y,
            _ => false,
        },
        Number::Scientific32(x, e) => match b {
            Number::Scientific32(y, f) => *x == *y && *e == *f,
            _ => false,
        },
        Number::Scientific64(x, e) => match b {
            Number::Scientific64(y, f) => *x == *y && *e == *f,
            _ => false,
        },
    }
}

impl Number {
    /// The text of the number (see [`number_text`]).
    pub fn to_text(&self) -> (s: String)
        ensures
            s@ == number_text(self@),
    {
        match self {
            Number::I8(v) => i64_text(*v as i64),
            Number::I16(v) => i64_text(*v as i64),
            Number::I32(v) => i64_text(*v as i64),
            Number::Integer(v) => i64_text(*v),
            Number::U8(v) => u64_text(*v as u64),
            Number::U16(v) => u64_text(*v as u64),
            Number::U32(v) => u64_text(*v as u64),
            Number::UnsignedInteger(v) => u64_text(*v),
            Number::Float32(t) => t.clone(),
            Number::Float64(t) => t.clone(),
            Number::Scientific32(t, e) | Number::Scientific64(t, e) => {
                let mut s = t.clone();
                s.append("e");
                let exp = i64_text(*e as i64);
                s.append(exp.as_str());
                proof {
                    reveal_strlit("e");
                }
                s
            },
        }
    }
}

} // verus!
