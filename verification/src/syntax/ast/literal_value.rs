use vstd::prelude::*;
use crate::tokens::number::{Number, NumberView};

verus! {

/// Value of a literal expression.
#[derive(Debug, PartialEq, Eq, Hash)]
pub enum LiteralValue {
    /// Numeric literal value.
    Numeric(Number),
    /// String literal value.
    StringLit(String),
    /// Character literal value.
    CharLit(String),
    /// Boolean literal value.
    Bool(bool),
    /// Null pointer literal value.
    NullPtr,
}

/// The mathematical value of a [`LiteralValue`].
pub enum LiteralView {
    Numeric(NumberView),
    StringLit(Seq<char>),
    CharLit(Seq<char>),
    Bool(bool),
    NullPtr,
}

impl View for LiteralValue {
    type V = LiteralView;

    open spec fn view(&self) -> LiteralView {
        match self {
            LiteralValue::Numeric(n) => LiteralView::Numeric(n@),
            LiteralValue::StringLit(s) => LiteralView::StringLit(s@),
            LiteralValue::CharLit(s) => LiteralView::CharLit(s@),
            LiteralValue::Bool(b) => LiteralView::Bool(*b),
            LiteralValue::NullPtr => LiteralView::NullPtr,
        }
    }
}

impl Clone for LiteralValue {
    fn clone(&self) -> (r: Self)
        ensures
            r@ == self@,
    {
        match self {
            LiteralValue::Numeric(n) => LiteralValue::Numeric(n.clone()),
            LiteralValue::StringLit(s) => LiteralValue::StringLit(s.clone()),
            LiteralValue::CharLit(s) => LiteralValue::CharLit(s.clone()),
            LiteralValue::Bool(b) => LiteralValue::Bool(*b),
            LiteralValue::NullPtr => LiteralValue::NullPtr,
        }
    }
}

/// Equality of two literal values.
pub fn literal_eq(a: &LiteralValue, b: &LiteralValue) -> (r: bool)
    ensures
        r == (a@ == b@),
{
    match a {
        LiteralValue::Numeric(x) => match b {
            LiteralValue::Numeric(y) => crate::tokens::number::number_eq(x, y),
            _ => false,
        },
        LiteralValue::StringLit(x) => match b {
            LiteralValue::StringLit(y) => *x == *y,
            _ => false,
        },
        LiteralValue::CharLit(x) => match b {
            LiteralValue::CharLit(y) => *x == *y,
            _ => false,
        },
        LiteralValue::Bool(x) => match b {
            LiteralValue::Bool(y) => *x == *y,
            _ => false,
        },
        LiteralValue::NullPtr => match b {
            LiteralValue::NullPtr => true,
            _ => false,
        },
    }
}

} // verus!
