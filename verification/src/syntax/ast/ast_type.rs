use vstd::prelude::*;
use crate::syntax::ast::expr::Expr;

verus! {

/// Representation of primitive, user-defined, composite, function, and special types.
#[derive(Debug, PartialEq, Eq, Hash)]
pub enum Type {
    I8,
    I16,
    I32,
    I64,
    U8,
    U16,
    U32,
    U64,
    F32,
    F64,
    Char,
    String,
    Bool,
    Custom { name: String },
    Array { element_type: Box<Type>, size: Box<Expr> },
    Vector { element_type: Box<Type> },
    Function { parameters: Vec<Type>, return_type: Box<Type> },
    Void,
    NullPtr,
}

} // verus!
