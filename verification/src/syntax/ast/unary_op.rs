use vstd::prelude::*;

verus! {

/// Unary operators supported in syntax expressions.
#[derive(Debug, Clone, Copy, PartialEq, Eq, Structural, Hash)]
pub enum UnaryOp {
    /// Negation operator (-).
    Negate,
    /// Logical NOT operator (!).
    Not,
    /// Bitwise complement operator (~).
    BitwiseNot,
    /// Increment operator (++).
    Increment,
    /// Decrement operator (--).
    Decrement,
}

/// The name of the operator, as it is printed in diagnostics.
pub open spec fn unary_op_name(op: UnaryOp) -> Seq<char> {
    match op {
        UnaryOp::Negate => "Negate"@,
        UnaryOp::Not => "Not"@,
        UnaryOp::BitwiseNot => "BitwiseNot"@,
        UnaryOp::Increment => "Increment"@,
        UnaryOp::Decrement => "Decrement"@,
    }
}

impl UnaryOp {
    /// The name of the operator, as it is printed in diagnostics.
    pub fn name(&self) -> (s: &'static str)
        ensures
            s@ == unary_op_name(*self),
    {
        match self {
            UnaryOp::Negate => "Negate",
            UnaryOp::Not => "Not",
            UnaryOp::BitwiseNot => "BitwiseNot",
            UnaryOp::Increment => "Increment",
            UnaryOp::Decrement => "Decrement",
        }
    }
}

} // verus!
