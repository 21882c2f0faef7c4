use vstd::prelude::*;

verus! {

/// The side on which a unary operator is applied relative to its operand:
/// `Prefix` for `-x`, `!flag`, `++i`; `Postfix` for `i++`, `i--`.
#[derive(Debug, Clone, Copy, PartialEq, Eq, Structural, Hash)]
pub enum UnaryOpSide {
    /// The operator appears before the operand.
    Prefix,
    /// The operator appears after the operand.
    Postfix,
}

} // verus!
