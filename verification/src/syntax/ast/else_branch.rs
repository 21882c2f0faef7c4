use vstd::prelude::*;
use crate::syntax::ast::stmt::Stmt;

verus! {

/// The `else` part of an `if` statement (`Absent` when there is none).
#[derive(Debug, PartialEq, Eq, Hash)]
pub enum ElseBranch {
    Absent,
    Block(Box<Stmt>),
    ElseIf(Box<Stmt>),
}

} // verus!
