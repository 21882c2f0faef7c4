pub mod ast;
pub mod precedence;
