pub mod ast_type;
pub mod binary_op;
pub mod else_branch;
pub mod expr;
pub mod literal_value;
pub mod model;
pub mod parameter;
pub mod stmt;
pub mod type_text;
pub mod unary_op;
pub mod unary_op_side;

pub use ast_type::Type;
pub use binary_op::BinaryOp;
pub use else_branch::ElseBranch;
pub use expr::Expr;
pub use literal_value::LiteralValue;
pub use parameter::Parameter;
pub use stmt::{Stmt, VarBinding};
pub use unary_op::UnaryOp;
pub use unary_op_side::UnaryOpSide;
