pub mod checker_laws;
pub mod checker_state;
pub mod config;
pub mod context;
pub mod diagnostics;
pub mod expr_rules;
pub mod ids;
pub mod scope;
pub mod stmt_rules;
pub mod symbol_table;
pub mod type_checker;
pub mod type_rules;
pub mod typed_ast;
pub mod types;
pub mod validator;
pub mod typed_build;
