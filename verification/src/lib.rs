//! Core compiler infrastructure for Descar: tokens, lexical validation,
//! source locations, the syntax tree, and semantic analysis.

pub mod location;
pub mod text;
pub mod tokens;
pub mod lex;
pub mod error;
pub mod syntax;
pub mod semantic;
pub mod file;
pub mod utils;
pub mod printers;
