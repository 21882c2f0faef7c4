//! Lexical analysis: lexical errors and the checks the lexer makes on the
//! tokens it recognizes.
pub mod error;
pub mod lexer;
