pub mod number;
pub mod token;
pub mod token_kind;
pub mod parsers;
pub mod token_debug;
