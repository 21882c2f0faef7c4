pub mod ast_printer;
pub mod tree;
