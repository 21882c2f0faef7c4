//! File sizes.
pub mod file_size;
