//! Numeric literal parsing: base detection, suffix dispatch and value
//! construction.
pub mod base;
pub mod numeric;
pub mod suffix;
pub mod value;
