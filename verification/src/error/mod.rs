pub mod error_code;
pub mod errors;
pub mod internal;
pub mod error_reporter;
