pub mod path_text;
pub mod source_location;
pub mod source_span;
pub mod utf8;
pub mod line_tracker;
pub mod source_id;
pub mod location_order;
pub mod span_order;
