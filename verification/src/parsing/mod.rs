//! From JSON to values.
pub mod json;
pub mod load_error;
pub mod parse_json;

pub use json::JsonValue;
pub use load_error::LoadError;
