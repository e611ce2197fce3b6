//! Decoding of positional taxi-trip records and their encoding as JSON objects.
pub mod schema;
pub mod timestamp;
pub mod integer;
pub mod json;
pub mod record;
