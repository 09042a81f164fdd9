//! Extract the 48-bit creation timestamp embedded in version-7 UUIDs and
//! render it as ISO-8601 text, whole seconds, whole milliseconds, or a JSON
//! record.

pub mod calendar;
pub mod driver;
pub mod errors;
pub mod extract;
pub mod json_text;
pub mod numeral;
pub mod options;
pub mod render;
pub mod text;
pub mod uuid_text;
