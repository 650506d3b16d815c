//! Verified core of a meal-ticket scanner: ticket entry and validation,
//! duplicate detection decisions, the duplicate-override window, status
//! banners, and the text formats used for stored timestamps and the display.
pub mod entry;
pub mod logline;
pub mod records;
pub mod scanner;
pub mod text;
pub mod timestamp;
