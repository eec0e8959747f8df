//! Message content.
pub mod segment;
