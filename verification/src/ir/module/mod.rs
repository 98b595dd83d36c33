//! Module-level entities: names and attributes.
pub mod attributes;
pub mod name;
