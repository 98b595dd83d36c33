//! Functions: their blocks, their values and their instructions.
pub mod basic_block;
pub mod data;
pub mod instruction;
pub mod param_attrs;
