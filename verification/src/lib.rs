//! The instruction layer of an LLVM-like intermediate representation:
//! opcodes, operands, instructions, and their textual form.
pub mod ir;
pub mod text;
