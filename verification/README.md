# vicis — instruction layer

The instruction layer of an LLVM-like intermediate representation, written
in Verus: opcodes and their classification, operands and the values, types
and blocks they refer to, instructions, and the assembly text of an
instruction.

- `src/ir/function/instruction/mod.rs` — `Opcode`, `ICmpCond`, `Operand`,
  `Instruction` and their operations, each with a contract; the textual
  form of an instruction is specified by `Instruction::spec_text`.
- `src/ir/function/instruction/laws.rs` — properties kept across the
  operations (classification of opcodes, filling placeholders, the shape of
  instruction text), proved.
- `src/ir/types`, `src/ir/value`, `src/ir/function/{data,basic_block}.rs`,
  `src/ir/module` — ids and the tables that hold the text of types and
  values.
- `src/text.rs` — decimal notation and separator trimming on character
  buffers.
- `app/lib.rs` — conversions from `id_arena` ids.
