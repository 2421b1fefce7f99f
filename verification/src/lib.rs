//! Decoding of EVM bytecode into instructions: a total classification of
//! bytes into opcodes, and a cursor-based decoder that attaches to each push
//! opcode the operand bytes that follow it.

pub mod decoder;
pub mod hexfmt;
pub mod types;
