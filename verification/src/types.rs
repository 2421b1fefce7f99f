//! The data model: opcodes and decoded operations.

pub mod opcode;
pub mod operation;

pub use opcode::Opcode;
pub use operation::Operation;
