//! The opcode set and the byte-to-opcode classification table.

use vstd::prelude::*;

verus! {

/// One variant per assigned byte of the instruction set, plus `INVALID`, which
/// stands for every byte that has no mnemonic.
#[derive(Clone, Copy, Debug, PartialEq, Eq, Structural)]
pub enum Opcode {
    // Halting and arithmetic.
    STOP,
    ADD,
    MUL,
    SUB,
    DIV,
    SDIV,
    MOD,
    SMOD,
    ADDMOD,
    MULMOD,
    EXP,
    SIGNEXTEND,
    // Comparison and bitwise logic.
    LT,
    GT,
    SLT,
    SGT,
    EQ,
    ISZERO,
    AND,
    OR,
    XOR,
    NOT,
    BYTE,
    SHL,
    SHR,
    SAR,
    // Hashing.
    SHA3,
    // Environment.
    ADDRESS,
    BALANCE,
    ORIGIN,
    CALLER,
    CALLVALUE,
    CALLDATALOAD,
    CALLDATASIZE,
    CALLDATACOPY,
    CODESIZE,
    CODECOPY,
    GASPRICE,
    EXTCODESIZE,
    EXTCODECOPY,
    RETURNDATASIZE,
    RETURNDATACOPY,
    EXTCODEHASH,
    // Block information.
    BLOCKHASH,
    COINBASE,
    TIMESTAMP,
    NUMBER,
    DIFFICULTY,
    GASLIMIT,
    CHAINID,
    SELFBALANCE,
    BASEFEE,
    // Stack, memory, storage and control flow.
    POP,
    MLOAD,
    MSTORE,
    MSTORE8,
    SLOAD,
    SSTORE,
    JUMP,
    JUMPI,
    PC,
    MSIZE,
    GAS,
    JUMPDEST,
    // Push family: the variant's number is its operand width in bytes.
    PUSH1,
    PUSH2,
    PUSH3,
    PUSH4,
    PUSH5,
    PUSH6,
    PUSH7,
    PUSH8,
    PUSH9,
    PUSH10,
    PUSH11,
    PUSH12,
    PUSH13,
    PUSH14,
    PUSH15,
    PUSH16,
    PUSH17,
    PUSH18,
    PUSH19,
    PUSH20,
    PUSH21,
    PUSH22,
    PUSH23,
    PUSH24,
    PUSH25,
    PUSH26,
    PUSH27,
    PUSH28,
    PUSH29,
    PUSH30,
    PUSH31,
    PUSH32,
    // Duplication.
    DUP1,
    DUP2,
    DUP3,
    DUP4,
    DUP5,
    DUP6,
    DUP7,
    DUP8,
    DUP9,
    DUP10,
    DUP11,
    DUP12,
    DUP13,
    DUP14,
    DUP15,
    DUP16,
    // Exchange.
    SWAP1,
    SWAP2,
    SWAP3,
    SWAP4,
    SWAP5,
    SWAP6,
    SWAP7,
    SWAP8,
    SWAP9,
    SWAP10,
    SWAP11,
    SWAP12,
    SWAP13,
    SWAP14,
    SWAP15,
    SWAP16,
    // Logging.
    LOG0,
    LOG1,
    LOG2,
    LOG3,
    LOG4,
    // Calls, creation and termination.
    CREATE,
    CALL,
    CALLCODE,
    RETURN,
    DELEGATECALL,
    CREATE2,
    STATICCALL,
    REVERT,
    /// No mnemonic is assigned to the byte.
    INVALID,
    SELFDESTRUCT,
}

impl Opcode {
    /// The classification table: the opcode that the instruction set assigns
    /// to `byte`, and `INVALID` where it assigns none.
    pub open spec fn classify(byte: u8) -> Opcode {
        match byte {
            0x00 => Opcode::STOP,
            0x01 => Opcode::ADD,
            0x02 => Opcode::MUL,
            0x03 => Opcode::SUB,
            0x04 => Opcode::DIV,
            0x05 => Opcode::SDIV,
            0x06 => Opcode::MOD,
            0x07 => Opcode::SMOD,
            0x08 => Opcode::ADDMOD,
            0x09 => Opcode::MULMOD,
            0x0a => Opcode::EXP,
            0x0b => Opcode::SIGNEXTEND,
            0x10 => Opcode::LT,
            0x11 => Opcode::GT,
            0x12 => Opcode::SLT,
            0x13 => Opcode::SGT,
            0x14 => Opcode::EQ,
            0x15 => Opcode::ISZERO,
            0x16 => Opcode::AND,
            0x17 => Opcode::OR,
            0x18 => Opcode::XOR,
            0x19 => Opcode::NOT,
            0x1a => Opcode::BYTE,
            0x1b => Opcode::SHL,
            0x1c => Opcode::SHR,
            0x1d => Opcode::SAR,
            0x20 => Opcode::SHA3,
            0x30 => Opcode::ADDRESS,
            0x31 => Opcode::BALANCE,
            0x32 => Opcode::ORIGIN,
            0x33 => Opcode::CALLER,
            0x34 => Opcode::CALLVALUE,
            0x35 => Opcode::CALLDATALOAD,
            0x36 => Opcode::CALLDATASIZE,
            0x37 => Opcode::CALLDATACOPY,
            0x38 => Opcode::CODESIZE,
            0x39 => Opcode::CODECOPY,
            0x3a => Opcode::GASPRICE,
            0x3b => Opcode::EXTCODESIZE,
            0x3c => Opcode::EXTCODECOPY,
            0x3d => Opcode::RETURNDATASIZE,
            0x3e => Opcode::RETURNDATACOPY,
            0x3f => Opcode::EXTCODEHASH,
            0x40 => Opcode::BLOCKHASH,
            0x41 => Opcode::COINBASE,
            0x42 => Opcode::TIMESTAMP,
            0x43 => Opcode::NUMBER,
            0x44 => Opcode::DIFFICULTY,
            0x45 => Opcode::GASLIMIT,
            0x46 => Opcode::CHAINID,
            0x47 => Opcode::SELFBALANCE,
            0x48 => Opcode::BASEFEE,
            0x50 => Opcode::POP,
            0x51 => Opcode::MLOAD,
            0x52 => Opcode::MSTORE,
            0x53 => Opcode::MSTORE8,
            0x54 => Opcode::SLOAD,
            0x55 => Opcode::SSTORE,
            0x56 => Opcode::JUMP,
            0x57 => Opcode::JUMPI,
            0x58 => Opcode::PC,
            0x59 => Opcode::MSIZE,
            0x5a => Opcode::GAS,
            0x5b => Opcode::JUMPDEST,
            0x60 => Opcode::PUSH1,
            0x61 => Opcode::PUSH2,
            0x62 => Opcode::PUSH3,
            0x63 => Opcode::PUSH4,
            0x64 => Opcode::PUSH5,
            0x65 => Opcode::PUSH6,
            0x66 => Opcode::PUSH7,
            0x67 => Opcode::PUSH8,
            0x68 => Opcode::PUSH9,
            0x69 => Opcode::PUSH10,
            0x6a => Opcode::PUSH11,
            0x6b => Opcode::PUSH12,
            0x6c => Opcode::PUSH13,
            0x6d => Opcode::PUSH14,
            0x6e => Opcode::PUSH15,
            0x6f => Opcode::PUSH16,
            0x70 => Opcode::PUSH17,
            0x71 => Opcode::PUSH18,
            0x72 => Opcode::PUSH19,
            0x73 => Opcode::PUSH20,
            0x74 => Opcode::PUSH21,
            0x75 => Opcode::PUSH22,
            0x76 => Opcode::PUSH23,
            0x77 => Opcode::PUSH24,
            0x78 => Opcode::PUSH25,
            0x79 => Opcode::PUSH26,
            0x7a => Opcode::PUSH27,
            0x7b => Opcode::PUSH28,
            0x7c => Opcode::PUSH29,
            0x7d => Opcode::PUSH30,
            0x7e => Opcode::PUSH31,
            0x7f => Opcode::PUSH32,
            0x80 => Opcode::DUP1,
            0x81 => Opcode::DUP2,
            0x82 => Opcode::DUP3,
            0x83 => Opcode::DUP4,
            0x84 => Opcode::DUP5,
            0x85 => Opcode::DUP6,
            0x86 => Opcode::DUP7,
            0x87 => Opcode::DUP8,
            0x88 => Opcode::DUP9,
            0x89 => Opcode::DUP10,
            0x8a => Opcode::DUP11,
            0x8b => Opcode::DUP12,
            0x8c => Opcode::DUP13,
            0x8d => Opcode::DUP14,
            0x8e => Opcode::DUP15,
            0x8f => Opcode::DUP16,
            0x90 => Opcode::SWAP1,
            0x91 => Opcode::SWAP2,
            0x92 => Opcode::SWAP3,
            0x93 => Opcode::SWAP4,
            0x94 => Opcode::SWAP5,
            0x95 => Opcode::SWAP6,
            0x96 => Opcode::SWAP7,
            0x97 => Opcode::SWAP8,
            0x98 => Opcode::SWAP9,
            0x99 => Opcode::SWAP10,
            0x9a => Opcode::SWAP11,
            0x9b => Opcode::SWAP12,
            0x9c => Opcode::SWAP13,
            0x9d => Opcode::SWAP14,
            0x9e => Opcode::SWAP15,
            0x9f => Opcode::SWAP16,
            0xa0 => Opcode::LOG0,
            0xa1 => Opcode::LOG1,
            0xa2 => Opcode::LOG2,
            0xa3 => Opcode::LOG3,
            0xa4 => Opcode::LOG4,
            0xf0 => Opcode::CREATE,
            0xf1 => Opcode::CALL,
            0xf2 => Opcode::CALLCODE,
            0xf3 => Opcode::RETURN,
            0xf4 => Opcode::DELEGATECALL,
            0xf5 => Opcode::CREATE2,
            0xfa => Opcode::STATICCALL,
            0xfd => Opcode::REVERT,
            0xff => Opcode::SELFDESTRUCT,
            _ => Opcode::INVALID,
        }
    }

    /// Whether the instruction set assigns a mnemonic to `byte`, by the ranges
    /// of its table.
    pub open spec fn is_assigned(byte: u8) -> bool {
        ||| byte <= 0x0b
        ||| 0x10 <= byte <= 0x1d
        ||| byte == 0x20
        ||| 0x30 <= byte <= 0x48
        ||| 0x50 <= byte <= 0x5b
        ||| 0x60 <= byte <= 0xa4
        ||| 0xf0 <= byte <= 0xf5
        ||| byte == 0xfa
        ||| byte == 0xfd
        ||| byte == 0xff
    }

    /// The number of operand bytes that the opcode declares: `N` for `PUSHN`,
    /// zero for every other opcode.
    pub open spec fn declared_width(self) -> nat {
        match self {
            Opcode::PUSH1 => 1,
            Opcode::PUSH2 => 2,
            Opcode::PUSH3 => 3,
            Opcode::PUSH4 => 4,
            Opcode::PUSH5 => 5,
            Opcode::PUSH6 => 6,
            Opcode::PUSH7 => 7,
            Opcode::PUSH8 => 8,
            Opcode::PUSH9 => 9,
            Opcode::PUSH10 => 10,
            Opcode::PUSH11 => 11,
            Opcode::PUSH12 => 12,
            Opcode::PUSH13 => 13,
            Opcode::PUSH14 => 14,
            Opcode::PUSH15 => 15,
            Opcode::PUSH16 => 16,
            Opcode::PUSH17 => 17,
            Opcode::PUSH18 => 18,
            Opcode::PUSH19 => 19,
            Opcode::PUSH20 => 20,
            Opcode::PUSH21 => 21,
            Opcode::PUSH22 => 22,
            Opcode::PUSH23 => 23,
            Opcode::PUSH24 => 24,
            Opcode::PUSH25 => 25,
            Opcode::PUSH26 => 26,
            Opcode::PUSH27 => 27,
            Opcode::PUSH28 => 28,
            Opcode::PUSH29 => 29,
            Opcode::PUSH30 => 30,
            Opcode::PUSH31 => 31,
            Opcode::PUSH32 => 32,
            _ => 0,
        }
    }

    /// Whether the opcode belongs to the push family, the only opcodes that
    /// carry an operand.
    pub open spec fn is_push(self) -> bool {
        self.declared_width() > 0
    }

    /// The mnemonic of the opcode, as a sequence of characters.
    pub open spec fn name(self) -> Seq<char> {
        match self {
            Opcode::STOP => "STOP"@,
            Opcode::ADD => "ADD"@,
            Opcode::MUL => "MUL"@,
            Opcode::SUB => "SUB"@,
            Opcode::DIV => "DIV"@,
            Opcode::SDIV => "SDIV"@,
            Opcode::MOD => "MOD"@,
            Opcode::SMOD => "SMOD"@,
            Opcode::ADDMOD => "ADDMOD"@,
            Opcode::MULMOD => "MULMOD"@,
            Opcode::EXP => "EXP"@,
            Opcode::SIGNEXTEND => "SIGNEXTEND"@,
            Opcode::LT => "LT"@,
            Opcode::GT => "GT"@,
            Opcode::SLT => "SLT"@,
            Opcode::SGT => "SGT"@,
            Opcode::EQ => "EQ"@,
            Opcode::ISZERO => "ISZERO"@,
            Opcode::AND => "AND"@,
            Opcode::OR => "OR"@,
            Opcode::XOR => "XOR"@,
            Opcode::NOT => "NOT"@,
            Opcode::BYTE => "BYTE"@,
            Opcode::SHL => "SHL"@,
            Opcode::SHR => "SHR"@,
            Opcode::SAR => "SAR"@,
            Opcode::SHA3 => "SHA3"@,
            Opcode::ADDRESS => "ADDRESS"@,
            Opcode::BALANCE => "BALANCE"@,
            Opcode::ORIGIN => "ORIGIN"@,
            Opcode::CALLER => "CALLER"@,
            Opcode::CALLVALUE => "CALLVALUE"@,
            Opcode::CALLDATALOAD => "CALLDATALOAD"@,
            Opcode::CALLDATASIZE => "CALLDATASIZE"@,
            Opcode::CALLDATACOPY => "CALLDATACOPY"@,
            Opcode::CODESIZE => "CODESIZE"@,
            Opcode::CODECOPY => "CODECOPY"@,
            Opcode::GASPRICE => "GASPRICE"@,
            Opcode::EXTCODESIZE => "EXTCODESIZE"@,
            Opcode::EXTCODECOPY => "EXTCODECOPY"@,
            Opcode::RETURNDATASIZE => "RETURNDATASIZE"@,
            Opcode::RETURNDATACOPY => "RETURNDATACOPY"@,
            Opcode::EXTCODEHASH => "EXTCODEHASH"@,
            Opcode::BLOCKHASH => "BLOCKHASH"@,
            Opcode::COINBASE => "COINBASE"@,
            Opcode::TIMESTAMP => "TIMESTAMP"@,
            Opcode::NUMBER => "NUMBER"@,
            Opcode::DIFFICULTY => "DIFFICULTY"@,
            Opcode::GASLIMIT => "GASLIMIT"@,
            Opcode::CHAINID => "CHAINID"@,
            Opcode::SELFBALANCE => "SELFBALANCE"@,
            Opcode::BASEFEE => "BASEFEE"@,
            Opcode::POP => "POP"@,
            Opcode::MLOAD => "MLOAD"@,
            Opcode::MSTORE => "MSTORE"@,
            Opcode::MSTORE8 => "MSTORE8"@,
            Opcode::SLOAD => "SLOAD"@,
            Opcode::SSTORE => "SSTORE"@,
            Opcode::JUMP => "JUMP"@,
            Opcode::JUMPI => "JUMPI"@,
            Opcode::PC => "PC"@,
            Opcode::MSIZE => "MSIZE"@,
            Opcode::GAS => "GAS"@,
            Opcode::JUMPDEST => "JUMPDEST"@,
            Opcode::PUSH1 => "PUSH1"@,
            Opcode::PUSH2 => "PUSH2"@,
            Opcode::PUSH3 => "PUSH3"@,
            Opcode::PUSH4 => "PUSH4"@,
            Opcode::PUSH5 => "PUSH5"@,
            Opcode::PUSH6 => "PUSH6"@,
            Opcode::PUSH7 => "PUSH7"@,
            Opcode::PUSH8 => "PUSH8"@,
            Opcode::PUSH9 => "PUSH9"@,
            Opcode::PUSH10 => "PUSH10"@,
            Opcode::PUSH11 => "PUSH11"@,
            Opcode::PUSH12 => "PUSH12"@,
            Opcode::PUSH13 => "PUSH13"@,
            Opcode::PUSH14 => "PUSH14"@,
            Opcode::PUSH15 => "PUSH15"@,
            Opcode::PUSH16 => "PUSH16"@,
            Opcode::PUSH17 => "PUSH17"@,
            Opcode::PUSH18 => "PUSH18"@,
            Opcode::PUSH19 => "PUSH19"@,
            Opcode::PUSH20 => "PUSH20"@,
            Opcode::PUSH21 => "PUSH21"@,
            Opcode::PUSH22 => "PUSH22"@,
            Opcode::PUSH23 => "PUSH23"@,
            Opcode::PUSH24 => "PUSH24"@,
            Opcode::PUSH25 => "PUSH25"@,
            Opcode::PUSH26 => "PUSH26"@,
            Opcode::PUSH27 => "PUSH27"@,
            Opcode::PUSH28 => "PUSH28"@,
            Opcode::PUSH29 => "PUSH29"@,
            Opcode::PUSH30 => "PUSH30"@,
            Opcode::PUSH31 => "PUSH31"@,
            Opcode::PUSH32 => "PUSH32"@,
            Opcode::DUP1 => "DUP1"@,
            Opcode::DUP2 => "DUP2"@,
            Opcode::DUP3 => "DUP3"@,
            Opcode::DUP4 => "DUP4"@,
            Opcode::DUP5 => "DUP5"@,
            Opcode::DUP6 => "DUP6"@,
            Opcode::DUP7 => "DUP7"@,
            Opcode::DUP8 => "DUP8"@,
            Opcode::DUP9 => "DUP9"@,
            Opcode::DUP10 => "DUP10"@,
            Opcode::DUP11 => "DUP11"@,
            Opcode::DUP12 => "DUP12"@,
            Opcode::DUP13 => "DUP13"@,
            Opcode::DUP14 => "DUP14"@,
            Opcode::DUP15 => "DUP15"@,
            Opcode::DUP16 => "DUP16"@,
            Opcode::SWAP1 => "SWAP1"@,
            Opcode::SWAP2 => "SWAP2"@,
            Opcode::SWAP3 => "SWAP3"@,
            Opcode::SWAP4 => "SWAP4"@,
            Opcode::SWAP5 => "SWAP5"@,
            Opcode::SWAP6 => "SWAP6"@,
            Opcode::SWAP7 => "SWAP7"@,
            Opcode::SWAP8 => "SWAP8"@,
            Opcode::SWAP9 => "SWAP9"@,
            Opcode::SWAP10 => "SWAP10"@,
            Opcode::SWAP11 => "SWAP11"@,
            Opcode::SWAP12 => "SWAP12"@,
            Opcode::SWAP13 => "SWAP13"@,
            Opcode::SWAP14 => "SWAP14"@,
            Opcode::SWAP15 => "SWAP15"@,
            Opcode::SWAP16 => "SWAP16"@,
            Opcode::LOG0 => "LOG0"@,
            Opcode::LOG1 => "LOG1"@,
            Opcode::LOG2 => "LOG2"@,
            Opcode::LOG3 => "LOG3"@,
            Opcode::LOG4 => "LOG4"@,
            Opcode::CREATE => "CREATE"@,
            Opcode::CALL => "CALL"@,
            Opcode::CALLCODE => "CALLCODE"@,
            Opcode::RETURN => "RETURN"@,
            Opcode::DELEGATECALL => "DELEGATECALL"@,
            Opcode::CREATE2 => "CREATE2"@,
            Opcode::STATICCALL => "STATICCALL"@,
            Opcode::REVERT => "REVERT"@,
            Opcode::INVALID => "INVALID"@,
            Opcode::SELFDESTRUCT => "SELFDESTRUCT"@,
        }
    }

    /// Classifies one byte. Total: every byte has an opcode, an unassigned
    /// byte has `INVALID`, and the result depends on the byte alone.
    pub fn from_byte(byte: u8) -> (op: Opcode)
        ensures
            op == Opcode::classify(byte),
    {
        match byte {
            0x00 => Opcode::STOP,
            0x01 => Opcode::ADD,
            0x02 => Opcode::MUL,
            0x03 => Opcode::SUB,
            0x04 => Opcode::DIV,
            0x05 => Opcode::SDIV,
            0x06 => Opcode::MOD,
            0x07 => Opcode::SMOD,
            0x08 => Opcode::ADDMOD,
            0x09 => Opcode::MULMOD,
            0x0a => Opcode::EXP,
            0x0b => Opcode::SIGNEXTEND,
            0x10 => Opcode::LT,
            0x11 => Opcode::GT,
            0x12 => Opcode::SLT,
            0x13 => Opcode::SGT,
            0x14 => Opcode::EQ,
            0x15 => Opcode::ISZERO,
            0x16 => Opcode::AND,
            0x17 => Opcode::OR,
            0x18 => Opcode::XOR,
            0x19 => Opcode::NOT,
            0x1a => Opcode::BYTE,
            0x1b => Opcode::SHL,
            0x1c => Opcode::SHR,
            0x1d => Opcode::SAR,
            0x20 => Opcode::SHA3,
            0x30 => Opcode::ADDRESS,
            0x31 => Opcode::BALANCE,
            0x32 => Opcode::ORIGIN,
            0x33 => Opcode::CALLER,
            0x34 => Opcode::CALLVALUE,
            0x35 => Opcode::CALLDATALOAD,
            0x36 => Opcode::CALLDATASIZE,
            0x37 => Opcode::CALLDATACOPY,
            0x38 => Opcode::CODESIZE,
            0x39 => Opcode::CODECOPY,
            0x3a => Opcode::GASPRICE,
            0x3b => Opcode::EXTCODESIZE,
            0x3c => Opcode::EXTCODECOPY,
            0x3d => Opcode::RETURNDATASIZE,
            0x3e => Opcode::RETURNDATACOPY,
            0x3f => Opcode::EXTCODEHASH,
            0x40 => Opcode::BLOCKHASH,
            0x41 => Opcode::COINBASE,
            0x42 => Opcode::TIMESTAMP,
            0x43 => Opcode::NUMBER,
            0x44 => Opcode::DIFFICULTY,
            0x45 => Opcode::GASLIMIT,
            0x46 => Opcode::CHAINID,
            0x47 => Opcode::SELFBALANCE,
            0x48 => Opcode::BASEFEE,
            0x50 => Opcode::POP,
            0x51 => Opcode::MLOAD,
            0x52 => Opcode::MSTORE,
            0x53 => Opcode::MSTORE8,
            0x54 => Opcode::SLOAD,
            0x55 => Opcode::SSTORE,
            0x56 => Opcode::JUMP,
            0x57 => Opcode::JUMPI,
            0x58 => Opcode::PC,
            0x59 => Opcode::MSIZE,
            0x5a => Opcode::GAS,
            0x5b => Opcode::JUMPDEST,
            0x60 => Opcode::PUSH1,
            0x61 => Opcode::PUSH2,
            0x62 => Opcode::PUSH3,
            0x63 => Opcode::PUSH4,
            0x64 => Opcode::PUSH5,
            0x65 => Opcode::PUSH6,
            0x66 => Opcode::PUSH7,
            0x67 => Opcode::PUSH8,
            0x68 => Opcode::PUSH9,
            0x69 => Opcode::PUSH10,
            0x6a => Opcode::PUSH11,
            0x6b => Opcode::PUSH12,
            0x6c => Opcode::PUSH13,
            0x6d => Opcode::PUSH14,
            0x6e => Opcode::PUSH15,
            0x6f => Opcode::PUSH16,
            0x70 => Opcode::PUSH17,
            0x71 => Opcode::PUSH18,
            0x72 => Opcode::PUSH19,
            0x73 => Opcode::PUSH20,
            0x74 => Opcode::PUSH21,
            0x75 => Opcode::PUSH22,
            0x76 => Opcode::PUSH23,
            0x77 => Opcode::PUSH24,
            0x78 => Opcode::PUSH25,
            0x79 => Opcode::PUSH26,
            0x7a => Opcode::PUSH27,
            0x7b => Opcode::PUSH28,
            0x7c => Opcode::PUSH29,
            0x7d => Opcode::PUSH30,
            0x7e => Opcode::PUSH31,
            0x7f => Opcode::PUSH32,
            0x80 => Opcode::DUP1,
            0x81 => Opcode::DUP2,
            0x82 => Opcode::DUP3,
            0x83 => Opcode::DUP4,
            0x84 => Opcode::DUP5,
            0x85 => Opcode::DUP6,
            0x86 => Opcode::DUP7,
            0x87 => Opcode::DUP8,
            0x88 => Opcode::DUP9,
            0x89 => Opcode::DUP10,
            0x8a => Opcode::DUP11,
            0x8b => Opcode::DUP12,
            0x8c => Opcode::DUP13,
            0x8d => Opcode::DUP14,
            0x8e => Opcode::DUP15,
            0x8f => Opcode::DUP16,
            0x90 => Opcode::SWAP1,
            0x91 => Opcode::SWAP2,
            0x92 => Opcode::SWAP3,
            0x93 => Opcode::SWAP4,
            0x94 => Opcode::SWAP5,
            0x95 => Opcode::SWAP6,
            0x96 => Opcode::SWAP7,
            0x97 => Opcode::SWAP8,
            0x98 => Opcode::SWAP9,
            0x99 => Opcode::SWAP10,
            0x9a => Opcode::SWAP11,
            0x9b => Opcode::SWAP12,
            0x9c => Opcode::SWAP13,
            0x9d => Opcode::SWAP14,
            0x9e => Opcode::SWAP15,
            0x9f => Opcode::SWAP16,
            0xa0 => Opcode::LOG0,
            0xa1 => Opcode::LOG1,
            0xa2 => Opcode::LOG2,
            0xa3 => Opcode::LOG3,
            0xa4 => Opcode::LOG4,
            0xf0 => Opcode::CREATE,
            0xf1 => Opcode::CALL,
            0xf2 => Opcode::CALLCODE,
            0xf3 => Opcode::RETURN,
            0xf4 => Opcode::DELEGATECALL,
            0xf5 => Opcode::CREATE2,
            0xfa => Opcode::STATICCALL,
            0xfd => Opcode::REVERT,
            0xff => Opcode::SELFDESTRUCT,
            _ => Opcode::INVALID,
        }
    }

    /// The operand width in bytes, derived from the variant.
    pub fn operand_width(self) -> (width: u8)
        ensures
            width == self.declared_width(),
            width <= 32,
    {
        match self {
            Opcode::PUSH1 => 1,
            Opcode::PUSH2 => 2,
            Opcode::PUSH3 => 3,
            Opcode::PUSH4 => 4,
            Opcode::PUSH5 => 5,
            Opcode::PUSH6 => 6,
            Opcode::PUSH7 => 7,
            Opcode::PUSH8 => 8,
            Opcode::PUSH9 => 9,
            Opcode::PUSH10 => 10,
            Opcode::PUSH11 => 11,
            Opcode::PUSH12 => 12,
            Opcode::PUSH13 => 13,
            Opcode::PUSH14 => 14,
            Opcode::PUSH15 => 15,
            Opcode::PUSH16 => 16,
            Opcode::PUSH17 => 17,
            Opcode::PUSH18 => 18,
            Opcode::PUSH19 => 19,
            Opcode::PUSH20 => 20,
            Opcode::PUSH21 => 21,
            Opcode::PUSH22 => 22,
            Opcode::PUSH23 => 23,
            Opcode::PUSH24 => 24,
            Opcode::PUSH25 => 25,
            Opcode::PUSH26 => 26,
            Opcode::PUSH27 => 27,
            Opcode::PUSH28 => 28,
            Opcode::PUSH29 => 29,
            Opcode::PUSH30 => 30,
            Opcode::PUSH31 => 31,
            Opcode::PUSH32 => 32,
            _ => 0,
        }
    }

    /// The mnemonic of the opcode.
    pub fn mnemonic(self) -> (text: &'static str)
        ensures
            text@ == self.name(),
    {
        match self {
            Opcode::STOP => "STOP",
            Opcode::ADD => "ADD",
            Opcode::MUL => "MUL",
            Opcode::SUB => "SUB",
            Opcode::DIV => "DIV",
            Opcode::SDIV => "SDIV",
            Opcode::MOD => "MOD",
            Opcode::SMOD => "SMOD",
            Opcode::ADDMOD => "ADDMOD",
            Opcode::MULMOD => "MULMOD",
            Opcode::EXP => "EXP",
            Opcode::SIGNEXTEND => "SIGNEXTEND",
            Opcode::LT => "LT",
            Opcode::GT => "GT",
            Opcode::SLT => "SLT",
            Opcode::SGT => "SGT",
            Opcode::EQ => "EQ",
            Opcode::ISZERO => "ISZERO",
            Opcode::AND => "AND",
            Opcode::OR => "OR",
            Opcode::XOR => "XOR",
            Opcode::NOT => "NOT",
            Opcode::BYTE => "BYTE",
            Opcode::SHL => "SHL",
            Opcode::SHR => "SHR",
            Opcode::SAR => "SAR",
            Opcode::SHA3 => "SHA3",
            Opcode::ADDRESS => "ADDRESS",
            Opcode::BALANCE => "BALANCE",
            Opcode::ORIGIN => "ORIGIN",
            Opcode::CALLER => "CALLER",
            Opcode::CALLVALUE => "CALLVALUE",
            Opcode::CALLDATALOAD => "CALLDATALOAD",
            Opcode::CALLDATASIZE => "CALLDATASIZE",
            Opcode::CALLDATACOPY => "CALLDATACOPY",
            Opcode::CODESIZE => "CODESIZE",
            Opcode::CODECOPY => "CODECOPY",
            Opcode::GASPRICE => "GASPRICE",
            Opcode::EXTCODESIZE => "EXTCODESIZE",
            Opcode::EXTCODECOPY => "EXTCODECOPY",
            Opcode::RETURNDATASIZE => "RETURNDATASIZE",
            Opcode::RETURNDATACOPY => "RETURNDATACOPY",
            Opcode::EXTCODEHASH => "EXTCODEHASH",
            Opcode::BLOCKHASH => "BLOCKHASH",
            Opcode::COINBASE => "COINBASE",
            Opcode::TIMESTAMP => "TIMESTAMP",
            Opcode::NUMBER => "NUMBER",
            Opcode::DIFFICULTY => "DIFFICULTY",
            Opcode::GASLIMIT => "GASLIMIT",
            Opcode::CHAINID => "CHAINID",
            Opcode::SELFBALANCE => "SELFBALANCE",
            Opcode::BASEFEE => "BASEFEE",
            Opcode::POP => "POP",
            Opcode::MLOAD => "MLOAD",
            Opcode::MSTORE => "MSTORE",
            Opcode::MSTORE8 => "MSTORE8",
            Opcode::SLOAD => "SLOAD",
            Opcode::SSTORE => "SSTORE",
            Opcode::JUMP => "JUMP",
            Opcode::JUMPI => "JUMPI",
            Opcode::PC => "PC",
            Opcode::MSIZE => "MSIZE",
            Opcode::GAS => "GAS",
            Opcode::JUMPDEST => "JUMPDEST",
            Opcode::PUSH1 => "PUSH1",
            Opcode::PUSH2 => "PUSH2",
            Opcode::PUSH3 => "PUSH3",
            Opcode::PUSH4 => "PUSH4",
            Opcode::PUSH5 => "PUSH5",
            Opcode::PUSH6 => "PUSH6",
            Opcode::PUSH7 => "PUSH7",
            Opcode::PUSH8 => "PUSH8",
            Opcode::PUSH9 => "PUSH9",
            Opcode::PUSH10 => "PUSH10",
            Opcode::PUSH11 => "PUSH11",
            Opcode::PUSH12 => "PUSH12",
            Opcode::PUSH13 => "PUSH13",
            Opcode::PUSH14 => "PUSH14",
            Opcode::PUSH15 => "PUSH15",
            Opcode::PUSH16 => "PUSH16",
            Opcode::PUSH17 => "PUSH17",
            Opcode::PUSH18 => "PUSH18",
            Opcode::PUSH19 => "PUSH19",
            Opcode::PUSH20 => "PUSH20",
            Opcode::PUSH21 => "PUSH21",
            Opcode::PUSH22 => "PUSH22",
            Opcode::PUSH23 => "PUSH23",
            Opcode::PUSH24 => "PUSH24",
            Opcode::PUSH25 => "PUSH25",
            Opcode::PUSH26 => "PUSH26",
            Opcode::PUSH27 => "PUSH27",
            Opcode::PUSH28 => "PUSH28",
            Opcode::PUSH29 => "PUSH29",
            Opcode::PUSH30 => "PUSH30",
            Opcode::PUSH31 => "PUSH31",
            Opcode::PUSH32 => "PUSH32",
            Opcode::DUP1 => "DUP1",
            Opcode::DUP2 => "DUP2",
            Opcode::DUP3 => "DUP3",
            Opcode::DUP4 => "DUP4",
            Opcode::DUP5 => "DUP5",
            Opcode::DUP6 => "DUP6",
            Opcode::DUP7 => "DUP7",
            Opcode::DUP8 => "DUP8",
            Opcode::DUP9 => "DUP9",
            Opcode::DUP10 => "DUP10",
            Opcode::DUP11 => "DUP11",
            Opcode::DUP12 => "DUP12",
            Opcode::DUP13 => "DUP13",
            Opcode::DUP14 => "DUP14",
            Opcode::DUP15 => "DUP15",
            Opcode::DUP16 => "DUP16",
            Opcode::SWAP1 => "SWAP1",
            Opcode::SWAP2 => "SWAP2",
            Opcode::SWAP3 => "SWAP3",
            Opcode::SWAP4 => "SWAP4",
            Opcode::SWAP5 => "SWAP5",
            Opcode::SWAP6 => "SWAP6",
            Opcode::SWAP7 => "SWAP7",
            Opcode::SWAP8 => "SWAP8",
            Opcode::SWAP9 => "SWAP9",
            Opcode::SWAP10 => "SWAP10",
            Opcode::SWAP11 => "SWAP11",
            Opcode::SWAP12 => "SWAP12",
            Opcode::SWAP13 => "SWAP13",
            Opcode::SWAP14 => "SWAP14",
            Opcode::SWAP15 => "SWAP15",
            Opcode::SWAP16 => "SWAP16",
            Opcode::LOG0 => "LOG0",
            Opcode::LOG1 => "LOG1",
            Opcode::LOG2 => "LOG2",
            Opcode::LOG3 => "LOG3",
            Opcode::LOG4 => "LOG4",
            Opcode::CREATE => "CREATE",
            Opcode::CALL => "CALL",
            Opcode::CALLCODE => "CALLCODE",
            Opcode::RETURN => "RETURN",
            Opcode::DELEGATECALL => "DELEGATECALL",
            Opcode::CREATE2 => "CREATE2",
            Opcode::STATICCALL => "STATICCALL",
            Opcode::REVERT => "REVERT",
            Opcode::INVALID => "INVALID",
            Opcode::SELFDESTRUCT => "SELFDESTRUCT",
        }
    }
}

/// A byte classifies as `INVALID` exactly when the instruction set assigns it
/// no mnemonic.
pub proof fn lemma_invalid_iff_unassigned(byte: u8)
    ensures
        Opcode::classify(byte) == Opcode::INVALID <==> !Opcode::is_assigned(byte),
{
}

/// The table is one-to-one on the assigned bytes: two bytes with the same
/// opcode, one of them assigned, are the same byte.
pub proof fn lemma_classify_injective(a: u8, b: u8)
    requires
        Opcode::is_assigned(a),
        Opcode::classify(a) == Opcode::classify(b),
    ensures
        a == b,
{
}

/// The push family occupies the bytes `0x60..=0x7f`, and the width that a
/// byte declares is its position in that range, counted from one.
pub proof fn lemma_width_of_byte(byte: u8)
    ensures
        Opcode::classify(byte).is_push() <==> 0x60 <= byte <= 0x7f,
        Opcode::classify(byte).declared_width() == if 0x60 <= byte <= 0x7f {
            byte - 0x5f
        } else {
            0
        },
{
}

} // verus!
