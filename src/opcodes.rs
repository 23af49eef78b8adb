use vstd::prelude::*;

verus! {

/// An instruction of the stack machine: one variant for each byte value that the
/// catalog assigns. Byte values that no variant stands for are not instructions.
#[derive(Clone, Copy, Debug, PartialEq, Eq, Hash, Structural)]
pub enum OpCode {
    // arithmetic.
    STOP,
    ADD,
    MUL,
    SUB,
    DIV,
    SDIV,
    MOD,
    SMOD,
    ADDMOD,
    MULMOD,
    EXP,
    SIGNEXTEND,
    // comparison and bitwise logic.
    LT,
    GT,
    SLT,
    SGT,
    EQ,
    ISZERO,
    AND,
    OR,
    XOR,
    NOT,
    BYTE,
    SHL,
    SHR,
    SAR,
    // hashing.
    KECCAK256,
    // environment of the running account.
    ADDRESS,
    BALANCE,
    ORIGIN,
    CALLER,
    CALLVALUE,
    CALLDATALOAD,
    CALLDATASIZE,
    CALLDATACOPY,
    CODESIZE,
    CODECOPY,
    GASPRICE,
    EXTCODESIZE,
    EXTCODECOPY,
    RETURNDATASIZE,
    RETURNDATACOPY,
    EXTCODEHASH,
    // block information.
    BLOCKHASH,
    COINBASE,
    TIMESTAMP,
    NUMBER,
    DIFFICULTY,
    GASLIMIT,
    CHAINID,
    SELFBALANCE,
    BASEFEE,
    // stack, memory, storage and flow.
    POP,
    MLOAD,
    MSTORE,
    MSTORE8,
    SLOAD,
    SSTORE,
    JUMP,
    JUMPI,
    PC,
    MSIZE,
    GAS,
    JUMPDEST,
    // pushes.
    PUSH0,
    PUSH1,
    PUSH2,
    PUSH3,
    PUSH4,
    PUSH5,
    PUSH6,
    PUSH7,
    PUSH8,
    PUSH9,
    PUSH10,
    PUSH11,
    PUSH12,
    PUSH13,
    PUSH14,
    PUSH15,
    PUSH16,
    PUSH17,
    PUSH18,
    PUSH19,
    PUSH20,
    PUSH21,
    PUSH22,
    PUSH23,
    PUSH24,
    PUSH25,
    PUSH26,
    PUSH27,
    PUSH28,
    PUSH29,
    PUSH30,
    PUSH31,
    PUSH32,
    // duplications.
    DUP1,
    DUP2,
    DUP3,
    DUP4,
    DUP5,
    DUP6,
    DUP7,
    DUP8,
    DUP9,
    DUP10,
    DUP11,
    DUP12,
    DUP13,
    DUP14,
    DUP15,
    DUP16,
    // exchanges.
    SWAP1,
    SWAP2,
    SWAP3,
    SWAP4,
    SWAP5,
    SWAP6,
    SWAP7,
    SWAP8,
    SWAP9,
    SWAP10,
    SWAP11,
    SWAP12,
    SWAP13,
    SWAP14,
    SWAP15,
    SWAP16,
    // logging.
    LOG0,
    LOG1,
    LOG2,
    LOG3,
    LOG4,
    // calls and account creation.
    CREATE,
    CALL,
    CALLCODE,
    RETURN,
    DELEGATECALL,
    CREATE2,
    STATICCALL,
    REVERT,
    INVALID,
    SELFDESTRUCT,
}

/// The byte value that encodes `op`.
#[verifier::opaque]
pub open spec fn spec_byte(op: OpCode) -> u8 {
    match op {
        OpCode::STOP => 0x00,
        OpCode::ADD => 0x01,
        OpCode::MUL => 0x02,
        OpCode::SUB => 0x03,
        OpCode::DIV => 0x04,
        OpCode::SDIV => 0x05,
        OpCode::MOD => 0x06,
        OpCode::SMOD => 0x07,
        OpCode::ADDMOD => 0x08,
        OpCode::MULMOD => 0x09,
        OpCode::EXP => 0x0a,
        OpCode::SIGNEXTEND => 0x0b,
        OpCode::LT => 0x10,
        OpCode::GT => 0x11,
        OpCode::SLT => 0x12,
        OpCode::SGT => 0x13,
        OpCode::EQ => 0x14,
        OpCode::ISZERO => 0x15,
        OpCode::AND => 0x16,
        OpCode::OR => 0x17,
        OpCode::XOR => 0x18,
        OpCode::NOT => 0x19,
        OpCode::BYTE => 0x1a,
        OpCode::SHL => 0x1b,
        OpCode::SHR => 0x1c,
        OpCode::SAR => 0x1d,
        OpCode::KECCAK256 => 0x20,
        OpCode::ADDRESS => 0x30,
        OpCode::BALANCE => 0x31,
        OpCode::ORIGIN => 0x32,
        OpCode::CALLER => 0x33,
        OpCode::CALLVALUE => 0x34,
        OpCode::CALLDATALOAD => 0x35,
        OpCode::CALLDATASIZE => 0x36,
        OpCode::CALLDATACOPY => 0x37,
        OpCode::CODESIZE => 0x38,
        OpCode::CODECOPY => 0x39,
        OpCode::GASPRICE => 0x3a,
        OpCode::EXTCODESIZE => 0x3b,
        OpCode::EXTCODECOPY => 0x3c,
        OpCode::RETURNDATASIZE => 0x3d,
        OpCode::RETURNDATACOPY => 0x3e,
        OpCode::EXTCODEHASH => 0x3f,
        OpCode::BLOCKHASH => 0x40,
        OpCode::COINBASE => 0x41,
        OpCode::TIMESTAMP => 0x42,
        OpCode::NUMBER => 0x43,
        OpCode::DIFFICULTY => 0x44,
        OpCode::GASLIMIT => 0x45,
        OpCode::CHAINID => 0x46,
        OpCode::SELFBALANCE => 0x47,
        OpCode::BASEFEE => 0x48,
        OpCode::POP => 0x50,
        OpCode::MLOAD => 0x51,
        OpCode::MSTORE => 0x52,
        OpCode::MSTORE8 => 0x53,
        OpCode::SLOAD => 0x54,
        OpCode::SSTORE => 0x55,
        OpCode::JUMP => 0x56,
        OpCode::JUMPI => 0x57,
        OpCode::PC => 0x58,
        OpCode::MSIZE => 0x59,
        OpCode::GAS => 0x5a,
        OpCode::JUMPDEST => 0x5b,
        OpCode::PUSH0 => 0x5f,
        OpCode::PUSH1 => 0x60,
        OpCode::PUSH2 => 0x61,
        OpCode::PUSH3 => 0x62,
        OpCode::PUSH4 => 0x63,
        OpCode::PUSH5 => 0x64,
        OpCode::PUSH6 => 0x65,
        OpCode::PUSH7 => 0x66,
        OpCode::PUSH8 => 0x67,
        OpCode::PUSH9 => 0x68,
        OpCode::PUSH10 => 0x69,
        OpCode::PUSH11 => 0x6a,
        OpCode::PUSH12 => 0x6b,
        OpCode::PUSH13 => 0x6c,
        OpCode::PUSH14 => 0x6d,
        OpCode::PUSH15 => 0x6e,
        OpCode::PUSH16 => 0x6f,
        OpCode::PUSH17 => 0x70,
        OpCode::PUSH18 => 0x71,
        OpCode::PUSH19 => 0x72,
        OpCode::PUSH20 => 0x73,
        OpCode::PUSH21 => 0x74,
        OpCode::PUSH22 => 0x75,
        OpCode::PUSH23 => 0x76,
        OpCode::PUSH24 => 0x77,
        OpCode::PUSH25 => 0x78,
        OpCode::PUSH26 => 0x79,
        OpCode::PUSH27 => 0x7a,
        OpCode::PUSH28 => 0x7b,
        OpCode::PUSH29 => 0x7c,
        OpCode::PUSH30 => 0x7d,
        OpCode::PUSH31 => 0x7e,
        OpCode::PUSH32 => 0x7f,
        OpCode::DUP1 => 0x80,
        OpCode::DUP2 => 0x81,
        OpCode::DUP3 => 0x82,
        OpCode::DUP4 => 0x83,
        OpCode::DUP5 => 0x84,
        OpCode::DUP6 => 0x85,
        OpCode::DUP7 => 0x86,
        OpCode::DUP8 => 0x87,
        OpCode::DUP9 => 0x88,
        OpCode::DUP10 => 0x89,
        OpCode::DUP11 => 0x8a,
        OpCode::DUP12 => 0x8b,
        OpCode::DUP13 => 0x8c,
        OpCode::DUP14 => 0x8d,
        OpCode::DUP15 => 0x8e,
        OpCode::DUP16 => 0x8f,
        OpCode::SWAP1 => 0x90,
        OpCode::SWAP2 => 0x91,
        OpCode::SWAP3 => 0x92,
        OpCode::SWAP4 => 0x93,
        OpCode::SWAP5 => 0x94,
        OpCode::SWAP6 => 0x95,
        OpCode::SWAP7 => 0x96,
        OpCode::SWAP8 => 0x97,
        OpCode::SWAP9 => 0x98,
        OpCode::SWAP10 => 0x99,
        OpCode::SWAP11 => 0x9a,
        OpCode::SWAP12 => 0x9b,
        OpCode::SWAP13 => 0x9c,
        OpCode::SWAP14 => 0x9d,
        OpCode::SWAP15 => 0x9e,
        OpCode::SWAP16 => 0x9f,
        OpCode::LOG0 => 0xa0,
        OpCode::LOG1 => 0xa1,
        OpCode::LOG2 => 0xa2,
        OpCode::LOG3 => 0xa3,
        OpCode::LOG4 => 0xa4,
        OpCode::CREATE => 0xf0,
        OpCode::CALL => 0xf1,
        OpCode::CALLCODE => 0xf2,
        OpCode::RETURN => 0xf3,
        OpCode::DELEGATECALL => 0xf4,
        OpCode::CREATE2 => 0xf5,
        OpCode::STATICCALL => 0xfa,
        OpCode::REVERT => 0xfd,
        OpCode::INVALID => 0xfe,
        OpCode::SELFDESTRUCT => 0xff,
    }
}

/// The opcode that the byte `b` encodes, or `None` where the catalog assigns none.
#[verifier::opaque]
pub open spec fn opcode_of(b: u8) -> Option<OpCode> {
    match b {
        0x00 => Some(OpCode::STOP),
        0x01 => Some(OpCode::ADD),
        0x02 => Some(OpCode::MUL),
        0x03 => Some(OpCode::SUB),
        0x04 => Some(OpCode::DIV),
        0x05 => Some(OpCode::SDIV),
        0x06 => Some(OpCode::MOD),
        0x07 => Some(OpCode::SMOD),
        0x08 => Some(OpCode::ADDMOD),
        0x09 => Some(OpCode::MULMOD),
        0x0a => Some(OpCode::EXP),
        0x0b => Some(OpCode::SIGNEXTEND),
        0x10 => Some(OpCode::LT),
        0x11 => Some(OpCode::GT),
        0x12 => Some(OpCode::SLT),
        0x13 => Some(OpCode::SGT),
        0x14 => Some(OpCode::EQ),
        0x15 => Some(OpCode::ISZERO),
        0x16 => Some(OpCode::AND),
        0x17 => Some(OpCode::OR),
        0x18 => Some(OpCode::XOR),
        0x19 => Some(OpCode::NOT),
        0x1a => Some(OpCode::BYTE),
        0x1b => Some(OpCode::SHL),
        0x1c => Some(OpCode::SHR),
        0x1d => Some(OpCode::SAR),
        0x20 => Some(OpCode::KECCAK256),
        0x30 => Some(OpCode::ADDRESS),
        0x31 => Some(OpCode::BALANCE),
        0x32 => Some(OpCode::ORIGIN),
        0x33 => Some(OpCode::CALLER),
        0x34 => Some(OpCode::CALLVALUE),
        0x35 => Some(OpCode::CALLDATALOAD),
        0x36 => Some(OpCode::CALLDATASIZE),
        0x37 => Some(OpCode::CALLDATACOPY),
        0x38 => Some(OpCode::CODESIZE),
        0x39 => Some(OpCode::CODECOPY),
        0x3a => Some(OpCode::GASPRICE),
        0x3b => Some(OpCode::EXTCODESIZE),
        0x3c => Some(OpCode::EXTCODECOPY),
        0x3d => Some(OpCode::RETURNDATASIZE),
        0x3e => Some(OpCode::RETURNDATACOPY),
        0x3f => Some(OpCode::EXTCODEHASH),
        0x40 => Some(OpCode::BLOCKHASH),
        0x41 => Some(OpCode::COINBASE),
        0x42 => Some(OpCode::TIMESTAMP),
        0x43 => Some(OpCode::NUMBER),
        0x44 => Some(OpCode::DIFFICULTY),
        0x45 => Some(OpCode::GASLIMIT),
        0x46 => Some(OpCode::CHAINID),
        0x47 => Some(OpCode::SELFBALANCE),
        0x48 => Some(OpCode::BASEFEE),
        0x50 => Some(OpCode::POP),
        0x51 => Some(OpCode::MLOAD),
        0x52 => Some(OpCode::MSTORE),
        0x53 => Some(OpCode::MSTORE8),
        0x54 => Some(OpCode::SLOAD),
        0x55 => Some(OpCode::SSTORE),
        0x56 => Some(OpCode::JUMP),
        0x57 => Some(OpCode::JUMPI),
        0x58 => Some(OpCode::PC),
        0x59 => Some(OpCode::MSIZE),
        0x5a => Some(OpCode::GAS),
        0x5b => Some(OpCode::JUMPDEST),
        0x5f => Some(OpCode::PUSH0),
        0x60 => Some(OpCode::PUSH1),
        0x61 => Some(OpCode::PUSH2),
        0x62 => Some(OpCode::PUSH3),
        0x63 => Some(OpCode::PUSH4),
        0x64 => Some(OpCode::PUSH5),
        0x65 => Some(OpCode::PUSH6),
        0x66 => Some(OpCode::PUSH7),
        0x67 => Some(OpCode::PUSH8),
        0x68 => Some(OpCode::PUSH9),
        0x69 => Some(OpCode::PUSH10),
        0x6a => Some(OpCode::PUSH11),
        0x6b => Some(OpCode::PUSH12),
        0x6c => Some(OpCode::PUSH13),
        0x6d => Some(OpCode::PUSH14),
        0x6e => Some(OpCode::PUSH15),
        0x6f => Some(OpCode::PUSH16),
        0x70 => Some(OpCode::PUSH17),
        0x71 => Some(OpCode::PUSH18),
        0x72 => Some(OpCode::PUSH19),
        0x73 => Some(OpCode::PUSH20),
        0x74 => Some(OpCode::PUSH21),
        0x75 => Some(OpCode::PUSH22),
        0x76 => Some(OpCode::PUSH23),
        0x77 => Some(OpCode::PUSH24),
        0x78 => Some(OpCode::PUSH25),
        0x79 => Some(OpCode::PUSH26),
        0x7a => Some(OpCode::PUSH27),
        0x7b => Some(OpCode::PUSH28),
        0x7c => Some(OpCode::PUSH29),
        0x7d => Some(OpCode::PUSH30),
        0x7e => Some(OpCode::PUSH31),
        0x7f => Some(OpCode::PUSH32),
        0x80 => Some(OpCode::DUP1),
        0x81 => Some(OpCode::DUP2),
        0x82 => Some(OpCode::DUP3),
        0x83 => Some(OpCode::DUP4),
        0x84 => Some(OpCode::DUP5),
        0x85 => Some(OpCode::DUP6),
        0x86 => Some(OpCode::DUP7),
        0x87 => Some(OpCode::DUP8),
        0x88 => Some(OpCode::DUP9),
        0x89 => Some(OpCode::DUP10),
        0x8a => Some(OpCode::DUP11),
        0x8b => Some(OpCode::DUP12),
        0x8c => Some(OpCode::DUP13),
        0x8d => Some(OpCode::DUP14),
        0x8e => Some(OpCode::DUP15),
        0x8f => Some(OpCode::DUP16),
        0x90 => Some(OpCode::SWAP1),
        0x91 => Some(OpCode::SWAP2),
        0x92 => Some(OpCode::SWAP3),
        0x93 => Some(OpCode::SWAP4),
        0x94 => Some(OpCode::SWAP5),
        0x95 => Some(OpCode::SWAP6),
        0x96 => Some(OpCode::SWAP7),
        0x97 => Some(OpCode::SWAP8),
        0x98 => Some(OpCode::SWAP9),
        0x99 => Some(OpCode::SWAP10),
        0x9a => Some(OpCode::SWAP11),
        0x9b => Some(OpCode::SWAP12),
        0x9c => Some(OpCode::SWAP13),
        0x9d => Some(OpCode::SWAP14),
        0x9e => Some(OpCode::SWAP15),
        0x9f => Some(OpCode::SWAP16),
        0xa0 => Some(OpCode::LOG0),
        0xa1 => Some(OpCode::LOG1),
        0xa2 => Some(OpCode::LOG2),
        0xa3 => Some(OpCode::LOG3),
        0xa4 => Some(OpCode::LOG4),
        0xf0 => Some(OpCode::CREATE),
        0xf1 => Some(OpCode::CALL),
        0xf2 => Some(OpCode::CALLCODE),
        0xf3 => Some(OpCode::RETURN),
        0xf4 => Some(OpCode::DELEGATECALL),
        0xf5 => Some(OpCode::CREATE2),
        0xfa => Some(OpCode::STATICCALL),
        0xfd => Some(OpCode::REVERT),
        0xfe => Some(OpCode::INVALID),
        0xff => Some(OpCode::SELFDESTRUCT),
        _ => None,
    }
}

/// The display name of `op`.
pub open spec fn mnemonic(op: OpCode) -> Seq<char> {
    match op {
        OpCode::STOP => "STOP"@,
        OpCode::ADD => "ADD"@,
        OpCode::MUL => "MUL"@,
        OpCode::SUB => "SUB"@,
        OpCode::DIV => "DIV"@,
        OpCode::SDIV => "SDIV"@,
        OpCode::MOD => "MOD"@,
        OpCode::SMOD => "SMOD"@,
        OpCode::ADDMOD => "ADDMOD"@,
        OpCode::MULMOD => "MULMOD"@,
        OpCode::EXP => "EXP"@,
        OpCode::SIGNEXTEND => "SIGNEXTEND"@,
        OpCode::LT => "LT"@,
        OpCode::GT => "GT"@,
        OpCode::SLT => "SLT"@,
        OpCode::SGT => "SGT"@,
        OpCode::EQ => "EQ"@,
        OpCode::ISZERO => "ISZERO"@,
        OpCode::AND => "AND"@,
        OpCode::OR => "OR"@,
        OpCode::XOR => "XOR"@,
        OpCode::NOT => "NOT"@,
        OpCode::BYTE => "BYTE"@,
        OpCode::SHL => "SHL"@,
        OpCode::SHR => "SHR"@,
        OpCode::SAR => "SAR"@,
        OpCode::KECCAK256 => "KECCAK256"@,
        OpCode::ADDRESS => "ADDRESS"@,
        OpCode::BALANCE => "BALANCE"@,
        OpCode::ORIGIN => "ORIGIN"@,
        OpCode::CALLER => "CALLER"@,
        OpCode::CALLVALUE => "CALLVALUE"@,
        OpCode::CALLDATALOAD => "CALLDATALOAD"@,
        OpCode::CALLDATASIZE => "CALLDATASIZE"@,
        OpCode::CALLDATACOPY => "CALLDATACOPY"@,
        OpCode::CODESIZE => "CODESIZE"@,
        OpCode::CODECOPY => "CODECOPY"@,
        OpCode::GASPRICE => "GASPRICE"@,
        OpCode::EXTCODESIZE => "EXTCODESIZE"@,
        OpCode::EXTCODECOPY => "EXTCODECOPY"@,
        OpCode::RETURNDATASIZE => "RETURNDATASIZE"@,
        OpCode::RETURNDATACOPY => "RETURNDATACOPY"@,
        OpCode::EXTCODEHASH => "EXTCODEHASH"@,
        OpCode::BLOCKHASH => "BLOCKHASH"@,
        OpCode::COINBASE => "COINBASE"@,
        OpCode::TIMESTAMP => "TIMESTAMP"@,
        OpCode::NUMBER => "NUMBER"@,
        OpCode::DIFFICULTY => "DIFFICULTY"@,
        OpCode::GASLIMIT => "GASLIMIT"@,
        OpCode::CHAINID => "CHAINID"@,
        OpCode::SELFBALANCE => "SELFBALANCE"@,
        OpCode::BASEFEE => "BASEFEE"@,
        OpCode::POP => "POP"@,
        OpCode::MLOAD => "MLOAD"@,
        OpCode::MSTORE => "MSTORE"@,
        OpCode::MSTORE8 => "MSTORE8"@,
        OpCode::SLOAD => "SLOAD"@,
        OpCode::SSTORE => "SSTORE"@,
        OpCode::JUMP => "JUMP"@,
        OpCode::JUMPI => "JUMPI"@,
        OpCode::PC => "PC"@,
        OpCode::MSIZE => "MSIZE"@,
        OpCode::GAS => "GAS"@,
        OpCode::JUMPDEST => "JUMPDEST"@,
        OpCode::PUSH0 => "PUSH0"@,
        OpCode::PUSH1 => "PUSH1"@,
        OpCode::PUSH2 => "PUSH2"@,
        OpCode::PUSH3 => "PUSH3"@,
        OpCode::PUSH4 => "PUSH4"@,
        OpCode::PUSH5 => "PUSH5"@,
        OpCode::PUSH6 => "PUSH6"@,
        OpCode::PUSH7 => "PUSH7"@,
        OpCode::PUSH8 => "PUSH8"@,
        OpCode::PUSH9 => "PUSH9"@,
        OpCode::PUSH10 => "PUSH10"@,
        OpCode::PUSH11 => "PUSH11"@,
        OpCode::PUSH12 => "PUSH12"@,
        OpCode::PUSH13 => "PUSH13"@,
        OpCode::PUSH14 => "PUSH14"@,
        OpCode::PUSH15 => "PUSH15"@,
        OpCode::PUSH16 => "PUSH16"@,
        OpCode::PUSH17 => "PUSH17"@,
        OpCode::PUSH18 => "PUSH18"@,
        OpCode::PUSH19 => "PUSH19"@,
        OpCode::PUSH20 => "PUSH20"@,
        OpCode::PUSH21 => "PUSH21"@,
        OpCode::PUSH22 => "PUSH22"@,
        OpCode::PUSH23 => "PUSH23"@,
        OpCode::PUSH24 => "PUSH24"@,
        OpCode::PUSH25 => "PUSH25"@,
        OpCode::PUSH26 => "PUSH26"@,
        OpCode::PUSH27 => "PUSH27"@,
        OpCode::PUSH28 => "PUSH28"@,
        OpCode::PUSH29 => "PUSH29"@,
        OpCode::PUSH30 => "PUSH30"@,
        OpCode::PUSH31 => "PUSH31"@,
        OpCode::PUSH32 => "PUSH32"@,
        OpCode::DUP1 => "DUP1"@,
        OpCode::DUP2 => "DUP2"@,
        OpCode::DUP3 => "DUP3"@,
        OpCode::DUP4 => "DUP4"@,
        OpCode::DUP5 => "DUP5"@,
        OpCode::DUP6 => "DUP6"@,
        OpCode::DUP7 => "DUP7"@,
        OpCode::DUP8 => "DUP8"@,
        OpCode::DUP9 => "DUP9"@,
        OpCode::DUP10 => "DUP10"@,
        OpCode::DUP11 => "DUP11"@,
        OpCode::DUP12 => "DUP12"@,
        OpCode::DUP13 => "DUP13"@,
        OpCode::DUP14 => "DUP14"@,
        OpCode::DUP15 => "DUP15"@,
        OpCode::DUP16 => "DUP16"@,
        OpCode::SWAP1 => "SWAP1"@,
        OpCode::SWAP2 => "SWAP2"@,
        OpCode::SWAP3 => "SWAP3"@,
        OpCode::SWAP4 => "SWAP4"@,
        OpCode::SWAP5 => "SWAP5"@,
        OpCode::SWAP6 => "SWAP6"@,
        OpCode::SWAP7 => "SWAP7"@,
        OpCode::SWAP8 => "SWAP8"@,
        OpCode::SWAP9 => "SWAP9"@,
        OpCode::SWAP10 => "SWAP10"@,
        OpCode::SWAP11 => "SWAP11"@,
        OpCode::SWAP12 => "SWAP12"@,
        OpCode::SWAP13 => "SWAP13"@,
        OpCode::SWAP14 => "SWAP14"@,
        OpCode::SWAP15 => "SWAP15"@,
        OpCode::SWAP16 => "SWAP16"@,
        OpCode::LOG0 => "LOG0"@,
        OpCode::LOG1 => "LOG1"@,
        OpCode::LOG2 => "LOG2"@,
        OpCode::LOG3 => "LOG3"@,
        OpCode::LOG4 => "LOG4"@,
        OpCode::CREATE => "CREATE"@,
        OpCode::CALL => "CALL"@,
        OpCode::CALLCODE => "CALLCODE"@,
        OpCode::RETURN => "RETURN"@,
        OpCode::DELEGATECALL => "DELEGATECALL"@,
        OpCode::CREATE2 => "CREATE2"@,
        OpCode::STATICCALL => "STATICCALL"@,
        OpCode::REVERT => "REVERT"@,
        OpCode::INVALID => "INVALID"@,
        OpCode::SELFDESTRUCT => "SELFDESTRUCT"@,
    }
}

/// Whether `op` is one of the push instructions that carry an immediate operand:
/// PUSH1 up to PUSH32. PUSH0 carries none and is not one of them.
pub open spec fn spec_is_push(op: OpCode) -> bool {
    0x60 <= spec_byte(op) <= 0x7f
}

/// The number of immediate bytes that a push instruction carries (1 to 32).
pub open spec fn spec_push_size(op: OpCode) -> int {
    spec_byte(op) - 0x60 + 1
}

/// The number of bytes that follow `op` as its operand: the immediate of a push, else none.
pub open spec fn operand_len(op: OpCode) -> int {
    if spec_is_push(op) {
        spec_push_size(op)
    } else {
        0
    }
}

/// Encoding an opcode and reading the byte back gives the same opcode.
pub proof fn lemma_opcode_of_spec_byte(op: OpCode)
    ensures
        opcode_of(spec_byte(op)) == Some(op),
{
    reveal(opcode_of);
    reveal(spec_byte);
}

/// Every byte that resolves to an opcode is that opcode's encoding.
pub proof fn lemma_spec_byte_of_opcode(b: u8)
    ensures
        opcode_of(b) matches Some(op) ==> spec_byte(op) == b,
{
    reveal(opcode_of);
    reveal(spec_byte);
}

impl OpCode {
    /// Resolves a byte to the opcode it encodes; `None` for a byte that the catalog
    /// leaves unassigned.
    pub fn from_byte(b: u8) -> (r: Option<OpCode>)
        ensures
            r == opcode_of(b),
    {
        proof {
            reveal(opcode_of);
        }
        match b {
            0x00 => Some(OpCode::STOP),
            0x01 => Some(OpCode::ADD),
            0x02 => Some(OpCode::MUL),
            0x03 => Some(OpCode::SUB),
            0x04 => Some(OpCode::DIV),
            0x05 => Some(OpCode::SDIV),
            0x06 => Some(OpCode::MOD),
            0x07 => Some(OpCode::SMOD),
            0x08 => Some(OpCode::ADDMOD),
            0x09 => Some(OpCode::MULMOD),
            0x0a => Some(OpCode::EXP),
            0x0b => Some(OpCode::SIGNEXTEND),
            0x10 => Some(OpCode::LT),
            0x11 => Some(OpCode::GT),
            0x12 => Some(OpCode::SLT),
            0x13 => Some(OpCode::SGT),
            0x14 => Some(OpCode::EQ),
            0x15 => Some(OpCode::ISZERO),
            0x16 => Some(OpCode::AND),
            0x17 => Some(OpCode::OR),
            0x18 => Some(OpCode::XOR),
            0x19 => Some(OpCode::NOT),
            0x1a => Some(OpCode::BYTE),
            0x1b => Some(OpCode::SHL),
            0x1c => Some(OpCode::SHR),
            0x1d => Some(OpCode::SAR),
            0x20 => Some(OpCode::KECCAK256),
            0x30 => Some(OpCode::ADDRESS),
            0x31 => Some(OpCode::BALANCE),
            0x32 => Some(OpCode::ORIGIN),
            0x33 => Some(OpCode::CALLER),
            0x34 => Some(OpCode::CALLVALUE),
            0x35 => Some(OpCode::CALLDATALOAD),
            0x36 => Some(OpCode::CALLDATASIZE),
            0x37 => Some(OpCode::CALLDATACOPY),
            0x38 => Some(OpCode::CODESIZE),
            0x39 => Some(OpCode::CODECOPY),
            0x3a => Some(OpCode::GASPRICE),
            0x3b => Some(OpCode::EXTCODESIZE),
            0x3c => Some(OpCode::EXTCODECOPY),
            0x3d => Some(OpCode::RETURNDATASIZE),
            0x3e => Some(OpCode::RETURNDATACOPY),
            0x3f => Some(OpCode::EXTCODEHASH),
            0x40 => Some(OpCode::BLOCKHASH),
            0x41 => Some(OpCode::COINBASE),
            0x42 => Some(OpCode::TIMESTAMP),
            0x43 => Some(OpCode::NUMBER),
            0x44 => Some(OpCode::DIFFICULTY),
            0x45 => Some(OpCode::GASLIMIT),
            0x46 => Some(OpCode::CHAINID),
            0x47 => Some(OpCode::SELFBALANCE),
            0x48 => Some(OpCode::BASEFEE),
            0x50 => Some(OpCode::POP),
            0x51 => Some(OpCode::MLOAD),
            0x52 => Some(OpCode::MSTORE),
            0x53 => Some(OpCode::MSTORE8),
            0x54 => Some(OpCode::SLOAD),
            0x55 => Some(OpCode::SSTORE),
            0x56 => Some(OpCode::JUMP),
            0x57 => Some(OpCode::JUMPI),
            0x58 => Some(OpCode::PC),
            0x59 => Some(OpCode::MSIZE),
            0x5a => Some(OpCode::GAS),
            0x5b => Some(OpCode::JUMPDEST),
            0x5f => Some(OpCode::PUSH0),
            0x60 => Some(OpCode::PUSH1),
            0x61 => Some(OpCode::PUSH2),
            0x62 => Some(OpCode::PUSH3),
            0x63 => Some(OpCode::PUSH4),
            0x64 => Some(OpCode::PUSH5),
            0x65 => Some(OpCode::PUSH6),
            0x66 => Some(OpCode::PUSH7),
            0x67 => Some(OpCode::PUSH8),
            0x68 => Some(OpCode::PUSH9),
            0x69 => Some(OpCode::PUSH10),
            0x6a => Some(OpCode::PUSH11),
            0x6b => Some(OpCode::PUSH12),
            0x6c => Some(OpCode::PUSH13),
            0x6d => Some(OpCode::PUSH14),
            0x6e => Some(OpCode::PUSH15),
            0x6f => Some(OpCode::PUSH16),
            0x70 => Some(OpCode::PUSH17),
            0x71 => Some(OpCode::PUSH18),
            0x72 => Some(OpCode::PUSH19),
            0x73 => Some(OpCode::PUSH20),
            0x74 => Some(OpCode::PUSH21),
            0x75 => Some(OpCode::PUSH22),
            0x76 => Some(OpCode::PUSH23),
            0x77 => Some(OpCode::PUSH24),
            0x78 => Some(OpCode::PUSH25),
            0x79 => Some(OpCode::PUSH26),
            0x7a => Some(OpCode::PUSH27),
            0x7b => Some(OpCode::PUSH28),
            0x7c => Some(OpCode::PUSH29),
            0x7d => Some(OpCode::PUSH30),
            0x7e => Some(OpCode::PUSH31),
            0x7f => Some(OpCode::PUSH32),
            0x80 => Some(OpCode::DUP1),
            0x81 => Some(OpCode::DUP2),
            0x82 => Some(OpCode::DUP3),
            0x83 => Some(OpCode::DUP4),
            0x84 => Some(OpCode::DUP5),
            0x85 => Some(OpCode::DUP6),
            0x86 => Some(OpCode::DUP7),
            0x87 => Some(OpCode::DUP8),
            0x88 => Some(OpCode::DUP9),
            0x89 => Some(OpCode::DUP10),
            0x8a => Some(OpCode::DUP11),
            0x8b => Some(OpCode::DUP12),
            0x8c => Some(OpCode::DUP13),
            0x8d => Some(OpCode::DUP14),
            0x8e => Some(OpCode::DUP15),
            0x8f => Some(OpCode::DUP16),
            0x90 => Some(OpCode::SWAP1),
            0x91 => Some(OpCode::SWAP2),
            0x92 => Some(OpCode::SWAP3),
            0x93 => Some(OpCode::SWAP4),
            0x94 => Some(OpCode::SWAP5),
            0x95 => Some(OpCode::SWAP6),
            0x96 => Some(OpCode::SWAP7),
            0x97 => Some(OpCode::SWAP8),
            0x98 => Some(OpCode::SWAP9),
            0x99 => Some(OpCode::SWAP10),
            0x9a => Some(OpCode::SWAP11),
            0x9b => Some(OpCode::SWAP12),
            0x9c => Some(OpCode::SWAP13),
            0x9d => Some(OpCode::SWAP14),
            0x9e => Some(OpCode::SWAP15),
            0x9f => Some(OpCode::SWAP16),
            0xa0 => Some(OpCode::LOG0),
            0xa1 => Some(OpCode::LOG1),
            0xa2 => Some(OpCode::LOG2),
            0xa3 => Some(OpCode::LOG3),
            0xa4 => Some(OpCode::LOG4),
            0xf0 => Some(OpCode::CREATE),
            0xf1 => Some(OpCode::CALL),
            0xf2 => Some(OpCode::CALLCODE),
            0xf3 => Some(OpCode::RETURN),
            0xf4 => Some(OpCode::DELEGATECALL),
            0xf5 => Some(OpCode::CREATE2),
            0xfa => Some(OpCode::STATICCALL),
            0xfd => Some(OpCode::REVERT),
            0xfe => Some(OpCode::INVALID),
            0xff => Some(OpCode::SELFDESTRUCT),
            _ => None,
        }
    }

    /// The byte value that encodes this opcode.
    pub fn byte(self) -> (r: u8)
        ensures
            r == spec_byte(self),
    {
        proof {
            reveal(spec_byte);
        }
        match self {
            OpCode::STOP => 0x00,
            OpCode::ADD => 0x01,
            OpCode::MUL => 0x02,
            OpCode::SUB => 0x03,
            OpCode::DIV => 0x04,
            OpCode::SDIV => 0x05,
            OpCode::MOD => 0x06,
            OpCode::SMOD => 0x07,
            OpCode::ADDMOD => 0x08,
            OpCode::MULMOD => 0x09,
            OpCode::EXP => 0x0a,
            OpCode::SIGNEXTEND => 0x0b,
            OpCode::LT => 0x10,
            OpCode::GT => 0x11,
            OpCode::SLT => 0x12,
            OpCode::SGT => 0x13,
            OpCode::EQ => 0x14,
            OpCode::ISZERO => 0x15,
            OpCode::AND => 0x16,
            OpCode::OR => 0x17,
            OpCode::XOR => 0x18,
            OpCode::NOT => 0x19,
            OpCode::BYTE => 0x1a,
            OpCode::SHL => 0x1b,
            OpCode::SHR => 0x1c,
            OpCode::SAR => 0x1d,
            OpCode::KECCAK256 => 0x20,
            OpCode::ADDRESS => 0x30,
            OpCode::BALANCE => 0x31,
            OpCode::ORIGIN => 0x32,
            OpCode::CALLER => 0x33,
            OpCode::CALLVALUE => 0x34,
            OpCode::CALLDATALOAD => 0x35,
            OpCode::CALLDATASIZE => 0x36,
            OpCode::CALLDATACOPY => 0x37,
            OpCode::CODESIZE => 0x38,
            OpCode::CODECOPY => 0x39,
            OpCode::GASPRICE => 0x3a,
            OpCode::EXTCODESIZE => 0x3b,
            OpCode::EXTCODECOPY => 0x3c,
            OpCode::RETURNDATASIZE => 0x3d,
            OpCode::RETURNDATACOPY => 0x3e,
            OpCode::EXTCODEHASH => 0x3f,
            OpCode::BLOCKHASH => 0x40,
            OpCode::COINBASE => 0x41,
            OpCode::TIMESTAMP => 0x42,
            OpCode::NUMBER => 0x43,
            OpCode::DIFFICULTY => 0x44,
            OpCode::GASLIMIT => 0x45,
            OpCode::CHAINID => 0x46,
            OpCode::SELFBALANCE => 0x47,
            OpCode::BASEFEE => 0x48,
            OpCode::POP => 0x50,
            OpCode::MLOAD => 0x51,
            OpCode::MSTORE => 0x52,
            OpCode::MSTORE8 => 0x53,
            OpCode::SLOAD => 0x54,
            OpCode::SSTORE => 0x55,
            OpCode::JUMP => 0x56,
            OpCode::JUMPI => 0x57,
            OpCode::PC => 0x58,
            OpCode::MSIZE => 0x59,
            OpCode::GAS => 0x5a,
            OpCode::JUMPDEST => 0x5b,
            OpCode::PUSH0 => 0x5f,
            OpCode::PUSH1 => 0x60,
            OpCode::PUSH2 => 0x61,
            OpCode::PUSH3 => 0x62,
            OpCode::PUSH4 => 0x63,
            OpCode::PUSH5 => 0x64,
            OpCode::PUSH6 => 0x65,
            OpCode::PUSH7 => 0x66,
            OpCode::PUSH8 => 0x67,
            OpCode::PUSH9 => 0x68,
            OpCode::PUSH10 => 0x69,
            OpCode::PUSH11 => 0x6a,
            OpCode::PUSH12 => 0x6b,
            OpCode::PUSH13 => 0x6c,
            OpCode::PUSH14 => 0x6d,
            OpCode::PUSH15 => 0x6e,
            OpCode::PUSH16 => 0x6f,
            OpCode::PUSH17 => 0x70,
            OpCode::PUSH18 => 0x71,
            OpCode::PUSH19 => 0x72,
            OpCode::PUSH20 => 0x73,
            OpCode::PUSH21 => 0x74,
            OpCode::PUSH22 => 0x75,
            OpCode::PUSH23 => 0x76,
            OpCode::PUSH24 => 0x77,
            OpCode::PUSH25 => 0x78,
            OpCode::PUSH26 => 0x79,
            OpCode::PUSH27 => 0x7a,
            OpCode::PUSH28 => 0x7b,
            OpCode::PUSH29 => 0x7c,
            OpCode::PUSH30 => 0x7d,
            OpCode::PUSH31 => 0x7e,
            OpCode::PUSH32 => 0x7f,
            OpCode::DUP1 => 0x80,
            OpCode::DUP2 => 0x81,
            OpCode::DUP3 => 0x82,
            OpCode::DUP4 => 0x83,
            OpCode::DUP5 => 0x84,
            OpCode::DUP6 => 0x85,
            OpCode::DUP7 => 0x86,
            OpCode::DUP8 => 0x87,
            OpCode::DUP9 => 0x88,
            OpCode::DUP10 => 0x89,
            OpCode::DUP11 => 0x8a,
            OpCode::DUP12 => 0x8b,
            OpCode::DUP13 => 0x8c,
            OpCode::DUP14 => 0x8d,
            OpCode::DUP15 => 0x8e,
            OpCode::DUP16 => 0x8f,
            OpCode::SWAP1 => 0x90,
            OpCode::SWAP2 => 0x91,
            OpCode::SWAP3 => 0x92,
            OpCode::SWAP4 => 0x93,
            OpCode::SWAP5 => 0x94,
            OpCode::SWAP6 => 0x95,
            OpCode::SWAP7 => 0x96,
            OpCode::SWAP8 => 0x97,
            OpCode::SWAP9 => 0x98,
            OpCode::SWAP10 => 0x99,
            OpCode::SWAP11 => 0x9a,
            OpCode::SWAP12 => 0x9b,
            OpCode::SWAP13 => 0x9c,
            OpCode::SWAP14 => 0x9d,
            OpCode::SWAP15 => 0x9e,
            OpCode::SWAP16 => 0x9f,
            OpCode::LOG0 => 0xa0,
            OpCode::LOG1 => 0xa1,
            OpCode::LOG2 => 0xa2,
            OpCode::LOG3 => 0xa3,
            OpCode::LOG4 => 0xa4,
            OpCode::CREATE => 0xf0,
            OpCode::CALL => 0xf1,
            OpCode::CALLCODE => 0xf2,
            OpCode::RETURN => 0xf3,
            OpCode::DELEGATECALL => 0xf4,
            OpCode::CREATE2 => 0xf5,
            OpCode::STATICCALL => 0xfa,
            OpCode::REVERT => 0xfd,
            OpCode::INVALID => 0xfe,
            OpCode::SELFDESTRUCT => 0xff,
        }
    }

    /// Whether this is a push instruction with an immediate operand (PUSH1 to PUSH32).
    pub fn is_push(self) -> (r: bool)
        ensures
            r == spec_is_push(self),
    {
        proof {
            reveal(spec_byte);
        }
        match self {
            OpCode::PUSH1 | OpCode::PUSH2 | OpCode::PUSH3 | OpCode::PUSH4
            | OpCode::PUSH5 | OpCode::PUSH6 | OpCode::PUSH7 | OpCode::PUSH8
            | OpCode::PUSH9 | OpCode::PUSH10 | OpCode::PUSH11 | OpCode::PUSH12
            | OpCode::PUSH13 | OpCode::PUSH14 | OpCode::PUSH15 | OpCode::PUSH16
            | OpCode::PUSH17 | OpCode::PUSH18 | OpCode::PUSH19 | OpCode::PUSH20
            | OpCode::PUSH21 | OpCode::PUSH22 | OpCode::PUSH23 | OpCode::PUSH24
            | OpCode::PUSH25 | OpCode::PUSH26 | OpCode::PUSH27 | OpCode::PUSH28
            | OpCode::PUSH29 | OpCode::PUSH30 | OpCode::PUSH31 | OpCode::PUSH32
            => true,
            _ => false,
        }
    }

    /// The number of immediate bytes that this push instruction carries.
    pub fn push_size(self) -> (r: u8)
        requires
            spec_is_push(self),
        ensures
            r as int == spec_push_size(self),
            1 <= r <= 32,
    {
        self.byte() - 0x5f
    }

    /// The display name of this opcode.
    pub fn name(self) -> (r: &'static str)
        ensures
            r@ == mnemonic(self),
    {
        match self {
            OpCode::STOP => "STOP",
            OpCode::ADD => "ADD",
            OpCode::MUL => "MUL",
            OpCode::SUB => "SUB",
            OpCode::DIV => "DIV",
            OpCode::SDIV => "SDIV",
            OpCode::MOD => "MOD",
            OpCode::SMOD => "SMOD",
            OpCode::ADDMOD => "ADDMOD",
            OpCode::MULMOD => "MULMOD",
            OpCode::EXP => "EXP",
            OpCode::SIGNEXTEND => "SIGNEXTEND",
            OpCode::LT => "LT",
            OpCode::GT => "GT",
            OpCode::SLT => "SLT",
            OpCode::SGT => "SGT",
            OpCode::EQ => "EQ",
            OpCode::ISZERO => "ISZERO",
            OpCode::AND => "AND",
            OpCode::OR => "OR",
            OpCode::XOR => "XOR",
            OpCode::NOT => "NOT",
            OpCode::BYTE => "BYTE",
            OpCode::SHL => "SHL",
            OpCode::SHR => "SHR",
            OpCode::SAR => "SAR",
            OpCode::KECCAK256 => "KECCAK256",
            OpCode::ADDRESS => "ADDRESS",
            OpCode::BALANCE => "BALANCE",
            OpCode::ORIGIN => "ORIGIN",
            OpCode::CALLER => "CALLER",
            OpCode::CALLVALUE => "CALLVALUE",
            OpCode::CALLDATALOAD => "CALLDATALOAD",
            OpCode::CALLDATASIZE => "CALLDATASIZE",
            OpCode::CALLDATACOPY => "CALLDATACOPY",
            OpCode::CODESIZE => "CODESIZE",
            OpCode::CODECOPY => "CODECOPY",
            OpCode::GASPRICE => "GASPRICE",
            OpCode::EXTCODESIZE => "EXTCODESIZE",
            OpCode::EXTCODECOPY => "EXTCODECOPY",
            OpCode::RETURNDATASIZE => "RETURNDATASIZE",
            OpCode::RETURNDATACOPY => "RETURNDATACOPY",
            OpCode::EXTCODEHASH => "EXTCODEHASH",
            OpCode::BLOCKHASH => "BLOCKHASH",
            OpCode::COINBASE => "COINBASE",
            OpCode::TIMESTAMP => "TIMESTAMP",
            OpCode::NUMBER => "NUMBER",
            OpCode::DIFFICULTY => "DIFFICULTY",
            OpCode::GASLIMIT => "GASLIMIT",
            OpCode::CHAINID => "CHAINID",
            OpCode::SELFBALANCE => "SELFBALANCE",
            OpCode::BASEFEE => "BASEFEE",
            OpCode::POP => "POP",
            OpCode::MLOAD => "MLOAD",
            OpCode::MSTORE => "MSTORE",
            OpCode::MSTORE8 => "MSTORE8",
            OpCode::SLOAD => "SLOAD",
            OpCode::SSTORE => "SSTORE",
            OpCode::JUMP => "JUMP",
            OpCode::JUMPI => "JUMPI",
            OpCode::PC => "PC",
            OpCode::MSIZE => "MSIZE",
            OpCode::GAS => "GAS",
            OpCode::JUMPDEST => "JUMPDEST",
            OpCode::PUSH0 => "PUSH0",
            OpCode::PUSH1 => "PUSH1",
            OpCode::PUSH2 => "PUSH2",
            OpCode::PUSH3 => "PUSH3",
            OpCode::PUSH4 => "PUSH4",
            OpCode::PUSH5 => "PUSH5",
            OpCode::PUSH6 => "PUSH6",
            OpCode::PUSH7 => "PUSH7",
            OpCode::PUSH8 => "PUSH8",
            OpCode::PUSH9 => "PUSH9",
            OpCode::PUSH10 => "PUSH10",
            OpCode::PUSH11 => "PUSH11",
            OpCode::PUSH12 => "PUSH12",
            OpCode::PUSH13 => "PUSH13",
            OpCode::PUSH14 => "PUSH14",
            OpCode::PUSH15 => "PUSH15",
            OpCode::PUSH16 => "PUSH16",
            OpCode::PUSH17 => "PUSH17",
            OpCode::PUSH18 => "PUSH18",
            OpCode::PUSH19 => "PUSH19",
            OpCode::PUSH20 => "PUSH20",
            OpCode::PUSH21 => "PUSH21",
            OpCode::PUSH22 => "PUSH22",
            OpCode::PUSH23 => "PUSH23",
            OpCode::PUSH24 => "PUSH24",
            OpCode::PUSH25 => "PUSH25",
            OpCode::PUSH26 => "PUSH26",
            OpCode::PUSH27 => "PUSH27",
            OpCode::PUSH28 => "PUSH28",
            OpCode::PUSH29 => "PUSH29",
            OpCode::PUSH30 => "PUSH30",
            OpCode::PUSH31 => "PUSH31",
            OpCode::PUSH32 => "PUSH32",
            OpCode::DUP1 => "DUP1",
            OpCode::DUP2 => "DUP2",
            OpCode::DUP3 => "DUP3",
            OpCode::DUP4 => "DUP4",
            OpCode::DUP5 => "DUP5",
            OpCode::DUP6 => "DUP6",
            OpCode::DUP7 => "DUP7",
            OpCode::DUP8 => "DUP8",
            OpCode::DUP9 => "DUP9",
            OpCode::DUP10 => "DUP10",
            OpCode::DUP11 => "DUP11",
            OpCode::DUP12 => "DUP12",
            OpCode::DUP13 => "DUP13",
            OpCode::DUP14 => "DUP14",
            OpCode::DUP15 => "DUP15",
            OpCode::DUP16 => "DUP16",
            OpCode::SWAP1 => "SWAP1",
            OpCode::SWAP2 => "SWAP2",
            OpCode::SWAP3 => "SWAP3",
            OpCode::SWAP4 => "SWAP4",
            OpCode::SWAP5 => "SWAP5",
            OpCode::SWAP6 => "SWAP6",
            OpCode::SWAP7 => "SWAP7",
            OpCode::SWAP8 => "SWAP8",
            OpCode::SWAP9 => "SWAP9",
            OpCode::SWAP10 => "SWAP10",
            OpCode::SWAP11 => "SWAP11",
            OpCode::SWAP12 => "SWAP12",
            OpCode::SWAP13 => "SWAP13",
            OpCode::SWAP14 => "SWAP14",
            OpCode::SWAP15 => "SWAP15",
            OpCode::SWAP16 => "SWAP16",
            OpCode::LOG0 => "LOG0",
            OpCode::LOG1 => "LOG1",
            OpCode::LOG2 => "LOG2",
            OpCode::LOG3 => "LOG3",
            OpCode::LOG4 => "LOG4",
            OpCode::CREATE => "CREATE",
            OpCode::CALL => "CALL",
            OpCode::CALLCODE => "CALLCODE",
            OpCode::RETURN => "RETURN",
            OpCode::DELEGATECALL => "DELEGATECALL",
            OpCode::CREATE2 => "CREATE2",
            OpCode::STATICCALL => "STATICCALL",
            OpCode::REVERT => "REVERT",
            OpCode::INVALID => "INVALID",
            OpCode::SELFDESTRUCT => "SELFDESTRUCT",
        }
    }
}

} // verus!
