//! One-byte opcodes and their classification helpers.

use vstd::prelude::*;
use vstd::string::StringExecFns;

verus! {

/// One-byte instruction identifier. The byte value *is* the opcode: every
/// `u8` is an opcode, and bytes without an assigned mnemonic are simply
/// unassigned instructions that classify as unknown at dispatch time.
#[derive(Clone, Copy, Debug, Eq, PartialEq, Structural)]
pub struct Opcode(pub u8);

/// The canonical mnemonic table: the name assigned to a byte, or `None`
/// for an unassigned byte. This is the single source of truth that
/// `Opcode::as_str` implements.
pub open spec fn opcode_name(b: u8) -> Option<Seq<char>> {
    match b {
        0x00u8 => Some("STOP"@),
        0x01u8 => Some("ADD"@),
        0x02u8 => Some("MUL"@),
        0x03u8 => Some("SUB"@),
        0x04u8 => Some("DIV"@),
        0x05u8 => Some("SDIV"@),
        0x06u8 => Some("MOD"@),
        0x07u8 => Some("SMOD"@),
        0x08u8 => Some("ADDMOD"@),
        0x09u8 => Some("MULMOD"@),
        0x0au8 => Some("EXP"@),
        0x0bu8 => Some("SIGNEXTEND"@),
        0x10u8 => Some("LT"@),
        0x11u8 => Some("GT"@),
        0x12u8 => Some("SLT"@),
        0x13u8 => Some("SGT"@),
        0x14u8 => Some("EQ"@),
        0x15u8 => Some("ISZERO"@),
        0x16u8 => Some("AND"@),
        0x17u8 => Some("OR"@),
        0x18u8 => Some("XOR"@),
        0x19u8 => Some("NOT"@),
        0x1au8 => Some("BYTE"@),
        0x1bu8 => Some("SHL"@),
        0x1cu8 => Some("SHR"@),
        0x1du8 => Some("SAR"@),
        0x20u8 => Some("SHA3"@),
        0x30u8 => Some("ADDRESS"@),
        0x31u8 => Some("BALANCE"@),
        0x32u8 => Some("ORIGIN"@),
        0x33u8 => Some("CALLER"@),
        0x34u8 => Some("CALLVALUE"@),
        0x35u8 => Some("CALLDATALOAD"@),
        0x36u8 => Some("CALLDATASIZE"@),
        0x37u8 => Some("CALLDATACOPY"@),
        0x38u8 => Some("CODESIZE"@),
        0x39u8 => Some("CODECOPY"@),
        0x3au8 => Some("GASPRICE"@),
        0x3bu8 => Some("EXTCODESIZE"@),
        0x3cu8 => Some("EXTCODECOPY"@),
        0x3du8 => Some("RETURNDATASIZE"@),
        0x3eu8 => Some("RETURNDATACOPY"@),
        0x3fu8 => Some("EXTCODEHASH"@),
        0x40u8 => Some("BLOCKHASH"@),
        0x41u8 => Some("COINBASE"@),
        0x42u8 => Some("TIMESTAMP"@),
        0x43u8 => Some("NUMBER"@),
        0x44u8 => Some("DIFFICULTY"@),
        0x45u8 => Some("GASLIMIT"@),
        0x46u8 => Some("CHAINID"@),
        0x47u8 => Some("SELFBALANCE"@),
        0x48u8 => Some("BASEFEE"@),
        0x50u8 => Some("POP"@),
        0x51u8 => Some("MLOAD"@),
        0x52u8 => Some("MSTORE"@),
        0x53u8 => Some("MSTORE8"@),
        0x54u8 => Some("SLOAD"@),
        0x55u8 => Some("SSTORE"@),
        0x56u8 => Some("JUMP"@),
        0x57u8 => Some("JUMPI"@),
        0x58u8 => Some("PC"@),
        0x59u8 => Some("MSIZE"@),
        0x5au8 => Some("GAS"@),
        0x5bu8 => Some("JUMPDEST"@),
        0x5fu8 => Some("PUSH0"@),
        0x60u8 => Some("PUSH1"@),
        0x61u8 => Some("PUSH2"@),
        0x62u8 => Some("PUSH3"@),
        0x63u8 => Some("PUSH4"@),
        0x64u8 => Some("PUSH5"@),
        0x65u8 => Some("PUSH6"@),
        0x66u8 => Some("PUSH7"@),
        0x67u8 => Some("PUSH8"@),
        0x68u8 => Some("PUSH9"@),
        0x69u8 => Some("PUSH10"@),
        0x6au8 => Some("PUSH11"@),
        0x6bu8 => Some("PUSH12"@),
        0x6cu8 => Some("PUSH13"@),
        0x6du8 => Some("PUSH14"@),
        0x6eu8 => Some("PUSH15"@),
        0x6fu8 => Some("PUSH16"@),
        0x70u8 => Some("PUSH17"@),
        0x71u8 => Some("PUSH18"@),
        0x72u8 => Some("PUSH19"@),
        0x73u8 => Some("PUSH20"@),
        0x74u8 => Some("PUSH21"@),
        0x75u8 => Some("PUSH22"@),
        0x76u8 => Some("PUSH23"@),
        0x77u8 => Some("PUSH24"@),
        0x78u8 => Some("PUSH25"@),
        0x79u8 => Some("PUSH26"@),
        0x7au8 => Some("PUSH27"@),
        0x7bu8 => Some("PUSH28"@),
        0x7cu8 => Some("PUSH29"@),
        0x7du8 => Some("PUSH30"@),
        0x7eu8 => Some("PUSH31"@),
        0x7fu8 => Some("PUSH32"@),
        0x80u8 => Some("DUP1"@),
        0x81u8 => Some("DUP2"@),
        0x82u8 => Some("DUP3"@),
        0x83u8 => Some("DUP4"@),
        0x84u8 => Some("DUP5"@),
        0x85u8 => Some("DUP6"@),
        0x86u8 => Some("DUP7"@),
        0x87u8 => Some("DUP8"@),
        0x88u8 => Some("DUP9"@),
        0x89u8 => Some("DUP10"@),
        0x8au8 => Some("DUP11"@),
        0x8bu8 => Some("DUP12"@),
        0x8cu8 => Some("DUP13"@),
        0x8du8 => Some("DUP14"@),
        0x8eu8 => Some("DUP15"@),
        0x8fu8 => Some("DUP16"@),
        0x90u8 => Some("SWAP1"@),
        0x91u8 => Some("SWAP2"@),
        0x92u8 => Some("SWAP3"@),
        0x93u8 => Some("SWAP4"@),
        0x94u8 => Some("SWAP5"@),
        0x95u8 => Some("SWAP6"@),
        0x96u8 => Some("SWAP7"@),
        0x97u8 => Some("SWAP8"@),
        0x98u8 => Some("SWAP9"@),
        0x99u8 => Some("SWAP10"@),
        0x9au8 => Some("SWAP11"@),
        0x9bu8 => Some("SWAP12"@),
        0x9cu8 => Some("SWAP13"@),
        0x9du8 => Some("SWAP14"@),
        0x9eu8 => Some("SWAP15"@),
        0x9fu8 => Some("SWAP16"@),
        0xa0u8 => Some("LOG0"@),
        0xa1u8 => Some("LOG1"@),
        0xa2u8 => Some("LOG2"@),
        0xa3u8 => Some("LOG3"@),
        0xa4u8 => Some("LOG4"@),
        0xefu8 => Some("EOFMAGIC"@),
        0xf0u8 => Some("CREATE"@),
        0xf1u8 => Some("CALL"@),
        0xf2u8 => Some("CALLCODE"@),
        0xf3u8 => Some("RETURN"@),
        0xf4u8 => Some("DELEGATECALL"@),
        0xf5u8 => Some("CREATE2"@),
        0xfau8 => Some("STATICCALL"@),
        0xfdu8 => Some("REVERT"@),
        0xfeu8 => Some("INVALID"@),
        0xffu8 => Some("SUICIDE"@),
        _ => None,
    }
}

/// PUSH classification: bytes in the closed range [0x60, 0x7f] are pushes
/// of `b - 0x60 + 1` immediate bytes (1..=32). `PUSH0` (0x5f) carries no
/// immediate bytes and is deliberately left outside this classification:
/// it is handled as a distinct case by the dispatch loop, not here.
pub open spec fn push_bytes(b: u8) -> Option<u8> {
    if 0x60 <= b && b <= 0x7f {
        Some((b - 0x60 + 1) as u8)
    } else {
        None
    }
}

/// The immediate-byte count of every push opcode lies in 1..=32, and it
/// grows monotonically with the byte value.
pub proof fn lemma_push_count_range_monotonic(a: u8, b: u8)
    requires
        a <= b,
    ensures
        push_bytes(a) matches Some(ca) ==> 1 <= ca <= 32,
        push_bytes(a) matches Some(ca) ==> (push_bytes(b) matches Some(cb) ==> ca <= cb),
{
}

impl Opcode {
    /// The mnemonic assigned to this opcode, or `None` for an unassigned
    /// byte. Total over the byte space; never an error.
    pub fn as_str(&self) -> (r: Option<&'static str>)
        ensures
            r is Some <==> opcode_name(self.0) is Some,
            r matches Some(s) ==> opcode_name(self.0) == Some(s@),
    {
        match self.0 {
            0x00 => Some("STOP"),
            0x01 => Some("ADD"),
            0x02 => Some("MUL"),
            0x03 => Some("SUB"),
            0x04 => Some("DIV"),
            0x05 => Some("SDIV"),
            0x06 => Some("MOD"),
            0x07 => Some("SMOD"),
            0x08 => Some("ADDMOD"),
            0x09 => Some("MULMOD"),
            0x0a => Some("EXP"),
            0x0b => Some("SIGNEXTEND"),
            0x10 => Some("LT"),
            0x11 => Some("GT"),
            0x12 => Some("SLT"),
            0x13 => Some("SGT"),
            0x14 => Some("EQ"),
            0x15 => Some("ISZERO"),
            0x16 => Some("AND"),
            0x17 => Some("OR"),
            0x18 => Some("XOR"),
            0x19 => Some("NOT"),
            0x1a => Some("BYTE"),
            0x1b => Some("SHL"),
            0x1c => Some("SHR"),
            0x1d => Some("SAR"),
            0x20 => Some("SHA3"),
            0x30 => Some("ADDRESS"),
            0x31 => Some("BALANCE"),
            0x32 => Some("ORIGIN"),
            0x33 => Some("CALLER"),
            0x34 => Some("CALLVALUE"),
            0x35 => Some("CALLDATALOAD"),
            0x36 => Some("CALLDATASIZE"),
            0x37 => Some("CALLDATACOPY"),
            0x38 => Some("CODESIZE"),
            0x39 => Some("CODECOPY"),
            0x3a => Some("GASPRICE"),
            0x3b => Some("EXTCODESIZE"),
            0x3c => Some("EXTCODECOPY"),
            0x3d => Some("RETURNDATASIZE"),
            0x3e => Some("RETURNDATACOPY"),
            0x3f => Some("EXTCODEHASH"),
            0x40 => Some("BLOCKHASH"),
            0x41 => Some("COINBASE"),
            0x42 => Some("TIMESTAMP"),
            0x43 => Some("NUMBER"),
            0x44 => Some("DIFFICULTY"),
            0x45 => Some("GASLIMIT"),
            0x46 => Some("CHAINID"),
            0x47 => Some("SELFBALANCE"),
            0x48 => Some("BASEFEE"),
            0x50 => Some("POP"),
            0x51 => Some("MLOAD"),
            0x52 => Some("MSTORE"),
            0x53 => Some("MSTORE8"),
            0x54 => Some("SLOAD"),
            0x55 => Some("SSTORE"),
            0x56 => Some("JUMP"),
            0x57 => Some("JUMPI"),
            0x58 => Some("PC"),
            0x59 => Some("MSIZE"),
            0x5a => Some("GAS"),
            0x5b => Some("JUMPDEST"),
            0x5f => Some("PUSH0"),
            0x60 => Some("PUSH1"),
            0x61 => Some("PUSH2"),
            0x62 => Some("PUSH3"),
            0x63 => Some("PUSH4"),
            0x64 => Some("PUSH5"),
            0x65 => Some("PUSH6"),
            0x66 => Some("PUSH7"),
            0x67 => Some("PUSH8"),
            0x68 => Some("PUSH9"),
            0x69 => Some("PUSH10"),
            0x6a => Some("PUSH11"),
            0x6b => Some("PUSH12"),
            0x6c => Some("PUSH13"),
            0x6d => Some("PUSH14"),
            0x6e => Some("PUSH15"),
            0x6f => Some("PUSH16"),
            0x70 => Some("PUSH17"),
            0x71 => Some("PUSH18"),
            0x72 => Some("PUSH19"),
            0x73 => Some("PUSH20"),
            0x74 => Some("PUSH21"),
            0x75 => Some("PUSH22"),
            0x76 => Some("PUSH23"),
            0x77 => Some("PUSH24"),
            0x78 => Some("PUSH25"),
            0x79 => Some("PUSH26"),
            0x7a => Some("PUSH27"),
            0x7b => Some("PUSH28"),
            0x7c => Some("PUSH29"),
            0x7d => Some("PUSH30"),
            0x7e => Some("PUSH31"),
            0x7f => Some("PUSH32"),
            0x80 => Some("DUP1"),
            0x81 => Some("DUP2"),
            0x82 => Some("DUP3"),
            0x83 => Some("DUP4"),
            0x84 => Some("DUP5"),
            0x85 => Some("DUP6"),
            0x86 => Some("DUP7"),
            0x87 => Some("DUP8"),
            0x88 => Some("DUP9"),
            0x89 => Some("DUP10"),
            0x8a => Some("DUP11"),
            0x8b => Some("DUP12"),
            0x8c => Some("DUP13"),
            0x8d => Some("DUP14"),
            0x8e => Some("DUP15"),
            0x8f => Some("DUP16"),
            0x90 => Some("SWAP1"),
            0x91 => Some("SWAP2"),
            0x92 => Some("SWAP3"),
            0x93 => Some("SWAP4"),
            0x94 => Some("SWAP5"),
            0x95 => Some("SWAP6"),
            0x96 => Some("SWAP7"),
            0x97 => Some("SWAP8"),
            0x98 => Some("SWAP9"),
            0x99 => Some("SWAP10"),
            0x9a => Some("SWAP11"),
            0x9b => Some("SWAP12"),
            0x9c => Some("SWAP13"),
            0x9d => Some("SWAP14"),
            0x9e => Some("SWAP15"),
            0x9f => Some("SWAP16"),
            0xa0 => Some("LOG0"),
            0xa1 => Some("LOG1"),
            0xa2 => Some("LOG2"),
            0xa3 => Some("LOG3"),
            0xa4 => Some("LOG4"),
            0xef => Some("EOFMAGIC"),
            0xf0 => Some("CREATE"),
            0xf1 => Some("CALL"),
            0xf2 => Some("CALLCODE"),
            0xf3 => Some("RETURN"),
            0xf4 => Some("DELEGATECALL"),
            0xf5 => Some("CREATE2"),
            0xfa => Some("STATICCALL"),
            0xfd => Some("REVERT"),
            0xfe => Some("INVALID"),
            0xff => Some("SUICIDE"),
            _ => None,
        }
    }

    /// Whether the opcode is a PUSH with a numeric immediate-byte count,
    /// and if so how many immediate bytes it consumes.
    pub fn is_push(&self) -> (r: Option<u8>)
        ensures
            r == push_bytes(self.0),
    {
        let value = self.0;
        if 0x60 <= value && value <= 0x7f {
            Some(value - 0x60 + 1)
        } else {
            None
        }
    }

    /// The opcode's byte value.
    pub fn as_u8(&self) -> (r: u8)
        ensures
            r == self.0,
    {
        self.0
    }

    /// The opcode's byte value widened to `usize`.
    pub fn as_usize(&self) -> (r: usize)
        ensures
            r == self.0 as usize,
    {
        self.0 as usize
    }

    /// Round trip: wrapping any byte in an opcode and reading it back
    /// through the byte field returns the byte unchanged — the wrapper
    /// carries no identity of its own, so `as_u8` inverts construction.
    pub proof fn lemma_byte_round_trip(b: u8)
        ensures
            (Opcode(b)).0 == b,
    {
    }

    /// The rendering used when an opcode is shown to a human: the byte in
    /// lowercase hexadecimal, then the mnemonic, with `[UNKNOWN]` taking
    /// the place of a missing mnemonic.
    pub fn display_string(&self) -> (r: String)
        ensures
            r@ == display_of(self.0),
    {
        let mut s = String::from_str("0x");
        let b = self.0;
        if b < 0x10 {
            s.append(hex_char_str(b));
        } else {
            s.append(hex_char_str(b / 0x10));
            s.append(hex_char_str(b % 0x10));
        }
        s.append(" / ");
        match self.as_str() {
            Some(name) => s.append(name),
            None => s.append("[UNKNOWN]"),
        }
        proof {
            assert(s@ =~= display_of(self.0));
        }
        s
    }
}

// Core opcodes: pure stack, arithmetic and control instructions that need
// no host access. Each constant is the published byte value of the
// instruction it names.
impl Opcode {
    /// `STOP`
    pub const STOP: u8 = 0x00;

    /// `ADD`
    pub const ADD: u8 = 0x01;

    /// `MUL`
    pub const MUL: u8 = 0x02;

    /// `SUB`
    pub const SUB: u8 = 0x03;

    /// `DIV`
    pub const DIV: u8 = 0x04;

    /// `SDIV`
    pub const SDIV: u8 = 0x05;

    /// `MOD`
    pub const MOD: u8 = 0x06;

    /// `SMOD`
    pub const SMOD: u8 = 0x07;

    /// `ADDMOD`
    pub const ADDMOD: u8 = 0x08;

    /// `MULMOD`
    pub const MULMOD: u8 = 0x09;

    /// `EXP`
    pub const EXP: u8 = 0x0a;

    /// `SIGNEXTEND`
    pub const SIGNEXTEND: u8 = 0x0b;

    /// `LT`
    pub const LT: u8 = 0x10;

    /// `GT`
    pub const GT: u8 = 0x11;

    /// `SLT`
    pub const SLT: u8 = 0x12;

    /// `SGT`
    pub const SGT: u8 = 0x13;

    /// `EQ`
    pub const EQ: u8 = 0x14;

    /// `ISZERO`
    pub const ISZERO: u8 = 0x15;

    /// `AND`
    pub const AND: u8 = 0x16;

    /// `OR`
    pub const OR: u8 = 0x17;

    /// `XOR`
    pub const XOR: u8 = 0x18;

    /// `NOT`
    pub const NOT: u8 = 0x19;

    /// `BYTE`
    pub const BYTE: u8 = 0x1a;

    /// `CALLDATALOAD`
    pub const CALLDATALOAD: u8 = 0x35;

    /// `CALLDATASIZE`
    pub const CALLDATASIZE: u8 = 0x36;

    /// `CALLDATACOPY`
    pub const CALLDATACOPY: u8 = 0x37;

    /// `CODESIZE`
    pub const CODESIZE: u8 = 0x38;

    /// `CODECOPY`
    pub const CODECOPY: u8 = 0x39;

    /// `SHL`
    pub const SHL: u8 = 0x1b;

    /// `SHR`
    pub const SHR: u8 = 0x1c;

    /// `SAR`
    pub const SAR: u8 = 0x1d;

    /// `POP`
    pub const POP: u8 = 0x50;

    /// `MLOAD`
    pub const MLOAD: u8 = 0x51;

    /// `MSTORE`
    pub const MSTORE: u8 = 0x52;

    /// `MSTORE8`
    pub const MSTORE8: u8 = 0x53;

    /// `JUMP`
    pub const JUMP: u8 = 0x56;

    /// `JUMPI`
    pub const JUMPI: u8 = 0x57;

    /// `PC`
    pub const PC: u8 = 0x58;

    /// `MSIZE`
    pub const MSIZE: u8 = 0x59;

    /// `JUMPDEST`
    pub const JUMPDEST: u8 = 0x5b;

    /// `PUSH0`
    pub const PUSH0: u8 = 0x5f;

    /// `PUSH1`
    pub const PUSH1: u8 = 0x60;

    /// `PUSH2`
    pub const PUSH2: u8 = 0x61;

    /// `PUSH3`
    pub const PUSH3: u8 = 0x62;

    /// `PUSH4`
    pub const PUSH4: u8 = 0x63;

    /// `PUSH5`
    pub const PUSH5: u8 = 0x64;

    /// `PUSH6`
    pub const PUSH6: u8 = 0x65;

    /// `PUSH7`
    pub const PUSH7: u8 = 0x66;

    /// `PUSH8`
    pub const PUSH8: u8 = 0x67;

    /// `PUSH9`
    pub const PUSH9: u8 = 0x68;

    /// `PUSH10`
    pub const PUSH10: u8 = 0x69;

    /// `PUSH11`
    pub const PUSH11: u8 = 0x6a;

    /// `PUSH12`
    pub const PUSH12: u8 = 0x6b;

    /// `PUSH13`
    pub const PUSH13: u8 = 0x6c;

    /// `PUSH14`
    pub const PUSH14: u8 = 0x6d;

    /// `PUSH15`
    pub const PUSH15: u8 = 0x6e;

    /// `PUSH16`
    pub const PUSH16: u8 = 0x6f;

    /// `PUSH17`
    pub const PUSH17: u8 = 0x70;

    /// `PUSH18`
    pub const PUSH18: u8 = 0x71;

    /// `PUSH19`
    pub const PUSH19: u8 = 0x72;

    /// `PUSH20`
    pub const PUSH20: u8 = 0x73;

    /// `PUSH21`
    pub const PUSH21: u8 = 0x74;

    /// `PUSH22`
    pub const PUSH22: u8 = 0x75;

    /// `PUSH23`
    pub const PUSH23: u8 = 0x76;

    /// `PUSH24`
    pub const PUSH24: u8 = 0x77;

    /// `PUSH25`
    pub const PUSH25: u8 = 0x78;

    /// `PUSH26`
    pub const PUSH26: u8 = 0x79;

    /// `PUSH27`
    pub const PUSH27: u8 = 0x7a;

    /// `PUSH28`
    pub const PUSH28: u8 = 0x7b;

    /// `PUSH29`
    pub const PUSH29: u8 = 0x7c;

    /// `PUSH30`
    pub const PUSH30: u8 = 0x7d;

    /// `PUSH31`
    pub const PUSH31: u8 = 0x7e;

    /// `PUSH32`
    pub const PUSH32: u8 = 0x7f;

    /// `DUP1`
    pub const DUP1: u8 = 0x80;

    /// `DUP2`
    pub const DUP2: u8 = 0x81;

    /// `DUP3`
    pub const DUP3: u8 = 0x82;

    /// `DUP4`
    pub const DUP4: u8 = 0x83;

    /// `DUP5`
    pub const DUP5: u8 = 0x84;

    /// `DUP6`
    pub const DUP6: u8 = 0x85;

    /// `DUP7`
    pub const DUP7: u8 = 0x86;

    /// `DUP8`
    pub const DUP8: u8 = 0x87;

    /// `DUP9`
    pub const DUP9: u8 = 0x88;

    /// `DUP10`
    pub const DUP10: u8 = 0x89;

    /// `DUP11`
    pub const DUP11: u8 = 0x8a;

    /// `DUP12`
    pub const DUP12: u8 = 0x8b;

    /// `DUP13`
    pub const DUP13: u8 = 0x8c;

    /// `DUP14`
    pub const DUP14: u8 = 0x8d;

    /// `DUP15`
    pub const DUP15: u8 = 0x8e;

    /// `DUP16`
    pub const DUP16: u8 = 0x8f;

    /// `SWAP1`
    pub const SWAP1: u8 = 0x90;

    /// `SWAP2`
    pub const SWAP2: u8 = 0x91;

    /// `SWAP3`
    pub const SWAP3: u8 = 0x92;

    /// `SWAP4`
    pub const SWAP4: u8 = 0x93;

    /// `SWAP5`
    pub const SWAP5: u8 = 0x94;

    /// `SWAP6`
    pub const SWAP6: u8 = 0x95;

    /// `SWAP7`
    pub const SWAP7: u8 = 0x96;

    /// `SWAP8`
    pub const SWAP8: u8 = 0x97;

    /// `SWAP9`
    pub const SWAP9: u8 = 0x98;

    /// `SWAP10`
    pub const SWAP10: u8 = 0x99;

    /// `SWAP11`
    pub const SWAP11: u8 = 0x9a;

    /// `SWAP12`
    pub const SWAP12: u8 = 0x9b;

    /// `SWAP13`
    pub const SWAP13: u8 = 0x9c;

    /// `SWAP14`
    pub const SWAP14: u8 = 0x9d;

    /// `SWAP15`
    pub const SWAP15: u8 = 0x9e;

    /// `SWAP16`
    pub const SWAP16: u8 = 0x9f;

    /// `RETURN`
    pub const RETURN: u8 = 0xf3;

    /// `REVERT`
    pub const REVERT: u8 = 0xfd;

    /// `INVALID`
    pub const INVALID: u8 = 0xfe;

    /// The magic prefix byte reserved for the EVM object format.
    pub const EOFMAGIC: u8 = 0xef;
}

// External opcodes: instructions that reach world state through the
// `Handler`.
impl Opcode {
    /// `SHA3`
    pub const SHA3: u8 = 0x20;

    /// `ADDRESS`
    pub const ADDRESS: u8 = 0x30;

    /// `BALANCE`
    pub const BALANCE: u8 = 0x31;

    /// `SELFBALANCE`
    pub const SELFBALANCE: u8 = 0x47;

    /// `BASEFEE`
    pub const BASEFEE: u8 = 0x48;

    /// `ORIGIN`
    pub const ORIGIN: u8 = 0x32;

    /// `CALLER`
    pub const CALLER: u8 = 0x33;

    /// `CALLVALUE`
    pub const CALLVALUE: u8 = 0x34;

    /// `GASPRICE`
    pub const GASPRICE: u8 = 0x3a;

    /// `EXTCODESIZE`
    pub const EXTCODESIZE: u8 = 0x3b;

    /// `EXTCODECOPY`
    pub const EXTCODECOPY: u8 = 0x3c;

    /// `EXTCODEHASH`
    pub const EXTCODEHASH: u8 = 0x3f;

    /// `RETURNDATASIZE`
    pub const RETURNDATASIZE: u8 = 0x3d;

    /// `RETURNDATACOPY`
    pub const RETURNDATACOPY: u8 = 0x3e;

    /// `BLOCKHASH`
    pub const BLOCKHASH: u8 = 0x40;

    /// `COINBASE`
    pub const COINBASE: u8 = 0x41;

    /// `TIMESTAMP`
    pub const TIMESTAMP: u8 = 0x42;

    /// `NUMBER`
    pub const NUMBER: u8 = 0x43;

    /// `DIFFICULTY`
    pub const DIFFICULTY: u8 = 0x44;

    /// `GASLIMIT`
    pub const GASLIMIT: u8 = 0x45;

    /// `SLOAD`
    pub const SLOAD: u8 = 0x54;

    /// `SSTORE`
    pub const SSTORE: u8 = 0x55;

    /// `GAS`
    pub const GAS: u8 = 0x5a;

    /// `LOG0`
    pub const LOG0: u8 = 0xa0;

    /// `LOG1`
    pub const LOG1: u8 = 0xa1;

    /// `LOG2`
    pub const LOG2: u8 = 0xa2;

    /// `LOG3`
    pub const LOG3: u8 = 0xa3;

    /// `LOG4`
    pub const LOG4: u8 = 0xa4;

    /// `CREATE`
    pub const CREATE: u8 = 0xf0;

    /// `CREATE2`
    pub const CREATE2: u8 = 0xf5;

    /// `CALL`
    pub const CALL: u8 = 0xf1;

    /// `CALLCODE`
    pub const CALLCODE: u8 = 0xf2;

    /// `DELEGATECALL`
    pub const DELEGATECALL: u8 = 0xf4;

    /// `STATICCALL`
    pub const STATICCALL: u8 = 0xfa;

    /// `SUICIDE`
    pub const SUICIDE: u8 = 0xff;

    /// `CHAINID`
    pub const CHAINID: u8 = 0x46;
}

/// The lowercase hexadecimal digit for a value below sixteen.
pub open spec fn hex_char(n: u8) -> char
    recommends
        n < 16,
{
    match n {
        0u8 => '0',
        1u8 => '1',
        2u8 => '2',
        3u8 => '3',
        4u8 => '4',
        5u8 => '5',
        6u8 => '6',
        7u8 => '7',
        8u8 => '8',
        9u8 => '9',
        10u8 => 'a',
        11u8 => 'b',
        12u8 => 'c',
        13u8 => 'd',
        14u8 => 'e',
        15u8 => 'f',
        _ => '?',
    }
}

/// A byte in lowercase hexadecimal without leading zero: one digit below
/// 0x10, two digits from 0x10 on.
pub open spec fn hex_digits(b: u8) -> Seq<char> {
    if b < 0x10 {
        seq![hex_char(b)]
    } else {
        seq![hex_char(b / 0x10), hex_char(b % 0x10)]
    }
}

/// The human-readable rendering of an opcode byte: its value in
/// hexadecimal and its mnemonic, or `[UNKNOWN]` for an unassigned byte.
pub open spec fn display_of(b: u8) -> Seq<char> {
    "0x"@ + hex_digits(b) + " / "@ + match opcode_name(b) {
        Some(n) => n,
        None => "[UNKNOWN]"@,
    }
}

/// The lowercase hexadecimal digit for a value below sixteen, as a
/// one-character string.
fn hex_char_str(n: u8) -> (r: &'static str)
    requires
        n < 16,
    ensures
        r@ == seq![hex_char(n)],
{
    let r: &'static str = match n {
        0 => "0",
        1 => "1",
        2 => "2",
        3 => "3",
        4 => "4",
        5 => "5",
        6 => "6",
        7 => "7",
        8 => "8",
        9 => "9",
        10 => "a",
        11 => "b",
        12 => "c",
        13 => "d",
        14 => "e",
        _ => "f",
    };
    proof {
        reveal_strlit("0");
        reveal_strlit("1");
        reveal_strlit("2");
        reveal_strlit("3");
        reveal_strlit("4");
        reveal_strlit("5");
        reveal_strlit("6");
        reveal_strlit("7");
        reveal_strlit("8");
        reveal_strlit("9");
        reveal_strlit("a");
        reveal_strlit("b");
        reveal_strlit("c");
        reveal_strlit("d");
        reveal_strlit("e");
        reveal_strlit("f");
        assert(r@ =~= seq![hex_char(n)]);
    }
    r
}

} // verus!
