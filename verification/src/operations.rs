use vstd::prelude::*;

use crate::Address;
use crate::GameboyError;
use crate::GameboyErrorKind;
use crate::GameboyResult;
use crate::Imm16;
use crate::Imm3;
use crate::Imm8;
use crate::Offset8;
use crate::cartridge::Cartridge;
use crate::memory::Memory;
use crate::spec_make_u16;

verus! {

/// 8-bit register constants. The 3-bit field value 6 selects `(HL)` instead
/// of a register and therefore has no entry here; encodings that would pick
/// it are decoded as distinct memory-operand opcodes.
#[derive(Clone, Copy, Debug, PartialEq, Eq, Structural)]
pub enum Reg8 {
    B,
    C,
    D,
    E,
    H,
    L,
    A,
}

/// 16-bit register constants. AF substitutes for SP in the PUSH/POP family.
#[derive(Clone, Copy, Debug, PartialEq, Eq, Structural)]
pub enum Reg16 {
    BC,
    DE,
    HL,
    SP,
    AF,
}

/// Enumeration of jump conditions.
#[derive(Clone, Copy, Debug, PartialEq, Eq, Structural)]
pub enum Condition {
    /// Zero flag is set.
    Z,
    /// Zero flag NOT set.
    NZ,
    /// Carry flag is set.
    C,
    /// Carry flag is NOT set.
    NC,
}

/// Enumeration of all operations for the Game Boy CPU.
#[derive(Clone, Copy, Debug, PartialEq, Eq, Structural)]
pub enum Opcode {
    Adc8AccHl,
    Adc8Imm(Imm8),
    Adc8Reg(Reg8),
    Add16HlReg(Reg16),
    Add8AccHl,
    Add8Imm(Imm8),
    Add8Reg(Reg8),
    AddSp(Offset8),
    And8AccHl,
    And8Imm(Imm8),
    And8Reg(Reg8),
    Call(Imm16),
    CallCond(Condition, Imm16),
    Ccf,
    Cp8AccHl,
    Cp8Imm(Imm8),
    Cp8Reg(Reg8),
    Cpl,
    Daa,
    Dec16Reg(Reg16),
    Dec8MemHl,
    Dec8Reg(Reg8),
    Di,
    Ei,
    Halt,
    Inc16Reg(Reg16),
    Inc8MemHl,
    Inc8Reg(Reg8),
    Jp(Condition, Imm16),
    JpHl,
    JpImm(Imm16),
    Jr(Condition, Offset8),
    JrUncond(Offset8),
    Ld16RegImm(Reg16, Imm16),
    Ld8AccMem(Reg16),
    Ld8AccMemImm(Imm16),
    St8MemImmAcc(Imm16),
    Ld8MemHlImm(Imm8),
    Ld8RegImm(Reg8, Imm8),
    Ld8RegMemHl(Reg8),
    Ld8RegReg(Reg8, Reg8),
    LdHlSp(Offset8),
    LdSpHl,
    LdcAccMem,
    LdcMemAcc,
    LdhAccMem(Imm8),
    LdhMemAcc(Imm8),
    Nop,
    Or8AccHl,
    Or8Imm(Imm8),
    Or8Reg(Reg8),
    Pop(Reg16),
    Push(Reg16),
    Ret,
    RetCond(Condition),
    Reti,
    Rla,
    Rlca,
    Rra,
    Rrca,
    Rst(Imm8),
    Sbc8AccHl,
    Sbc8Imm(Imm8),
    Sbc8Reg(Reg8),
    Scf,
    St16MemImmReg(Imm16, Reg16),
    St16MemSp(Imm16),
    St8MemHlReg(Reg8),
    St8MemRegAcc(Reg16),
    Stop,
    Sub8AccHl,
    Sub8Imm(Imm8),
    Sub8Reg(Reg8),
    Xor8AccHl,
    Xor8Imm(Imm8),
    Xor8Reg(Reg8),
    // CB-prefixed rotate/shift/swap family, one register and one `(HL)`
    // variant per sub-operation.
    Rlc8Reg(Reg8),
    Rlc8MemHl,
    Rrc8Reg(Reg8),
    Rrc8MemHl,
    Rl8Reg(Reg8),
    Rl8MemHl,
    Rr8Reg(Reg8),
    Rr8MemHl,
    Sla8Reg(Reg8),
    Sla8MemHl,
    Sra8Reg(Reg8),
    Sra8MemHl,
    Swap8Reg(Reg8),
    Swap8MemHl,
    Srl8Reg(Reg8),
    Srl8MemHl,
    // CB-prefixed single-bit test, reset and set families, carrying the bit
    // index 0..=7.
    Bit8Reg(Imm3, Reg8),
    Bit8MemHl(Imm3),
    Res8Reg(Imm3, Reg8),
    Res8MemHl(Imm3),
    Set8Reg(Imm3, Reg8),
    Set8MemHl(Imm3),
}

/// A single operation performed by the CPU: the decoded opcode together with
/// the original prefix byte, retained for debugging and tracing.
#[derive(Clone, Copy, Debug, PartialEq, Eq, Structural)]
pub struct Operation {
    pub opcode: Opcode,
    pub prefix: u8,
}

/// The 8-bit register selected by a 3-bit field value, with 7 meaning A.
/// The value 6 selects `(HL)` and is handled by the callers.
pub open spec fn spec_reg8(bits: u8) -> Reg8 {
    if bits == 0 {
        Reg8::B
    } else if bits == 1 {
        Reg8::C
    } else if bits == 2 {
        Reg8::D
    } else if bits == 3 {
        Reg8::E
    } else if bits == 4 {
        Reg8::H
    } else if bits == 5 {
        Reg8::L
    } else {
        Reg8::A
    }
}

/// The 16-bit register selected by a 2-bit field value in the families that
/// use SP: BC, DE, HL, SP.
pub open spec fn spec_reg16_sp(bits: u8) -> Reg16 {
    if bits == 0 {
        Reg16::BC
    } else if bits == 1 {
        Reg16::DE
    } else if bits == 2 {
        Reg16::HL
    } else {
        Reg16::SP
    }
}

/// The 16-bit register selected by a 2-bit field value in the HL+/HL-
/// accumulator-load families: BC, DE, then HL for both 2 and 3. Whether the
/// encoding means HL+ or HL- is recovered from the prefix byte itself.
pub open spec fn spec_reg16_pm(bits: u8) -> Reg16 {
    if bits == 0 {
        Reg16::BC
    } else if bits == 1 {
        Reg16::DE
    } else {
        Reg16::HL
    }
}

/// The 16-bit register selected by a 2-bit field value in the PUSH/POP
/// family: BC, DE, HL, AF.
pub open spec fn spec_reg16_af(bits: u8) -> Reg16 {
    if bits == 0 {
        Reg16::BC
    } else if bits == 1 {
        Reg16::DE
    } else if bits == 2 {
        Reg16::HL
    } else {
        Reg16::AF
    }
}

/// The jump condition selected by a 2-bit field value: NZ, Z, NC, C.
pub open spec fn spec_condition(bits: u8) -> Condition {
    if bits == 0 {
        Condition::NZ
    } else if bits == 1 {
        Condition::Z
    } else if bits == 2 {
        Condition::NC
    } else {
        Condition::C
    }
}

/// First method of converting a prefix into an 8-bit register, from bits
/// 5..3 of the prefix.
pub fn prefix_into_reg8_1(prefix: u8) -> (r: Reg8)
    ensures
        r == spec_reg8((prefix >> 3) & 0x07),
{
    match (prefix >> 3) & 0x07 {
        0 => Reg8::B,
        1 => Reg8::C,
        2 => Reg8::D,
        3 => Reg8::E,
        4 => Reg8::H,
        5 => Reg8::L,
        _ => Reg8::A,
    }
}

/// Second method of converting a prefix into an 8-bit register, from bits
/// 2..0 of the prefix.
pub fn prefix_into_reg8_2(prefix: u8) -> (r: Reg8)
    ensures
        r == spec_reg8(prefix & 0x07),
{
    match prefix & 0x07 {
        0 => Reg8::B,
        1 => Reg8::C,
        2 => Reg8::D,
        3 => Reg8::E,
        4 => Reg8::H,
        5 => Reg8::L,
        _ => Reg8::A,
    }
}

/// First method of converting a prefix into a 16-bit register, from bits
/// 5..4 of the prefix, with 3 meaning SP.
pub fn prefix_into_reg16_1(prefix: u8) -> (r: Reg16)
    ensures
        r == spec_reg16_sp((prefix >> 4) & 0x03),
{
    match (prefix >> 4) & 0x03 {
        0 => Reg16::BC,
        1 => Reg16::DE,
        2 => Reg16::HL,
        _ => Reg16::SP,
    }
}

/// Second method of converting a prefix into a 16-bit register, for the
/// HL+/HL- opcode families.
pub fn prefix_into_reg16_2(prefix: u8) -> (r: Reg16)
    ensures
        r == spec_reg16_pm((prefix >> 4) & 0x03),
{
    match (prefix >> 4) & 0x03 {
        0 => Reg16::BC,
        1 => Reg16::DE,
        _ => Reg16::HL,
    }
}

/// Third method of converting a prefix into a 16-bit register, from bits
/// 5..4 of the prefix, with 3 meaning AF (PUSH/POP family).
pub fn prefix_into_reg16_3(prefix: u8) -> (r: Reg16)
    ensures
        r == spec_reg16_af((prefix >> 4) & 0x03),
{
    match (prefix >> 4) & 0x03 {
        0 => Reg16::BC,
        1 => Reg16::DE,
        2 => Reg16::HL,
        _ => Reg16::AF,
    }
}

/// Converts a prefix into a jump condition, from bits 4..3 of the prefix.
pub fn prefix_into_cond(prefix: u8) -> (r: Condition)
    ensures
        r == spec_condition((prefix >> 3) & 0x03),
{
    match (prefix >> 3) & 0x03 {
        0 => Condition::NZ,
        1 => Condition::Z,
        2 => Condition::NC,
        _ => Condition::C,
    }
}

/// The opcode the primary table assigns to prefix byte `p`, with the 8-bit
/// immediate and signed offset taken from the following byte `b1` and the
/// 16-bit immediate assembled little-endian from `b1` and `b2`. `None` for
/// the eleven undefined bytes and for 0xCB, which selects the secondary
/// table instead.
pub open spec fn spec_primary_opcode(p: u8, b1: u8, b2: u8) -> Option<Opcode> {
    let imm8 = b1;
    let off8 = b1 as i8;
    let imm16 = spec_make_u16(b2, b1);
    match p {
        0x00 => Some(Opcode::Nop),
        0x01 | 0x11 | 0x21 | 0x31 => Some(
            Opcode::Ld16RegImm(spec_reg16_sp((p >> 4) & 0x03), imm16),
        ),
        0x02 | 0x12 | 0x22 | 0x32 => Some(Opcode::St8MemRegAcc(spec_reg16_pm((p >> 4) & 0x03))),
        0x03 | 0x13 | 0x23 | 0x33 => Some(Opcode::Inc16Reg(spec_reg16_sp((p >> 4) & 0x03))),
        0x04 | 0x0C | 0x14 | 0x1C | 0x24 | 0x2C | 0x3C => Some(
            Opcode::Inc8Reg(spec_reg8((p >> 3) & 0x07)),
        ),
        0x05 | 0x0D | 0x15 | 0x1D | 0x25 | 0x2D | 0x3D => Some(
            Opcode::Dec8Reg(spec_reg8((p >> 3) & 0x07)),
        ),
        0x06 | 0x0E | 0x16 | 0x1E | 0x26 | 0x2E | 0x3E => Some(
            Opcode::Ld8RegImm(spec_reg8((p >> 3) & 0x07), imm8),
        ),
        0x07 => Some(Opcode::Rlca),
        0x08 => Some(Opcode::St16MemSp(imm16)),
        0x09 | 0x19 | 0x29 | 0x39 => Some(Opcode::Add16HlReg(spec_reg16_sp((p >> 4) & 0x03))),
        0x0A | 0x1A | 0x2A | 0x3A => Some(Opcode::Ld8AccMem(spec_reg16_pm((p >> 4) & 0x03))),
        0x0B | 0x1B | 0x2B | 0x3B => Some(Opcode::Dec16Reg(spec_reg16_sp((p >> 4) & 0x03))),
        0x0F => Some(Opcode::Rrca),
        0x10 => Some(Opcode::Stop),
        0x17 => Some(Opcode::Rla),
        0x18 => Some(Opcode::JrUncond(off8)),
        0x1F => Some(Opcode::Rra),
        0x20 | 0x28 | 0x30 | 0x38 => Some(Opcode::Jr(spec_condition((p >> 3) & 0x03), off8)),
        0x27 => Some(Opcode::Daa),
        0x2F => Some(Opcode::Cpl),
        0x34 => Some(Opcode::Inc8MemHl),
        0x35 => Some(Opcode::Dec8MemHl),
        0x36 => Some(Opcode::Ld8MemHlImm(imm8)),
        0x37 => Some(Opcode::Scf),
        0x3F => Some(Opcode::Ccf),
        0x40 | 0x41 | 0x42 | 0x43 | 0x44 | 0x45 | 0x47 | 0x48 | 0x49 | 0x4A | 0x4B | 0x4C | 0x4D
        | 0x4F | 0x50 | 0x51 | 0x52 | 0x53 | 0x54 | 0x55 | 0x57 | 0x58 | 0x59 | 0x5A | 0x5B
        | 0x5C | 0x5D | 0x5F | 0x60 | 0x61 | 0x62 | 0x63 | 0x64 | 0x65 | 0x67 | 0x68 | 0x69
        | 0x6A | 0x6B | 0x6C | 0x6D | 0x6F | 0x78 | 0x79 | 0x7A | 0x7B | 0x7C | 0x7D | 0x7F => Some(
            Opcode::Ld8RegReg(spec_reg8((p >> 3) & 0x07), spec_reg8(p & 0x07)),
        ),
        0x46 | 0x4E | 0x56 | 0x5E | 0x66 | 0x6E | 0x7E => Some(
            Opcode::Ld8RegMemHl(spec_reg8((p >> 3) & 0x07)),
        ),
        0x70 | 0x71 | 0x72 | 0x73 | 0x74 | 0x75 | 0x77 => Some(
            Opcode::St8MemHlReg(spec_reg8(p & 0x07)),
        ),
        0x76 => Some(Opcode::Halt),
        0x80 | 0x81 | 0x82 | 0x83 | 0x84 | 0x85 | 0x87 => Some(
            Opcode::Add8Reg(spec_reg8(p & 0x07)),
        ),
        0x86 => Some(Opcode::Add8AccHl),
        0x88 | 0x89 | 0x8A | 0x8B | 0x8C | 0x8D | 0x8F => Some(
            Opcode::Adc8Reg(spec_reg8(p & 0x07)),
        ),
        0x8E => Some(Opcode::Adc8AccHl),
        0x90 | 0x91 | 0x92 | 0x93 | 0x94 | 0x95 | 0x97 => Some(
            Opcode::Sub8Reg(spec_reg8(p & 0x07)),
        ),
        0x96 => Some(Opcode::Sub8AccHl),
        0x98 | 0x99 | 0x9A | 0x9B | 0x9C | 0x9D | 0x9F => Some(
            Opcode::Sbc8Reg(spec_reg8(p & 0x07)),
        ),
        0x9E => Some(Opcode::Sbc8AccHl),
        0xA0 | 0xA1 | 0xA2 | 0xA3 | 0xA4 | 0xA5 | 0xA7 => Some(
            Opcode::And8Reg(spec_reg8(p & 0x07)),
        ),
        0xA6 => Some(Opcode::And8AccHl),
        0xA8 | 0xA9 | 0xAA | 0xAB | 0xAC | 0xAD | 0xAF => Some(
            Opcode::Xor8Reg(spec_reg8(p & 0x07)),
        ),
        0xAE => Some(Opcode::Xor8AccHl),
        0xB0 | 0xB1 | 0xB2 | 0xB3 | 0xB4 | 0xB5 | 0xB7 => Some(Opcode::Or8Reg(spec_reg8(p & 0x07))),
        0xB6 => Some(Opcode::Or8AccHl),
        0xB8 | 0xB9 | 0xBA | 0xBB | 0xBC | 0xBD | 0xBF => Some(Opcode::Cp8Reg(spec_reg8(p & 0x07))),
        0xBE => Some(Opcode::Cp8AccHl),
        0xC0 | 0xC8 | 0xD0 | 0xD8 => Some(Opcode::RetCond(spec_condition((p >> 3) & 0x03))),
        0xC1 | 0xD1 | 0xE1 | 0xF1 => Some(Opcode::Pop(spec_reg16_af((p >> 4) & 0x03))),
        0xC2 | 0xCA | 0xD2 | 0xDA => Some(Opcode::Jp(spec_condition((p >> 3) & 0x03), imm16)),
        0xC3 => Some(Opcode::JpImm(imm16)),
        0xC4 | 0xCC | 0xD4 | 0xDC => Some(Opcode::CallCond(spec_condition((p >> 3) & 0x03), imm16)),
        0xC5 | 0xD5 | 0xE5 | 0xF5 => Some(Opcode::Push(spec_reg16_af((p >> 4) & 0x03))),
        0xC6 => Some(Opcode::Add8Imm(imm8)),
        0xC7 | 0xCF | 0xD7 | 0xDF | 0xE7 | 0xEF | 0xF7 | 0xFF => Some(Opcode::Rst(p & 0x38)),
        0xC9 => Some(Opcode::Ret),
        0xCD => Some(Opcode::Call(imm16)),
        0xCE => Some(Opcode::Adc8Imm(imm8)),
        0xD6 => Some(Opcode::Sub8Imm(imm8)),
        0xD9 => Some(Opcode::Reti),
        0xDE => Some(Opcode::Sbc8Imm(imm8)),
        0xE0 => Some(Opcode::LdhMemAcc(imm8)),
        0xE2 => Some(Opcode::LdcMemAcc),
        0xE6 => Some(Opcode::And8Imm(imm8)),
        0xE8 => Some(Opcode::AddSp(off8)),
        0xE9 => Some(Opcode::JpHl),
        0xEA => Some(Opcode::St8MemImmAcc(imm16)),
        0xEE => Some(Opcode::Xor8Imm(imm8)),
        0xF0 => Some(Opcode::LdhAccMem(imm8)),
        0xF2 => Some(Opcode::LdcAccMem),
        0xF3 => Some(Opcode::Di),
        0xF6 => Some(Opcode::Or8Imm(imm8)),
        0xF8 => Some(Opcode::LdHlSp(off8)),
        0xF9 => Some(Opcode::LdSpHl),
        0xFA => Some(Opcode::Ld8AccMemImm(imm16)),
        0xFB => Some(Opcode::Ei),
        0xFE => Some(Opcode::Cp8Imm(imm8)),
        _ => None,
    }
}

/// The opcode the secondary (0xCB-prefixed) table assigns to its following
/// byte `q`. Bits 7..6 select the family, bits 5..3 the rotate/shift
/// sub-operation or the bit index, and bits 2..0 the operand register, with
/// 6 meaning `(HL)`. All 256 encodings are defined.
pub open spec fn spec_cb_opcode(q: u8) -> Opcode {
    let sub = (q >> 3) & 0x07;
    let reg = q & 0x07;
    if q < 0x40 {
        if sub == 0 {
            if reg == 6 {
                Opcode::Rlc8MemHl
            } else {
                Opcode::Rlc8Reg(spec_reg8(reg))
            }
        } else if sub == 1 {
            if reg == 6 {
                Opcode::Rrc8MemHl
            } else {
                Opcode::Rrc8Reg(spec_reg8(reg))
            }
        } else if sub == 2 {
            if reg == 6 {
                Opcode::Rl8MemHl
            } else {
                Opcode::Rl8Reg(spec_reg8(reg))
            }
        } else if sub == 3 {
            if reg == 6 {
                Opcode::Rr8MemHl
            } else {
                Opcode::Rr8Reg(spec_reg8(reg))
            }
        } else if sub == 4 {
            if reg == 6 {
                Opcode::Sla8MemHl
            } else {
                Opcode::Sla8Reg(spec_reg8(reg))
            }
        } else if sub == 5 {
            if reg == 6 {
                Opcode::Sra8MemHl
            } else {
                Opcode::Sra8Reg(spec_reg8(reg))
            }
        } else if sub == 6 {
            if reg == 6 {
                Opcode::Swap8MemHl
            } else {
                Opcode::Swap8Reg(spec_reg8(reg))
            }
        } else {
            if reg == 6 {
                Opcode::Srl8MemHl
            } else {
                Opcode::Srl8Reg(spec_reg8(reg))
            }
        }
    } else if q < 0x80 {
        if reg == 6 {
            Opcode::Bit8MemHl(sub)
        } else {
            Opcode::Bit8Reg(sub, spec_reg8(reg))
        }
    } else if q < 0xC0 {
        if reg == 6 {
            Opcode::Res8MemHl(sub)
        } else {
            Opcode::Res8Reg(sub, spec_reg8(reg))
        }
    } else {
        if reg == 6 {
            Opcode::Set8MemHl(sub)
        } else {
            Opcode::Set8Reg(sub, spec_reg8(reg))
        }
    }
}

/// The eleven prefix bytes left undefined by the LR35902 primary table.
pub open spec fn undefined_primary_prefix(p: u8) -> bool {
    ||| p == 0xD3
    ||| p == 0xDB
    ||| p == 0xDD
    ||| p == 0xE3
    ||| p == 0xE4
    ||| p == 0xEB
    ||| p == 0xEC
    ||| p == 0xED
    ||| p == 0xF4
    ||| p == 0xFC
    ||| p == 0xFD
}

/// What decoding returns for the three bytes `b0`, `b1`, `b2` found at the
/// program counter: the decoded operation, or `UnknownOpcodePrefix(b0)` for
/// an undefined primary byte. The prefix byte 0xCB selects the secondary
/// table keyed on `b1`; such an operation keeps 0xCB as its prefix.
pub open spec fn spec_decode(b0: u8, b1: u8, b2: u8) -> GameboyResult<Operation> {
    if b0 == 0xCB {
        Ok(Operation { opcode: spec_cb_opcode(b1), prefix: 0xCB })
    } else {
        match spec_primary_opcode(b0, b1, b2) {
            Some(opcode) => Ok(Operation { opcode, prefix: b0 }),
            None => Err(GameboyError { kind: GameboyErrorKind::UnknownOpcodePrefix(b0) }),
        }
    }
}

/// Prefix fidelity: every successfully decoded operation carries the byte at
/// the program counter as its prefix.
pub proof fn lemma_prefix_fidelity(b0: u8, b1: u8, b2: u8)
    ensures
        spec_decode(b0, b1, b2) matches Ok(op) ==> op.prefix == b0,
{
}

/// Coverage of the decode tables: decoding succeeds exactly when the first
/// byte is not one of the eleven undefined primary bytes, and a failure
/// reports exactly that byte.
pub proof fn lemma_decode_coverage(b0: u8, b1: u8, b2: u8)
    ensures
        spec_decode(b0, b1, b2) is Ok <==> !undefined_primary_prefix(b0),
        spec_decode(b0, b1, b2) matches Err(e) ==> e.kind == GameboyErrorKind::UnknownOpcodePrefix(
            b0,
        ),
{
}

impl Operation {
    /// Translate a raw series of bytes into a CPU operation. Reads the
    /// prefix byte at `pc` and up to two more bytes for immediates; the
    /// memory is only read, never changed.
    pub fn from_memory<C: Cartridge>(pc: Address, memory: &Memory<C>) -> (r: GameboyResult<
        Operation,
    >)
        requires
            memory.wf(),
            pc < 0xFFFE,
            memory.byte_readable(pc),
            memory.byte_readable((pc + 1) as u16),
            memory.byte_readable((pc + 2) as u16),
        ensures
            r == spec_decode(
                memory.read_byte_spec(pc),
                memory.read_byte_spec((pc + 1) as u16),
                memory.read_byte_spec((pc + 2) as u16),
            ),
    {
        let prefix = memory.read_byte(pc);

        match prefix {
            0x00 => Ok(Operation { opcode: Opcode::Nop, prefix }),
            0x01 | 0x11 | 0x21 | 0x31 => Ok(
                Operation {
                    opcode: Opcode::Ld16RegImm(
                        prefix_into_reg16_1(prefix),
                        memory.read_word(pc + 1),
                    ),
                    prefix,
                },
            ),
            0x02 | 0x12 | 0x22 | 0x32 => Ok(
                Operation { opcode: Opcode::St8MemRegAcc(prefix_into_reg16_2(prefix)), prefix },
            ),
            0x03 | 0x13 | 0x23 | 0x33 => Ok(
                Operation { opcode: Opcode::Inc16Reg(prefix_into_reg16_1(prefix)), prefix },
            ),
            0x04 | 0x0C | 0x14 | 0x1C | 0x24 | 0x2C | 0x3C => Ok(
                Operation { opcode: Opcode::Inc8Reg(prefix_into_reg8_1(prefix)), prefix },
            ),
            0x05 | 0x0D | 0x15 | 0x1D | 0x25 | 0x2D | 0x3D => Ok(
                Operation { opcode: Opcode::Dec8Reg(prefix_into_reg8_1(prefix)), prefix },
            ),
            0x06 | 0x0E | 0x16 | 0x1E | 0x26 | 0x2E | 0x3E => Ok(
                Operation {
                    opcode: Opcode::Ld8RegImm(prefix_into_reg8_1(prefix), memory.read_byte(pc + 1)),
                    prefix,
                },
            ),
            0x07 => Ok(Operation { opcode: Opcode::Rlca, prefix }),
            0x08 => Ok(Operation { opcode: Opcode::St16MemSp(memory.read_word(pc + 1)), prefix }),
            0x09 | 0x19 | 0x29 | 0x39 => Ok(
                Operation { opcode: Opcode::Add16HlReg(prefix_into_reg16_1(prefix)), prefix },
            ),
            0x0A | 0x1A | 0x2A | 0x3A => Ok(
                Operation { opcode: Opcode::Ld8AccMem(prefix_into_reg16_2(prefix)), prefix },
            ),
            0x0B | 0x1B | 0x2B | 0x3B => Ok(
                Operation { opcode: Opcode::Dec16Reg(prefix_into_reg16_1(prefix)), prefix },
            ),
            0x0F => Ok(Operation { opcode: Opcode::Rrca, prefix }),
            0x10 => Ok(Operation { opcode: Opcode::Stop, prefix }),
            0x17 => Ok(Operation { opcode: Opcode::Rla, prefix }),
            0x18 => Ok(
                Operation {
                    opcode: Opcode::JrUncond(memory.read_byte(pc + 1) as Offset8),
                    prefix,
                },
            ),
            0x1F => Ok(Operation { opcode: Opcode::Rra, prefix }),
            0x20 | 0x28 | 0x30 | 0x38 => Ok(
                Operation {
                    opcode: Opcode::Jr(
                        prefix_into_cond(prefix),
                        memory.read_byte(pc + 1) as Offset8,
                    ),
                    prefix,
                },
            ),
            0x27 => Ok(Operation { opcode: Opcode::Daa, prefix }),
            0x2F => Ok(Operation { opcode: Opcode::Cpl, prefix }),
            0x34 => Ok(Operation { opcode: Opcode::Inc8MemHl, prefix }),
            0x35 => Ok(Operation { opcode: Opcode::Dec8MemHl, prefix }),
            0x36 => Ok(
                Operation { opcode: Opcode::Ld8MemHlImm(memory.read_byte(pc + 1)), prefix },
            ),
            0x37 => Ok(Operation { opcode: Opcode::Scf, prefix }),
            0x3F => Ok(Operation { opcode: Opcode::Ccf, prefix }),
            0x40 | 0x41 | 0x42 | 0x43 | 0x44 | 0x45 | 0x47 | 0x48 | 0x49 | 0x4A | 0x4B | 0x4C
            | 0x4D | 0x4F | 0x50 | 0x51 | 0x52 | 0x53 | 0x54 | 0x55 | 0x57 | 0x58 | 0x59 | 0x5A
            | 0x5B | 0x5C | 0x5D | 0x5F | 0x60 | 0x61 | 0x62 | 0x63 | 0x64 | 0x65 | 0x67 | 0x68
            | 0x69 | 0x6A | 0x6B | 0x6C | 0x6D | 0x6F | 0x78 | 0x79 | 0x7A | 0x7B | 0x7C | 0x7D
            | 0x7F => Ok(
                Operation {
                    opcode: Opcode::Ld8RegReg(
                        prefix_into_reg8_1(prefix),
                        prefix_into_reg8_2(prefix),
                    ),
                    prefix,
                },
            ),
            0x46 | 0x4E | 0x56 | 0x5E | 0x66 | 0x6E | 0x7E => Ok(
                Operation { opcode: Opcode::Ld8RegMemHl(prefix_into_reg8_1(prefix)), prefix },
            ),
            0x70 | 0x71 | 0x72 | 0x73 | 0x74 | 0x75 | 0x77 => Ok(
                Operation { opcode: Opcode::St8MemHlReg(prefix_into_reg8_2(prefix)), prefix },
            ),
            0x76 => Ok(Operation { opcode: Opcode::Halt, prefix }),
            0x80 | 0x81 | 0x82 | 0x83 | 0x84 | 0x85 | 0x87 => Ok(
                Operation { opcode: Opcode::Add8Reg(prefix_into_reg8_2(prefix)), prefix },
            ),
            0x86 => Ok(Operation { opcode: Opcode::Add8AccHl, prefix }),
            0x88 | 0x89 | 0x8A | 0x8B | 0x8C | 0x8D | 0x8F => Ok(
                Operation { opcode: Opcode::Adc8Reg(prefix_into_reg8_2(prefix)), prefix },
            ),
            0x8E => Ok(Operation { opcode: Opcode::Adc8AccHl, prefix }),
            0x90 | 0x91 | 0x92 | 0x93 | 0x94 | 0x95 | 0x97 => Ok(
                Operation { opcode: Opcode::Sub8Reg(prefix_into_reg8_2(prefix)), prefix },
            ),
            0x96 => Ok(Operation { opcode: Opcode::Sub8AccHl, prefix }),
            0x98 | 0x99 | 0x9A | 0x9B | 0x9C | 0x9D | 0x9F => Ok(
                Operation { opcode: Opcode::Sbc8Reg(prefix_into_reg8_2(prefix)), prefix },
            ),
            0x9E => Ok(Operation { opcode: Opcode::Sbc8AccHl, prefix }),
            0xA0 | 0xA1 | 0xA2 | 0xA3 | 0xA4 | 0xA5 | 0xA7 => Ok(
                Operation { opcode: Opcode::And8Reg(prefix_into_reg8_2(prefix)), prefix },
            ),
            0xA6 => Ok(Operation { opcode: Opcode::And8AccHl, prefix }),
            0xA8 | 0xA9 | 0xAA | 0xAB | 0xAC | 0xAD | 0xAF => Ok(
                Operation { opcode: Opcode::Xor8Reg(prefix_into_reg8_2(prefix)), prefix },
            ),
            0xAE => Ok(Operation { opcode: Opcode::Xor8AccHl, prefix }),
            0xB0 | 0xB1 | 0xB2 | 0xB3 | 0xB4 | 0xB5 | 0xB7 => Ok(
                Operation { opcode: Opcode::Or8Reg(prefix_into_reg8_2(prefix)), prefix },
            ),
            0xB6 => Ok(Operation { opcode: Opcode::Or8AccHl, prefix }),
            0xB8 | 0xB9 | 0xBA | 0xBB | 0xBC | 0xBD | 0xBF => Ok(
                Operation { opcode: Opcode::Cp8Reg(prefix_into_reg8_2(prefix)), prefix },
            ),
            0xBE => Ok(Operation { opcode: Opcode::Cp8AccHl, prefix }),
            0xC0 | 0xC8 | 0xD0 | 0xD8 => Ok(
                Operation { opcode: Opcode::RetCond(prefix_into_cond(prefix)), prefix },
            ),
            0xC1 | 0xD1 | 0xE1 | 0xF1 => Ok(
                Operation { opcode: Opcode::Pop(prefix_into_reg16_3(prefix)), prefix },
            ),
            0xC2 | 0xCA | 0xD2 | 0xDA => Ok(
                Operation {
                    opcode: Opcode::Jp(prefix_into_cond(prefix), memory.read_word(pc + 1)),
                    prefix,
                },
            ),
            0xC3 => Ok(Operation { opcode: Opcode::JpImm(memory.read_word(pc + 1)), prefix }),
            0xC4 | 0xCC | 0xD4 | 0xDC => Ok(
                Operation {
                    opcode: Opcode::CallCond(prefix_into_cond(prefix), memory.read_word(pc + 1)),
                    prefix,
                },
            ),
            0xC5 | 0xD5 | 0xE5 | 0xF5 => Ok(
                Operation { opcode: Opcode::Push(prefix_into_reg16_3(prefix)), prefix },
            ),
            0xC6 => Ok(Operation { opcode: Opcode::Add8Imm(memory.read_byte(pc + 1)), prefix }),
            0xC7 | 0xCF | 0xD7 | 0xDF | 0xE7 | 0xEF | 0xF7 | 0xFF => Ok(
                Operation { opcode: Opcode::Rst(prefix & 0x38), prefix },
            ),
            0xC9 => Ok(Operation { opcode: Opcode::Ret, prefix }),
            0xCB => Self::from_alu_prefix(memory.read_byte(pc + 1)),
            0xCD => Ok(Operation { opcode: Opcode::Call(memory.read_word(pc + 1)), prefix }),
            0xCE => Ok(Operation { opcode: Opcode::Adc8Imm(memory.read_byte(pc + 1)), prefix }),
            0xD6 => Ok(Operation { opcode: Opcode::Sub8Imm(memory.read_byte(pc + 1)), prefix }),
            0xD9 => Ok(Operation { opcode: Opcode::Reti, prefix }),
            0xDE => Ok(Operation { opcode: Opcode::Sbc8Imm(memory.read_byte(pc + 1)), prefix }),
            0xE0 => Ok(Operation { opcode: Opcode::LdhMemAcc(memory.read_byte(pc + 1)), prefix }),
            0xE2 => Ok(Operation { opcode: Opcode::LdcMemAcc, prefix }),
            0xE6 => Ok(Operation { opcode: Opcode::And8Imm(memory.read_byte(pc + 1)), prefix }),
            0xE8 => Ok(
                Operation { opcode: Opcode::AddSp(memory.read_byte(pc + 1) as Offset8), prefix },
            ),
            0xE9 => Ok(Operation { opcode: Opcode::JpHl, prefix }),
            0xEA => Ok(
                Operation { opcode: Opcode::St8MemImmAcc(memory.read_word(pc + 1)), prefix },
            ),
            0xEE => Ok(Operation { opcode: Opcode::Xor8Imm(memory.read_byte(pc + 1)), prefix }),
            0xF0 => Ok(Operation { opcode: Opcode::LdhAccMem(memory.read_byte(pc + 1)), prefix }),
            0xF2 => Ok(Operation { opcode: Opcode::LdcAccMem, prefix }),
            0xF3 => Ok(Operation { opcode: Opcode::Di, prefix }),
            0xF6 => Ok(Operation { opcode: Opcode::Or8Imm(memory.read_byte(pc + 1)), prefix }),
            0xF8 => Ok(
                Operation { opcode: Opcode::LdHlSp(memory.read_byte(pc + 1) as Offset8), prefix },
            ),
            0xF9 => Ok(Operation { opcode: Opcode::LdSpHl, prefix }),
            0xFA => Ok(
                Operation { opcode: Opcode::Ld8AccMemImm(memory.read_word(pc + 1)), prefix },
            ),
            0xFB => Ok(Operation { opcode: Opcode::Ei, prefix }),
            0xFE => Ok(Operation { opcode: Opcode::Cp8Imm(memory.read_byte(pc + 1)), prefix }),
            _ => Err(GameboyError::new(GameboyErrorKind::UnknownOpcodePrefix(prefix))),
        }
    }

    /// Decode an ALU operation from the secondary table. The 0xCB prefix is
    /// considered implied; `prefix` is the byte following it. Every value of
    /// that byte is defined.
    pub fn from_alu_prefix(prefix: u8) -> (r: GameboyResult<Operation>)
        ensures
            r == Ok::<Operation, GameboyError>(
                Operation { opcode: spec_cb_opcode(prefix), prefix: 0xCB },
            ),
    {
        let sub = (prefix >> 3) & 0x07;
        let reg = prefix & 0x07;
        let opcode = if prefix < 0x40 {
            if sub == 0 {
                if reg == 6 {
                    Opcode::Rlc8MemHl
                } else {
                    Opcode::Rlc8Reg(prefix_into_reg8_2(prefix))
                }
            } else if sub == 1 {
                if reg == 6 {
                    Opcode::Rrc8MemHl
                } else {
                    Opcode::Rrc8Reg(prefix_into_reg8_2(prefix))
                }
            } else if sub == 2 {
                if reg == 6 {
                    Opcode::Rl8MemHl
                } else {
                    Opcode::Rl8Reg(prefix_into_reg8_2(prefix))
                }
            } else if sub == 3 {
                if reg == 6 {
                    Opcode::Rr8MemHl
                } else {
                    Opcode::Rr8Reg(prefix_into_reg8_2(prefix))
                }
            } else if sub == 4 {
                if reg == 6 {
                    Opcode::Sla8MemHl
                } else {
                    Opcode::Sla8Reg(prefix_into_reg8_2(prefix))
                }
            } else if sub == 5 {
                if reg == 6 {
                    Opcode::Sra8MemHl
                } else {
                    Opcode::Sra8Reg(prefix_into_reg8_2(prefix))
                }
            } else if sub == 6 {
                if reg == 6 {
                    Opcode::Swap8MemHl
                } else {
                    Opcode::Swap8Reg(prefix_into_reg8_2(prefix))
                }
            } else {
                if reg == 6 {
                    Opcode::Srl8MemHl
                } else {
                    Opcode::Srl8Reg(prefix_into_reg8_2(prefix))
                }
            }
        } else if prefix < 0x80 {
            if reg == 6 {
                Opcode::Bit8MemHl(sub)
            } else {
                Opcode::Bit8Reg(sub, prefix_into_reg8_2(prefix))
            }
        } else if prefix < 0xC0 {
            if reg == 6 {
                Opcode::Res8MemHl(sub)
            } else {
                Opcode::Res8Reg(sub, prefix_into_reg8_2(prefix))
            }
        } else {
            if reg == 6 {
                Opcode::Set8MemHl(sub)
            } else {
                Opcode::Set8Reg(sub, prefix_into_reg8_2(prefix))
            }
        };
        Ok(Operation { opcode, prefix: 0xCB })
    }
}

} // verus!
