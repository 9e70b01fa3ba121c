//! Core of a Game Boy (DMG) emulator: cartridge ingest and validation, the
//! memory bus with its mirrored and masked regions, and the instruction
//! decoder for the Sharp LR35902 CPU.

use vstd::prelude::*;

pub mod cartridge;
pub mod cpu;
pub mod machine;
pub mod memory;
pub mod operations;
pub mod registers;
pub mod rom;

verus! {

/// Represents a 16-bit memory address.
pub type Address = u16;

/// Represents a 3-bit unsigned integer constant.
pub type Imm3 = u8;

/// Represents an 8-bit immediate value.
pub type Imm8 = u8;

/// Represents a 16-bit immediate value.
pub type Imm16 = u16;

/// Represents an 8-bit signed offset value.
pub type Offset8 = i8;

/// Represents a cycle count.
pub type Cycles = u16;

/// Generic result type for emulator errors.
pub type GameboyResult<T> = Result<T, GameboyError>;

/// Emulator error type.
#[derive(Debug, PartialEq)]
pub struct GameboyError {
    pub kind: GameboyErrorKind,
}

impl GameboyError {
    /// Initialize a new error.
    pub fn new(kind: GameboyErrorKind) -> (r: Self)
        ensures
            r.kind == kind,
    {
        Self { kind }
    }
}

/// A list of general categories of emulator errors.
#[derive(Debug, PartialEq)]
pub enum GameboyErrorKind {
    /// Cartridge is too small to be valid. Contains size of cartridge data given.
    CartridgeTooSmall(usize),
    /// Attempt to load too much data into memory. Contains load start address and data size.
    MemoryLoadOutOfBounds(Address, usize),
    /// Opcode prefix was not recognized.
    UnknownOpcodePrefix(u8),
    /// Unknown ALU opcode prefix.
    UnknownAluOpcodePrefix(u8),
    /// Unknown error with a description.
    Unknown(String),
}

/// List of different supported Game Boy types.
pub enum GameboyType {
    /// DMG, this is the traditional monochrome Game Boy.
    DotMatrixGameboy,
    /// CGB, color Game Boy.
    ColorGameboy,
}

/// Top-level emulator configuration.
pub struct Configuration {
    pub gameboy_type: GameboyType,
}

/// The 16-bit value with `msb` as its high byte and `lsb` as its low byte.
pub open spec fn spec_make_u16(msb: u8, lsb: u8) -> u16 {
    (256 * msb + lsb) as u16
}

/// Combines two 8-bit values into a single 16-bit value.
pub fn make_u16(msb: u8, lsb: u8) -> (r: u16)
    ensures
        r == spec_make_u16(msb, lsb),
        r == 256 * msb + lsb,
{
    let r: u16 = (msb as u16) << 8 | lsb as u16;
    proof {
        let m = msb as u16;
        let l = lsb as u16;
        assert(m < 256 && l < 256 ==> ((m << 8) | l) == m * 256 + l) by (bit_vector);
    }
    r
}

} // verus!
