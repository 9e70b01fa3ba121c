use vstd::prelude::*;

use crate::Address;
use crate::registers::Registers;

verus! {

/// State information for the Game Boy CPU.
pub struct Cpu {
    pub r: Registers,
    pub pc: Address,
    pub sp: Address,
}

impl Cpu {
    /// The reset state: execution starts at 0x0100 with the stack pointer
    /// at the top of high RAM.
    pub fn new() -> (r: Self)
        ensures
            r.r == (Registers { a: 0, f: 0, b: 0, c: 0, d: 0, e: 0, h: 0, l: 0 }),
            r.pc == 0x0100,
            r.sp == 0xFFFE,
    {
        Self { r: Registers::new(), pc: 0x0100, sp: 0xFFFE }
    }
}

} // verus!
