use vstd::prelude::*;

use crate::Cycles;
use crate::GameboyError;
use crate::GameboyErrorKind;
use crate::GameboyResult;
use crate::cartridge::Cartridge;
use crate::cpu::Cpu;
use crate::memory::Memory;
use crate::operations::Opcode;
use crate::operations::Operation;
use crate::operations::spec_decode;

verus! {

/// A whole machine: the CPU state together with the memory bus it executes
/// from.
pub struct Machine<C: Cartridge> {
    pub cpu: Cpu,
    pub memory: Memory<C>,
}

impl<C: Cartridge> Machine<C> {
    /// A machine at the reset state over the given memory.
    pub fn new(memory: Memory<C>) -> (r: Self)
        ensures
            r.memory == memory,
            r.cpu.pc == 0x0100,
            r.cpu.sp == 0xFFFE,
    {
        Self { cpu: Cpu::new(), memory }
    }

    /// Decode the operation at the program counter and execute it. Only NOP
    /// is implemented: it advances the program counter by one and takes one
    /// cycle. Every other decoded operation is reported as unimplemented,
    /// and a decode failure is passed through; neither moves the program
    /// counter or touches memory.
    pub fn step(&mut self) -> (r: GameboyResult<Cycles>)
        requires
            old(self).memory.wf(),
            old(self).cpu.pc < 0xFFFE,
            old(self).memory.byte_readable(old(self).cpu.pc),
            old(self).memory.byte_readable((old(self).cpu.pc + 1) as u16),
            old(self).memory.byte_readable((old(self).cpu.pc + 2) as u16),
        ensures
            final(self).memory == old(self).memory,
            final(self).cpu.sp == old(self).cpu.sp,
            final(self).cpu.r == old(self).cpu.r,
            ({
                let decoded = spec_decode(
                    old(self).memory.read_byte_spec(old(self).cpu.pc),
                    old(self).memory.read_byte_spec((old(self).cpu.pc + 1) as u16),
                    old(self).memory.read_byte_spec((old(self).cpu.pc + 2) as u16),
                );
                match decoded {
                    Ok(op) => if op.opcode == Opcode::Nop {
                        &&& r == Ok::<Cycles, GameboyError>(1)
                        &&& final(self).cpu.pc == old(self).cpu.pc + 1
                    } else {
                        &&& r matches Err(e) && e.kind matches GameboyErrorKind::Unknown(m)
                            && m@ == "unimplemented operation"@
                        &&& final(self).cpu.pc == old(self).cpu.pc
                    },
                    Err(e) => {
                        &&& r == Err::<Cycles, GameboyError>(e)
                        &&& final(self).cpu.pc == old(self).cpu.pc
                    },
                }
            }),
    {
        let result = Operation::from_memory(self.cpu.pc, &self.memory);

        match result {
            Ok(operation) => match operation.opcode {
                Opcode::Nop => {
                    self.cpu.pc = self.cpu.pc + 1;
                    Ok(1)
                },
                _ => Err(
                    GameboyError::new(
                        GameboyErrorKind::Unknown("unimplemented operation".to_owned()),
                    ),
                ),
            },
            Err(e) => Err(e),
        }
    }
}

} // verus!
