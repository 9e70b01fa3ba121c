use vstd::prelude::*;

use crate::Address;
use crate::GameboyError;
use crate::GameboyErrorKind;
use crate::GameboyResult;
use crate::cartridge::Cartridge;
use crate::make_u16;
use crate::spec_make_u16;

verus! {

// The Game Boy contains 65,536 bytes of addressable memory. While the whole
// space is addressable, many of the addresses in this space have special
// rules. The layout is as follows:
//
//     -- 0x0000 - 0x3FFF (Cartridge ROM, non-switchable ROM bank)
//     -- 0x4000 - 0x7FFF (Cartridge ROMx, switchable ROM bank)
//     -- 0x8000 - 0x9FFF (VRAM)
//     -- 0xA000 - 0xBFFF (Cartridge RAM, if available)
//     -- 0xC000 - 0xDFFF (Work RAM or WRAM)
//     -- 0xE000 - 0xFDFF (WRAM mirror of 0xC000 - 0xDDFF)
//     -- 0xFEA0 - 0xFEFF (Unused: writes ignored, reads return 0x00)
//     -- 0xFF00 - 0xFF7F (memory mapped I/O registers)
//     -- 0xFF80 - 0xFFFE (internal CPU RAM)
//     -- 0xFFFF (interrupt enable [IE] flag, all 8 bits are R/W)

/// Size of Game Boy main system memory in bytes.
pub const GAMEBOY_MEMORY_SIZE_BYTES: usize = 0x10000;

/// True of the addresses whose reads the bus sends to the cartridge.
pub open spec fn cartridge_mapped(address: Address) -> bool {
    address <= 0x7FFF || (0xA000 <= address && address <= 0xBFFF)
}

/// The system array contents after a byte write at `address`, following the
/// per-region write policy: ROM and cartridge-RAM addresses leave the array
/// alone, work RAM is echoed 0x2000 above, the echo region is mirrored
/// 0x2000 below, the unusable region drops the write, and only the low five
/// bits of the interrupt-flag register are writable.
pub open spec fn bus_write_data(data: Seq<u8>, address: Address, value: u8) -> Seq<u8> {
    if address <= 0x7FFF {
        data
    } else if 0xA000 <= address && address <= 0xBFFF {
        data
    } else if 0xC000 <= address && address <= 0xDDFF {
        data.update(address as int, value).update(address + 0x2000, value)
    } else if 0xE000 <= address && address <= 0xFDFF {
        data.update(address as int, value).update(address - 0x2000, value)
    } else if 0xFEA0 <= address && address <= 0xFEFF {
        data
    } else if address == 0xFF0F {
        data.update(address as int, (value & 0x1F) | 0xE0)
    } else {
        data.update(address as int, value)
    }
}

/// Represents the total memory contained in the Game Boy.
pub struct Memory<C: Cartridge> {
    pub data: Vec<u8>,
    pub cartridge: C,
}

impl<C: Cartridge> Memory<C> {
    /// Well-formed: the system array spans the full 16-bit address space.
    pub open spec fn wf(&self) -> bool {
        self.data@.len() == GAMEBOY_MEMORY_SIZE_BYTES
    }

    /// Whether a byte read at `address` meets the backing cartridge's rules.
    pub open spec fn byte_readable(&self, address: Address) -> bool {
        cartridge_mapped(address) ==> self.cartridge.can_read(address)
    }

    /// The byte a read at `address` returns: cartridge-mapped regions come
    /// from the cartridge, the unusable region reads as zero, and everything
    /// else comes from the system array.
    pub open spec fn read_byte_spec(&self, address: Address) -> u8 {
        if cartridge_mapped(address) {
            self.cartridge.read_spec(address)
        } else if 0xFEA0 <= address && address <= 0xFEFF {
            0
        } else {
            self.data@[address as int]
        }
    }

    /// The word a read at `address` returns, little-endian: the byte at
    /// `address` is the low byte.
    pub open spec fn read_word_spec(&self, address: Address) -> u16
        recommends
            address < 0xFFFF,
    {
        spec_make_u16(self.read_byte_spec((address + 1) as u16), self.read_byte_spec(address))
    }

    /// Allocate new Game Boy main system memory and initialize various areas.
    /// Everything starts at zero but the interrupt-flag register, whose
    /// non-writable upper bits read back as set.
    pub fn new(cartridge: C) -> (r: Self)
        ensures
            r.wf(),
            r.cartridge == cartridge,
            forall|i: int|
                0 <= i < GAMEBOY_MEMORY_SIZE_BYTES ==> r.data@[i] == (if i == 0xFF0F {
                    0xE0u8
                } else {
                    0u8
                }),
            r.read_byte_spec(0xFF0F) == 0xE0,
    {
        let mut data: Vec<u8> = Vec::with_capacity(GAMEBOY_MEMORY_SIZE_BYTES);
        let mut i: usize = 0;
        while i < GAMEBOY_MEMORY_SIZE_BYTES
            invariant
                i == data@.len(),
                i <= GAMEBOY_MEMORY_SIZE_BYTES,
                forall|j: int| 0 <= j < i ==> data@[j] == 0u8,
            decreases GAMEBOY_MEMORY_SIZE_BYTES - i,
        {
            data.push(0);
            i = i + 1;
        }
        // Interrupt Flags (IF) initial value.
        data[0xFF0F] = 0xE0;
        Self { data, cartridge }
    }

    /// Write a byte of data into memory handling special areas appropriately.
    pub fn write_byte(&mut self, address: Address, value: u8)
        requires
            old(self).wf(),
        ensures
            final(self).wf(),
            final(self).data@ == bus_write_data(old(self).data@, address, value),
            final(self).cartridge == (if 0xA000 <= address && address <= 0xBFFF {
                old(self).cartridge.write_byte_spec(address, value)
            } else {
                old(self).cartridge
            }),
    {
        if address <= 0x7FFF {
            // Cartridge ROM: the bus drops the write. A ROM-only cartridge
            // has no control registers to forward it to.
        } else if 0xA000 <= address && address <= 0xBFFF {
            // Cartridge RAM (if available).
            self.cartridge.write_byte(address, value);
        } else if 0xC000 <= address && address <= 0xDDFF {
            // WRAM (mirrored at 0xE000 - 0xFDFF).
            self.data[address as usize] = value;
            self.data[(address + 0x2000) as usize] = value;
        } else if 0xE000 <= address && address <= 0xFDFF {
            // WRAM mirror (mirrors writes back to 0xC000 - 0xDDFF).
            self.data[address as usize] = value;
            self.data[(address - 0x2000) as usize] = value;
        } else if 0xFEA0 <= address && address <= 0xFEFF {
            // Unusable region: writes are dropped.
        } else if address == 0xFF0F {
            // Interrupt Flags (IF): only the lower 5 bits are R/W, the rest
            // always read high.
            self.data[address as usize] = (value & 0x1F) | 0xE0;
        } else {
            self.data[address as usize] = value;
        }
    }

    /// Read a byte of data from memory.
    pub fn read_byte(&self, address: Address) -> (r: u8)
        requires
            self.wf(),
            self.byte_readable(address),
        ensures
            r == self.read_byte_spec(address),
    {
        if address <= 0x7FFF {
            self.cartridge.read_byte(address)
        } else if 0xA000 <= address && address <= 0xBFFF {
            self.cartridge.read_byte(address)
        } else if 0xFEA0 <= address && address <= 0xFEFF {
            // Unusable region: reads return a constant zero.
            0
        } else {
            self.data[address as usize]
        }
    }

    /// Read a 16-bit word, little-endian. Reads that fall entirely inside a
    /// cartridge-mapped region are delegated to the cartridge.
    pub fn read_word(&self, address: Address) -> (r: u16)
        requires
            self.wf(),
            address < 0xFFFF,
            self.byte_readable(address),
            self.byte_readable((address + 1) as u16),
        ensures
            r == self.read_word_spec(address),
    {
        if address < 0x7FFF || (0xA000 <= address && address < 0xBFFF) {
            self.cartridge.read_word(address)
        } else {
            make_u16(self.read_byte(address + 1), self.read_byte(address))
        }
    }

    /// Copy `size` bytes of `bytes` into the system array starting at
    /// `start`, bypassing the region write policy. Intended for test
    /// fixtures, not execution.
    pub fn load(&mut self, bytes: &[u8], start: Address, size: usize) -> (r: GameboyResult<()>)
        requires
            old(self).wf(),
            size <= bytes@.len(),
        ensures
            final(self).wf(),
            final(self).cartridge == old(self).cartridge,
            start + size > 0x10000 ==> {
                &&& r matches Err(e) && e.kind == GameboyErrorKind::MemoryLoadOutOfBounds(
                    start,
                    size,
                )
                &&& final(self).data@ == old(self).data@
            },
            start + size <= 0x10000 ==> {
                &&& r is Ok
                &&& forall|i: int|
                    0 <= i < 0x10000 ==> final(self).data@[i] == (if start <= i < start + size {
                        bytes@[i - start]
                    } else {
                        old(self).data@[i]
                    })
            },
    {
        if size > 0x10000 - start as usize {
            return Err(GameboyError::new(GameboyErrorKind::MemoryLoadOutOfBounds(start, size)));
        }
        let ghost orig = *self;
        let mut i: usize = 0;
        while i < size
            invariant
                i <= size,
                start + size <= 0x10000,
                size <= bytes@.len(),
                self.data@.len() == 0x10000,
                self.cartridge == orig.cartridge,
                forall|j: int|
                    0 <= j < 0x10000 ==> self.data@[j] == (if start <= j < start + i {
                        bytes@[j - start]
                    } else {
                        orig.data@[j]
                    }),
            decreases size - i,
        {
            self.data[start as usize + i] = bytes[i];
            i = i + 1;
        }
        Ok(())
    }
}

/// Work-RAM echo: a write anywhere in 0xC000..=0xDDFF is visible both at the
/// written address and at its echo partner 0x2000 above.
pub proof fn lemma_wram_write_echo<C: Cartridge>(
    before: Memory<C>,
    after: Memory<C>,
    address: Address,
    value: u8,
)
    requires
        before.wf(),
        0xC000 <= address <= 0xDDFF,
        after.data@ == bus_write_data(before.data@, address, value),
        after.cartridge == before.cartridge,
    ensures
        after.read_byte_spec(address) == value,
        after.read_byte_spec((address + 0x2000) as u16) == value,
{
}

/// Echo-region writes mirror back: a write anywhere in 0xE000..=0xFDFF is
/// visible both at the written address and at its partner 0x2000 below.
pub proof fn lemma_echo_write_mirrors_wram<C: Cartridge>(
    before: Memory<C>,
    after: Memory<C>,
    address: Address,
    value: u8,
)
    requires
        before.wf(),
        0xE000 <= address <= 0xFDFF,
        after.data@ == bus_write_data(before.data@, address, value),
        after.cartridge == before.cartridge,
    ensures
        after.read_byte_spec(address) == value,
        after.read_byte_spec((address - 0x2000) as u16) == value,
{
}

/// The unusable region always reads as zero, whatever was written anywhere.
pub proof fn lemma_unusable_region_reads_zero<C: Cartridge>(m: Memory<C>, address: Address)
    requires
        0xFEA0 <= address <= 0xFEFF,
    ensures
        m.read_byte_spec(address) == 0,
{
}

/// Interrupt-flag masking: after a write of `value` to 0xFF0F, the register
/// reads back as `(value & 0x1F) | 0xE0`, so its upper three bits are always
/// set.
pub proof fn lemma_interrupt_flag_masked<C: Cartridge>(
    before: Memory<C>,
    after: Memory<C>,
    value: u8,
)
    requires
        before.wf(),
        after.data@ == bus_write_data(before.data@, 0xFF0F, value),
        after.cartridge == before.cartridge,
    ensures
        after.read_byte_spec(0xFF0F) == (value & 0x1F) | 0xE0,
        after.read_byte_spec(0xFF0F) & 0xE0 == 0xE0,
{
    assert(((value & 0x1F) | 0xE0) & 0xE0 == 0xE0) by (bit_vector);
}

/// The ROM region is read-only: a byte write whose address lies in
/// 0x0000..=0x7FFF leaves every readable byte of the bus unchanged, and in
/// particular the written address still reads the cartridge's byte.
pub proof fn lemma_rom_region_read_only<C: Cartridge>(
    before: Memory<C>,
    after: Memory<C>,
    address: Address,
    value: u8,
)
    requires
        before.wf(),
        address <= 0x7FFF,
        after.data@ == bus_write_data(before.data@, address, value),
        after.cartridge == before.cartridge,
    ensures
        after.read_byte_spec(address) == before.cartridge.read_spec(address),
        forall|a: Address| #![auto] after.read_byte_spec(a) == before.read_byte_spec(a),
{
}

} // verus!
