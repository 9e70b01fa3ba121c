use vstd::prelude::*;

use crate::Address;
use crate::make_u16;
use crate::spec_make_u16;

verus! {

/// Generic interface for all Game Boy cartridges.
///
/// The memory bus owns exactly one cartridge and dispatches reads in
/// 0x0000..=0x7FFF and 0xA000..=0xBFFF to it. Each implementation
/// describes itself through the spec functions below, and its
/// executable methods are bound to them by contract, so the bus can
/// reason about any cartridge kind uniformly.
pub trait Cartridge: Sized {
    /// The raw bytes backing the cartridge.
    spec fn contents(&self) -> Seq<u8>;

    /// Whether a byte read at `address` is supported by this cartridge.
    spec fn can_read(&self, address: Address) -> bool;

    /// The byte a read at `address` returns.
    spec fn read_spec(&self, address: Address) -> u8;

    /// The cartridge state after a byte write at `address`.
    spec fn write_byte_spec(&self, address: Address, value: u8) -> Self;

    /// The cartridge state after a word write at `address`.
    spec fn write_word_spec(&self, address: Address, value: u16) -> Self;

    /// Read one byte from the cartridge.
    fn read_byte(&self, address: Address) -> (r: u8)
        requires
            self.can_read(address),
        ensures
            r == self.read_spec(address),
    ;

    /// Write one byte to the cartridge; kinds without writable storage ignore it.
    fn write_byte(&mut self, address: Address, value: u8)
        ensures
            *final(self) == old(self).write_byte_spec(address, value),
    ;

    /// Read a 16-bit word, little-endian: the byte at `address` is the low byte.
    fn read_word(&self, address: Address) -> (r: u16)
        requires
            address < 0xFFFF,
            self.can_read(address),
            self.can_read((address + 1) as u16),
        ensures
            r == spec_make_u16(self.read_spec((address + 1) as u16), self.read_spec(address)),
    ;

    /// Write a 16-bit word; kinds without writable storage ignore it.
    fn write_word(&mut self, address: Address, value: u16)
        ensures
            *final(self) == old(self).write_word_spec(address, value),
    ;
}

/// A cartridge which only contains ROM data and supports no other features.
pub struct RomOnly {
    pub data: Vec<u8>,
}

impl RomOnly {
    pub fn new(data: Vec<u8>) -> (r: Self)
        ensures
            r.data@ == data@,
    {
        Self { data }
    }
}

impl Cartridge for RomOnly {
    open spec fn contents(&self) -> Seq<u8> {
        self.data@
    }

    /// Only the 32 KiB ROM window is readable.
    open spec fn can_read(&self, address: Address) -> bool {
        address <= 0x7FFF && (address as int) < self.data@.len()
    }

    open spec fn read_spec(&self, address: Address) -> u8 {
        self.data@[address as int]
    }

    /// Writes are ignored: the state never changes.
    open spec fn write_byte_spec(&self, address: Address, value: u8) -> Self {
        *self
    }

    open spec fn write_word_spec(&self, address: Address, value: u16) -> Self {
        *self
    }

    fn read_byte(&self, address: Address) -> (r: u8) {
        self.data[address as usize]
    }

    fn write_byte(&mut self, _address: Address, _value: u8) {
        // Do nothing because we have no writable memory.
    }

    fn read_word(&self, address: Address) -> (r: u16) {
        make_u16(self.read_byte(address + 1), self.read_byte(address))
    }

    fn write_word(&mut self, _address: Address, _value: u16) {
        // Do nothing because we have no writable memory.
    }
}

} // verus!
