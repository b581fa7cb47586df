use vstd::prelude::*;

use crate::gameboy::mbc::mbc::{get_ram_size, spec_ram_size};
use crate::gameboy::memory::{le16, Memory};

verus! {

/// The RAM of a cartridge without banking whose header byte 0x149 is `b`: as
/// much as the header gives, and at least the 8 KB that the RAM area spans.
pub open spec fn mbc0_ram_size(b: u8) -> usize {
    if spec_ram_size(b) < 0x2000 {
        0x2000
    } else {
        spec_ram_size(b)
    }
}

/// A cartridge without memory banking: the ROM image and the RAM are read
/// and written directly, at the address within their area.
pub struct MBC0 {
    pub rom: Memory,
    pub ram: Memory,
}

impl MBC0 {
    /// A controller over a copy of `rom`, with `mbc0_ram_size` bytes of RAM
    /// for the header byte at 0x149.
    pub fn new(rom: &[u8]) -> (m: MBC0)
        requires
            rom@.len() > 0x149,
        ensures
            m.rom@ == rom@,
            m.ram@ == Seq::new(mbc0_ram_size(rom@[0x149]) as nat, |i: int| 0u8),
    {
        let mut r = Memory::new(rom.len());
        r.write_bytes(0x00, rom);
        assert(r@ =~= rom@);
        let ram_size = get_ram_size(rom[0x149]);
        let ram = Memory::new(if ram_size < 0x2000 {
            0x2000
        } else {
            ram_size
        });
        MBC0 { rom: r, ram: ram }
    }

    pub fn read_ram_u8(&self, addr: u16) -> (b: u8)
        requires
            addr < self.ram@.len(),
        ensures
            b == self.ram@[addr as int],
    {
        self.ram.read_u8(addr)
    }

    pub fn read_rom_u8(&self, addr: u16) -> (b: u8)
        requires
            addr < self.rom@.len(),
        ensures
            b == self.rom@[addr as int],
    {
        self.rom.byte_at(addr as usize)
    }

    pub fn read_ram_u16(&self, addr: u16) -> (v: u16)
        requires
            addr + 2 <= self.ram@.len(),
        ensures
            v == le16(self.ram@[addr as int], self.ram@[addr + 1]),
    {
        self.ram.read_u16(addr)
    }

    pub fn read_rom_u16(&self, addr: u16) -> (v: u16)
        requires
            addr + 2 <= self.rom@.len(),
        ensures
            v == le16(self.rom@[addr as int], self.rom@[addr + 1]),
    {
        self.rom.read_u16(addr)
    }

    /// Stores `b` at `addr` of the RAM.
    pub fn write_ram_u8(&mut self, addr: u16, b: u8)
        requires
            addr < old(self).ram@.len(),
        ensures
            final(self).rom@ == old(self).rom@,
            final(self).ram@ == old(self).ram@.update(addr as int, b),
    {
        self.ram.write_u8(addr, b)
    }

    /// Stores `b` at `addr` of the ROM image.
    pub fn write_rom_u8(&mut self, addr: u16, b: u8)
        requires
            addr < old(self).rom@.len(),
        ensures
            final(self).rom@ == old(self).rom@.update(addr as int, b),
            final(self).ram@ == old(self).ram@,
    {
        self.rom.write_u8(addr, b)
    }

    pub fn write_ram_u16(&mut self, addr: u16, b: u16)
        requires
            addr + 2 <= old(self).ram@.len(),
        ensures
            final(self).rom@ == old(self).rom@,
            final(self).ram@ == old(self).ram@.update(addr as int, (b % 256) as u8).update(
                addr + 1,
                (b / 256) as u8,
            ),
    {
        self.ram.write_u16(addr, b)
    }
}

} // verus!
