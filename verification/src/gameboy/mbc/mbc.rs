use vstd::prelude::*;

use crate::gameboy::mbc::mbc0::MBC0;
use crate::gameboy::mbc::mbc1::{MBC1View, MBC1};
use crate::gameboy::memory::le16;

verus! {

/// The RAM sizes that the header announces start at 2 KB for code 1 and grow
/// fourfold with each code up to 32 KB for code 3; the other codes announce
/// none.
pub proof fn lemma_ram_sizes(b: u8)
    ensures
        spec_ram_size(1) == 2048,
        1 <= b <= 2 ==> spec_ram_size((b + 1) as u8) == 4 * spec_ram_size(b),
        !(1 <= b <= 3) ==> spec_ram_size(b) == 0,
{
}

/// The size of cartridge RAM that the header byte `b` (at 0x149) announces.
pub open spec fn spec_ram_size(b: u8) -> usize {
    if b == 0x01 {
        0x800
    } else if b == 0x02 {
        0x2000
    } else if b == 0x03 {
        0x8000
    } else {
        0x00
    }
}

/// The size of cartridge RAM that the header byte `b` (at 0x149) announces:
/// 2 KB, 8 KB or 32 KB, and none for other values.
pub fn get_ram_size(b: u8) -> (n: usize)
    ensures
        n == spec_ram_size(b),
{
    match b {
        0x01 => 0x800,
        0x02 => 0x2000,
        0x03 => 0x8000,
        _ => 0x00,
    }
}

/// The memory bank controller of a cartridge.
pub enum MBC {
    MBC0(MBC0),
    MBC1(MBC1),
}

/// The state of a memory bank controller.
pub enum MbcView {
    MBC0 { rom: Seq<u8>, ram: Seq<u8> },
    MBC1(MBC1View),
}

impl MbcView {
    pub open spec fn wf(self) -> bool {
        match self {
            MbcView::MBC0 { .. } => true,
            MbcView::MBC1(m) => m.wf(),
        }
    }

    pub open spec fn read_rom_ok(self, addr: u16) -> bool {
        match self {
            MbcView::MBC0 { rom, .. } => addr < rom.len(),
            MbcView::MBC1(m) => m.read_rom_ok(addr),
        }
    }

    pub open spec fn read_rom_u8(self, addr: u16) -> u8 {
        match self {
            MbcView::MBC0 { rom, .. } => rom[addr as int],
            MbcView::MBC1(m) => m.read_rom_u8(addr),
        }
    }

    pub open spec fn read_rom16_ok(self, addr: u16) -> bool {
        match self {
            MbcView::MBC0 { rom, .. } => addr + 2 <= rom.len(),
            MbcView::MBC1(m) => m.read_rom16_ok(addr),
        }
    }

    pub open spec fn read_rom_u16(self, addr: u16) -> u16 {
        match self {
            MbcView::MBC0 { rom, .. } => le16(rom[addr as int], rom[addr + 1]),
            MbcView::MBC1(m) => m.read_rom_u16(addr),
        }
    }

    pub open spec fn read_ram_ok(self, addr: u16) -> bool {
        match self {
            MbcView::MBC0 { ram, .. } => addr < ram.len(),
            MbcView::MBC1(m) => m.read_ram_ok(addr),
        }
    }

    pub open spec fn read_ram_u8(self, addr: u16) -> u8 {
        match self {
            MbcView::MBC0 { ram, .. } => ram[addr as int],
            MbcView::MBC1(m) => m.read_ram_u8(addr),
        }
    }

    pub open spec fn read_ram16_ok(self, addr: u16) -> bool {
        match self {
            MbcView::MBC0 { ram, .. } => addr + 2 <= ram.len(),
            MbcView::MBC1(m) => m.read_ram16_ok(addr),
        }
    }

    pub open spec fn read_ram_u16(self, addr: u16) -> u16 {
        match self {
            MbcView::MBC0 { ram, .. } => le16(ram[addr as int], ram[addr + 1]),
            MbcView::MBC1(m) => m.read_ram_u16(addr),
        }
    }

    /// Without banking, a write to the ROM area stores the byte in the image,
    /// which must hold the address; MBC1 takes writes to 0x0000-0x7FFF.
    pub open spec fn write_rom_ok(self, addr: u16) -> bool {
        match self {
            MbcView::MBC0 { rom, .. } => addr < rom.len(),
            MbcView::MBC1(m) => addr <= 0x7FFF,
        }
    }

    pub open spec fn write_rom_u8(self, addr: u16, b: u8) -> MbcView {
        match self {
            MbcView::MBC0 { rom, ram } => MbcView::MBC0 { rom: rom.update(addr as int, b), ram },
            MbcView::MBC1(m) => MbcView::MBC1(m.write_rom_u8(addr, b)),
        }
    }

    pub open spec fn write_ram_ok(self, addr: u16) -> bool {
        match self {
            MbcView::MBC0 { ram, .. } => addr < ram.len(),
            MbcView::MBC1(m) => m.write_ram_ok(addr),
        }
    }

    pub open spec fn write_ram_u8(self, addr: u16, b: u8) -> MbcView {
        match self {
            MbcView::MBC0 { rom, ram } => MbcView::MBC0 { rom, ram: ram.update(addr as int, b) },
            MbcView::MBC1(m) => MbcView::MBC1(m.write_ram_u8(addr, b)),
        }
    }

    pub open spec fn write_ram16_ok(self, addr: u16) -> bool {
        match self {
            MbcView::MBC0 { ram, .. } => addr + 2 <= ram.len(),
            MbcView::MBC1(m) => m.write_ram16_ok(addr),
        }
    }

    pub open spec fn write_ram_u16(self, addr: u16, v: u16) -> MbcView {
        match self {
            MbcView::MBC0 { rom, ram } => MbcView::MBC0 {
                rom,
                ram: ram.update(addr as int, (v % 256) as u8).update(addr + 1, (v / 256) as u8),
            },
            MbcView::MBC1(m) => MbcView::MBC1(m.write_ram_u16(addr, v)),
        }
    }
}

impl View for MBC {
    type V = MbcView;

    open spec fn view(&self) -> MbcView {
        match self {
            MBC::MBC0(m) => MbcView::MBC0 { rom: m.rom@, ram: m.ram@ },
            MBC::MBC1(m) => MbcView::MBC1(m.view()),
        }
    }
}

impl MBC {
    pub fn read_ram_u8(&self, addr: u16) -> (b: u8)
        requires
            self@.wf(),
            self@.read_ram_ok(addr),
        ensures
            b == self@.read_ram_u8(addr),
    {
        match self {
            MBC::MBC0(m) => m.read_ram_u8(addr),
            MBC::MBC1(m) => m.read_ram_u8(addr),
        }
    }

    pub fn read_rom_u8(&self, addr: u16) -> (b: u8)
        requires
            self@.wf(),
            self@.read_rom_ok(addr),
        ensures
            b == self@.read_rom_u8(addr),
    {
        match self {
            MBC::MBC0(m) => m.read_rom_u8(addr),
            MBC::MBC1(m) => m.read_rom_u8(addr),
        }
    }

    pub fn read_ram_u16(&self, addr: u16) -> (v: u16)
        requires
            self@.wf(),
            self@.read_ram16_ok(addr),
        ensures
            v == self@.read_ram_u16(addr),
    {
        match self {
            MBC::MBC0(m) => m.read_ram_u16(addr),
            MBC::MBC1(m) => m.read_ram_u16(addr),
        }
    }

    pub fn read_rom_u16(&self, addr: u16) -> (v: u16)
        requires
            self@.wf(),
            self@.read_rom16_ok(addr),
        ensures
            v == self@.read_rom_u16(addr),
    {
        match self {
            MBC::MBC0(m) => m.read_rom_u16(addr),
            MBC::MBC1(m) => m.read_rom_u16(addr),
        }
    }

    /// Stores `b` in cartridge RAM, through the bank controller.
    pub fn write_ram_u8(&mut self, addr: u16, b: u8)
        requires
            old(self)@.write_ram_ok(addr),
        ensures
            final(self)@ == old(self)@.write_ram_u8(addr, b),
    {
        match self {
            MBC::MBC0(m) => m.write_ram_u8(addr, b),
            MBC::MBC1(m) => m.write_ram_u8(addr, b),
        }
    }

    /// A write to the ROM area: stored in the image without banking, a
    /// register setting for MBC1.
    pub fn write_rom_u8(&mut self, addr: u16, b: u8)
        requires
            old(self)@.wf(),
            old(self)@.write_rom_ok(addr),
        ensures
            final(self)@ == old(self)@.write_rom_u8(addr, b),
            final(self)@.wf(),
    {
        match self {
            MBC::MBC0(m) => m.write_rom_u8(addr, b),
            MBC::MBC1(m) => m.write_rom_u8(addr, b),
        }
    }

    pub fn write_ram_u16(&mut self, addr: u16, b: u16)
        requires
            old(self)@.write_ram16_ok(addr),
        ensures
            final(self)@ == old(self)@.write_ram_u16(addr, b),
    {
        match self {
            MBC::MBC0(m) => m.write_ram_u16(addr, b),
            MBC::MBC1(m) => m.write_ram_u16(addr, b),
        }
    }
}

impl MBC {
    /// Whether the byte at `addr` of the ROM area can be read.
    pub fn can_read_rom(&self, addr: u16) -> (b: bool)
        requires
            self@.wf(),
        ensures
            b == self@.read_rom_ok(addr),
    {
        match self {
            MBC::MBC0(m) => (addr as usize) < m.rom.len(),
            MBC::MBC1(m) => m.can_read_rom(addr),
        }
    }

    /// Whether the two bytes a 16-bit read at `addr` of the ROM area takes can be read.
    pub fn can_read_rom16(&self, addr: u16) -> (b: bool)
        requires
            self@.wf(),
        ensures
            b == self@.read_rom16_ok(addr),
    {
        match self {
            MBC::MBC0(m) => addr as usize + 2 <= m.rom.len(),
            MBC::MBC1(m) => m.can_read_rom16(addr),
        }
    }

    /// Whether the byte at `addr` of the RAM area can be read.
    pub fn can_read_ram(&self, addr: u16) -> (b: bool)
        requires
            self@.wf(),
        ensures
            b == self@.read_ram_ok(addr),
    {
        match self {
            MBC::MBC0(m) => (addr as usize) < m.ram.len(),
            MBC::MBC1(m) => m.can_read_ram(addr),
        }
    }

    /// Whether the two bytes a 16-bit read at `addr` of the RAM area takes can be read.
    pub fn can_read_ram16(&self, addr: u16) -> (b: bool)
        requires
            self@.wf(),
        ensures
            b == self@.read_ram16_ok(addr),
    {
        match self {
            MBC::MBC0(m) => addr as usize + 2 <= m.ram.len(),
            MBC::MBC1(m) => m.can_read_ram16(addr),
        }
    }

    /// Whether the controller takes a write at `addr` of the ROM area.
    pub fn can_write_rom(&self, addr: u16) -> (b: bool)
        ensures
            b == self@.write_rom_ok(addr),
    {
        match self {
            MBC::MBC0(m) => (addr as usize) < m.rom.len(),
            MBC::MBC1(_) => addr <= 0x7FFF,
        }
    }

    /// Whether a byte can be written at `addr` of the RAM area.
    pub fn can_write_ram(&self, addr: u16) -> (b: bool)
        ensures
            b == self@.write_ram_ok(addr),
    {
        match self {
            MBC::MBC0(m) => (addr as usize) < m.ram.len(),
            MBC::MBC1(m) => m.can_write_ram(addr),
        }
    }

    /// Whether a 16-bit value can be written at `addr` of the RAM area.
    pub fn can_write_ram16(&self, addr: u16) -> (b: bool)
        ensures
            b == self@.write_ram16_ok(addr),
    {
        match self {
            MBC::MBC0(m) => addr as usize + 2 <= m.ram.len(),
            MBC::MBC1(m) => m.can_write_ram16(addr),
        }
    }
}

} // verus!
