use vstd::prelude::*;

use crate::gameboy::mbc::mbc::{get_ram_size, spec_ram_size};
use crate::gameboy::memory::{le16, Memory};

verus! {

/// What a write to 0x4000-0x5FFF selects: the upper ROM bank bits or the RAM bank.
#[derive(PartialEq, Eq, Structural, Clone, Copy)]
pub enum BankMode {
    RomBanking,
    RamBanking,
}

/// Memory bank controller 1: switchable ROM banks at 0x4000-0x7FFF and RAM
/// banks at 0xA000-0xBFFF, selected by writes to the ROM area.
pub struct MBC1 {
    pub rom: Memory,
    pub ram: Memory,
    ram_enabled: bool,
    rom_bank: usize,
    ram_bank: usize,
    bank_mode: BankMode,
}

/// The state of an MBC1 controller.
pub struct MBC1View {
    pub rom: Seq<u8>,
    pub ram: Seq<u8>,
    pub ram_enabled: bool,
    pub rom_bank: usize,
    pub ram_bank: usize,
    pub bank_mode: BankMode,
}

impl MBC1View {
    /// The ROM bank has seven bits and the RAM bank two.
    pub open spec fn wf(self) -> bool {
        self.rom_bank <= 0x7F && self.ram_bank <= 0x03
    }

    /// The index into the ROM image of the byte at `addr`: bank 0 below
    /// 0x4000, the selected bank above.
    pub open spec fn rom_index(self, addr: u16) -> int {
        if addr < 0x4000 {
            addr as int
        } else {
            self.rom_bank * 0x4000 + (addr % 0x4000)
        }
    }

    /// The index into the RAM of the byte at `addr` of the RAM area, in the selected bank.
    pub open spec fn ram_index(self, addr: u16) -> int {
        self.ram_bank * 0x2000 + (addr % 0x2000)
    }

    pub open spec fn read_rom_ok(self, addr: u16) -> bool {
        self.rom_index(addr) < self.rom.len()
    }

    pub open spec fn read_rom_u8(self, addr: u16) -> u8 {
        self.rom[self.rom_index(addr)]
    }

    /// The index used by 16-bit reads, which offset into the bank by `addr - 0x4000`.
    pub open spec fn rom16_index(self, addr: u16) -> int {
        if addr < 0x4000 {
            addr as int
        } else {
            self.rom_bank * 0x4000 + (addr - 0x4000)
        }
    }

    pub open spec fn read_rom16_ok(self, addr: u16) -> bool {
        self.rom16_index(addr) + 1 < self.rom.len()
    }

    pub open spec fn read_rom_u16(self, addr: u16) -> u16 {
        le16(self.rom[self.rom16_index(addr)], self.rom[self.rom16_index(addr) + 1])
    }

    /// Reads of disabled RAM return all ones.
    pub open spec fn read_ram_ok(self, addr: u16) -> bool {
        self.ram_enabled ==> self.ram_index(addr) < self.ram.len()
    }

    pub open spec fn read_ram_u8(self, addr: u16) -> u8 {
        if !self.ram_enabled {
            0xFF
        } else {
            self.ram[self.ram_index(addr)]
        }
    }

    pub open spec fn read_ram16_ok(self, addr: u16) -> bool {
        self.ram_enabled ==> self.ram_index(addr) + 1 < self.ram.len()
    }

    pub open spec fn read_ram_u16(self, addr: u16) -> u16 {
        if !self.ram_enabled {
            0xFFFF
        } else {
            le16(self.ram[self.ram_index(addr)], self.ram[self.ram_index(addr) + 1])
        }
    }

    /// Writes to the ROM area set the controller's registers: RAM enable
    /// (0x0000-0x1FFF, enabled by 0x0A in the low nibble), the low five ROM
    /// bank bits (0x2000-0x3FFF, zero selecting one), the upper two ROM bank
    /// bits or the RAM bank (0x4000-0x5FFF, by bank mode), and the bank mode
    /// (0x6000-0x7FFF, bit 0).
    pub open spec fn write_rom_u8(self, addr: u16, b: u8) -> MBC1View {
        if addr <= 0x1FFF {
            MBC1View { ram_enabled: (b & 0x0F) == 0x0A, ..self }
        } else if addr <= 0x3FFF {
            let low = if b & 0x1F == 0x00 { 0x01u8 } else { b & 0x1F };
            MBC1View { rom_bank: (self.rom_bank & 0x60) | (low as usize), ..self }
        } else if addr <= 0x5FFF {
            if self.bank_mode == BankMode::RomBanking {
                MBC1View { rom_bank: (self.rom_bank & 0x1F) | (((b as usize) & 0x03) << 0x05), ..self }
            } else {
                MBC1View { ram_bank: (b as usize) & 0x03, ..self }
            }
        } else {
            MBC1View {
                bank_mode: if b & 0x01 == 0x01 { BankMode::RamBanking } else { BankMode::RomBanking },
                ..self
            }
        }
    }

    /// Writes to enabled RAM go to `addr` itself, whatever bank is selected.
    pub open spec fn write_ram_ok(self, addr: u16) -> bool {
        self.ram_enabled ==> addr < self.ram.len()
    }

    pub open spec fn write_ram_u8(self, addr: u16, b: u8) -> MBC1View {
        if self.ram_enabled {
            MBC1View { ram: self.ram.update(addr as int, b), ..self }
        } else {
            self
        }
    }

    pub open spec fn write_ram16_ok(self, addr: u16) -> bool {
        self.ram_enabled ==> addr + 2 <= self.ram.len()
    }

    pub open spec fn write_ram_u16(self, addr: u16, v: u16) -> MBC1View {
        if self.ram_enabled {
            MBC1View {
                ram: self.ram.update(addr as int, (v % 256) as u8).update(addr + 1, (v / 256) as u8),
                ..self
            }
        } else {
            self
        }
    }
}

proof fn lemma_rom_bank_index(bank: usize, addr: u16)
    requires
        bank <= 0x7F,
    ensures
        bank * 0x4000 <= 0x1FC000,
        ((bank * 0x4000) as usize) | ((addr as usize) & 0x3FFF) == bank * 0x4000 + addr % 0x4000,
{
    let p: usize = (bank * 0x4000) as usize;
    let a: usize = addr as usize;
    assert(bank <= 0x7F ==> (p == bank * 0x4000 ==> p | (a & 0x3FFF) == p + a % 0x4000)) by (bit_vector);
}

proof fn lemma_ram_bank_index(bank: usize, addr: u16)
    requires
        bank <= 0x03,
    ensures
        bank * 0x2000 <= 0x6000,
        ((bank * 0x2000) as usize) | ((addr as usize) & 0x1FFF) == bank * 0x2000 + addr % 0x2000,
{
    let p: usize = (bank * 0x2000) as usize;
    let a: usize = addr as usize;
    assert(bank <= 0x03 ==> (p == bank * 0x2000 ==> p | (a & 0x1FFF) == p + a % 0x2000)) by (bit_vector);
}

impl MBC1 {
    pub closed spec fn view(&self) -> MBC1View {
        MBC1View {
            rom: self.rom@,
            ram: self.ram@,
            ram_enabled: self.ram_enabled,
            rom_bank: self.rom_bank,
            ram_bank: self.ram_bank,
            bank_mode: self.bank_mode,
        }
    }

    /// A controller over a copy of `rom`, with RAM enabled, bank 0 selected in
    /// both areas and ROM banking mode, and as much RAM as the header byte at
    /// 0x149 gives.
    pub fn new(rom: &[u8]) -> (m: MBC1)
        requires
            rom@.len() > 0x149,
        ensures
            m.view() == (MBC1View {
                rom: rom@,
                ram: Seq::new(spec_ram_size(rom@[0x149]) as nat, |i: int| 0u8),
                ram_enabled: true,
                rom_bank: 0x00,
                ram_bank: 0x00,
                bank_mode: BankMode::RomBanking,
            }),
    {
        let mut r = Memory::new(rom.len());
        r.write_bytes(0x00, rom);
        assert(r@ =~= rom@);
        let ram_size = get_ram_size(rom[0x149]);
        let ram = Memory::new(ram_size);
        MBC1 {
            rom: r,
            ram: ram,
            ram_enabled: true,
            rom_bank: 0x00,
            ram_bank: 0x00,
            bank_mode: BankMode::RomBanking,
        }
    }

    pub fn read_ram_u8(&self, addr: u16) -> (b: u8)
        requires
            self.view().wf(),
            self.view().read_ram_ok(addr),
        ensures
            b == self.view().read_ram_u8(addr),
    {
        if !self.ram_enabled {
            return 0xFF;
        }
        proof {
            lemma_ram_bank_index(self.ram_bank, addr);
        }
        self.ram.byte_at((self.ram_bank * 0x2000) | ((addr as usize & 0x1FFF)))
    }

    pub fn read_rom_u8(&self, addr: u16) -> (b: u8)
        requires
            self.view().wf(),
            self.view().read_rom_ok(addr),
        ensures
            b == self.view().read_rom_u8(addr),
    {
        proof {
            lemma_rom_bank_index(self.rom_bank, addr);
        }
        let addr = if addr < 0x4000 {
            addr as usize
        } else {
            self.rom_bank * 0x4000 | (addr as usize & 0x3FFF)
        };
        self.rom.byte_at(addr)
    }

    pub fn read_ram_u16(&self, addr: u16) -> (v: u16)
        requires
            self.view().wf(),
            self.view().read_ram16_ok(addr),
        ensures
            v == self.view().read_ram_u16(addr),
    {
        if !self.ram_enabled {
            return 0xFFFF;
        }
        proof {
            lemma_ram_bank_index(self.ram_bank, addr);
        }
        let addr = (self.ram_bank * 0x2000) | ((addr as usize & 0x1FFF));

        let a = self.ram.byte_at(addr) as u16;
        let b = self.ram.byte_at(addr + 0x01) as u16;
        let result = (b << 0x08) | a;
        assert(result == le16(a as u8, b as u8)) by (bit_vector)
            requires
                result == (b << 0x08) | a,
                a <= 0xFF,
                b <= 0xFF,
        ;
        result
    }

    pub fn read_rom_u16(&self, addr: u16) -> (v: u16)
        requires
            self.view().wf(),
            self.view().read_rom16_ok(addr),
        ensures
            v == self.view().read_rom_u16(addr),
    {
        let addr = if addr < 0x4000 {
            addr as usize
        } else {
            self.rom_bank as usize * 0x4000 + (addr as usize - 0x4000)
        };
        let a = self.rom.byte_at(addr) as u16;
        let b = self.rom.byte_at(addr + 0x01) as u16;
        let result = (b << 0x08) | a;
        assert(result == le16(a as u8, b as u8)) by (bit_vector)
            requires
                result == (b << 0x08) | a,
                a <= 0xFF,
                b <= 0xFF,
        ;
        result
    }

    pub fn write_ram_u8(&mut self, addr: u16, b: u8)
        requires
            old(self).view().write_ram_ok(addr),
        ensures
            final(self).view() == old(self).view().write_ram_u8(addr, b),
    {
        if self.ram_enabled {
            self.ram.write_u8(addr, b)
        }
    }

    pub fn write_rom_u8(&mut self, addr: u16, b: u8)
        requires
            old(self).view().wf(),
            addr <= 0x7FFF,
        ensures
            final(self).view() == old(self).view().write_rom_u8(addr, b),
            final(self).view().wf(),
    {
        if addr <= 0x1FFF {
            self.ram_enabled = (b & 0x0F) == 0x0A;
        } else if addr <= 0x3FFF {
            assert(b & 0x1F <= 0x1F) by (bit_vector);
            let b = if b & 0x1F == 0x00 { 0x01 } else { b & 0x1F };
            let rb = self.rom_bank;
            assert((rb & 0x60) | (b as usize) <= 0x7F) by (bit_vector)
                requires
                    b <= 0x1F,
            ;
            self.rom_bank = (self.rom_bank & 0x60) | b as usize;
        } else if addr <= 0x5FFF {
            if let BankMode::RomBanking = self.bank_mode {
                let rb = self.rom_bank;
                assert((rb & 0x1F) | (((b as usize) & 0x03) << 0x05) <= 0x7F) by (bit_vector);
                self.rom_bank = self.rom_bank & 0x1F | (((b as usize) & 0x03) << 0x05);
            } else {
                assert(((b as usize) & 0x03) <= 0x03) by (bit_vector);
                self.ram_bank = (b as usize & 0x03);
            }
        } else {
            self.bank_mode = if b & 0x01 == 0x01 {
                BankMode::RamBanking
            } else {
                BankMode::RomBanking
            };
        }
    }

    pub fn write_ram_u16(&mut self, addr: u16, b: u16)
        requires
            old(self).view().write_ram16_ok(addr),
        ensures
            final(self).view() == old(self).view().write_ram_u16(addr, b),
    {
        if self.ram_enabled {
            self.ram.write_u16(addr, b)
        }
    }
}

/// A write to 0x2000-0x3FFF never selects ROM bank 0 in the low five bits,
/// and no write to the ROM area takes the banks out of range.
pub proof fn lemma_rom_bank_never_zero_low_bits(m: MBC1View, addr: u16, b: u8)
    requires
        m.wf(),
        0x2000 <= addr <= 0x3FFF,
    ensures
        m.write_rom_u8(addr, b).rom_bank & 0x1F != 0,
        m.write_rom_u8(addr, b).wf(),
{
    let rb = m.rom_bank;
    let low: u8 = if b & 0x1F == 0x00 { 0x01u8 } else { b & 0x1F };
    assert(low != 0 && low <= 0x1F) by (bit_vector)
        requires
            low == (if b & 0x1F == 0x00 { 0x01u8 } else { b & 0x1F }),
    ;
    assert(low != 0 && low <= 0x1F ==> ((rb & 0x60) | (low as usize)) & 0x1F != 0 && ((rb & 0x60) | (
    low as usize)) <= 0x7F) by (bit_vector);
}

/// The controller's registers as the ROM-area writes set them: 0x0000-0x1FFF
/// enables the RAM exactly when the low nibble is 0xA; 0x2000-0x3FFF sets the
/// five low bits of the ROM bank to those of the byte, 0 counting as 1, and
/// keeps the upper two; 0x4000-0x5FFF sets the upper two ROM bank bits in ROM
/// banking mode, the RAM bank in RAM banking mode, from the byte's two low
/// bits; 0x6000-0x7FFF picks RAM banking mode exactly when bit 0 is set. The
/// ROM and the RAM are kept, and a read at 0x4000-0x7FFF then comes from the
/// bank selected.
pub proof fn lemma_bank_registers(m: MBC1View, addr: u16, b: u8)
    requires
        m.wf(),
        addr <= 0x7FFF,
    ensures
        ({
            let m2 = m.write_rom_u8(addr, b);
            &&& m2.rom == m.rom && m2.ram == m.ram
            &&& addr <= 0x1FFF ==> m2 == (MBC1View { ram_enabled: b % 16 == 10, ..m })
            &&& 0x2000 <= addr <= 0x3FFF ==> m2 == (MBC1View {
                rom_bank: ((m.rom_bank / 32) * 32 + (if b % 32 == 0 { 1 } else { b % 32 })) as usize,
                ..m
            })
            &&& (0x4000 <= addr <= 0x5FFF && m.bank_mode == BankMode::RomBanking) ==> m2 == (MBC1View {
                rom_bank: ((b % 4) * 32 + m.rom_bank % 32) as usize,
                ..m
            })
            &&& (0x4000 <= addr <= 0x5FFF && m.bank_mode == BankMode::RamBanking) ==> m2 == (MBC1View {
                ram_bank: (b % 4) as usize,
                ..m
            })
            &&& 0x6000 <= addr ==> m2 == (MBC1View {
                bank_mode: if b % 2 == 1 { BankMode::RamBanking } else { BankMode::RomBanking },
                ..m
            })
            &&& forall|a: u16|
                0x4000 <= a <= 0x7FFF ==> #[trigger] m2.read_rom_u8(a) == m.rom[m2.rom_bank * 0x4000 + (a
                    - 0x4000)]
        }),
{
    let rb = m.rom_bank;
    let low: usize = if b % 32 == 0 { 1 } else { (b % 32) as usize };
    let bu: usize = b as usize;
    assert((b & 0x0F == 0x0A) == (b % 16 == 10) && b & 0x1F == b % 32 && (b & 0x01 == 0x01 <==> b % 2
        == 1) && (rb <= 0x7F && 1 <= low <= 0x1F ==> (rb & 0x60) | low == (rb / 32) * 32 + low) && (rb
        <= 0x7F ==> (rb & 0x1F) | ((bu & 0x03) << 0x05) == (bu % 4) * 32 + rb % 32) && bu & 0x03 == bu
        % 4) by (bit_vector);
}

impl MBC1 {
    /// Whether the byte at `addr` of the ROM area lies in the image.
    pub fn can_read_rom(&self, addr: u16) -> (b: bool)
        requires
            self.view().wf(),
        ensures
            b == self.view().read_rom_ok(addr),
    {
        let i: usize = if addr < 0x4000 {
            addr as usize
        } else {
            self.rom_bank * 0x4000 + (addr % 0x4000) as usize
        };
        i < self.rom.len()
    }

    /// Whether the two bytes a 16-bit read at `addr` takes lie in the image.
    pub fn can_read_rom16(&self, addr: u16) -> (b: bool)
        requires
            self.view().wf(),
        ensures
            b == self.view().read_rom16_ok(addr),
    {
        let i: usize = if addr < 0x4000 {
            addr as usize
        } else {
            self.rom_bank * 0x4000 + (addr - 0x4000) as usize
        };
        i + 1 < self.rom.len()
    }

    /// Whether the byte at `addr` of the RAM area can be read.
    pub fn can_read_ram(&self, addr: u16) -> (b: bool)
        requires
            self.view().wf(),
        ensures
            b == self.view().read_ram_ok(addr),
    {
        !self.ram_enabled || self.ram_bank * 0x2000 + ((addr % 0x2000) as usize) < self.ram.len()
    }

    /// Whether the two bytes a 16-bit read at `addr` of the RAM area takes can be read.
    pub fn can_read_ram16(&self, addr: u16) -> (b: bool)
        requires
            self.view().wf(),
        ensures
            b == self.view().read_ram16_ok(addr),
    {
        !self.ram_enabled || self.ram_bank * 0x2000 + (addr % 0x2000) as usize + 1 < self.ram.len()
    }

    /// Whether a byte can be written at `addr` of the RAM area.
    pub fn can_write_ram(&self, addr: u16) -> (b: bool)
        ensures
            b == self.view().write_ram_ok(addr),
    {
        !self.ram_enabled || (addr as usize) < self.ram.len()
    }

    /// Whether a 16-bit value can be written at `addr` of the RAM area.
    pub fn can_write_ram16(&self, addr: u16) -> (b: bool)
        ensures
            b == self.view().write_ram16_ok(addr),
    {
        !self.ram_enabled || addr as usize + 2 <= self.ram.len()
    }
}

/// With bank 0 of RAM selected and RAM enabled, reading a byte of RAM gives
/// what was last written there.
pub proof fn lemma_ram_write_read(m: MBC1View, addr: u16, b: u8)
    requires
        m.ram_enabled,
        m.ram_bank == 0,
        addr < m.ram.len(),
        addr < 0x2000,
    ensures
        m.write_ram_u8(addr, b).read_ram_u8(addr) == b,
{
}

} // verus!
