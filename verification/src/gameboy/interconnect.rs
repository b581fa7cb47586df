use vstd::prelude::*;

use crate::gameboy::cartridge::{Cartridge, CartridgeDetails, CartridgeView};
use crate::gameboy::gfx::frame::Frame;
use crate::gameboy::gfx::gpu::{Gpu, GpuView};
use crate::gameboy::irq::{Interrupt, Irq};
use crate::gameboy::joypad::{Joypad, JoypadButton};
use crate::gameboy::mbc::MbcView;
use crate::gameboy::memory::{le16, Memory};
use crate::gameboy::memory_map::{self, spec_map_address, Address};
use crate::gameboy::timer::Timer;

verus! {

/// Bytes of work RAM.
pub const MAIN_MEM_SIZE: usize = 0x2000;

/// Bytes of high RAM.
pub const ZRAM_SIZE: usize = 0x80;

/// Bytes of the I/O register block.
pub const MMAP_SIZE: usize = 0x80;

/// Bytes of the unused area between sprite memory and the I/O registers.
pub const UNUSED_SIZE: usize = 0x60;

/// The memory bus: it routes each address to the boot program, the cartridge,
/// video RAM, work RAM, sprite memory, the I/O registers (joypad, timer,
/// interrupts, LCD) or high RAM.
pub struct Interconnect {
    pub booting: bool,
    pub boot_rom: Memory,
    pub gpu: Gpu,
    pub ram: Memory,
    pub zram: Memory,
    pub mmap_io: Memory,
    pub unused_memory: Memory,
    pub timer: Timer,
    pub irq: Irq,
    pub cart: Option<Cartridge>,
    pub interrupt: u8,
    pub joypad: Joypad,
}

/// The state of the bus and of everything behind it.
pub struct InterconnectView {
    pub booting: bool,
    pub boot_rom: Seq<u8>,
    pub gpu: GpuView,
    pub ram: Seq<u8>,
    pub zram: Seq<u8>,
    pub mmap_io: Seq<u8>,
    pub unused_memory: Seq<u8>,
    pub timer: Timer,
    pub irq: Irq,
    pub cart: Option<CartridgeView>,
    pub interrupt: u8,
    pub joypad: Joypad,
}

impl View for Interconnect {
    type V = InterconnectView;

    open spec fn view(&self) -> InterconnectView {
        InterconnectView {
            booting: self.booting,
            boot_rom: self.boot_rom@,
            gpu: self.gpu@,
            ram: self.ram@,
            zram: self.zram@,
            mmap_io: self.mmap_io@,
            unused_memory: self.unused_memory@,
            timer: self.timer,
            irq: self.irq,
            cart: match self.cart {
                Some(c) => Some(c@),
                None => None,
            },
            interrupt: self.interrupt,
            joypad: self.joypad,
        }
    }
}

/// The I/O registers that can be read: joypad, serial, timer, interrupt
/// request, sound, wave RAM, LCD and 0xFF7F.
pub open spec fn io_read_ok(a: u16) -> bool {
    a == 0x00 || (0x01 <= a <= 0x02) || (0x04 <= a <= 0x07) || a == 0x0F || (0x10 <= a <= 0x26) || (
    0x30 <= a <= 0x3F) || GpuView::register_ok(a) || a == 0x7F
}

/// The I/O registers that can be written: those that can be read, and 0xFF50,
/// which ends the boot program.
pub open spec fn io_write_ok(a: u16) -> bool {
    io_read_ok(a) || a == 0x50
}

/// The program that stands in for the boot ROM: `LD A, $01; LD ($FF00+$50), A`,
/// which ends the boot phase at once.
pub open spec fn boot_stub() -> Seq<u8> {
    seq![0x3Eu8, 0x01u8, 0xE0u8, 0x50u8]
}

impl InterconnectView {
    /// The memories have their sizes and the parts behind the bus their invariants.
    pub open spec fn wf(self) -> bool {
        &&& self.ram.len() == MAIN_MEM_SIZE
        &&& self.zram.len() == ZRAM_SIZE
        &&& self.mmap_io.len() == MMAP_SIZE
        &&& self.unused_memory.len() == UNUSED_SIZE
        &&& self.gpu.wf()
        &&& self.timer.wf()
        &&& self.joypad.cycles < 0x10000
        &&& (self.cart matches Some(c) ==> c.mbc.wf())
    }

    pub open spec fn mbc(self) -> MbcView {
        self.cart->0.mbc
    }

    /// Whether the byte at `addr` can be read: a cartridge must be inserted,
    /// the boot program or controller must hold the address, and I/O reads must
    /// hit a readable register.
    pub open spec fn read_ok(self, addr: u16) -> bool {
        &&& self.cart is Some
        &&& match spec_map_address(addr) {
            Address::CartRom(a) => if self.booting {
                a < self.boot_rom.len()
            } else {
                self.mbc().read_rom_ok(a)
            },
            Address::CartRam(a) => self.mbc().read_ram_ok(a),
            Address::Io(a) => io_read_ok(a),
            _ => true,
        }
    }

    /// The byte at `addr` as the CPU sees it. The unused area reads as 0xFF, the
    /// serial, sound and wave registers as zero.
    pub open spec fn read_u8(self, addr: u16) -> u8 {
        match spec_map_address(addr) {
            Address::Ram(a) => self.ram[a as int],
            Address::RamShadow(a) => self.ram[a as int],
            Address::CartRom(a) => if self.booting {
                self.boot_rom[a as int]
            } else {
                self.mbc().read_rom_u8(a)
            },
            Address::Gfx(a) => self.gpu.ram[a as int],
            Address::CartRam(a) => self.mbc().read_ram_u8(a),
            Address::ZRam(a) => self.zram[a as int],
            Address::Oam(a) => self.gpu.sprite_data[a as int],
            Address::Unused(_) => 0xFF,
            Address::Io(a) => if a == 0x00 {
                self.joypad.data
            } else if 0x04 <= a <= 0x07 {
                self.timer.spec_read_u8(a)
            } else if a == 0x0F {
                self.irq.request_flag
            } else if GpuView::register_ok(a) {
                self.gpu.read_u8(a)
            } else if a == 0x7F {
                self.mmap_io[a as int]
            } else {
                0
            },
            _ => self.irq.enable_flag,
        }
    }

    /// Whether the 16-bit value at `addr` can be read: the regions that take
    /// such reads are RAM, its shadow, the cartridge, video RAM, high RAM and
    /// the I/O block, and both bytes must lie in the region.
    pub open spec fn read16_ok(self, addr: u16) -> bool {
        &&& self.cart is Some
        &&& match spec_map_address(addr) {
            Address::Ram(a) => a + 2 <= MAIN_MEM_SIZE,
            Address::RamShadow(a) => a + 2 <= MAIN_MEM_SIZE,
            Address::CartRom(a) => if self.booting {
                a + 2 <= self.boot_rom.len()
            } else {
                self.mbc().read_rom16_ok(a)
            },
            Address::Gfx(a) => true,
            Address::CartRam(a) => self.mbc().read_ram16_ok(a),
            Address::ZRam(a) => a + 2 <= ZRAM_SIZE,
            Address::Io(a) => a + 2 <= MMAP_SIZE,
            _ => false,
        }
    }

    /// The little-endian 16-bit value at `addr`; in the I/O block it comes from
    /// the raw register memory.
    pub open spec fn read_u16(self, addr: u16) -> u16 {
        match spec_map_address(addr) {
            Address::Ram(a) => le16(self.ram[a as int], self.ram[a + 1]),
            Address::RamShadow(a) => le16(self.ram[a as int], self.ram[a + 1]),
            Address::CartRom(a) => if self.booting {
                le16(self.boot_rom[a as int], self.boot_rom[a + 1])
            } else {
                self.mbc().read_rom_u16(a)
            },
            Address::Gfx(a) => le16(self.gpu.ram[a as int], self.gpu.ram[a + 1]),
            Address::CartRam(a) => self.mbc().read_ram_u16(a),
            Address::ZRam(a) => le16(self.zram[a as int], self.zram[a + 1]),
            _ => le16(self.mmap_io[addr as int - 0xFF00], self.mmap_io[addr as int - 0xFF00 + 1]),
        }
    }

    /// The first address that a DMA transfer started with `byte` copies from.
    pub open spec fn dma_source(byte: u8) -> u16 {
        (byte as int * 0x100) as u16
    }

    /// Whether a write of `byte` to `addr` can be done. Writing 0xFF46 starts a
    /// DMA transfer, which must be able to read all 160 bytes it copies.
    pub open spec fn write_ok(self, addr: u16, byte: u8) -> bool {
        &&& self.cart is Some
        &&& if addr == 0xFF46 {
            self.dma_ok(byte)
        } else {
            match spec_map_address(addr) {
                Address::CartRam(a) => self.mbc().write_ram_ok(a),
                Address::CartRom(a) => self.mbc().write_rom_ok(a),
                Address::Io(a) => io_write_ok(a),
                _ => true,
            }
        }
    }

    /// Whether every byte that a DMA transfer started with `byte` copies can be read.
    #[verifier::opaque]
    pub open spec fn dma_ok(self, byte: u8) -> bool {
        forall|x: int| 0 <= x < 0xA0 ==> #[trigger] self.read_ok((Self::dma_source(byte) + x) as u16)
    }

    pub open spec fn with_mbc(self, m: MbcView) -> InterconnectView {
        InterconnectView { cart: Some(CartridgeView { mbc: m, ..self.cart->0 }), ..self }
    }

    pub open spec fn with_gpu(self, g: GpuView) -> InterconnectView {
        InterconnectView { gpu: g, ..self }
    }

    pub open spec fn with_irq(self, irq: Irq) -> InterconnectView {
        InterconnectView { irq, ..self }
    }

    /// A write to an I/O register.
    pub open spec fn write_io(self, a: u16, byte: u8) -> InterconnectView {
        if a == 0x00 {
            let (j, irq) = self.joypad.spec_from_u8(byte, self.irq);
            InterconnectView { joypad: j, irq, ..self }
        } else if 0x04 <= a <= 0x07 {
            InterconnectView { timer: self.timer.spec_write_u8(a, byte), ..self }
        } else if a == 0x0F {
            self.with_irq(Irq { request_flag: byte, ..self.irq })
        } else if GpuView::register_ok(a) {
            self.with_gpu(self.gpu.write_u8(a, byte))
        } else if a == 0x50 {
            if self.booting {
                InterconnectView { booting: false, irq: self.irq.spec_request(Interrupt::LoadGame), ..self }
            } else {
                InterconnectView { mmap_io: self.mmap_io.update(a as int, byte), ..self }
            }
        } else if a == 0x7F {
            InterconnectView { mmap_io: self.mmap_io.update(a as int, byte), ..self }
        } else {
            self
        }
    }

    /// A write of `byte` to `addr` outside the DMA register. Writes to the
    /// shadow of work RAM go to work RAM, writes to the ROM area go to the bank
    /// controller, writes to the unused area are dropped.
    pub open spec fn write_mapped(self, addr: u16, byte: u8) -> InterconnectView {
        match spec_map_address(addr) {
            Address::Ram(a) => InterconnectView { ram: self.ram.update(a as int, byte), ..self },
            Address::RamShadow(a) => InterconnectView { ram: self.ram.update(a as int, byte), ..self },
            Address::Gfx(a) => self.with_gpu(GpuView { ram: self.gpu.ram.update(a as int, byte), ..self.gpu }),
            Address::CartRam(a) => self.with_mbc(self.mbc().write_ram_u8(a, byte)),
            Address::CartRom(a) => self.with_mbc(self.mbc().write_rom_u8(a, byte)),
            Address::ZRam(a) => InterconnectView { zram: self.zram.update(a as int, byte), ..self },
            Address::Oam(a) => self.with_gpu(
                GpuView { sprite_data: self.gpu.sprite_data.update(a as int, byte), ..self.gpu },
            ),
            Address::Unused(_) => self,
            Address::Io(a) => self.write_io(a, byte),
            _ => self.with_irq(Irq { enable_flag: byte, ..self.irq }),
        }
    }

    /// The first `n` steps of a DMA transfer from `Self::dma_source(byte)`: byte
    /// `x` of the source is read and written to sprite memory at `x`, in order.
    pub open spec fn dma(self, byte: u8, n: nat) -> InterconnectView
        decreases n,
    {
        if n == 0 {
            self
        } else {
            let s = self.dma(byte, (n - 1) as nat);
            let x = n - 1;
            let v = s.read_u8((Self::dma_source(byte) + x) as u16);
            s.with_gpu(GpuView { sprite_data: s.gpu.sprite_data.update(x, v), ..s.gpu })
        }
    }

    /// A write of `byte` to `addr`; writing 0xFF46 copies 160 bytes from
    /// `byte * 0x100` to sprite memory.
    #[verifier::opaque]
    pub open spec fn write_u8(self, addr: u16, byte: u8) -> InterconnectView {
        if addr == 0xFF46 {
            self.dma(byte, 0xA0)
        } else {
            self.write_mapped(addr, byte)
        }
    }

    /// Whether a 16-bit write to `addr` can be done: the regions that take
    /// such writes are cartridge RAM, video RAM, the I/O block, sprite memory,
    /// work RAM, its shadow, the unused area and high RAM, with both bytes in
    /// the region.
    pub open spec fn write16_ok(self, addr: u16) -> bool {
        &&& self.cart is Some
        &&& match spec_map_address(addr) {
            Address::CartRam(a) => self.mbc().write_ram16_ok(a),
            Address::Gfx(a) => true,
            Address::Io(a) => a + 2 <= MMAP_SIZE,
            Address::Oam(a) => a + 2 <= 0xA0,
            Address::Ram(a) => a + 2 <= MAIN_MEM_SIZE,
            Address::RamShadow(a) => a + 2 <= MAIN_MEM_SIZE,
            Address::Unused(a) => a + 2 <= UNUSED_SIZE,
            Address::ZRam(a) => a + 2 <= ZRAM_SIZE,
            _ => false,
        }
    }

    /// A 16-bit write, low byte first; in the I/O block it goes to the raw
    /// register memory.
    pub open spec fn write_u16(self, addr: u16, val: u16) -> InterconnectView {
        let lo = (val % 256) as u8;
        let hi = (val / 256) as u8;
        match spec_map_address(addr) {
            Address::CartRam(a) => self.with_mbc(self.mbc().write_ram_u16(a, val)),
            Address::Gfx(a) => self.with_gpu(self.gpu.write_u16(a, val)),
            Address::Io(a) => InterconnectView {
                mmap_io: self.mmap_io.update(a as int, lo).update(a + 1, hi),
                ..self
            },
            Address::Oam(a) => self.with_gpu(
                GpuView { sprite_data: self.gpu.sprite_data.update(a as int, lo).update(a + 1, hi), ..self.gpu },
            ),
            Address::Ram(a) => InterconnectView { ram: self.ram.update(a as int, lo).update(a + 1, hi), ..self },
            Address::RamShadow(a) => InterconnectView {
                ram: self.ram.update(a as int, lo).update(a + 1, hi),
                ..self
            },
            Address::Unused(a) => InterconnectView {
                unused_memory: self.unused_memory.update(a as int, lo).update(a + 1, hi),
                ..self
            },
            _ => InterconnectView { zram: self.zram.update(addr as int - 0xFF80, lo).update(addr as int - 0xFF80 + 1, hi), ..self },
        }
    }

    /// Whether `cycles` more cycles can be run.
    pub open spec fn step_ok(self, cycles: usize) -> bool {
        &&& cycles <= usize::MAX - 0x10000
        &&& self.gpu.step_ok(cycles)
    }

    /// The bus after `cycles` more cycles: the picture unit, then the timer,
    /// then the joypad, each of which may request interrupts.
    pub open spec fn step(self, cycles: usize) -> InterconnectView {
        let (g, irq1) = self.gpu.step(self.irq, cycles);
        let (t, irq2) = self.timer.spec_step(irq1, cycles);
        let (j, irq3) = self.joypad.spec_step(irq2, cycles);
        InterconnectView { gpu: g, timer: t, joypad: j, irq: irq3, ..self }
    }

    /// The bus at power-on with `cart` inserted: booting, zeroed memories and
    /// the parts behind the bus as new.
    pub open spec fn power_on(cart: Option<CartridgeView>) -> InterconnectView {
        InterconnectView {
            booting: true,
            boot_rom: boot_stub(),
            gpu: Gpu::spec_new(),
            ram: Seq::new(MAIN_MEM_SIZE as nat, |i: int| 0u8),
            zram: Seq::new(ZRAM_SIZE as nat, |i: int| 0u8),
            mmap_io: Seq::new(MMAP_SIZE as nat, |i: int| 0u8),
            unused_memory: Seq::new(UNUSED_SIZE as nat, |i: int| 0u8),
            timer: Timer::spec_new(),
            irq: Irq::spec_new(),
            cart,
            interrupt: 0,
            joypad: Joypad::spec_new(),
        }
    }

    /// The bus after a reset: booting again, with the picture unit, timer and
    /// interrupt registers as at power-on.
    pub open spec fn reset(self) -> InterconnectView {
        InterconnectView {
            booting: true,
            gpu: Gpu::spec_new(),
            timer: Timer::spec_new(),
            irq: Irq::spec_new(),
            ..self
        }
    }
}

proof fn lemma_dma_frame(v: InterconnectView, byte: u8, n: nat)
    requires
        v.wf(),
        n <= 0xA0,
    ensures
        v.dma(byte, n).wf(),
        v.dma(byte, n) == (InterconnectView {
            gpu: GpuView { sprite_data: v.dma(byte, n).gpu.sprite_data, ..v.gpu },
            ..v
        }),
        forall|a: u16| #[trigger] v.dma(byte, n).read_ok(a) == v.read_ok(a),
    decreases n,
{
    if n > 0 {
        lemma_dma_frame(v, byte, (n - 1) as nat);
    }
}

/// Whether `addr` lies in memory that keeps what is written: video RAM, work
/// RAM, its shadow, sprite memory or high RAM.
pub open spec fn plain_memory(addr: u16) -> bool {
    (0x8000 <= addr <= 0x9FFF) || (0xC000 <= addr <= 0xFDFF) || (0xFE00 <= addr <= 0xFE9F) || (0xFF80
        <= addr <= 0xFFFE)
}

/// The cell behind `addr`: the shadow of work RAM is work RAM.
pub open spec fn memory_cell(addr: u16) -> int {
    if 0xE000 <= addr <= 0xFDFF {
        addr - 0x2000
    } else {
        addr as int
    }
}

/// A byte written to memory that keeps it is what a read of the same cell
/// (through the shadow of work RAM too) gives back; reads of the other cells
/// give what they gave before.
pub proof fn lemma_write_read(m: InterconnectView, addr: u16, b: u8, other: u16)
    requires
        m.wf(),
        m.cart is Some,
        plain_memory(addr),
        plain_memory(other),
    ensures
        m.write_u8(addr, b).read_u8(other) == if memory_cell(other) == memory_cell(addr) {
            b
        } else {
            m.read_u8(other)
        },
{
    reveal(InterconnectView::write_u8);
    memory_map::lemma_map_address_partition(addr);
    memory_map::lemma_map_address_partition(other);
}

/// Whether a 16-bit value written at `addr` is read back there: both
/// accesses can be made and, in cartridge RAM, the bank controller stores
/// and reads at the same place (no banking, or MBC1 with RAM enabled and bank
/// 0 selected).
pub open spec fn reads_back16(m: InterconnectView, addr: u16) -> bool {
    &&& m.write16_ok(addr)
    &&& m.read16_ok(addr)
    &&& 0xA000 <= addr <= 0xBFFF ==> match m.mbc() {
        MbcView::MBC0 { .. } => true,
        MbcView::MBC1(b) => b.ram_enabled && b.ram_bank == 0,
    }
}

/// A 16-bit value written where it reads back is what a 16-bit read at the
/// same address gives, and that read can still be made.
pub proof fn lemma_write16_read16(m: InterconnectView, addr: u16, v: u16)
    requires
        m.wf(),
        reads_back16(m, addr),
    ensures
        m.write_u16(addr, v).read16_ok(addr),
        m.write_u16(addr, v).read_u16(addr) == v,
{
    memory_map::lemma_map_address_partition(addr);
}

/// The I/O registers sit at their hardware addresses: P1 (joypad) at
/// 0xFF00, DIV, TIMA, TMA and TAC at 0xFF04-0xFF07, IF at 0xFF0F, the LCD
/// registers at 0xFF40-0xFF4B (LCDC, STAT, SCY, SCX, LY, LYC, then BGP,
/// OBP0, OBP1, WY, WX from 0xFF47), and IE at 0xFFFF. Writes go to the same
/// registers: P1 selects the button groups, DIV-TAC are the timer's, LCDC and
/// STAT the picture unit's, IF and IE set the request and enable registers,
/// and SCY, SCX, LYC, the palettes and WY, WX take the value.
pub proof fn lemma_io_registers(m: InterconnectView, v: u8)
    ensures
        m.read_u8(0xFF00) == m.joypad.data,
        m.read_u8(0xFF04) == m.timer.div() as u8,
        m.read_u8(0xFF05) == m.timer.tima(),
        m.read_u8(0xFF06) == m.timer.tma(),
        m.read_u8(0xFF07) == m.timer.tac(),
        m.read_u8(0xFF0F) == m.irq.request_flag,
        m.read_u8(0xFFFF) == m.irq.enable_flag,
        m.read_u8(0xFF40) == m.gpu.control_register,
        m.read_u8(0xFF42) == m.gpu.scroll_y,
        m.read_u8(0xFF43) == m.gpu.scroll_x,
        m.read_u8(0xFF44) == m.gpu.ly,
        m.read_u8(0xFF45) == m.gpu.lyc,
        m.read_u8(0xFF47) == m.gpu.bg_palette,
        m.read_u8(0xFF48) == m.gpu.palette0,
        m.read_u8(0xFF49) == m.gpu.palette1,
        m.read_u8(0xFF4A) == m.gpu.window_y,
        m.read_u8(0xFF4B) == m.gpu.window_x,
        m.write_u8(0xFF00, v) == (InterconnectView {
            joypad: m.joypad.spec_from_u8(v, m.irq).0,
            irq: m.joypad.spec_from_u8(v, m.irq).1,
            ..m
        }),
        m.write_u8(0xFF04, v) == (InterconnectView { timer: m.timer.spec_write_u8(0x04, v), ..m }),
        m.write_u8(0xFF05, v) == (InterconnectView { timer: m.timer.spec_write_u8(0x05, v), ..m }),
        m.write_u8(0xFF06, v) == (InterconnectView { timer: m.timer.spec_write_u8(0x06, v), ..m }),
        m.write_u8(0xFF07, v) == (InterconnectView { timer: m.timer.spec_write_u8(0x07, v), ..m }),
        m.write_u8(0xFF40, v) == m.with_gpu(m.gpu.write_control(v)),
        m.write_u8(0xFF41, v) == m.with_gpu(m.gpu.write_u8(0x41, v)),
        m.write_u8(0xFF0F, v) == m.with_irq(Irq { request_flag: v, ..m.irq }),
        m.write_u8(0xFFFF, v) == m.with_irq(Irq { enable_flag: v, ..m.irq }),
        m.write_u8(0xFF42, v) == m.with_gpu(GpuView { scroll_y: v, ..m.gpu }),
        m.write_u8(0xFF43, v) == m.with_gpu(GpuView { scroll_x: v, ..m.gpu }),
        m.write_u8(0xFF45, v) == m.with_gpu(GpuView { lyc: v, ..m.gpu }),
        m.write_u8(0xFF47, v) == m.with_gpu(GpuView { bg_palette: v, ..m.gpu }),
        m.write_u8(0xFF48, v) == m.with_gpu(GpuView { palette0: v, ..m.gpu }),
        m.write_u8(0xFF49, v) == m.with_gpu(GpuView { palette1: v, ..m.gpu }),
        m.write_u8(0xFF4A, v) == m.with_gpu(GpuView { window_y: v, ..m.gpu }),
        m.write_u8(0xFF4B, v) == m.with_gpu(GpuView { window_x: v, ..m.gpu }),
{
    reveal(InterconnectView::write_u8);
}

/// A write of `byte` to 0xFF46 copies the 160 bytes from `byte * 0x100` on,
/// as they read before the copy, to sprite memory (0xFE00-0xFE9F), and
/// changes nothing else.
pub proof fn lemma_dma_copies(m: InterconnectView, byte: u8)
    requires
        m.wf(),
    ensures
        ({
            let m2 = m.write_u8(0xFF46, byte);
            &&& m2 == m.with_gpu(GpuView { sprite_data: m2.gpu.sprite_data, ..m.gpu })
            &&& m2.gpu.sprite_data.len() == 0xA0
            &&& forall|x: int|
                0 <= x < 0xA0 ==> #[trigger] m2.gpu.sprite_data[x] == m.read_u8((byte as int * 0x100 + x) as u16)
        }),
{
    reveal(InterconnectView::write_u8);
    lemma_dma_prefix(m, byte, 0xA0);
    lemma_dma_frame(m, byte, 0xA0);
}

proof fn lemma_dma_prefix(m: InterconnectView, byte: u8, n: nat)
    requires
        m.wf(),
        n <= 0xA0,
    ensures
        forall|x: int|
            0 <= x < 0xA0 ==> #[trigger] m.dma(byte, n).gpu.sprite_data[x] == if x < n {
                m.read_u8((byte as int * 0x100 + x) as u16)
            } else {
                m.gpu.sprite_data[x]
            },
    decreases n,
{
    if n > 0 {
        lemma_dma_prefix(m, byte, (n - 1) as nat);
        lemma_dma_frame(m, byte, (n - 1) as nat);
        let s = m.dma(byte, (n - 1) as nat);
        let x = n - 1;
        let a = (InterconnectView::dma_source(byte) + x) as u16;
        assert(a == (byte as int * 0x100 + x) as u16);
        memory_map::lemma_map_address_partition(a);
        assert(s.read_u8(a) == m.read_u8(a));
    }
}

impl Interconnect {
    /// The program run while booting.
    fn init_boot_rom() -> (m: Memory)
        ensures
            m@ == boot_stub(),
    {
        let mut mem = Memory::new(0x04);
        mem.write_u8(0, 0x3E);
        mem.write_u8(1, 0x01);
        mem.write_u8(2, 0xE0);
        mem.write_u8(3, 0x50);
        assert(mem@ =~= boot_stub());
        mem
    }

    /// A bus without a cartridge, booting, with zeroed memories.
    pub fn new() -> (ic: Interconnect)
        ensures
            ic@.wf(),
            ic@ == InterconnectView::power_on(None),
    {
        Interconnect {
            booting: true,
            boot_rom: Self::init_boot_rom(),
            gpu: Gpu::new(),
            ram: Memory::new(MAIN_MEM_SIZE),
            zram: Memory::new(ZRAM_SIZE),
            mmap_io: Memory::new(MMAP_SIZE),
            unused_memory: Memory::new(UNUSED_SIZE),
            timer: Timer::new(),
            irq: Irq::new(),
            cart: None,
            interrupt: 0x00,
            joypad: Joypad::new(),
        }
    }

    /// A bus with `cart` inserted, booting, with zeroed memories.
    pub fn with_cart(cart: Cartridge) -> (ic: Interconnect)
        requires
            cart@.mbc.wf(),
        ensures
            ic@.wf(),
            ic@ == InterconnectView::power_on(Some(cart@)),
    {
        Interconnect {
            booting: true,
            boot_rom: Self::init_boot_rom(),
            gpu: Gpu::new(),
            ram: Memory::new(MAIN_MEM_SIZE),
            zram: Memory::new(ZRAM_SIZE),
            mmap_io: Memory::new(MMAP_SIZE),
            unused_memory: Memory::new(UNUSED_SIZE),
            timer: Timer::new(),
            irq: Irq::new(),
            cart: Some(cart),
            interrupt: 0x00,
            joypad: Joypad::new(),
        }
    }

    /// Runs the picture unit, the timer and the joypad for `cycles` cycles.
    pub fn step(&mut self, cycles: usize) -> (r: Result<(), String>)
        requires
            old(self)@.wf(),
            old(self)@.step_ok(cycles),
        ensures
            r is Ok,
            final(self)@ == old(self)@.step(cycles),
            final(self)@.wf(),
    {
        let _ = self.gpu.step(&mut self.irq, cycles);
        let _ = self.timer.step(&mut self.irq, cycles);
        let _ = self.joypad.step(&mut self.irq, cycles);
        Ok(())
    }

    /// Starts booting again and resets the picture unit, timer and interrupts.
    pub fn reset(&mut self)
        requires
            old(self)@.wf(),
        ensures
            final(self)@ == old(self)@.reset(),
            final(self)@.wf(),
    {
        self.booting = true;
        self.gpu.reset();
        self.timer.reset();
        self.irq.reset();
    }

    /// The header details of the inserted cartridge.
    pub fn cart_details(&self) -> (d: &CartridgeDetails)
        requires
            self.cart is Some,
        ensures
            d.game_title@ == self@.cart->0.game_title,
            d.cartridge_type == self@.cart->0.cartridge_type,
    {
        let cart = self.cart.as_ref().unwrap();
        &cart.details
    }

    /// The last frame the picture unit finished.
    pub fn request_frame(&self) -> (f: &Frame)
        ensures
            f.pixels@ == self@.gpu.frame,
    {
        &self.gpu.frame
    }

    pub fn press(&mut self, button: JoypadButton)
        ensures
            final(self)@ == (InterconnectView {
                joypad: Joypad { state: old(self)@.joypad.state | button.mask(), ..old(self)@.joypad },
                ..old(self)@
            }),
    {
        self.joypad.press(button);
    }

    pub fn unpress(&mut self, button: JoypadButton)
        ensures
            final(self)@ == (InterconnectView {
                joypad: Joypad { state: old(self)@.joypad.state & !button.mask(), ..old(self)@.joypad },
                ..old(self)@
            }),
    {
        self.joypad.unpress(button);
    }
    /// Writes `byte` to `addr`; a write to 0xFF46 starts a DMA transfer to sprite memory.
    pub fn write_u8(&mut self, addr: u16, byte: u8)
        requires
            old(self)@.wf(),
            old(self)@.write_ok(addr, byte),
        ensures
            final(self)@ == old(self)@.write_u8(addr, byte),
            final(self)@.wf(),
            final(self)@.cart is Some,
    {
        proof {
            reveal(InterconnectView::write_u8);
            if addr == 0xFF46 {
                lemma_dma_frame(old(self)@, byte, 0xA0);
            }
        }
        if addr == 0xFF46 {
            self.dma_transfer(byte);
            return;
        }
        self.write_mapped(addr, byte);
    }

    fn write_mapped(&mut self, addr: u16, byte: u8)
        requires
            old(self)@.wf(),
            addr != 0xFF46,
            old(self)@.write_ok(addr, byte),
        ensures
            final(self)@ == old(self)@.write_mapped(addr, byte),
            final(self)@.wf(),
    {
        proof {
            memory_map::lemma_map_address_partition(addr);
        }
        match memory_map::map_address(addr) {
            Address::Ram(a) => self.ram.write_u8(a, byte),
            Address::RamShadow(a) => self.ram.write_u8(a, byte),
            Address::Gfx(a) => self.write_video_ram(a, byte),
            Address::CartRam(a) => self.write_cart_ram(a, byte),
            Address::CartRom(a) => self.write_cart_rom(a, byte),
            Address::ZRam(a) => {
                self.zram.write_u8(a, byte);
            },
            Address::Oam(a) => self.write_sprite_data(a, byte),
            Address::Unused(_) => (),
            Address::Io(a) => self.write_io(a, byte),
            _ => self.irq.enable_flag = byte,
        }
    }

    fn write_video_ram(&mut self, a: u16, byte: u8)
        requires
            old(self)@.wf(),
            a < 0x2000,
        ensures
            final(self)@ == old(self)@.with_gpu(
                GpuView { ram: old(self)@.gpu.ram.update(a as int, byte), ..old(self)@.gpu },
            ),
            final(self)@.wf(),
    {
        self.gpu.ram.write_u8(a, byte);
    }

    fn write_sprite_data(&mut self, a: u16, byte: u8)
        requires
            old(self)@.wf(),
            a < 0xA0,
        ensures
            final(self)@ == old(self)@.with_gpu(
                GpuView { sprite_data: old(self)@.gpu.sprite_data.update(a as int, byte), ..old(self)@.gpu },
            ),
            final(self)@.wf(),
    {
        self.gpu.sprite_data.write_u8(a, byte);
    }

    fn write_cart_ram(&mut self, a: u16, byte: u8)
        requires
            old(self)@.wf(),
            old(self)@.cart is Some,
            old(self)@.mbc().write_ram_ok(a),
        ensures
            final(self)@ == old(self)@.with_mbc(old(self)@.mbc().write_ram_u8(a, byte)),
            final(self)@.wf(),
    {
        if let Some(cart) = &mut self.cart {
            cart.mbc.write_ram_u8(a, byte);
        }
        proof {
            assert(self@.cart->0.mbc.wf()) by {
                match old(self)@.mbc() {
                    MbcView::MBC0 { .. } => {},
                    MbcView::MBC1(m) => {},
                }
            }
        }
    }

    fn write_cart_rom(&mut self, a: u16, byte: u8)
        requires
            old(self)@.wf(),
            old(self)@.cart is Some,
            old(self)@.mbc().write_rom_ok(a),
        ensures
            final(self)@ == old(self)@.with_mbc(old(self)@.mbc().write_rom_u8(a, byte)),
            final(self)@.wf(),
    {
        if let Some(cart) = &mut self.cart {
            cart.mbc.write_rom_u8(a, byte);
        }
    }

    fn write_io(&mut self, a: u16, byte: u8)
        requires
            old(self)@.wf(),
            a < 0x80,
            io_write_ok(a),
        ensures
            final(self)@ == old(self)@.write_io(a, byte),
            final(self)@.wf(),
    {
        match a {
            0x00 => self.joypad.from_u8(byte, &mut self.irq),
            0x01..=0x02 => (),
            0x04..=0x07 => self.timer.write_u8(a, byte),
            0x0F => self.irq.request_flag = byte,
            0x10..=0x26 => (),
            0x30..=0x3F => (),
            0x40..=0x45 => self.gpu.write_u8(a, byte),
            0x47..=0x49 => self.gpu.write_u8(a, byte),
            0x50 => {
                if self.booting {
                    self.booting = false;
                    self.irq.request(Interrupt::LoadGame);
                } else {
                    self.mmap_io.write_u8(a, byte);
                }
            },
            0x4A..=0x4B => self.gpu.write_u8(a, byte),
            _ => self.mmap_io.write_u8(a, byte),
        }
    }

    /// Copies the 160 bytes at `byte * 0x100` to sprite memory, in order.
    fn dma_transfer(&mut self, byte: u8)
        requires
            old(self)@.wf(),
            old(self)@.write_ok(0xFF46, byte),
        ensures
            final(self)@ == old(self)@.dma(byte, 0xA0),
            final(self)@.wf(),
    {
        let addr = (byte as u16) << 0x08;
        proof {
            assert(addr == InterconnectView::dma_source(byte)) by (bit_vector)
                requires
                    addr == (byte as u16) << 0x08,
            ;
        }
        let mut x: u16 = 0;
        while x < 0xA0
            invariant
                x <= 0xA0,
                addr == InterconnectView::dma_source(byte),
                old(self)@.wf(),
                old(self)@.write_ok(0xFF46, byte),
                self@ == old(self)@.dma(byte, x as nat),
                self@.wf(),
            decreases 0xA0 - x,
        {
            proof {
                reveal(InterconnectView::dma_ok);
                lemma_dma_frame(old(self)@, byte, x as nat);
                assert(old(self)@.read_ok((InterconnectView::dma_source(byte) + x) as u16));
                assert(addr <= 0xFF00);
            }
            let val = self.read_u8(addr + x);
            proof {
                memory_map::lemma_map_address_partition((0xFE00 + x) as u16);
            }
            self.write_mapped(0xFE00 + x, val);
            x = x + 1;
        }
    }

    /// Whether the I/O register `a` can be read.
    fn io_readable(a: u16) -> (b: bool)
        ensures
            b == io_read_ok(a),
    {
        a == 0x00 || (0x01 <= a && a <= 0x02) || (0x04 <= a && a <= 0x07) || a == 0x0F || (0x10 <= a
            && a <= 0x26) || (0x30 <= a && a <= 0x3F) || (0x40 <= a && a <= 0x45) || (0x47 <= a && a
            <= 0x4B) || a == 0x7F
    }

    /// Whether the byte at `addr` can be read.
    pub fn can_read(&self, addr: u16) -> (b: bool)
        requires
            self@.wf(),
        ensures
            b == self@.read_ok(addr),
    {
        proof {
            memory_map::lemma_map_address_partition(addr);
        }
        match &self.cart {
            None => false,
            Some(cart) => match memory_map::map_address(addr) {
                Address::CartRom(a) => if self.booting {
                    (a as usize) < self.boot_rom.len()
                } else {
                    cart.mbc.can_read_rom(a)
                },
                Address::CartRam(a) => cart.mbc.can_read_ram(a),
                Address::Io(a) => Self::io_readable(a),
                _ => true,
            },
        }
    }

    /// Whether the 16-bit value at `addr` can be read.
    pub fn can_read16(&self, addr: u16) -> (b: bool)
        requires
            self@.wf(),
        ensures
            b == self@.read16_ok(addr),
    {
        proof {
            memory_map::lemma_map_address_partition(addr);
        }
        match &self.cart {
            None => false,
            Some(cart) => match memory_map::map_address(addr) {
                Address::Ram(a) => a as usize + 2 <= MAIN_MEM_SIZE,
                Address::RamShadow(a) => a as usize + 2 <= MAIN_MEM_SIZE,
                Address::CartRom(a) => if self.booting {
                    a as usize + 2 <= self.boot_rom.len()
                } else {
                    cart.mbc.can_read_rom16(a)
                },
                Address::Gfx(_) => true,
                Address::CartRam(a) => cart.mbc.can_read_ram16(a),
                Address::ZRam(a) => a as usize + 2 <= ZRAM_SIZE,
                Address::Io(a) => a as usize + 2 <= MMAP_SIZE,
                _ => false,
            },
        }
    }

    /// Whether a DMA transfer started with `byte` can read every byte it copies.
    fn can_dma(&self, byte: u8) -> (b: bool)
        requires
            self@.wf(),
        ensures
            b == self@.dma_ok(byte),
    {
        let addr = (byte as u16) << 0x08;
        proof {
            reveal(InterconnectView::dma_ok);
            assert(addr == InterconnectView::dma_source(byte)) by (bit_vector)
                requires
                    addr == (byte as u16) << 0x08,
            ;
        }
        let mut x: u16 = 0;
        while x < 0xA0
            invariant
                x <= 0xA0,
                addr == InterconnectView::dma_source(byte),
                addr <= 0xFF00,
                self@.wf(),
                forall|y: int| 0 <= y < x ==> #[trigger] self@.read_ok((addr + y) as u16),
            decreases 0xA0 - x,
        {
            if !self.can_read(addr + x) {
                proof {
                    reveal(InterconnectView::dma_ok);
                }
                return false;
            }
            x = x + 1;
        }
        proof {
            reveal(InterconnectView::dma_ok);
        }
        true
    }

    /// Whether `byte` can be written at `addr`.
    pub fn can_write(&self, addr: u16, byte: u8) -> (b: bool)
        requires
            self@.wf(),
        ensures
            b == self@.write_ok(addr, byte),
    {
        proof {
            memory_map::lemma_map_address_partition(addr);
        }
        match &self.cart {
            None => false,
            Some(cart) => {
                if addr == 0xFF46 {
                    return self.can_dma(byte);
                }
                match memory_map::map_address(addr) {
                    Address::CartRam(a) => cart.mbc.can_write_ram(a),
                    Address::CartRom(a) => cart.mbc.can_write_rom(a),
                    Address::Io(a) => Self::io_readable(a) || a == 0x50,
                    _ => true,
                }
            },
        }
    }

    /// Whether a 16-bit value can be written at `addr`.
    pub fn can_write16(&self, addr: u16) -> (b: bool)
        requires
            self@.wf(),
        ensures
            b == self@.write16_ok(addr),
    {
        proof {
            memory_map::lemma_map_address_partition(addr);
        }
        match &self.cart {
            None => false,
            Some(cart) => match memory_map::map_address(addr) {
                Address::CartRam(a) => cart.mbc.can_write_ram16(a),
                Address::Gfx(_) => true,
                Address::Io(a) => a as usize + 2 <= MMAP_SIZE,
                Address::Oam(a) => a as usize + 2 <= 0xA0,
                Address::Ram(a) => a as usize + 2 <= MAIN_MEM_SIZE,
                Address::RamShadow(a) => a as usize + 2 <= MAIN_MEM_SIZE,
                Address::Unused(a) => a as usize + 2 <= UNUSED_SIZE,
                Address::ZRam(a) => a as usize + 2 <= ZRAM_SIZE,
                _ => false,
            },
        }
    }

    /// Whether the parts behind the bus can run `cycles` more cycles.
    pub fn can_step(&self, cycles: usize) -> (b: bool)
        requires
            self@.wf(),
        ensures
            b == self@.step_ok(cycles),
    {
        cycles <= usize::MAX - 0x10000 && self.gpu.can_step(cycles)
    }

    /// The byte at `addr`.
    pub fn read_u8(&self, addr: u16) -> (b: u8)
        requires
            self@.wf(),
            self@.read_ok(addr),
        ensures
            b == self@.read_u8(addr),
    {
        proof {
            memory_map::lemma_map_address_partition(addr);
        }
        let cart = self.cart.as_ref().unwrap();
        match memory_map::map_address(addr) {
            Address::Ram(addr) => self.ram.read_u8(addr),
            Address::RamShadow(addr) => self.ram.read_u8(addr),
            Address::CartRom(addr) => {
                if self.booting {
                    self.boot_rom.read_u8(addr)
                } else {
                    cart.mbc.read_rom_u8(addr)
                }
            },
            Address::Gfx(value) => self.gpu.ram.read_u8(value),
            Address::CartRam(a) => cart.mbc.read_ram_u8(a),
            Address::ZRam(a) => self.zram.read_u8(a),
            Address::Oam(a) => self.gpu.sprite_data.read_u8(a),
            Address::Unused(_) => 0xFF,
            Address::Io(a) => {
                match a {
                    0x00 => self.joypad.data,
                    0x01..=0x02 => 0,
                    0x04..=0x07 => self.timer.read_u8(a),
                    0x0F => self.irq.request_flag,
                    0x10..=0x26 => 0,
                    0x30..=0x3F => 0,
                    0x40..=0x45 => self.gpu.read_u8(a),
                    0x47..=0x49 => self.gpu.read_u8(a),
                    0x4A..=0x4B => self.gpu.read_u8(a),
                    _ => self.mmap_io.read_u8(a),
                }
            },
            _ => self.irq.enable_flag,
        }
    }

    /// Writes `val` at `addr` and `addr + 1`, low byte first.
    pub fn write_u16(&mut self, addr: u16, val: u16)
        requires
            old(self)@.wf(),
            old(self)@.write16_ok(addr),
        ensures
            final(self)@ == old(self)@.write_u16(addr, val),
            final(self)@.wf(),
            final(self)@.cart is Some,
    {
        proof {
            memory_map::lemma_map_address_partition(addr);
        }
        match memory_map::map_address(addr) {
            Address::CartRam(a) => {
                if let Some(cart) = &mut self.cart {
                    cart.mbc.write_ram_u16(a, val);
                }
            },
            Address::Gfx(a) => self.gpu.write_u16(a, val),
            Address::Io(a) => self.mmap_io.write_u16(a, val),
            Address::Oam(a) => self.gpu.sprite_data.write_u16(a, val),
            Address::Ram(a) => self.ram.write_u16(a, val),
            Address::RamShadow(a) => self.ram.write_u16(a, val),
            Address::Unused(a) => self.unused_memory.write_u16(a, val),
            _ => self.zram.write_u16(addr - 0xFF80, val),
        }
    }

    /// The little-endian 16-bit value at `addr`.
    pub fn read_u16(&self, addr: u16) -> (v: u16)
        requires
            self@.wf(),
            self@.read16_ok(addr),
        ensures
            v == self@.read_u16(addr),
    {
        proof {
            memory_map::lemma_map_address_partition(addr);
        }
        let cart = self.cart.as_ref().unwrap();
        match memory_map::map_address(addr) {
            Address::Ram(addr) => self.ram.read_u16(addr),
            Address::RamShadow(addr) => self.ram.read_u16(addr),
            Address::CartRom(addr) => {
                if self.booting {
                    self.boot_rom.read_u16(addr)
                } else {
                    cart.mbc.read_rom_u16(addr)
                }
            },
            Address::Gfx(value) => self.gpu.ram.read_u16(value),
            Address::CartRam(a) => cart.mbc.read_ram_u16(a),
            Address::ZRam(a) => self.zram.read_u16(a),
            _ => self.mmap_io.read_u16(addr - 0xFF00),
        }
    }
}

} // verus!
