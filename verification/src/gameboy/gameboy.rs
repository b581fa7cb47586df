use vstd::prelude::*;

use crate::gameboy::cartridge::{Cartridge, CartridgeDetails};
use crate::gameboy::cpu::semantics::{initial_io, initial_values, run, Outcome};
use crate::gameboy::cpu::{unknown_opcode_text, Cpu};
use crate::gameboy::gfx::frame::Frame;
use crate::gameboy::interconnect::{Interconnect, InterconnectView};
use crate::gameboy::registers::{InterruptEnabledFlags, InterruptRequestFlags, Registers};
use crate::gameboy::MAX_CPU_CYCLES;

verus! {

/// The console: the processor and the bus with everything behind it.
pub struct GameBoy {
    pub cpu: Cpu,
    pub interconnect: Interconnect,
}

impl GameBoy {
    /// A console with `cart` inserted, reset: the start-up values set and the
    /// program counter at 0, with the boot program running. Copying the boot
    /// logo into the cartridge area for `is_bootrom` cannot be done, as the bus
    /// takes no block writes, so `is_bootrom` must be false.
    pub fn new(gameboy_color: bool, cart: Cartridge, is_bootrom: bool) -> (gb: GameBoy)
        requires
            cart@.mbc.wf(),
            !is_bootrom,
        ensures
            gb.interconnect@.wf(),
            gb.interconnect@ == initial_io(InterconnectView::power_on(Some(cart@)).reset().reset()),
            gb.cpu.registers.pc == 0x00,
            gb.cpu.registers.sp == 0xFFFE,
            gb.cpu.registers.af() == 0x01B0,
            gb.cpu.registers.flags.zero && !gb.cpu.registers.flags.negative,
            gb.cpu.registers.flags.half_carry && gb.cpu.registers.flags.carry,
            gb.cpu.registers.div == 0x00,
            gb.cpu.registers.flags.ime,
            gb.cpu.registers.flags.ie == InterruptEnabledFlags::spec_cleared(),
            gb.cpu.registers.flags.ir == InterruptRequestFlags::spec_cleared(),
            forall|i: int| 0 <= i < 15 ==> !gb.cpu.trace_points[i],
            gb.cpu.registers.bc() == 0x0013,
            gb.cpu.registers.de() == 0x00D8,
            gb.cpu.registers.hl() == 0x014D,
            !gb.cpu.halted,
            gb.cpu.speed is Normal,
    {
        let mut gb = GameBoy { cpu: Cpu::new(gameboy_color), interconnect: Interconnect::with_cart(cart) };
        gb.reset();
        proof {
            assert(0x01B0u16 & 0x80 == 0x80 && 0x01B0u16 & 0x40 == 0 && 0x01B0u16 & 0x20 == 0x20
                && 0x01B0u16 & 0x10 == 0x10) by (bit_vector);
        }
        gb
    }

    /// Runs a frame of cycles.
    pub fn run(&mut self) -> (r: Result<(), String>)
        requires
            old(self).interconnect@.wf(),
        ensures
            final(self).interconnect@.wf(),
            ({
                let limit = if old(self).cpu.speed is Normal {
                    MAX_CPU_CYCLES as nat
                } else {
                    2 * MAX_CPU_CYCLES as nat
                };
                let (c, m, out) = run(old(self).cpu, old(self).interconnect@, 0, limit);
                &&& final(self).cpu == c
                &&& final(self).interconnect@ == m
                &&& match out {
                    Outcome::Done => r is Ok,
                    Outcome::Unknown { byte, pc } => r matches Err(e) && e@ == unknown_opcode_text(
                        byte,
                        pc,
                    ),
                    Outcome::Fault => r matches Err(e) && e@ == "the next instruction cannot run"@,
                }
            }),
    {
        self.cpu.cycle(&mut self.interconnect)
    }

    /// Resets the bus, then the processor, which resets the bus again and
    /// sets the start-up values, with the program counter at 0.
    pub fn reset(&mut self)
        requires
            old(self).interconnect@.wf(),
            old(self).interconnect@.cart is Some,
        ensures
            final(self).interconnect@.wf(),
            ({
                let (c, m) = initial_values(old(self).cpu, old(self).interconnect@.reset().reset());
                &&& final(self).cpu == c.with_registers(Registers { pc: 0x00, ..c.registers })
                &&& final(self).interconnect@ == m
            }),
    {
        self.interconnect.reset();
        self.cpu.reset(&mut self.interconnect);
    }

    /// The header details of the inserted cartridge.
    pub fn cart_details(&self) -> (d: &CartridgeDetails)
        requires
            self.interconnect@.cart is Some,
        ensures
            d.game_title@ == self.interconnect@.cart->0.game_title,
            d.cartridge_type == self.interconnect@.cart->0.cartridge_type,
    {
        self.interconnect.cart_details()
    }

    /// The last frame the picture unit finished.
    pub fn request_frame(&self) -> (f: &Frame)
        ensures
            f.pixels@ == self.interconnect@.gpu.frame,
    {
        self.interconnect.request_frame()
    }
}

} // verus!
