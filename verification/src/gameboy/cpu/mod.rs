mod alu;
mod check;
mod dispatch;
mod instructions;
pub mod bits;
pub mod laws;
pub mod semantics;

use vstd::prelude::*;

use crate::gameboy::cpu::semantics::{
    advance,
    cb_ok,
    initial_values,
    interrupts,
    interrupts_ok,
    lemma_cycles_positive,
    run,
    Outcome,
    cb_step,
    fetch_operand,
    operand_ok,
    step_cycles,
    step_next,
    step_ok,
};
use crate::gameboy::disassembler::{hex_text, upper_hex};
use crate::gameboy::interconnect::Interconnect;
use crate::gameboy::irq::Interrupt;
use crate::gameboy::MAX_CPU_CYCLES;
use crate::gameboy::opcodes::{spec_base_opcode, spec_cb_opcode, ArgumentType, OpCode, Operand};
use crate::gameboy::registers::{InterruptEnabledFlags, InterruptRequestFlags, Registers};

verus! {

/// The speed the CPU runs at.
pub enum CpuSpeed {
    Normal,
    Double,
}

/// The processor: its registers, speed, whether it is halted, and the
/// breakpoints of the debugger.
pub struct Cpu {
    pub registers: Registers,
    pub speed: CpuSpeed,
    pub halted: bool,
    pub trace_points: [bool; 15],
}

/// The text of the error for an undefined opcode `byte` at `pc`: the byte
/// and the offset in upper-case hexadecimal, of two and four digits.
pub open spec fn unknown_opcode_text(byte: u8, pc: u16) -> Seq<char> {
    "Unknown opcode: 0x"@ + hex_text(byte as nat, 2) + " at offset: 0x"@ + hex_text(pc as nat, 4)
}

/// The error for an undefined opcode `byte` at `pc`.
fn unknown_opcode(byte: u8, pc: u16) -> (s: String)
    ensures
        s@ == unknown_opcode_text(byte, pc),
{
    let mut s = "Unknown opcode: 0x".to_owned();
    let code = upper_hex(byte as usize, 2);
    s.append(code.as_str());
    s.append(" at offset: 0x");
    let offset = upper_hex(pc as usize, 4);
    s.append(offset.as_str());
    s
}

impl Cpu {
    /// This cpu with registers `r`.
    pub open spec fn with_registers(self, r: Registers) -> Cpu {
        Cpu { registers: r, ..self }
    }

    /// A cpu as at power-on: registers as `Registers::new` gives them, normal
    /// speed, running, no breakpoints.
    pub fn new(gameboy_color: bool) -> (c: Cpu)
        ensures
            c.registers.a == (if gameboy_color { 0x11u8 } else { 0x01u8 }),
            c.registers.b == 0x00 && c.registers.c == 0x13,
            c.registers.d == 0x00 && c.registers.e == 0xD8,
            c.registers.h == 0x01 && c.registers.l == 0x4D,
            c.registers.pc == 0x00 && c.registers.sp == 0xFFFE && c.registers.div == 0x00,
            c.registers.flags.zero && !c.registers.flags.negative,
            !c.registers.flags.half_carry && !c.registers.flags.carry,
            c.registers.flags.ime,
            c.registers.flags.ie == InterruptEnabledFlags::spec_cleared(),
            c.registers.flags.ir == InterruptRequestFlags::spec_cleared(),
            c.speed is Normal,
            !c.halted,
            forall|i: int| 0 <= i < 15 ==> !c.trace_points[i],
    {
        Cpu {
            registers: Registers::new(gameboy_color),
            speed: CpuSpeed::Normal,
            halted: false,
            trace_points: [false; 15],
        }
    }

    /// Resets the bus, sets the start-up values and starts again at address 0.
    pub fn reset(&mut self, interconnect: &mut Interconnect)
        requires
            old(interconnect)@.wf(),
            old(interconnect)@.cart is Some,
        ensures
            final(interconnect)@.wf(),
            ({
                let (c, m) = initial_values(*old(self), old(interconnect)@.reset());
                &&& *final(self) == c.with_registers(Registers { pc: 0x00, ..c.registers })
                &&& final(interconnect)@ == m
            }),
    {
        interconnect.reset();
        self.set_initial_values(interconnect);
        self.registers.pc = 0x00;
    }

    /// Sets the registers and the I/O registers to the values the boot
    /// program leaves in them.
    pub fn set_initial_values(&mut self, interconnect: &mut Interconnect)
        requires
            old(interconnect)@.wf(),
            old(interconnect)@.cart is Some,
        ensures
            final(interconnect)@.wf(),
            (*final(self), final(interconnect)@) == initial_values(*old(self), old(interconnect)@),
    {
        self.halted = false;
        self.registers.pc = 0x100;
        self.registers.set_af(0x01B0);
        self.registers.set_bc(0x0013);
        self.registers.set_de(0x00D8);
        self.registers.set_hl(0x014D);
        self.registers.sp = 0xFFFE;

        interconnect.write_u8(0xFF05, 0x00);
        interconnect.write_u8(0xFF06, 0x00);
        interconnect.write_u8(0xFF07, 0x00);
        interconnect.write_u8(0xFF10, 0x80);
        interconnect.write_u8(0xFF11, 0xBF);
        interconnect.write_u8(0xFF12, 0xF3);
        interconnect.write_u8(0xFF14, 0xBF);
        interconnect.write_u8(0xFF16, 0x3F);
        interconnect.write_u8(0xFF17, 0x00);
        interconnect.write_u8(0xFF19, 0xBF);
        interconnect.write_u8(0xFF1A, 0x7F);
        interconnect.write_u8(0xFF1B, 0xFF);
        interconnect.write_u8(0xFF1C, 0x9F);
        interconnect.write_u8(0xFF1E, 0xBF);
        interconnect.write_u8(0xFF20, 0xFF);
        interconnect.write_u8(0xFF21, 0x00);
        interconnect.write_u8(0xFF22, 0x00);
        interconnect.write_u8(0xFF23, 0xBF);
        interconnect.write_u8(0xFF24, 0x77);
        interconnect.write_u8(0xFF25, 0xF3);
        interconnect.write_u8(0xFF26, 0xF1);
        interconnect.write_u8(0xFF40, 0x91);
        interconnect.write_u8(0xFF42, 0x00);
        interconnect.write_u8(0xFF43, 0x00);
        interconnect.write_u8(0xFF45, 0x00);
        interconnect.write_u8(0xFF47, 0xFC);
        interconnect.write_u8(0xFF48, 0xFF);
        interconnect.write_u8(0xFF49, 0xFF);
        interconnect.write_u8(0xFF4A, 0x00);
        interconnect.write_u8(0xFF4B, 0x00);
        interconnect.write_u8(0xFFFF, 0x00);
    }

    /// Runs a frame: steps, each followed by as many cycles of the parts
    /// behind the bus and by interrupt handling (a serviced interrupt wakes a
    /// halted cpu), until the frame's cycles have run. Stops with the step's
    /// error at an undefined opcode, and with an error before a step, a run
    /// of the parts behind the bus or an interrupt that cannot be done.
    pub fn cycle(&mut self, interconnect: &mut Interconnect) -> (r: Result<(), String>)
        requires
            old(interconnect)@.wf(),
        ensures
            final(interconnect)@.wf(),
            ({
                let limit = if old(self).speed is Normal {
                    MAX_CPU_CYCLES as nat
                } else {
                    2 * MAX_CPU_CYCLES as nat
                };
                let (c, m, out) = run(*old(self), old(interconnect)@, 0, limit);
                &&& *final(self) == c
                &&& final(interconnect)@ == m
                &&& match out {
                    Outcome::Done => r is Ok,
                    Outcome::Unknown { byte, pc } => r matches Err(e) && e@ == unknown_opcode_text(
                        byte,
                        pc,
                    ),
                    Outcome::Fault => r matches Err(e) && e@ == "the next instruction cannot run"@,
                }
            }),
    {
        let mut cycles: usize = 0;
        let limit = self.get_cycles_for_speed();
        let ghost c0 = *self;
        let ghost m0 = interconnect@;

        while cycles < limit
            invariant
                interconnect@.wf(),
                c0 == *old(self),
                m0 == old(interconnect)@,
                limit == (if c0.speed is Normal {
                    MAX_CPU_CYCLES as int
                } else {
                    2 * MAX_CPU_CYCLES
                }),
                cycles <= limit + 0xFF,
                run(*self, interconnect@, cycles as nat, limit as nat) == run(c0, m0, 0, limit as nat),
            decreases limit + 0x100 - cycles,
        {
            if !self.can_step(interconnect) {
                return Err("the next instruction cannot run".to_owned());
            }
            let c = match self.step(interconnect) {
                Ok(c) => c,
                Err(e) => return Err(e),
            };
            cycles += c as usize;
            if !interconnect.can_step(c as usize) {
                return Err("the next instruction cannot run".to_owned());
            }
            match interconnect.step(c as usize) {
                Ok(()) => (),
                Err(e) => return Err(e),
            }
            if !self.can_handle_interrupts(interconnect) {
                return Err("the next instruction cannot run".to_owned());
            }
            if self.handle_interrupts(interconnect) > 0x00 {
                self.halted = false;
            }
        }

        Ok(())
    }

    /// The cycles a frame takes at the current speed.
    fn get_cycles_for_speed(&self) -> (n: usize)
        ensures
            n == (if self.speed is Normal { MAX_CPU_CYCLES as int } else { 2 * MAX_CPU_CYCLES }),
    {
        match self.speed {
            CpuSpeed::Normal => MAX_CPU_CYCLES,
            CpuSpeed::Double => {
                assert(69905usize << 1usize == 139810usize) by (bit_vector);
                MAX_CPU_CYCLES << 1usize
            },
        }
    }

    /// Services interrupts: a requested LoadGame interrupt sets the start-up
    /// values (0xFF is returned); otherwise, with the master enable set, the
    /// pending interrupt of highest priority is called (0x0C); else 0x00.
    pub fn handle_interrupts(&mut self, interconnect: &mut Interconnect) -> (v: u8)
        requires
            old(interconnect)@.wf(),
            interrupts_ok(*old(self), old(interconnect)@),
        ensures
            final(interconnect)@.wf(),
            (*final(self), final(interconnect)@, v) == interrupts(*old(self), old(interconnect)@),
    {
        proof {
            reveal(interrupts);
            reveal(interrupts_ok);
        }
        // Always handle a LoadGame interrupt whether its enabled or not
        if interconnect.irq.requested(&Interrupt::LoadGame) {
            interconnect.irq.unrequest(Interrupt::LoadGame);
            self.set_initial_values(interconnect);
            return 0xFF;
        }

        if !interconnect.irq.enabled {
            return 0x00;
        }

        if interconnect.irq.should_handle(Interrupt::Vblank) {
            interconnect.irq.enabled = false;
            self.call(0x40, interconnect);
            interconnect.irq.unrequest(Interrupt::Vblank);

            return 0x0C;
        }

        if interconnect.irq.should_handle(Interrupt::Lcd) {
            interconnect.irq.enabled = false;
            interconnect.irq.unrequest(Interrupt::Lcd);
            self.call(0x48, interconnect);

            return 0x0C;
        }

        if interconnect.irq.should_handle(Interrupt::Timer) {
            interconnect.irq.enabled = false;
            interconnect.irq.unrequest(Interrupt::Timer);
            self.call(0x50, interconnect);

            return 0x0C;
        }

        if interconnect.irq.should_handle(Interrupt::Serial) {
            interconnect.irq.enabled = false;
            interconnect.irq.unrequest(Interrupt::Serial);
            self.call(0x58, interconnect);

            return 0x0C;
        }

        if interconnect.irq.should_handle(Interrupt::Joypad) {
            interconnect.irq.enabled = false;
            interconnect.irq.unrequest(Interrupt::Joypad);
            self.call(0x60, interconnect);

            return 0x0C;
        }

        0x00
    }

    /// The operand that `opcode`, at the program counter, takes.
    fn get_operand_from_opcode(&self, interconnect: &Interconnect, opcode: &OpCode) -> (o: Operand)
        requires
            interconnect@.wf(),
            self.registers.pc < 0xFFFF,
            operand_ok(interconnect@, self.registers.pc, opcode.argument_type),
        ensures
            o == fetch_operand(interconnect@, self.registers.pc, opcode.argument_type),
    {
        let operand_start = self.registers.pc + 0x01;

        match opcode.argument_type {
            ArgumentType::Imm8 => Operand::Imm8(interconnect.read_u8(operand_start)),
            ArgumentType::Imm16 => Operand::Imm16(interconnect.read_u16(operand_start)),
            _ => Operand::NoOperand,
        }
    }

    /// Runs one instruction: a halted cpu idles for a cycle; otherwise the
    /// opcode at the program counter is decoded, the program counter moved
    /// past it and its operand, and the instruction run. Returns the cycles
    /// taken, or an error for an undefined opcode, which changes nothing.
    pub fn step(&mut self, interconnect: &mut Interconnect) -> (r: Result<u8, String>)
        requires
            old(interconnect)@.wf(),
            step_ok(*old(self), old(interconnect)@),
        ensures
            final(interconnect)@.wf(),
            (*final(self), final(interconnect)@) == step_next(*old(self), old(interconnect)@),
            match r {
                Ok(n) => n >= 1 && step_cycles(*old(self), old(interconnect)@) == Some(n),
                Err(e) => {
                    &&& step_cycles(*old(self), old(interconnect)@) is None
                    &&& e@ == unknown_opcode_text(
                        old(interconnect)@.read_u8(old(self).registers.pc),
                        old(self).registers.pc,
                    )
                },
            },
    {
        proof {
            reveal(step_ok);
            reveal(step_next);
            reveal(step_cycles);
        }
        // Do nothing if we're halted
        if self.halted {
            return Ok(0x01);
        }

        let byte = interconnect.read_u8(self.registers.pc);

        if let Some(opcode) = OpCode::from_byte(byte, false) {
            proof {
                lemma_cycles_positive(byte);
                lemma_cycles_positive(interconnect@.read_u8((self.registers.pc + opcode.length) as u16));
            }
            let mut cycles = opcode.cycles;
            let operand = self.get_operand_from_opcode(interconnect, &opcode);

            self.registers.pc += opcode.length;

            if opcode.code == 0xCB {
                cycles = match self.handle_extended_opcode(interconnect) {
                    Ok(c) => c,
                    Err(e) => return Err(e),
                };
            } else {
                self.execute_opcode(opcode.code, &operand, interconnect);
            }

            return Ok(cycles);
        }

        Err(unknown_opcode(byte, self.registers.pc))
    }

    /// Runs the prefixed instruction whose second byte is at the program
    /// counter; returns its cycles plus one.
    pub fn handle_extended_opcode(&mut self, interconnect: &mut Interconnect) -> (r: Result<u8, String>)
        requires
            old(interconnect)@.wf(),
            cb_ok(*old(self), old(interconnect)@),
        ensures
            final(interconnect)@.wf(),
            (*final(self), final(interconnect)@) == cb_step(*old(self), old(interconnect)@),
            r == Ok::<u8, String>(
                (spec_cb_opcode(old(interconnect)@.read_u8(old(self).registers.pc)).cycles + 1) as u8,
            ),
    {
        let byte = interconnect.read_u8(self.registers.pc);

        if let Some(opcode) = OpCode::from_byte(byte, true) {
            let _operand = self.get_operand_from_opcode(interconnect, &opcode);

            self.registers.pc += opcode.length;
            self.execute_cb_opcode(opcode.code, interconnect);

            return Ok(opcode.cycles + 0x01);
        }

        Err(unknown_opcode(byte, self.registers.pc))
    }
}

} // verus!
