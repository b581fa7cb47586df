use vstd::prelude::*;

use crate::gameboy::cpu::bits::{lemma_byte, lemma_sign_extend, lemma_word};
use crate::gameboy::cpu::semantics::{
    add_hl,
    add_sp,
    alu_adc,
    alu_add,
    alu_and,
    alu_cp,
    alu_or,
    alu_sbc,
    alu_sub,
    alu_xor,
    bit_flags,
    call,
    ccf,
    cpl,
    daa,
    dec_flags,
    dec_reg,
    dec_value,
    inc_flags,
    inc_reg,
    inc_value,
    jump_ok,
    jump_target,
    ldhl_sp,
    pop_ok,
    pop_value,
    popped,
    push,
    push_ok,
    res_value,
    rotate_a,
    scf,
    set_value,
    shift_flags,
    shift_reg,
    shift_value,
    sp16,
    sp_offset,
    with_ime,
};
use crate::gameboy::cpu::Cpu;
use crate::gameboy::interconnect::Interconnect;
use crate::gameboy::opcodes::Operand;
use crate::gameboy::registers::Registers;
use crate::gameboy::timer::wrapping_sub_usize;

verus! {

// One function per instruction; each states its effect through the
// instruction semantics.
impl Cpu {
    /// CALL `addr`: pushes the program counter and jumps to `addr`.
    pub(super) fn call(&mut self, addr: u16, interconnect: &mut Interconnect)
        requires
            old(interconnect)@.wf(),
            push_ok(old(self).registers, old(interconnect)@),
        ensures
            (*final(self), final(interconnect)@) == call(*old(self), old(interconnect)@, addr),
            final(interconnect)@.wf(),
    {
        self.registers.sp -= 0x02;
        interconnect.write_u16(self.registers.sp as u16, self.registers.pc);
        self.registers.pc = addr;
    }

    /// LD BC, imm16
    pub(super) fn ld_bc_imm16(&mut self, operand: &Operand)
        requires
            *operand is Imm16,
        ensures
            *final(self) == old(self).with_registers(old(self).registers.with_bc(operand.imm16())),
    {
        let val = operand.unwrap_imm16();
        self.registers.set_bc(val);
    }

    /// LD (BC), A
    pub(super) fn ld_bc_a(&mut self, interconnect: &mut Interconnect)
        requires
            old(interconnect)@.wf(),
            old(interconnect)@.write_ok(old(self).registers.bc(), old(self).registers.a),
        ensures
            *final(self) == *old(self),
            final(interconnect)@ == old(interconnect)@.write_u8(old(self).registers.bc(), old(self).registers.a),
            final(interconnect)@.wf(),
    {
        let addr = self.registers.get_bc();
        interconnect.write_u8(addr, self.registers.a);
    }

    /// INC BC
    pub(super) fn inc_bc(&mut self)
        requires
            old(self).registers.bc() < 0xFFFF,
        ensures
            *final(self) == old(self).with_registers(old(self).registers.with_bc((old(self).registers.bc() + 1) as u16)),
    {
        let val = self.registers.get_bc();
        self.registers.set_bc(val + 0x01);
    }

    /// INC B
    pub(super) fn inc_b(&mut self)
        ensures
            *final(self) == old(self).with_registers(inc_reg(old(self).registers, 0)),
    {
        let r = self.registers.b;
        self.registers.b = self.inc(r);
    }

    /// DEC B
    pub(super) fn dec_b(&mut self)
        ensures
            *final(self) == old(self).with_registers(dec_reg(old(self).registers, 0)),
    {
        let r = self.registers.b;
        self.registers.b = self.dec(r);
    }

    /// LD B, imm8
    pub(super) fn ld_b_imm8(&mut self, operand: &Operand)
        requires
            *operand is Imm8,
        ensures
            *final(self) == old(self).with_registers(Registers { b: operand.imm8(), ..old(self).registers }),
    {
        let val = operand.unwrap_imm8();
        self.registers.b = val;
    }

    /// RLCA
    pub(super) fn rlca(&mut self)
        ensures
            *final(self) == old(self).with_registers(rotate_a(old(self).registers, 0)),
    {
        let a = self.registers.a;
        self.registers.a = self.rlc(a);
        self.registers.flags.zero = false;
    }

    /// LD (imm16), SP
    pub(super) fn ld_imm16_ptr_sp(&mut self, operand: &Operand, interconnect: &mut Interconnect)
        requires
            *operand is Imm16,
            old(interconnect)@.wf(),
            old(interconnect)@.write16_ok(operand.imm16()),
        ensures
            *final(self) == *old(self),
            final(interconnect)@ == old(interconnect)@.write_u16(operand.imm16(), sp16(old(self).registers)),
            final(interconnect)@.wf(),
    {
        let addr = operand.unwrap_imm16();
        interconnect.write_u16(addr, self.registers.sp as u16);
    }

    /// ADD HL, BC
    pub(super) fn add_hl_bc(&mut self)
        ensures
            *final(self) == old(self).with_registers(add_hl(old(self).registers, old(self).registers.bc())),
    {
        let v = self.registers.get_bc();
        self.add_hl(v);
    }

    /// LD A, (BC)
    pub(super) fn ld_a_bc(&mut self, interconnect: &mut Interconnect)
        requires
            old(interconnect)@.wf(),
            old(interconnect)@.read_ok(old(self).registers.bc()),
        ensures
            *final(self) == old(self).with_registers(Registers { a: old(interconnect)@.read_u8(old(self).registers.bc()), ..old(self).registers }),
            final(interconnect)@ == old(interconnect)@,
            final(interconnect)@.wf(),
    {
        let addr = self.registers.get_bc();
        let val = interconnect.read_u8(addr);
        self.registers.a = val;
    }

    /// DEC BC
    pub(super) fn dec_bc(&mut self)
        ensures
            *final(self) == old(self).with_registers(old(self).registers.with_bc(((old(self).registers.bc() + 0xFFFF) % 0x10000) as u16)),
    {
        let val = self.registers.get_bc().wrapping_sub(0x01);
        self.registers.set_bc(val);
    }

    /// INC C
    pub(super) fn inc_c(&mut self)
        ensures
            *final(self) == old(self).with_registers(inc_reg(old(self).registers, 1)),
    {
        let r = self.registers.c;
        self.registers.c = self.inc(r);
    }

    /// DEC C
    pub(super) fn dec_c(&mut self)
        ensures
            *final(self) == old(self).with_registers(dec_reg(old(self).registers, 1)),
    {
        let r = self.registers.c;
        self.registers.c = self.dec(r);
    }

    /// LD C, imm8
    pub(super) fn ld_c_imm8(&mut self, operand: &Operand)
        requires
            *operand is Imm8,
        ensures
            *final(self) == old(self).with_registers(Registers { c: operand.imm8(), ..old(self).registers }),
    {
        let val = operand.unwrap_imm8();
        self.registers.c = val;
    }

    /// RRCA
    pub(super) fn rrca(&mut self)
        ensures
            *final(self) == old(self).with_registers(rotate_a(old(self).registers, 1)),
    {
        let a = self.registers.a;
        self.registers.a = self.rrc(a);
        self.registers.flags.zero = false;
    }

    /// LD DE, imm16
    pub(super) fn ld_de_imm16(&mut self, operand: &Operand)
        requires
            *operand is Imm16,
        ensures
            *final(self) == old(self).with_registers(old(self).registers.with_de(operand.imm16())),
    {
        let val = operand.unwrap_imm16();
        self.registers.set_de(val);
    }

    /// LD (DE), A
    pub(super) fn ld_de_a(&mut self, interconnect: &mut Interconnect)
        requires
            old(interconnect)@.wf(),
            old(interconnect)@.write_ok(old(self).registers.de(), old(self).registers.a),
        ensures
            *final(self) == *old(self),
            final(interconnect)@ == old(interconnect)@.write_u8(old(self).registers.de(), old(self).registers.a),
            final(interconnect)@.wf(),
    {
        let addr = self.registers.get_de();
        interconnect.write_u8(addr, self.registers.a);
    }

    /// INC DE
    pub(super) fn inc_de(&mut self)
        requires
            old(self).registers.de() < 0xFFFF,
        ensures
            *final(self) == old(self).with_registers(old(self).registers.with_de((old(self).registers.de() + 1) as u16)),
    {
        let val = self.registers.get_de();
        self.registers.set_de(val + 0x01);
    }

    /// INC D
    pub(super) fn inc_d(&mut self)
        ensures
            *final(self) == old(self).with_registers(inc_reg(old(self).registers, 2)),
    {
        let r = self.registers.d;
        self.registers.d = self.inc(r);
    }

    /// DEC D
    pub(super) fn dec_d(&mut self)
        ensures
            *final(self) == old(self).with_registers(dec_reg(old(self).registers, 2)),
    {
        let r = self.registers.d;
        self.registers.d = self.dec(r);
    }

    /// LD D, imm8
    pub(super) fn ld_d_imm8(&mut self, operand: &Operand)
        requires
            *operand is Imm8,
        ensures
            *final(self) == old(self).with_registers(Registers { d: operand.imm8(), ..old(self).registers }),
    {
        let val = operand.unwrap_imm8();
        self.registers.d = val;
    }

    /// RLA
    pub(super) fn rla(&mut self)
        ensures
            *final(self) == old(self).with_registers(rotate_a(old(self).registers, 2)),
    {
        let a = self.registers.a;
        self.registers.a = self.rl(a);
        self.registers.flags.zero = false;
    }

    /// JR imm8
    pub(super) fn jp_imm8(&mut self, operand: &Operand)
        requires
            *operand is Imm8,
            jump_ok(old(self).registers.pc, operand.imm8()),
        ensures
            *final(self) == old(self).with_registers(Registers { pc: jump_target(old(self).registers.pc, operand.imm8()), ..old(self).registers }),
    {
        let val = operand.unwrap_imm8();
        self.relative_jump(val);
    }

    /// ADD HL, DE
    pub(super) fn add_hl_de(&mut self)
        ensures
            *final(self) == old(self).with_registers(add_hl(old(self).registers, old(self).registers.de())),
    {
        let v = self.registers.get_de();
        self.add_hl(v);
    }

    /// LD A, (DE)
    pub(super) fn ld_a_de(&mut self, interconnect: &mut Interconnect)
        requires
            old(interconnect)@.wf(),
            old(interconnect)@.read_ok(old(self).registers.de()),
        ensures
            *final(self) == old(self).with_registers(Registers { a: old(interconnect)@.read_u8(old(self).registers.de()), ..old(self).registers }),
            final(interconnect)@ == old(interconnect)@,
            final(interconnect)@.wf(),
    {
        let addr = self.registers.get_de();
        let val = interconnect.read_u8(addr);
        self.registers.a = val;
    }

    /// DEC DE
    pub(super) fn dec_de(&mut self)
        ensures
            *final(self) == old(self).with_registers(old(self).registers.with_de(((old(self).registers.de() + 0xFFFF) % 0x10000) as u16)),
    {
        let val = self.registers.get_de().wrapping_sub(0x01);
        self.registers.set_de(val);
    }

    /// INC E
    pub(super) fn inc_e(&mut self)
        ensures
            *final(self) == old(self).with_registers(inc_reg(old(self).registers, 3)),
    {
        let r = self.registers.e;
        self.registers.e = self.inc(r);
    }

    /// DEC E
    pub(super) fn dec_e(&mut self)
        ensures
            *final(self) == old(self).with_registers(dec_reg(old(self).registers, 3)),
    {
        let r = self.registers.e;
        self.registers.e = self.dec(r);
    }

    /// LD E, imm8
    pub(super) fn ld_e_imm8(&mut self, operand: &Operand)
        requires
            *operand is Imm8,
        ensures
            *final(self) == old(self).with_registers(Registers { e: operand.imm8(), ..old(self).registers }),
    {
        let val = operand.unwrap_imm8();
        self.registers.e = val;
    }

    /// RRA
    pub(super) fn rra(&mut self)
        ensures
            *final(self) == old(self).with_registers(rotate_a(old(self).registers, 3)),
    {
        let a = self.registers.a;
        self.registers.a = self.rr(a);
        self.registers.flags.zero = false;
    }

    /// JR NZ, imm8
    pub(super) fn jr_nz_imm8(&mut self, operand: &Operand)
        requires
            *operand is Imm8,
            !old(self).registers.flags.zero ==> jump_ok(old(self).registers.pc, operand.imm8()),
        ensures
            *final(self) == (if !old(self).registers.flags.zero { old(self).with_registers(Registers { pc: jump_target(old(self).registers.pc, operand.imm8()), ..old(self).registers }) } else { *old(self) }),
    {
        let offset = operand.unwrap_imm8();

        if !self.registers.flags.zero {
            self.relative_jump(offset);
        }
    }

    /// LD HL, imm16
    pub(super) fn ld_hl_imm16(&mut self, operand: &Operand)
        requires
            *operand is Imm16,
        ensures
            *final(self) == old(self).with_registers(old(self).registers.with_hl(operand.imm16())),
    {
        let val = operand.unwrap_imm16();
        self.registers.set_hl(val);
    }

    /// LD (HL+), A
    pub(super) fn ld_hli_a(&mut self, interconnect: &mut Interconnect)
        requires
            old(interconnect)@.wf(),
            old(interconnect)@.write_ok(old(self).registers.hl(), old(self).registers.a),
            old(self).registers.hl() < 0xFFFF,
        ensures
            *final(self) == old(self).with_registers(old(self).registers.with_hl((old(self).registers.hl() + 1) as u16)),
            final(interconnect)@ == old(interconnect)@.write_u8(old(self).registers.hl(), old(self).registers.a),
            final(interconnect)@.wf(),
    {
        let addr = self.registers.get_hl();
        interconnect.write_u8(addr, self.registers.a);
        self.registers.set_hl(addr + 0x01);
    }

    /// INC HL
    pub(super) fn inc_hl(&mut self)
        requires
            old(self).registers.hl() < 0xFFFF,
        ensures
            *final(self) == old(self).with_registers(old(self).registers.with_hl((old(self).registers.hl() + 1) as u16)),
    {
        let val = self.registers.get_hl();
        self.registers.set_hl(val + 0x01);
    }

    /// INC H
    pub(super) fn inc_h(&mut self)
        ensures
            *final(self) == old(self).with_registers(inc_reg(old(self).registers, 4)),
    {
        let r = self.registers.h;
        self.registers.h = self.inc(r);
    }

    /// DEC H
    pub(super) fn dec_h(&mut self)
        ensures
            *final(self) == old(self).with_registers(dec_reg(old(self).registers, 4)),
    {
        let r = self.registers.h;
        self.registers.h = self.dec(r);
    }

    /// LD H, imm8
    pub(super) fn ld_h_imm8(&mut self, operand: &Operand)
        requires
            *operand is Imm8,
        ensures
            *final(self) == old(self).with_registers(Registers { h: operand.imm8(), ..old(self).registers }),
    {
        let val = operand.unwrap_imm8();
        self.registers.h = val;
    }

    /// DAA
    pub(super) fn daa(&mut self)
        ensures
            *final(self) == old(self).with_registers(daa(old(self).registers)),
    {
        let mut correction_factor: u8 = 0x00;
        let subtraction = self.registers.flags.negative;
        proof {
            lemma_byte(self.registers.a);
            lemma_byte(0x60);
            lemma_byte(0x06);
        }

        if (self.registers.a > 0x99 && !subtraction) || self.registers.flags.carry {
            correction_factor |= 0x60;
            self.registers.flags.carry = true;
        }

        if ((self.registers.a & 0x0F) > 0x09 && !subtraction) || self.registers.flags.half_carry {
            correction_factor |= 0x06;
        }

        if subtraction {
            self.registers.a = self.registers.a.wrapping_sub(correction_factor);
        } else {
            self.registers.a = self.registers.a.wrapping_add(correction_factor);
        }

        self.registers.flags.zero = self.registers.a == 0x00;
        self.registers.flags.half_carry = false;
    }

    /// JR Z, imm8
    pub(super) fn jr_z_imm8(&mut self, operand: &Operand)
        requires
            *operand is Imm8,
            old(self).registers.flags.zero ==> jump_ok(old(self).registers.pc, operand.imm8()),
        ensures
            *final(self) == (if old(self).registers.flags.zero { old(self).with_registers(Registers { pc: jump_target(old(self).registers.pc, operand.imm8()), ..old(self).registers }) } else { *old(self) }),
    {
        let offset = operand.unwrap_imm8();

        if self.registers.flags.zero {
            self.relative_jump(offset);
        }
    }

    /// ADD HL, HL
    pub(super) fn add_hl_hl(&mut self)
        ensures
            *final(self) == old(self).with_registers(add_hl(old(self).registers, old(self).registers.hl())),
    {
        let v = self.registers.get_hl();
        self.add_hl(v);
    }

    /// LD A, (HL+)
    pub(super) fn ld_a_hli(&mut self, interconnect: &mut Interconnect)
        requires
            old(interconnect)@.wf(),
            old(interconnect)@.read_ok(old(self).registers.hl()),
            old(self).registers.hl() < 0xFFFF,
        ensures
            *final(self) == old(self).with_registers(Registers { a: old(interconnect)@.read_u8(old(self).registers.hl()), ..old(self).registers }.with_hl((old(self).registers.hl() + 1) as u16)),
            final(interconnect)@ == old(interconnect)@,
            final(interconnect)@.wf(),
    {
        let addr = self.registers.get_hl();
        let val = interconnect.read_u8(addr);
        self.registers.a = val;
        self.registers.set_hl(addr + 0x01);
    }

    /// DEC HL
    pub(super) fn dec_hl(&mut self)
        ensures
            *final(self) == old(self).with_registers(old(self).registers.with_hl(((old(self).registers.hl() + 0xFFFF) % 0x10000) as u16)),
    {
        let val = self.registers.get_hl().wrapping_sub(0x01);
        self.registers.set_hl(val);
    }

    /// INC L
    pub(super) fn inc_l(&mut self)
        ensures
            *final(self) == old(self).with_registers(inc_reg(old(self).registers, 5)),
    {
        let r = self.registers.l;
        self.registers.l = self.inc(r);
    }

    /// DEC L
    pub(super) fn dec_l(&mut self)
        ensures
            *final(self) == old(self).with_registers(dec_reg(old(self).registers, 5)),
    {
        let r = self.registers.l;
        self.registers.l = self.dec(r);
    }

    /// LD L, imm8
    pub(super) fn ld_l_imm8(&mut self, operand: &Operand)
        requires
            *operand is Imm8,
        ensures
            *final(self) == old(self).with_registers(Registers { l: operand.imm8(), ..old(self).registers }),
    {
        let val = operand.unwrap_imm8();
        self.registers.l = val;
    }

    /// CPL
    pub(super) fn cpl(&mut self)
        ensures
            *final(self) == old(self).with_registers(cpl(old(self).registers)),
    {
        self.registers.a = !self.registers.a as u8;
        self.registers.flags.negative = true;
        self.registers.flags.half_carry = true;
    }

    /// JR NC, imm8
    pub(super) fn jr_nc_imm8(&mut self, operand: &Operand)
        requires
            *operand is Imm8,
            !old(self).registers.flags.carry ==> jump_ok(old(self).registers.pc, operand.imm8()),
        ensures
            *final(self) == (if !old(self).registers.flags.carry { old(self).with_registers(Registers { pc: jump_target(old(self).registers.pc, operand.imm8()), ..old(self).registers }) } else { *old(self) }),
    {
        let offset = operand.unwrap_imm8();

        if !self.registers.flags.carry {
            self.relative_jump(offset);
        }
    }

    /// LD SP, imm16
    pub(super) fn ld_sp_imm16(&mut self, operand: &Operand)
        requires
            *operand is Imm16,
        ensures
            *final(self) == old(self).with_registers(Registers { sp: operand.imm16() as usize, ..old(self).registers }),
    {
        let addr = operand.unwrap_imm16();
        self.registers.sp = addr as usize;
    }

    /// LD (HL-), A
    pub(super) fn ld_hld_a(&mut self, interconnect: &mut Interconnect)
        requires
            old(interconnect)@.wf(),
            old(interconnect)@.write_ok(old(self).registers.hl(), old(self).registers.a),
            old(self).registers.hl() >= 1,
        ensures
            *final(self) == old(self).with_registers(old(self).registers.with_hl((old(self).registers.hl() - 1) as u16)),
            final(interconnect)@ == old(interconnect)@.write_u8(old(self).registers.hl(), old(self).registers.a),
            final(interconnect)@.wf(),
    {
        let addr = self.registers.get_hl();
        interconnect.write_u8(addr, self.registers.a);
        self.registers.set_hl(addr - 0x01);
    }

    /// INC SP
    pub(super) fn inc_sp(&mut self)
        requires
            old(self).registers.sp < usize::MAX,
        ensures
            *final(self) == old(self).with_registers(Registers { sp: (old(self).registers.sp + 1) as usize, ..old(self).registers }),
    {
        self.registers.sp += 0x01;
    }

    /// INC (HL)
    pub(super) fn inc_hl_ptr(&mut self, interconnect: &mut Interconnect)
        requires
            old(interconnect)@.wf(),
            old(interconnect)@.read_ok(old(self).registers.hl()),
            old(interconnect)@.write_ok(old(self).registers.hl(), inc_value(old(interconnect)@.read_u8(old(self).registers.hl()))),
        ensures
            *final(self) == old(self).with_registers(inc_flags(old(self).registers, old(interconnect)@.read_u8(old(self).registers.hl()))),
            final(interconnect)@ == old(interconnect)@.write_u8(old(self).registers.hl(), inc_value(old(interconnect)@.read_u8(old(self).registers.hl()))),
            final(interconnect)@.wf(),
    {
        let val = interconnect.read_u8(self.registers.get_hl());
        let result = self.inc(val);
        interconnect.write_u8(self.registers.get_hl(), result);
    }

    /// DEC (HL)
    pub(super) fn dec_hl_ptr(&mut self, interconnect: &mut Interconnect)
        requires
            old(interconnect)@.wf(),
            old(interconnect)@.read_ok(old(self).registers.hl()),
            old(interconnect)@.write_ok(old(self).registers.hl(), dec_value(old(interconnect)@.read_u8(old(self).registers.hl()))),
        ensures
            *final(self) == old(self).with_registers(dec_flags(old(self).registers, old(interconnect)@.read_u8(old(self).registers.hl()))),
            final(interconnect)@ == old(interconnect)@.write_u8(old(self).registers.hl(), dec_value(old(interconnect)@.read_u8(old(self).registers.hl()))),
            final(interconnect)@.wf(),
    {
        let val = interconnect.read_u8(self.registers.get_hl());
        let result = self.dec(val);
        interconnect.write_u8(self.registers.get_hl(), result);
    }

    /// LD (HL), imm8
    pub(super) fn ld_hl_imm8(&mut self, operand: &Operand, interconnect: &mut Interconnect)
        requires
            *operand is Imm8,
            old(interconnect)@.wf(),
            old(interconnect)@.write_ok(old(self).registers.hl(), operand.imm8()),
        ensures
            *final(self) == *old(self),
            final(interconnect)@ == old(interconnect)@.write_u8(old(self).registers.hl(), operand.imm8()),
            final(interconnect)@.wf(),
    {
        let val = operand.unwrap_imm8();
        let addr = self.registers.get_hl();

        interconnect.write_u8(addr, val);
    }

    /// SCF
    pub(super) fn scf(&mut self)
        ensures
            *final(self) == old(self).with_registers(scf(old(self).registers)),
    {
        self.registers.flags.negative = false;
        self.registers.flags.half_carry = false;
        self.registers.flags.carry = true;
    }

    /// JR C, imm8
    pub(super) fn jr_c_imm8(&mut self, operand: &Operand)
        requires
            *operand is Imm8,
            old(self).registers.flags.carry ==> jump_ok(old(self).registers.pc, operand.imm8()),
        ensures
            *final(self) == (if old(self).registers.flags.carry { old(self).with_registers(Registers { pc: jump_target(old(self).registers.pc, operand.imm8()), ..old(self).registers }) } else { *old(self) }),
    {
        let offset = operand.unwrap_imm8();

        if self.registers.flags.carry {
            self.relative_jump(offset);
        }
    }

    /// ADD HL, SP
    pub(super) fn add_hl_sp(&mut self)
        ensures
            *final(self) == old(self).with_registers(add_hl(old(self).registers, sp16(old(self).registers))),
    {
        let sp = self.registers.sp as u16;
        self.add_hl(sp);
    }

    /// LD A, (HL-)
    pub(super) fn ld_a_hld(&mut self, interconnect: &mut Interconnect)
        requires
            old(interconnect)@.wf(),
            old(interconnect)@.read_ok(old(self).registers.hl()),
            old(self).registers.hl() >= 1,
        ensures
            *final(self) == old(self).with_registers(Registers { a: old(interconnect)@.read_u8(old(self).registers.hl()), ..old(self).registers }.with_hl((old(self).registers.hl() - 1) as u16)),
            final(interconnect)@ == old(interconnect)@,
            final(interconnect)@.wf(),
    {
        let addr = self.registers.get_hl();
        let val = interconnect.read_u8(addr);
        self.registers.a = val;
        self.registers.set_hl(addr - 0x01);
    }

    /// DEC SP
    pub(super) fn dec_sp(&mut self)
        ensures
            *final(self) == old(self).with_registers(Registers { sp: wrapping_sub_usize(old(self).registers.sp, 1), ..old(self).registers }),
    {
        self.registers.sp = self.registers.sp.wrapping_sub(0x01);
    }

    /// INC A
    pub(super) fn inc_a(&mut self)
        ensures
            *final(self) == old(self).with_registers(inc_reg(old(self).registers, 7)),
    {
        let r = self.registers.a;
        self.registers.a = self.inc(r);
    }

    /// DEC A
    pub(super) fn dec_a(&mut self)
        ensures
            *final(self) == old(self).with_registers(dec_reg(old(self).registers, 7)),
    {
        let r = self.registers.a;
        self.registers.a = self.dec(r);
    }

    /// LD A, imm8
    pub(super) fn ld_a_imm8(&mut self, operand: &Operand)
        requires
            *operand is Imm8,
        ensures
            *final(self) == old(self).with_registers(Registers { a: operand.imm8(), ..old(self).registers }),
    {
        let val = operand.unwrap_imm8();
        self.registers.a = val;
    }

    /// CCF
    pub(super) fn ccf(&mut self)
        ensures
            *final(self) == old(self).with_registers(ccf(old(self).registers)),
    {
        self.registers.flags.negative = false;
        self.registers.flags.half_carry = false;
        self.registers.flags.carry = !self.registers.flags.carry;
    }

    /// LD B, C
    pub(super) fn ld_b_c(&mut self)
        ensures
            *final(self) == old(self).with_registers(Registers { b: old(self).registers.c, ..old(self).registers }),
    {
        self.registers.b = self.registers.c;
    }

    /// LD B, D
    pub(super) fn ld_b_d(&mut self)
        ensures
            *final(self) == old(self).with_registers(Registers { b: old(self).registers.d, ..old(self).registers }),
    {
        self.registers.b = self.registers.d;
    }

    /// LD B, E
    pub(super) fn ld_b_e(&mut self)
        ensures
            *final(self) == old(self).with_registers(Registers { b: old(self).registers.e, ..old(self).registers }),
    {
        self.registers.b = self.registers.e;
    }

    /// LD B, H
    pub(super) fn ld_b_h(&mut self)
        ensures
            *final(self) == old(self).with_registers(Registers { b: old(self).registers.h, ..old(self).registers }),
    {
        self.registers.b = self.registers.h;
    }

    /// LD B, L
    pub(super) fn ld_b_l(&mut self)
        ensures
            *final(self) == old(self).with_registers(Registers { b: old(self).registers.l, ..old(self).registers }),
    {
        self.registers.b = self.registers.l;
    }

    /// LD B, (HL)
    pub(super) fn ld_b_hl_ptr(&mut self, interconnect: &mut Interconnect)
        requires
            old(interconnect)@.wf(),
            old(interconnect)@.read_ok(old(self).registers.hl()),
        ensures
            *final(self) == old(self).with_registers(Registers { b: old(interconnect)@.read_u8(old(self).registers.hl()), ..old(self).registers }),
            final(interconnect)@ == old(interconnect)@,
            final(interconnect)@.wf(),
    {
        let addr = self.registers.get_hl();
        let val = interconnect.read_u8(addr);
        self.registers.b = val;
    }

    /// LD B, A
    pub(super) fn ld_b_a(&mut self)
        ensures
            *final(self) == old(self).with_registers(Registers { b: old(self).registers.a, ..old(self).registers }),
    {
        self.registers.b = self.registers.a;
    }

    /// LD C, B
    pub(super) fn ld_c_b(&mut self)
        ensures
            *final(self) == old(self).with_registers(Registers { c: old(self).registers.b, ..old(self).registers }),
    {
        self.registers.c = self.registers.b;
    }

    /// LD C, D
    pub(super) fn ld_c_d(&mut self)
        ensures
            *final(self) == old(self).with_registers(Registers { c: old(self).registers.d, ..old(self).registers }),
    {
        self.registers.c = self.registers.d;
    }

    /// LD C, E
    pub(super) fn ld_c_e(&mut self)
        ensures
            *final(self) == old(self).with_registers(Registers { c: old(self).registers.e, ..old(self).registers }),
    {
        self.registers.c = self.registers.e;
    }

    /// LD C, H
    pub(super) fn ld_c_h(&mut self)
        ensures
            *final(self) == old(self).with_registers(Registers { c: old(self).registers.h, ..old(self).registers }),
    {
        self.registers.c = self.registers.h;
    }

    /// LD C, L
    pub(super) fn ld_c_l(&mut self)
        ensures
            *final(self) == old(self).with_registers(Registers { c: old(self).registers.l, ..old(self).registers }),
    {
        self.registers.c = self.registers.l;
    }

    /// LD C, (HL)
    pub(super) fn ld_c_hl_ptr(&mut self, interconnect: &mut Interconnect)
        requires
            old(interconnect)@.wf(),
            old(interconnect)@.read_ok(old(self).registers.hl()),
        ensures
            *final(self) == old(self).with_registers(Registers { c: old(interconnect)@.read_u8(old(self).registers.hl()), ..old(self).registers }),
            final(interconnect)@ == old(interconnect)@,
            final(interconnect)@.wf(),
    {
        let addr = self.registers.get_hl();
        let val = interconnect.read_u8(addr);
        self.registers.c = val;
    }

    /// LD C, A
    pub(super) fn ld_c_a(&mut self)
        ensures
            *final(self) == old(self).with_registers(Registers { c: old(self).registers.a, ..old(self).registers }),
    {
        self.registers.c = self.registers.a;
    }

    /// LD D, B
    pub(super) fn ld_d_b(&mut self)
        ensures
            *final(self) == old(self).with_registers(Registers { d: old(self).registers.b, ..old(self).registers }),
    {
        self.registers.d = self.registers.b;
    }

    /// LD D, C
    pub(super) fn ld_d_c(&mut self)
        ensures
            *final(self) == old(self).with_registers(Registers { d: old(self).registers.c, ..old(self).registers }),
    {
        self.registers.d = self.registers.c;
    }

    /// LD D, E
    pub(super) fn ld_d_e(&mut self)
        ensures
            *final(self) == old(self).with_registers(Registers { d: old(self).registers.e, ..old(self).registers }),
    {
        self.registers.d = self.registers.e;
    }

    /// LD D, H
    pub(super) fn ld_d_h(&mut self)
        ensures
            *final(self) == old(self).with_registers(Registers { d: old(self).registers.h, ..old(self).registers }),
    {
        self.registers.d = self.registers.h;
    }

    /// LD D, L
    pub(super) fn ld_d_l(&mut self)
        ensures
            *final(self) == old(self).with_registers(Registers { d: old(self).registers.l, ..old(self).registers }),
    {
        self.registers.d = self.registers.l;
    }

    /// LD D, (HL)
    pub(super) fn ld_d_hl_ptr(&mut self, interconnect: &mut Interconnect)
        requires
            old(interconnect)@.wf(),
            old(interconnect)@.read_ok(old(self).registers.hl()),
        ensures
            *final(self) == old(self).with_registers(Registers { d: old(interconnect)@.read_u8(old(self).registers.hl()), ..old(self).registers }),
            final(interconnect)@ == old(interconnect)@,
            final(interconnect)@.wf(),
    {
        let addr = self.registers.get_hl();
        let val = interconnect.read_u8(addr);
        self.registers.d = val;
    }

    /// LD D, A
    pub(super) fn ld_d_a(&mut self)
        ensures
            *final(self) == old(self).with_registers(Registers { d: old(self).registers.a, ..old(self).registers }),
    {
        self.registers.d = self.registers.a;
    }

    /// LD E, B
    pub(super) fn ld_e_b(&mut self)
        ensures
            *final(self) == old(self).with_registers(Registers { e: old(self).registers.b, ..old(self).registers }),
    {
        self.registers.e = self.registers.b;
    }

    /// LD E, C
    pub(super) fn ld_e_c(&mut self)
        ensures
            *final(self) == old(self).with_registers(Registers { e: old(self).registers.c, ..old(self).registers }),
    {
        self.registers.e = self.registers.c;
    }

    /// LD E, D
    pub(super) fn ld_e_d(&mut self)
        ensures
            *final(self) == old(self).with_registers(Registers { e: old(self).registers.d, ..old(self).registers }),
    {
        self.registers.e = self.registers.d;
    }

    /// LD E, H
    pub(super) fn ld_e_h(&mut self)
        ensures
            *final(self) == old(self).with_registers(Registers { e: old(self).registers.h, ..old(self).registers }),
    {
        self.registers.e = self.registers.h;
    }

    /// LD E, L
    pub(super) fn ld_e_l(&mut self)
        ensures
            *final(self) == old(self).with_registers(Registers { e: old(self).registers.l, ..old(self).registers }),
    {
        self.registers.e = self.registers.l;
    }

    /// LD E, (HL)
    pub(super) fn ld_e_hl(&mut self, interconnect: &mut Interconnect)
        requires
            old(interconnect)@.wf(),
            old(interconnect)@.read_ok(old(self).registers.hl()),
        ensures
            *final(self) == old(self).with_registers(Registers { e: old(interconnect)@.read_u8(old(self).registers.hl()), ..old(self).registers }),
            final(interconnect)@ == old(interconnect)@,
            final(interconnect)@.wf(),
    {
        let addr = self.registers.get_hl();
        let val = interconnect.read_u8(addr);
        self.registers.e = val;
    }

    /// LD E, A
    pub(super) fn ld_e_a(&mut self)
        ensures
            *final(self) == old(self).with_registers(Registers { e: old(self).registers.a, ..old(self).registers }),
    {
        self.registers.e = self.registers.a;
    }

    /// LD H, B
    pub(super) fn ld_h_b(&mut self)
        ensures
            *final(self) == old(self).with_registers(Registers { h: old(self).registers.b, ..old(self).registers }),
    {
        self.registers.h = self.registers.b;
    }

    /// LD H, C
    pub(super) fn ld_h_c(&mut self)
        ensures
            *final(self) == old(self).with_registers(Registers { h: old(self).registers.c, ..old(self).registers }),
    {
        self.registers.h = self.registers.c;
    }

    /// LD H, D
    pub(super) fn ld_h_d(&mut self)
        ensures
            *final(self) == old(self).with_registers(Registers { h: old(self).registers.d, ..old(self).registers }),
    {
        self.registers.h = self.registers.d;
    }

    /// LD H, E
    pub(super) fn ld_h_e(&mut self)
        ensures
            *final(self) == old(self).with_registers(Registers { h: old(self).registers.e, ..old(self).registers }),
    {
        self.registers.h = self.registers.e;
    }

    /// LD H, L
    pub(super) fn ld_h_l(&mut self)
        ensures
            *final(self) == old(self).with_registers(Registers { h: old(self).registers.l, ..old(self).registers }),
    {
        self.registers.h = self.registers.l;
    }

    /// LD H, (HL)
    pub(super) fn ld_h_hl_ptr(&mut self, interconnect: &mut Interconnect)
        requires
            old(interconnect)@.wf(),
            old(interconnect)@.read_ok(old(self).registers.hl()),
        ensures
            *final(self) == old(self).with_registers(Registers { h: old(interconnect)@.read_u8(old(self).registers.hl()), ..old(self).registers }),
            final(interconnect)@ == old(interconnect)@,
            final(interconnect)@.wf(),
    {
        let addr = self.registers.get_hl();
        let val = interconnect.read_u8(addr);
        self.registers.h = val;
    }

    /// LD H, A
    pub(super) fn ld_h_a(&mut self)
        ensures
            *final(self) == old(self).with_registers(Registers { h: old(self).registers.a, ..old(self).registers }),
    {
        self.registers.h = self.registers.a;
    }

    /// LD L, B
    pub(super) fn ld_l_b(&mut self)
        ensures
            *final(self) == old(self).with_registers(Registers { l: old(self).registers.b, ..old(self).registers }),
    {
        self.registers.l = self.registers.b;
    }

    /// LD L, C
    pub(super) fn ld_l_c(&mut self)
        ensures
            *final(self) == old(self).with_registers(Registers { l: old(self).registers.c, ..old(self).registers }),
    {
        self.registers.l = self.registers.c;
    }

    /// LD L, D
    pub(super) fn ld_l_d(&mut self)
        ensures
            *final(self) == old(self).with_registers(Registers { l: old(self).registers.d, ..old(self).registers }),
    {
        self.registers.l = self.registers.d;
    }

    /// LD L, E
    pub(super) fn ld_l_e(&mut self)
        ensures
            *final(self) == old(self).with_registers(Registers { l: old(self).registers.e, ..old(self).registers }),
    {
        self.registers.l = self.registers.e;
    }

    /// LD L, H
    pub(super) fn ld_l_h(&mut self)
        ensures
            *final(self) == old(self).with_registers(Registers { l: old(self).registers.h, ..old(self).registers }),
    {
        self.registers.l = self.registers.h;
    }

    /// LD L, (HL)
    pub(super) fn ld_l_hl(&mut self, interconnect: &mut Interconnect)
        requires
            old(interconnect)@.wf(),
            old(interconnect)@.read_ok(old(self).registers.hl()),
        ensures
            *final(self) == old(self).with_registers(Registers { l: old(interconnect)@.read_u8(old(self).registers.hl()), ..old(self).registers }),
            final(interconnect)@ == old(interconnect)@,
            final(interconnect)@.wf(),
    {
        let addr = self.registers.get_hl();
        let val = interconnect.read_u8(addr);
        self.registers.l = val;
    }

    /// LD L, A
    pub(super) fn ld_l_a(&mut self)
        ensures
            *final(self) == old(self).with_registers(Registers { l: old(self).registers.a, ..old(self).registers }),
    {
        self.registers.l = self.registers.a;
    }

    /// LD (HL), B
    pub(super) fn ld_hl_ptr_b(&mut self, interconnect: &mut Interconnect)
        requires
            old(interconnect)@.wf(),
            old(interconnect)@.write_ok(old(self).registers.hl(), old(self).registers.b),
        ensures
            *final(self) == *old(self),
            final(interconnect)@ == old(interconnect)@.write_u8(old(self).registers.hl(), old(self).registers.b),
            final(interconnect)@.wf(),
    {
        let addr = self.registers.get_hl();
        interconnect.write_u8(addr, self.registers.b);
    }

    /// LD (HL), C
    pub(super) fn ld_hl_ptr_c(&mut self, interconnect: &mut Interconnect)
        requires
            old(interconnect)@.wf(),
            old(interconnect)@.write_ok(old(self).registers.hl(), old(self).registers.c),
        ensures
            *final(self) == *old(self),
            final(interconnect)@ == old(interconnect)@.write_u8(old(self).registers.hl(), old(self).registers.c),
            final(interconnect)@.wf(),
    {
        let addr = self.registers.get_hl();
        interconnect.write_u8(addr, self.registers.c);
    }

    /// LD (HL), D
    pub(super) fn ld_hl_ptr_d(&mut self, interconnect: &mut Interconnect)
        requires
            old(interconnect)@.wf(),
            old(interconnect)@.write_ok(old(self).registers.hl(), old(self).registers.d),
        ensures
            *final(self) == *old(self),
            final(interconnect)@ == old(interconnect)@.write_u8(old(self).registers.hl(), old(self).registers.d),
            final(interconnect)@.wf(),
    {
        let addr = self.registers.get_hl();
        interconnect.write_u8(addr, self.registers.d);
    }

    /// LD (HL), E
    pub(super) fn ld_hl_ptr_e(&mut self, interconnect: &mut Interconnect)
        requires
            old(interconnect)@.wf(),
            old(interconnect)@.write_ok(old(self).registers.hl(), old(self).registers.e),
        ensures
            *final(self) == *old(self),
            final(interconnect)@ == old(interconnect)@.write_u8(old(self).registers.hl(), old(self).registers.e),
            final(interconnect)@.wf(),
    {
        let addr = self.registers.get_hl();
        interconnect.write_u8(addr, self.registers.e);
    }

    /// LD (HL), H
    pub(super) fn ld_hl_ptr_h(&mut self, interconnect: &mut Interconnect)
        requires
            old(interconnect)@.wf(),
            old(interconnect)@.write_ok(old(self).registers.hl(), old(self).registers.h),
        ensures
            *final(self) == *old(self),
            final(interconnect)@ == old(interconnect)@.write_u8(old(self).registers.hl(), old(self).registers.h),
            final(interconnect)@.wf(),
    {
        let addr = self.registers.get_hl();
        interconnect.write_u8(addr, self.registers.h);
    }

    /// LD (HL), L
    pub(super) fn ld_hl_ptr_l(&mut self, interconnect: &mut Interconnect)
        requires
            old(interconnect)@.wf(),
            old(interconnect)@.write_ok(old(self).registers.hl(), old(self).registers.l),
        ensures
            *final(self) == *old(self),
            final(interconnect)@ == old(interconnect)@.write_u8(old(self).registers.hl(), old(self).registers.l),
            final(interconnect)@.wf(),
    {
        let addr = self.registers.get_hl();
        interconnect.write_u8(addr, self.registers.l);
    }

    /// HALT
    pub(super) fn halt(&mut self)
        ensures
            *final(self) == (Cpu { halted: true, ..*old(self) }),
    {
        self.halted = true;
    }

    /// LD (HL), A
    pub(super) fn ld_hl_ptr_a(&mut self, interconnect: &mut Interconnect)
        requires
            old(interconnect)@.wf(),
            old(interconnect)@.write_ok(old(self).registers.hl(), old(self).registers.a),
        ensures
            *final(self) == *old(self),
            final(interconnect)@ == old(interconnect)@.write_u8(old(self).registers.hl(), old(self).registers.a),
            final(interconnect)@.wf(),
    {
        let addr = self.registers.get_hl();
        interconnect.write_u8(addr, self.registers.a);
    }

    /// LD A, B
    pub(super) fn ld_a_b(&mut self)
        ensures
            *final(self) == old(self).with_registers(Registers { a: old(self).registers.b, ..old(self).registers }),
    {
        self.registers.a = self.registers.b;
    }

    /// LD A, C
    pub(super) fn ld_a_c(&mut self)
        ensures
            *final(self) == old(self).with_registers(Registers { a: old(self).registers.c, ..old(self).registers }),
    {
        self.registers.a = self.registers.c;
    }

    /// LD A, D
    pub(super) fn ld_a_d(&mut self)
        ensures
            *final(self) == old(self).with_registers(Registers { a: old(self).registers.d, ..old(self).registers }),
    {
        self.registers.a = self.registers.d;
    }

    /// LD A, E
    pub(super) fn ld_a_e(&mut self)
        ensures
            *final(self) == old(self).with_registers(Registers { a: old(self).registers.e, ..old(self).registers }),
    {
        self.registers.a = self.registers.e;
    }

    /// LD A, H
    pub(super) fn ld_a_h(&mut self)
        ensures
            *final(self) == old(self).with_registers(Registers { a: old(self).registers.h, ..old(self).registers }),
    {
        self.registers.a = self.registers.h;
    }

    /// LD A, L
    pub(super) fn ld_a_l(&mut self)
        ensures
            *final(self) == old(self).with_registers(Registers { a: old(self).registers.l, ..old(self).registers }),
    {
        self.registers.a = self.registers.l;
    }

    /// LD A, (HL)
    pub(super) fn ld_a_hl(&mut self, interconnect: &mut Interconnect)
        requires
            old(interconnect)@.wf(),
            old(interconnect)@.read_ok(old(self).registers.hl()),
        ensures
            *final(self) == old(self).with_registers(Registers { a: old(interconnect)@.read_u8(old(self).registers.hl()), ..old(self).registers }),
            final(interconnect)@ == old(interconnect)@,
            final(interconnect)@.wf(),
    {
        let addr = self.registers.get_hl();
        let val = interconnect.read_u8(addr);
        self.registers.a = val;
    }

    /// ADD A, B
    pub(super) fn add_a_b(&mut self)
        ensures
            *final(self) == old(self).with_registers(alu_add(old(self).registers, old(self).registers.b)),
    {
        let b = self.registers.b;
        self.add(b);
    }

    /// ADD A, C
    pub(super) fn add_a_c(&mut self)
        ensures
            *final(self) == old(self).with_registers(alu_add(old(self).registers, old(self).registers.c)),
    {
        let c = self.registers.c;
        self.add(c);
    }

    /// ADD A, D
    pub(super) fn add_a_d(&mut self)
        ensures
            *final(self) == old(self).with_registers(alu_add(old(self).registers, old(self).registers.d)),
    {
        let d = self.registers.d;
        self.add(d);
    }

    /// ADD A, E
    pub(super) fn add_a_e(&mut self)
        ensures
            *final(self) == old(self).with_registers(alu_add(old(self).registers, old(self).registers.e)),
    {
        let e = self.registers.e;
        self.add(e);
    }

    /// ADD A, H
    pub(super) fn add_a_h(&mut self)
        ensures
            *final(self) == old(self).with_registers(alu_add(old(self).registers, old(self).registers.h)),
    {
        let h = self.registers.h;
        self.add(h);
    }

    /// ADD A, L
    pub(super) fn add_a_l(&mut self)
        ensures
            *final(self) == old(self).with_registers(alu_add(old(self).registers, old(self).registers.l)),
    {
        let l = self.registers.l;
        self.add(l);
    }

    /// ADD A, (HL)
    pub(super) fn add_a_hl_ptr(&mut self, interconnect: &mut Interconnect)
        requires
            old(interconnect)@.wf(),
            old(interconnect)@.read_ok(old(self).registers.hl()),
        ensures
            *final(self) == old(self).with_registers(alu_add(old(self).registers, old(interconnect)@.read_u8(old(self).registers.hl()))),
            final(interconnect)@ == old(interconnect)@,
            final(interconnect)@.wf(),
    {
        let val = interconnect.read_u8(self.registers.get_hl());
        self.add(val);
    }

    /// ADD A, A
    pub(super) fn add_a_a(&mut self)
        ensures
            *final(self) == old(self).with_registers(alu_add(old(self).registers, old(self).registers.a)),
    {
        let v = self.registers.a;
        self.add(v);
    }

    /// ADC A, B
    pub(super) fn adc_a_b(&mut self)
        ensures
            *final(self) == old(self).with_registers(alu_adc(old(self).registers, old(self).registers.b)),
    {
        let b = self.registers.b;
        let a = self.registers.a;
        self.adc(a, b);
    }

    /// ADC A, C
    pub(super) fn adc_a_c(&mut self)
        ensures
            *final(self) == old(self).with_registers(alu_adc(old(self).registers, old(self).registers.c)),
    {
        let c = self.registers.c;
        let a = self.registers.a;
        self.adc(a, c);
    }

    /// ADC A, D
    pub(super) fn adc_a_d(&mut self)
        ensures
            *final(self) == old(self).with_registers(alu_adc(old(self).registers, old(self).registers.d)),
    {
        let d = self.registers.d;
        let a = self.registers.a;
        self.adc(a, d);
    }

    /// ADC A, E
    pub(super) fn adc_a_e(&mut self)
        ensures
            *final(self) == old(self).with_registers(alu_adc(old(self).registers, old(self).registers.e)),
    {
        let e = self.registers.e;
        let a = self.registers.a;
        self.adc(a, e);
    }

    /// ADC A, H
    pub(super) fn adc_a_h(&mut self)
        ensures
            *final(self) == old(self).with_registers(alu_adc(old(self).registers, old(self).registers.h)),
    {
        let h = self.registers.h;
        let a = self.registers.a;
        self.adc(a, h);
    }

    /// ADC A, L
    pub(super) fn adc_a_l(&mut self)
        ensures
            *final(self) == old(self).with_registers(alu_adc(old(self).registers, old(self).registers.l)),
    {
        let l = self.registers.l;
        let a = self.registers.a;
        self.adc(a, l);
    }

    /// ADC A, (HL)
    pub(super) fn adc_a_hl_ptr(&mut self, interconnect: &mut Interconnect)
        requires
            old(interconnect)@.wf(),
            old(interconnect)@.read_ok(old(self).registers.hl()),
        ensures
            *final(self) == old(self).with_registers(alu_adc(old(self).registers, old(interconnect)@.read_u8(old(self).registers.hl()))),
            final(interconnect)@ == old(interconnect)@,
            final(interconnect)@.wf(),
    {
        let val = interconnect.read_u8(self.registers.get_hl());
        let a = self.registers.a;
        self.adc(a, val);
    }

    /// ADC A, A
    pub(super) fn adc_a_a(&mut self)
        ensures
            *final(self) == old(self).with_registers(alu_adc(old(self).registers, old(self).registers.a)),
    {
        let v = self.registers.a;
        let a = self.registers.a;
        self.adc(a, v);
    }

    /// SUB B
    pub(super) fn sub_b(&mut self)
        ensures
            *final(self) == old(self).with_registers(alu_sub(old(self).registers, old(self).registers.b)),
    {
        let b = self.registers.b;
        self.sub(b);
    }

    /// SUB C
    pub(super) fn sub_c(&mut self)
        ensures
            *final(self) == old(self).with_registers(alu_sub(old(self).registers, old(self).registers.c)),
    {
        let c = self.registers.c;
        self.sub(c);
    }

    /// SUB D
    pub(super) fn sub_d(&mut self)
        ensures
            *final(self) == old(self).with_registers(alu_sub(old(self).registers, old(self).registers.d)),
    {
        let d = self.registers.d;
        self.sub(d);
    }

    /// SUB E
    pub(super) fn sub_e(&mut self)
        ensures
            *final(self) == old(self).with_registers(alu_sub(old(self).registers, old(self).registers.e)),
    {
        let e = self.registers.e;
        self.sub(e);
    }

    /// SUB H
    pub(super) fn sub_h(&mut self)
        ensures
            *final(self) == old(self).with_registers(alu_sub(old(self).registers, old(self).registers.h)),
    {
        let h = self.registers.h;
        self.sub(h);
    }

    /// SUB L
    pub(super) fn sub_l(&mut self)
        ensures
            *final(self) == old(self).with_registers(alu_sub(old(self).registers, old(self).registers.l)),
    {
        let l = self.registers.l;
        self.sub(l);
    }

    /// SUB (HL)
    pub(super) fn sub_hl(&mut self, interconnect: &mut Interconnect)
        requires
            old(interconnect)@.wf(),
            old(interconnect)@.read_ok(old(self).registers.hl()),
        ensures
            *final(self) == old(self).with_registers(alu_sub(old(self).registers, old(interconnect)@.read_u8(old(self).registers.hl()))),
            final(interconnect)@ == old(interconnect)@,
            final(interconnect)@.wf(),
    {
        let val = interconnect.read_u8(self.registers.get_hl());
        self.sub(val);
    }

    /// SUB A
    pub(super) fn sub_a(&mut self)
        ensures
            *final(self) == old(self).with_registers(alu_sub(old(self).registers, old(self).registers.a)),
    {
        let v = self.registers.a;
        self.sub(v);
    }

    /// SBC A, B
    pub(super) fn sbc_a_b(&mut self)
        ensures
            *final(self) == old(self).with_registers(alu_sbc(old(self).registers, old(self).registers.b)),
    {
        let b = self.registers.b;
        self.sbc(b);
    }

    /// SBC A, C
    pub(super) fn sbc_a_c(&mut self)
        ensures
            *final(self) == old(self).with_registers(alu_sbc(old(self).registers, old(self).registers.c)),
    {
        let c = self.registers.c;
        self.sbc(c);
    }

    /// SBC A, D
    pub(super) fn sbc_a_d(&mut self)
        ensures
            *final(self) == old(self).with_registers(alu_sbc(old(self).registers, old(self).registers.d)),
    {
        let d = self.registers.d;
        self.sbc(d);
    }

    /// SBC A, E
    pub(super) fn sbc_a_e(&mut self)
        ensures
            *final(self) == old(self).with_registers(alu_sbc(old(self).registers, old(self).registers.e)),
    {
        let e = self.registers.e;
        self.sbc(e);
    }

    /// SBC A, H
    pub(super) fn sbc_a_h(&mut self)
        ensures
            *final(self) == old(self).with_registers(alu_sbc(old(self).registers, old(self).registers.h)),
    {
        let h = self.registers.h;
        self.sbc(h);
    }

    /// SBC A, L
    pub(super) fn sbc_a_l(&mut self)
        ensures
            *final(self) == old(self).with_registers(alu_sbc(old(self).registers, old(self).registers.l)),
    {
        let l = self.registers.l;
        self.sbc(l);
    }

    /// SBC A, (HL)
    pub(super) fn sbc_a_hl_ptr(&mut self, interconnect: &mut Interconnect)
        requires
            old(interconnect)@.wf(),
            old(interconnect)@.read_ok(old(self).registers.hl()),
        ensures
            *final(self) == old(self).with_registers(alu_sbc(old(self).registers, old(interconnect)@.read_u8(old(self).registers.hl()))),
            final(interconnect)@ == old(interconnect)@,
            final(interconnect)@.wf(),
    {
        let val = interconnect.read_u8(self.registers.get_hl());
        self.sbc(val);
    }

    /// SBC A, A
    pub(super) fn sbc_a_a(&mut self)
        ensures
            *final(self) == old(self).with_registers(alu_sbc(old(self).registers, old(self).registers.a)),
    {
        let v = self.registers.a;
        self.sbc(v);
    }

    /// AND B
    pub(super) fn and_b(&mut self)
        ensures
            *final(self) == old(self).with_registers(alu_and(old(self).registers, old(self).registers.b)),
    {
        let b = self.registers.b;
        self.and(b);
    }

    /// AND C
    pub(super) fn and_c(&mut self)
        ensures
            *final(self) == old(self).with_registers(alu_and(old(self).registers, old(self).registers.c)),
    {
        let c = self.registers.c;
        self.and(c);
    }

    /// AND D
    pub(super) fn and_d(&mut self)
        ensures
            *final(self) == old(self).with_registers(alu_and(old(self).registers, old(self).registers.d)),
    {
        let d = self.registers.d;
        self.and(d);
    }

    /// AND E
    pub(super) fn and_e(&mut self)
        ensures
            *final(self) == old(self).with_registers(alu_and(old(self).registers, old(self).registers.e)),
    {
        let e = self.registers.e;
        self.and(e);
    }

    /// AND H
    pub(super) fn and_h(&mut self)
        ensures
            *final(self) == old(self).with_registers(alu_and(old(self).registers, old(self).registers.h)),
    {
        let h = self.registers.h;
        self.and(h);
    }

    /// AND L
    pub(super) fn and_l(&mut self)
        ensures
            *final(self) == old(self).with_registers(alu_and(old(self).registers, old(self).registers.l)),
    {
        let l = self.registers.l;
        self.and(l);
    }

    /// AND (HL)
    pub(super) fn and_hl_ptr(&mut self, interconnect: &mut Interconnect)
        requires
            old(interconnect)@.wf(),
            old(interconnect)@.read_ok(old(self).registers.hl()),
        ensures
            *final(self) == old(self).with_registers(alu_and(old(self).registers, old(interconnect)@.read_u8(old(self).registers.hl()))),
            final(interconnect)@ == old(interconnect)@,
            final(interconnect)@.wf(),
    {
        let val = interconnect.read_u8(self.registers.get_hl());
        self.and(val);
    }

    /// AND A
    pub(super) fn and_a(&mut self)
        ensures
            *final(self) == old(self).with_registers(alu_and(old(self).registers, old(self).registers.a)),
    {
        let v = self.registers.a;
        self.and(v);
    }

    /// XOR B
    pub(super) fn xor_b(&mut self)
        ensures
            *final(self) == old(self).with_registers(alu_xor(old(self).registers, old(self).registers.b)),
    {
        let b = self.registers.b;
        self.xor(b);
    }

    /// XOR C
    pub(super) fn xor_c(&mut self)
        ensures
            *final(self) == old(self).with_registers(alu_xor(old(self).registers, old(self).registers.c)),
    {
        let c = self.registers.c;
        self.xor(c);
    }

    /// XOR D
    pub(super) fn xor_d(&mut self)
        ensures
            *final(self) == old(self).with_registers(alu_xor(old(self).registers, old(self).registers.d)),
    {
        let d = self.registers.d;
        self.xor(d);
    }

    /// XOR E
    pub(super) fn xor_e(&mut self)
        ensures
            *final(self) == old(self).with_registers(alu_xor(old(self).registers, old(self).registers.e)),
    {
        let e = self.registers.e;
        self.xor(e);
    }

    /// XOR H
    pub(super) fn xor_h(&mut self)
        ensures
            *final(self) == old(self).with_registers(alu_xor(old(self).registers, old(self).registers.h)),
    {
        let h = self.registers.h;
        self.xor(h);
    }

    /// XOR L
    pub(super) fn xor_l(&mut self)
        ensures
            *final(self) == old(self).with_registers(alu_xor(old(self).registers, old(self).registers.l)),
    {
        let l = self.registers.l;
        self.xor(l);
    }

    /// XOR (HL)
    pub(super) fn xor_hl_ptr(&mut self, interconnect: &mut Interconnect)
        requires
            old(interconnect)@.wf(),
            old(interconnect)@.read_ok(old(self).registers.hl()),
        ensures
            *final(self) == old(self).with_registers(alu_xor(old(self).registers, old(interconnect)@.read_u8(old(self).registers.hl()))),
            final(interconnect)@ == old(interconnect)@,
            final(interconnect)@.wf(),
    {
        let val = interconnect.read_u8(self.registers.get_hl());
        self.xor(val);
    }

    /// XOR A
    pub(super) fn xor_a(&mut self)
        ensures
            *final(self) == old(self).with_registers(alu_xor(old(self).registers, old(self).registers.a)),
    {
        let v = self.registers.a;
        self.xor(v);
    }

    /// OR B
    pub(super) fn or_b(&mut self)
        ensures
            *final(self) == old(self).with_registers(alu_or(old(self).registers, old(self).registers.b)),
    {
        let b = self.registers.b;
        self.or(b);
    }

    /// OR C
    pub(super) fn or_c(&mut self)
        ensures
            *final(self) == old(self).with_registers(alu_or(old(self).registers, old(self).registers.c)),
    {
        let c = self.registers.c;
        self.or(c);
    }

    /// OR D
    pub(super) fn or_d(&mut self)
        ensures
            *final(self) == old(self).with_registers(alu_or(old(self).registers, old(self).registers.d)),
    {
        let d = self.registers.d;
        self.or(d);
    }

    /// OR E
    pub(super) fn or_e(&mut self)
        ensures
            *final(self) == old(self).with_registers(alu_or(old(self).registers, old(self).registers.e)),
    {
        let e = self.registers.e;
        self.or(e);
    }

    /// OR H
    pub(super) fn or_h(&mut self)
        ensures
            *final(self) == old(self).with_registers(alu_or(old(self).registers, old(self).registers.h)),
    {
        let h = self.registers.h;
        self.or(h);
    }

    /// OR L
    pub(super) fn or_l(&mut self)
        ensures
            *final(self) == old(self).with_registers(alu_or(old(self).registers, old(self).registers.l)),
    {
        let l = self.registers.l;
        self.or(l);
    }

    /// OR (HL)
    pub(super) fn or_hl_ptr(&mut self, interconnect: &mut Interconnect)
        requires
            old(interconnect)@.wf(),
            old(interconnect)@.read_ok(old(self).registers.hl()),
        ensures
            *final(self) == old(self).with_registers(alu_or(old(self).registers, old(interconnect)@.read_u8(old(self).registers.hl()))),
            final(interconnect)@ == old(interconnect)@,
            final(interconnect)@.wf(),
    {
        let val = interconnect.read_u8(self.registers.get_hl());
        self.or(val);
    }

    /// OR A
    pub(super) fn or_a(&mut self)
        ensures
            *final(self) == old(self).with_registers(alu_or(old(self).registers, old(self).registers.a)),
    {
        let v = self.registers.a;
        self.or(v);
    }

    /// CP B
    pub(super) fn cp_b(&mut self)
        ensures
            *final(self) == old(self).with_registers(alu_cp(old(self).registers, old(self).registers.b)),
    {
        let b = self.registers.b;
        self.cp(b);
    }

    /// CP C
    pub(super) fn cp_c(&mut self)
        ensures
            *final(self) == old(self).with_registers(alu_cp(old(self).registers, old(self).registers.c)),
    {
        let c = self.registers.c;
        self.cp(c);
    }

    /// CP D
    pub(super) fn cp_d(&mut self)
        ensures
            *final(self) == old(self).with_registers(alu_cp(old(self).registers, old(self).registers.d)),
    {
        let d = self.registers.d;
        self.cp(d);
    }

    /// CP E
    pub(super) fn cp_e(&mut self)
        ensures
            *final(self) == old(self).with_registers(alu_cp(old(self).registers, old(self).registers.e)),
    {
        let e = self.registers.e;
        self.cp(e);
    }

    /// CP H
    pub(super) fn cp_h(&mut self)
        ensures
            *final(self) == old(self).with_registers(alu_cp(old(self).registers, old(self).registers.h)),
    {
        let h = self.registers.h;
        self.cp(h);
    }

    /// CP L
    pub(super) fn cp_l(&mut self)
        ensures
            *final(self) == old(self).with_registers(alu_cp(old(self).registers, old(self).registers.l)),
    {
        let l = self.registers.l;
        self.cp(l);
    }

    /// CP (HL)
    pub(super) fn cp_hl_ptr(&mut self, interconnect: &mut Interconnect)
        requires
            old(interconnect)@.wf(),
            old(interconnect)@.read_ok(old(self).registers.hl()),
        ensures
            *final(self) == old(self).with_registers(alu_cp(old(self).registers, old(interconnect)@.read_u8(old(self).registers.hl()))),
            final(interconnect)@ == old(interconnect)@,
            final(interconnect)@.wf(),
    {
        let val = interconnect.read_u8(self.registers.get_hl());
        self.cp(val);
    }

    /// CP A
    pub(super) fn cp_a(&mut self)
        ensures
            *final(self) == old(self).with_registers(alu_cp(old(self).registers, old(self).registers.a)),
    {
        let v = self.registers.a;
        self.cp(v);
    }

    /// RET NZ
    pub(super) fn ret_nz(&mut self, interconnect: &mut Interconnect)
        requires
            old(interconnect)@.wf(),
            !old(self).registers.flags.zero ==> pop_ok(old(self).registers, old(interconnect)@),
        ensures
            *final(self) == (if !old(self).registers.flags.zero { old(self).with_registers(Registers { pc: pop_value(old(self).registers, old(interconnect)@), ..popped(old(self).registers) }) } else { *old(self) }),
            final(interconnect)@ == old(interconnect)@,
            final(interconnect)@.wf(),
    {
        if !self.registers.flags.zero {
            let addr = interconnect.read_u16(self.registers.sp as u16);
            self.registers.sp += 0x02;
            self.registers.pc = addr;
        }
    }

    /// POP BC
    pub(super) fn pop_bc(&mut self, interconnect: &mut Interconnect)
        requires
            old(interconnect)@.wf(),
            pop_ok(old(self).registers, old(interconnect)@),
        ensures
            *final(self) == old(self).with_registers(popped(old(self).registers).with_bc(pop_value(old(self).registers, old(interconnect)@))),
            final(interconnect)@ == old(interconnect)@,
            final(interconnect)@.wf(),
    {
        let addr = interconnect.read_u16(self.registers.sp as u16);
        self.registers.sp += 0x02;
        self.registers.set_bc(addr);
    }

    /// JP NZ, imm16
    pub(super) fn jp_nz_imm16(&mut self, operand: &Operand)
        requires
            *operand is Imm16,
        ensures
            *final(self) == (if !old(self).registers.flags.zero { old(self).with_registers(Registers { pc: operand.imm16(), ..old(self).registers }) } else { *old(self) }),
    {
        if !self.registers.flags.zero {
            self.jp_imm16(operand);
        }
    }

    /// JP imm16
    pub(super) fn jp_imm16(&mut self, operand: &Operand)
        requires
            *operand is Imm16,
        ensures
            *final(self) == old(self).with_registers(Registers { pc: operand.imm16(), ..old(self).registers }),
    {
        let addr = operand.unwrap_imm16();
        self.registers.set_pc(addr);
    }

    /// CALL NZ, imm16
    pub(super) fn call_nz_imm16(&mut self, operand: &Operand, interconnect: &mut Interconnect)
        requires
            *operand is Imm16,
            old(interconnect)@.wf(),
            !old(self).registers.flags.zero ==> push_ok(old(self).registers, old(interconnect)@),
        ensures
            (*final(self), final(interconnect)@) == (if !old(self).registers.flags.zero { call(*old(self), old(interconnect)@, operand.imm16()) } else { (*old(self), old(interconnect)@) }),
            final(interconnect)@.wf(),
    {
        if !self.registers.flags.zero {
            let addr = operand.unwrap_imm16();
            self.call(addr, interconnect);
        }
    }

    /// PUSH BC
    pub(super) fn push_bc(&mut self, interconnect: &mut Interconnect)
        requires
            old(interconnect)@.wf(),
            push_ok(old(self).registers, old(interconnect)@),
        ensures
            (*final(self), final(interconnect)@) == push(*old(self), old(interconnect)@, old(self).registers.bc()),
            final(interconnect)@.wf(),
    {
        let val = self.registers.get_bc();
        self.registers.sp -= 0x02;
        interconnect.write_u16(self.registers.sp as u16, val);
    }

    /// ADD A, imm8
    pub(super) fn add_a_imm8(&mut self, operand: &Operand)
        requires
            *operand is Imm8,
        ensures
            *final(self) == old(self).with_registers(alu_add(old(self).registers, operand.imm8())),
    {
        let val = operand.unwrap_imm8();
        self.add(val);
    }

    /// RET Z
    pub(super) fn ret_z(&mut self, interconnect: &mut Interconnect)
        requires
            old(interconnect)@.wf(),
            old(self).registers.flags.zero ==> pop_ok(old(self).registers, old(interconnect)@),
        ensures
            *final(self) == (if old(self).registers.flags.zero { old(self).with_registers(Registers { pc: pop_value(old(self).registers, old(interconnect)@), ..popped(old(self).registers) }) } else { *old(self) }),
            final(interconnect)@ == old(interconnect)@,
            final(interconnect)@.wf(),
    {
        if self.registers.flags.zero {
            let addr = interconnect.read_u16(self.registers.sp as u16);
            self.registers.sp += 0x02;
            self.registers.pc = addr;
        }
    }

    /// RET
    pub(super) fn ret(&mut self, interconnect: &mut Interconnect)
        requires
            old(interconnect)@.wf(),
            pop_ok(old(self).registers, old(interconnect)@),
        ensures
            *final(self) == old(self).with_registers(Registers { pc: pop_value(old(self).registers, old(interconnect)@), ..popped(old(self).registers) }),
            final(interconnect)@ == old(interconnect)@,
            final(interconnect)@.wf(),
    {
        let addr = interconnect.read_u16(self.registers.sp as u16);
        self.registers.sp += 0x02;
        self.registers.pc = addr;
    }

    /// JP Z, imm16
    pub(super) fn jp_z_imm16(&mut self, operand: &Operand)
        requires
            *operand is Imm16,
        ensures
            *final(self) == (if old(self).registers.flags.zero { old(self).with_registers(Registers { pc: operand.imm16(), ..old(self).registers }) } else { *old(self) }),
    {
        if self.registers.flags.zero {
            self.jp_imm16(operand);
        }
    }

    /// CALL Z, imm16
    pub(super) fn call_z_imm16(&mut self, operand: &Operand, interconnect: &mut Interconnect)
        requires
            *operand is Imm16,
            old(interconnect)@.wf(),
            old(self).registers.flags.zero ==> push_ok(old(self).registers, old(interconnect)@),
        ensures
            (*final(self), final(interconnect)@) == (if old(self).registers.flags.zero { call(*old(self), old(interconnect)@, operand.imm16()) } else { (*old(self), old(interconnect)@) }),
            final(interconnect)@.wf(),
    {
        if self.registers.flags.zero {
            let addr = operand.unwrap_imm16();
            self.call(addr, interconnect);
        }
    }

    /// ADC A, imm8
    pub(super) fn adc_a_imm8(&mut self, operand: &Operand)
        requires
            *operand is Imm8,
        ensures
            *final(self) == old(self).with_registers(alu_adc(old(self).registers, operand.imm8())),
    {
        let val = operand.unwrap_imm8();
        let a = self.registers.a;
        self.adc(a, val);
    }

    /// RET NC
    pub(super) fn ret_nc(&mut self, interconnect: &mut Interconnect)
        requires
            old(interconnect)@.wf(),
            !old(self).registers.flags.carry ==> pop_ok(old(self).registers, old(interconnect)@),
        ensures
            *final(self) == (if !old(self).registers.flags.carry { old(self).with_registers(Registers { pc: pop_value(old(self).registers, old(interconnect)@), ..popped(old(self).registers) }) } else { *old(self) }),
            final(interconnect)@ == old(interconnect)@,
            final(interconnect)@.wf(),
    {
        if !self.registers.flags.carry {
            let addr = interconnect.read_u16(self.registers.sp as u16);
            self.registers.sp += 0x02;
            self.registers.pc = addr;
        }
    }

    /// POP DE
    pub(super) fn pop_de(&mut self, interconnect: &mut Interconnect)
        requires
            old(interconnect)@.wf(),
            pop_ok(old(self).registers, old(interconnect)@),
        ensures
            *final(self) == old(self).with_registers(popped(old(self).registers).with_de(pop_value(old(self).registers, old(interconnect)@))),
            final(interconnect)@ == old(interconnect)@,
            final(interconnect)@.wf(),
    {
        let addr = interconnect.read_u16(self.registers.sp as u16);
        self.registers.sp += 0x02;
        self.registers.set_de(addr);
    }

    /// JP NC, imm16
    pub(super) fn jp_nc_imm16(&mut self, operand: &Operand)
        requires
            *operand is Imm16,
        ensures
            *final(self) == (if !old(self).registers.flags.carry { old(self).with_registers(Registers { pc: operand.imm16(), ..old(self).registers }) } else { *old(self) }),
    {
        if !self.registers.flags.carry {
            self.jp_imm16(operand);
        }
    }

    /// CALL NC, imm16
    pub(super) fn call_nc_imm16(&mut self, operand: &Operand, interconnect: &mut Interconnect)
        requires
            *operand is Imm16,
            old(interconnect)@.wf(),
            !old(self).registers.flags.carry ==> push_ok(old(self).registers, old(interconnect)@),
        ensures
            (*final(self), final(interconnect)@) == (if !old(self).registers.flags.carry { call(*old(self), old(interconnect)@, operand.imm16()) } else { (*old(self), old(interconnect)@) }),
            final(interconnect)@.wf(),
    {
        if !self.registers.flags.carry {
            let addr = operand.unwrap_imm16();
            self.call(addr, interconnect);
        }
    }

    /// PUSH DE
    pub(super) fn push_de(&mut self, interconnect: &mut Interconnect)
        requires
            old(interconnect)@.wf(),
            push_ok(old(self).registers, old(interconnect)@),
        ensures
            (*final(self), final(interconnect)@) == push(*old(self), old(interconnect)@, old(self).registers.de()),
            final(interconnect)@.wf(),
    {
        let val = self.registers.get_de();
        self.registers.sp -= 0x02;
        interconnect.write_u16(self.registers.sp as u16, val);
    }

    /// SUB imm8
    pub(super) fn sub_imm8(&mut self, operand: &Operand)
        requires
            *operand is Imm8,
        ensures
            *final(self) == old(self).with_registers(alu_sub(old(self).registers, operand.imm8())),
    {
        let val = operand.unwrap_imm8();
        self.sub(val);
    }

    /// RET C
    pub(super) fn ret_c(&mut self, interconnect: &mut Interconnect)
        requires
            old(interconnect)@.wf(),
            old(self).registers.flags.carry ==> pop_ok(old(self).registers, old(interconnect)@),
        ensures
            *final(self) == (if old(self).registers.flags.carry { old(self).with_registers(Registers { pc: pop_value(old(self).registers, old(interconnect)@), ..popped(old(self).registers) }) } else { *old(self) }),
            final(interconnect)@ == old(interconnect)@,
            final(interconnect)@.wf(),
    {
        if self.registers.flags.carry {
            let addr = interconnect.read_u16(self.registers.sp as u16);
            self.registers.sp += 0x02;
            self.registers.pc = addr;
        }
    }

    /// RETI
    pub(super) fn reti(&mut self, interconnect: &mut Interconnect)
        requires
            old(interconnect)@.wf(),
            pop_ok(old(self).registers, old(interconnect)@),
        ensures
            *final(self) == old(self).with_registers(Registers { pc: pop_value(old(self).registers, old(interconnect)@), ..popped(old(self).registers) }),
            final(interconnect)@ == with_ime(old(interconnect)@, true),
            final(interconnect)@.wf(),
    {
        let addr = interconnect.read_u16(self.registers.sp as u16);
        self.registers.sp += 0x02;
        self.registers.pc = addr;

        interconnect.irq.enabled = true;
    }

    /// JP C, imm16
    pub(super) fn jp_c_imm16(&mut self, operand: &Operand)
        requires
            *operand is Imm16,
        ensures
            *final(self) == (if old(self).registers.flags.carry { old(self).with_registers(Registers { pc: operand.imm16(), ..old(self).registers }) } else { *old(self) }),
    {
        if self.registers.flags.carry {
            self.jp_imm16(operand);
        }
    }

    /// CALL C, imm16
    pub(super) fn call_c_imm16(&mut self, operand: &Operand, interconnect: &mut Interconnect)
        requires
            *operand is Imm16,
            old(interconnect)@.wf(),
            old(self).registers.flags.carry ==> push_ok(old(self).registers, old(interconnect)@),
        ensures
            (*final(self), final(interconnect)@) == (if old(self).registers.flags.carry { call(*old(self), old(interconnect)@, operand.imm16()) } else { (*old(self), old(interconnect)@) }),
            final(interconnect)@.wf(),
    {
        if self.registers.flags.carry {
            let addr = operand.unwrap_imm16();
            self.call(addr, interconnect);
        }
    }

    /// SBC A, imm8
    pub(super) fn sbc_a_imm8(&mut self, operand: &Operand)
        requires
            *operand is Imm8,
        ensures
            *final(self) == old(self).with_registers(alu_sbc(old(self).registers, operand.imm8())),
    {
        let val = operand.unwrap_imm8();
        self.sbc(val);
    }

    /// LD ($FF00+imm8), A
    pub(super) fn ld_ff00_imm8_a(&mut self, operand: &Operand, interconnect: &mut Interconnect)
        requires
            *operand is Imm8,
            old(interconnect)@.wf(),
            old(interconnect)@.write_ok((0xFF00 + operand.imm8()) as u16, old(self).registers.a),
        ensures
            *final(self) == *old(self),
            final(interconnect)@ == old(interconnect)@.write_u8((0xFF00 + operand.imm8()) as u16, old(self).registers.a),
            final(interconnect)@.wf(),
    {
        let offset = operand.unwrap_imm8();
        let addr = 0xFF00 as u16 + offset as u16;
        interconnect.write_u8(addr, self.registers.a);
    }

    /// POP HL
    pub(super) fn pop_hl(&mut self, interconnect: &mut Interconnect)
        requires
            old(interconnect)@.wf(),
            pop_ok(old(self).registers, old(interconnect)@),
        ensures
            *final(self) == old(self).with_registers(popped(old(self).registers).with_hl(pop_value(old(self).registers, old(interconnect)@))),
            final(interconnect)@ == old(interconnect)@,
            final(interconnect)@.wf(),
    {
        let addr = interconnect.read_u16(self.registers.sp as u16);
        self.registers.sp += 0x02;
        self.registers.set_hl(addr);
    }

    /// LD ($FF00+C), A
    pub(super) fn ld_ff00_c_a(&mut self, interconnect: &mut Interconnect)
        requires
            old(interconnect)@.wf(),
            old(interconnect)@.write_ok((0xFF00 + old(self).registers.c) as u16, old(self).registers.a),
        ensures
            *final(self) == *old(self),
            final(interconnect)@ == old(interconnect)@.write_u8((0xFF00 + old(self).registers.c) as u16, old(self).registers.a),
            final(interconnect)@.wf(),
    {
        let addr = 0xFF00 as u16 + self.registers.c as u16;
        interconnect.write_u8(addr, self.registers.a);
    }

    /// PUSH HL
    pub(super) fn push_hl(&mut self, interconnect: &mut Interconnect)
        requires
            old(interconnect)@.wf(),
            push_ok(old(self).registers, old(interconnect)@),
        ensures
            (*final(self), final(interconnect)@) == push(*old(self), old(interconnect)@, old(self).registers.hl()),
            final(interconnect)@.wf(),
    {
        let val = self.registers.get_hl();
        self.registers.sp -= 0x02;
        interconnect.write_u16(self.registers.sp as u16, val);
    }

    /// AND imm8
    pub(super) fn and_imm8(&mut self, operand: &Operand)
        requires
            *operand is Imm8,
        ensures
            *final(self) == old(self).with_registers(alu_and(old(self).registers, operand.imm8())),
    {
        let val = operand.unwrap_imm8();
        self.and(val);
    }

    /// ADD SP, imm8
    #[verifier::rlimit(40)]
    pub(super) fn add_sp_imm8(&mut self, operand: &Operand)
        requires
            *operand is Imm8,
            old(self).registers.sp + sp_offset(operand.imm8()) <= usize::MAX,
        ensures
            *final(self) == old(self).with_registers(add_sp(old(self).registers, operand.imm8())),
    {
        let imm = operand.unwrap_imm8();
        let val = imm as i8 as i16 as u16;
        let sp = self.registers.sp as u16;
        proof {
            lemma_sign_extend(imm);
            lemma_word(sp);
            lemma_word(val);
        }

        self.registers.flags.zero = false;
        self.registers.flags.negative = false;
        self.registers.flags.half_carry = (sp & 0x000F) + (val & 0x000F) > 0x000F;
        self.registers.flags.carry = (sp & 0x00FF) + (val & 0x00FF) > 0x00FF;

        self.registers.sp += val as usize;
    }

    /// JP (HL)
    pub(super) fn jp_hl(&mut self)
        ensures
            *final(self) == old(self).with_registers(Registers { pc: old(self).registers.hl(), ..old(self).registers }),
    {
        self.registers.pc = self.registers.get_hl();
    }

    /// LD (imm16), A
    pub(super) fn ld_imm16_a(&mut self, operand: &Operand, interconnect: &mut Interconnect)
        requires
            *operand is Imm16,
            old(interconnect)@.wf(),
            old(interconnect)@.write_ok(operand.imm16(), old(self).registers.a),
        ensures
            *final(self) == *old(self),
            final(interconnect)@ == old(interconnect)@.write_u8(operand.imm16(), old(self).registers.a),
            final(interconnect)@.wf(),
    {
        let addr = operand.unwrap_imm16();
        interconnect.write_u8(addr, self.registers.a);
    }

    /// XOR imm8
    pub(super) fn xor_imm8(&mut self, operand: &Operand)
        requires
            *operand is Imm8,
        ensures
            *final(self) == old(self).with_registers(alu_xor(old(self).registers, operand.imm8())),
    {
        let val = operand.unwrap_imm8();
        self.xor(val);
    }

    /// LD A, ($FF00+imm8)
    pub(super) fn ld_a_ff00_imm8(&mut self, operand: &Operand, interconnect: &mut Interconnect)
        requires
            *operand is Imm8,
            old(interconnect)@.wf(),
            old(interconnect)@.read_ok((0xFF00 + operand.imm8()) as u16),
        ensures
            *final(self) == old(self).with_registers(Registers { a: old(interconnect)@.read_u8((0xFF00 + operand.imm8()) as u16), ..old(self).registers }),
            final(interconnect)@ == old(interconnect)@,
            final(interconnect)@.wf(),
    {
        let offset = operand.unwrap_imm8();
        let addr = 0xFF00 as u16 + offset as u16;
        self.registers.a = interconnect.read_u8(addr);
    }

    /// POP AF
    pub(super) fn pop_af(&mut self, interconnect: &mut Interconnect)
        requires
            old(interconnect)@.wf(),
            pop_ok(old(self).registers, old(interconnect)@),
        ensures
            *final(self) == old(self).with_registers(popped(old(self).registers).with_af(pop_value(old(self).registers, old(interconnect)@))),
            final(interconnect)@ == old(interconnect)@,
            final(interconnect)@.wf(),
    {
        let addr = interconnect.read_u16(self.registers.sp as u16);
        self.registers.sp += 0x02;
        self.registers.set_af(addr);
    }

    /// LD A, ($FF00+C)
    pub(super) fn ld_a_c_ptr(&mut self, interconnect: &mut Interconnect)
        requires
            old(interconnect)@.wf(),
            old(interconnect)@.read_ok((0xFF00 + old(self).registers.c) as u16),
        ensures
            *final(self) == old(self).with_registers(Registers { a: old(interconnect)@.read_u8((0xFF00 + old(self).registers.c) as u16), ..old(self).registers }),
            final(interconnect)@ == old(interconnect)@,
            final(interconnect)@.wf(),
    {
        let val = interconnect.read_u8(0xFF00 + self.registers.c as u16);
        self.registers.a = val;
    }

    /// DI
    pub(super) fn di(&mut self, interconnect: &mut Interconnect)
        ensures
            *final(self) == *old(self),
            final(interconnect)@ == with_ime(old(interconnect)@, false),
    {
        interconnect.irq.enabled = false;
    }

    /// PUSH AF
    pub(super) fn push_af(&mut self, interconnect: &mut Interconnect)
        requires
            old(interconnect)@.wf(),
            push_ok(old(self).registers, old(interconnect)@),
        ensures
            (*final(self), final(interconnect)@) == push(*old(self), old(interconnect)@, old(self).registers.af()),
            final(interconnect)@.wf(),
    {
        let val = self.registers.get_af();
        self.registers.sp -= 0x02;
        interconnect.write_u16(self.registers.sp as u16, val);
    }

    /// OR imm8
    pub(super) fn or_imm8(&mut self, operand: &Operand)
        requires
            *operand is Imm8,
        ensures
            *final(self) == old(self).with_registers(alu_or(old(self).registers, operand.imm8())),
    {
        let val = operand.unwrap_imm8();
        self.or(val);
    }

    /// LD HL, SP+imm8
    #[verifier::rlimit(40)]
    pub(super) fn ldhl_sp_imm8(&mut self, operand: &Operand)
        requires
            *operand is Imm8,
        ensures
            *final(self) == old(self).with_registers(ldhl_sp(old(self).registers, operand.imm8())),
    {
        let imm = operand.unwrap_imm8();
        let val = imm as i8 as i16 as u16;
        let sp = self.registers.sp as u16;
        proof {
            lemma_sign_extend(imm);
            lemma_word(sp);
            lemma_word(val);
        }

        self.registers.flags.zero = false;
        self.registers.flags.negative = false;
        self.registers.flags.half_carry = (sp & 0x000F) + (val & 0x000F) > 0x000F;
        self.registers.flags.carry = (sp & 0x00FF) + (val & 0x00FF) > 0x00FF;

        self.registers.set_hl(sp.wrapping_add(val));
    }

    /// LD SP, HL
    pub(super) fn ld_sp_hl(&mut self)
        ensures
            *final(self) == old(self).with_registers(Registers { sp: old(self).registers.hl() as usize, ..old(self).registers }),
    {
        self.registers.sp = self.registers.get_hl() as usize;
    }

    /// LD A, (imm16)
    pub(super) fn ld_a_imm16(&mut self, operand: &Operand, interconnect: &mut Interconnect)
        requires
            *operand is Imm16,
            old(interconnect)@.wf(),
            old(interconnect)@.read_ok(operand.imm16()),
        ensures
            *final(self) == old(self).with_registers(Registers { a: old(interconnect)@.read_u8(operand.imm16()), ..old(self).registers }),
            final(interconnect)@ == old(interconnect)@,
            final(interconnect)@.wf(),
    {
        let addr = operand.unwrap_imm16();
        let val = interconnect.read_u8(addr);
        self.registers.a = val;
    }

    /// EI
    pub(super) fn ei(&mut self, interconnect: &mut Interconnect)
        ensures
            *final(self) == *old(self),
            final(interconnect)@ == with_ime(old(interconnect)@, true),
    {
        interconnect.irq.enabled = true;
    }

    /// CP imm8
    pub(super) fn cp_imm8(&mut self, operand: &Operand)
        requires
            *operand is Imm8,
        ensures
            *final(self) == old(self).with_registers(alu_cp(old(self).registers, operand.imm8())),
    {
        let val = operand.unwrap_imm8();
        self.cp(val);
    }

    /// RLC B
    pub(super) fn rlc_b(&mut self)
        ensures
            *final(self) == old(self).with_registers(shift_reg(old(self).registers, 0, 0)),
    {
        let b = self.registers.b;
        self.registers.b = self.rlc(b);
    }

    /// RLC C
    pub(super) fn rlc_c(&mut self)
        ensures
            *final(self) == old(self).with_registers(shift_reg(old(self).registers, 0, 1)),
    {
        let c = self.registers.c;
        self.registers.c = self.rlc(c);
    }

    /// RLC D
    pub(super) fn rlc_d(&mut self)
        ensures
            *final(self) == old(self).with_registers(shift_reg(old(self).registers, 0, 2)),
    {
        let d = self.registers.d;
        self.registers.d = self.rlc(d);
    }

    /// RLC E
    pub(super) fn rlc_e(&mut self)
        ensures
            *final(self) == old(self).with_registers(shift_reg(old(self).registers, 0, 3)),
    {
        let e = self.registers.e;
        self.registers.e = self.rlc(e);
    }

    /// RLC H
    pub(super) fn rlc_h(&mut self)
        ensures
            *final(self) == old(self).with_registers(shift_reg(old(self).registers, 0, 4)),
    {
        let h = self.registers.h;
        self.registers.h = self.rlc(h);
    }

    /// RLC L
    pub(super) fn rlc_l(&mut self)
        ensures
            *final(self) == old(self).with_registers(shift_reg(old(self).registers, 0, 5)),
    {
        let l = self.registers.l;
        self.registers.l = self.rlc(l);
    }

    /// RLC (HL)
    pub(super) fn rlc_hl_ptr(&mut self, interconnect: &mut Interconnect)
        requires
            old(interconnect)@.wf(),
            old(interconnect)@.read_ok(old(self).registers.hl()),
            old(interconnect)@.write_ok(old(self).registers.hl(), shift_value(0, old(interconnect)@.read_u8(old(self).registers.hl()), old(self).registers.flags.carry)),
        ensures
            *final(self) == old(self).with_registers(shift_flags(old(self).registers, 0, old(interconnect)@.read_u8(old(self).registers.hl()))),
            final(interconnect)@ == old(interconnect)@.write_u8(old(self).registers.hl(), shift_value(0, old(interconnect)@.read_u8(old(self).registers.hl()), old(self).registers.flags.carry)),
            final(interconnect)@.wf(),
    {
        let val = interconnect.read_u8(self.registers.get_hl());
        interconnect.write_u8(self.registers.get_hl(), self.rlc(val));
    }

    /// RLC A
    pub(super) fn rlc_a(&mut self)
        ensures
            *final(self) == old(self).with_registers(shift_reg(old(self).registers, 0, 7)),
    {
        let a = self.registers.a;
        self.registers.a = self.rlc(a);
    }

    /// RRC B
    pub(super) fn rrc_b(&mut self)
        ensures
            *final(self) == old(self).with_registers(shift_reg(old(self).registers, 1, 0)),
    {
        let b = self.registers.b;
        self.registers.b = self.rrc(b);
    }

    /// RRC C
    pub(super) fn rrc_c(&mut self)
        ensures
            *final(self) == old(self).with_registers(shift_reg(old(self).registers, 1, 1)),
    {
        let c = self.registers.c;
        self.registers.c = self.rrc(c);
    }

    /// RRC D
    pub(super) fn rrc_d(&mut self)
        ensures
            *final(self) == old(self).with_registers(shift_reg(old(self).registers, 1, 2)),
    {
        let d = self.registers.d;
        self.registers.d = self.rrc(d);
    }

    /// RRC E
    pub(super) fn rrc_e(&mut self)
        ensures
            *final(self) == old(self).with_registers(shift_reg(old(self).registers, 1, 3)),
    {
        let e = self.registers.e;
        self.registers.e = self.rrc(e);
    }

    /// RRC H
    pub(super) fn rrc_h(&mut self)
        ensures
            *final(self) == old(self).with_registers(shift_reg(old(self).registers, 1, 4)),
    {
        let h = self.registers.h;
        self.registers.h = self.rrc(h);
    }

    /// RRC L
    pub(super) fn rrc_l(&mut self)
        ensures
            *final(self) == old(self).with_registers(shift_reg(old(self).registers, 1, 5)),
    {
        let l = self.registers.l;
        self.registers.l = self.rrc(l);
    }

    /// RRC (HL)
    pub(super) fn rrc_hl_ptr(&mut self, interconnect: &mut Interconnect)
        requires
            old(interconnect)@.wf(),
            old(interconnect)@.read_ok(old(self).registers.hl()),
            old(interconnect)@.write_ok(old(self).registers.hl(), shift_value(1, old(interconnect)@.read_u8(old(self).registers.hl()), old(self).registers.flags.carry)),
        ensures
            *final(self) == old(self).with_registers(shift_flags(old(self).registers, 1, old(interconnect)@.read_u8(old(self).registers.hl()))),
            final(interconnect)@ == old(interconnect)@.write_u8(old(self).registers.hl(), shift_value(1, old(interconnect)@.read_u8(old(self).registers.hl()), old(self).registers.flags.carry)),
            final(interconnect)@.wf(),
    {
        let val = interconnect.read_u8(self.registers.get_hl());
        interconnect.write_u8(self.registers.get_hl(), self.rrc(val));
    }

    /// RRC A
    pub(super) fn rrc_a(&mut self)
        ensures
            *final(self) == old(self).with_registers(shift_reg(old(self).registers, 1, 7)),
    {
        let a = self.registers.a;
        self.registers.a = self.rrc(a);
    }

    /// RL B
    pub(super) fn rl_b(&mut self)
        ensures
            *final(self) == old(self).with_registers(shift_reg(old(self).registers, 2, 0)),
    {
        let b = self.registers.b;
        self.registers.b = self.rl(b);
    }

    /// RL C
    pub(super) fn rl_c(&mut self)
        ensures
            *final(self) == old(self).with_registers(shift_reg(old(self).registers, 2, 1)),
    {
        let c = self.registers.c;
        self.registers.c = self.rl(c);
    }

    /// RL D
    pub(super) fn rl_d(&mut self)
        ensures
            *final(self) == old(self).with_registers(shift_reg(old(self).registers, 2, 2)),
    {
        let d = self.registers.d;
        self.registers.d = self.rl(d);
    }

    /// RL E
    pub(super) fn rl_e(&mut self)
        ensures
            *final(self) == old(self).with_registers(shift_reg(old(self).registers, 2, 3)),
    {
        let e = self.registers.e;
        self.registers.e = self.rl(e);
    }

    /// RL H
    pub(super) fn rl_h(&mut self)
        ensures
            *final(self) == old(self).with_registers(shift_reg(old(self).registers, 2, 4)),
    {
        let h = self.registers.h;
        self.registers.h = self.rl(h);
    }

    /// RL L
    pub(super) fn rl_l(&mut self)
        ensures
            *final(self) == old(self).with_registers(shift_reg(old(self).registers, 2, 5)),
    {
        let l = self.registers.l;
        self.registers.l = self.rl(l);
    }

    /// RL (HL)
    pub(super) fn rl_hl_ptr(&mut self, interconnect: &mut Interconnect)
        requires
            old(interconnect)@.wf(),
            old(interconnect)@.read_ok(old(self).registers.hl()),
            old(interconnect)@.write_ok(old(self).registers.hl(), shift_value(2, old(interconnect)@.read_u8(old(self).registers.hl()), old(self).registers.flags.carry)),
        ensures
            *final(self) == old(self).with_registers(shift_flags(old(self).registers, 2, old(interconnect)@.read_u8(old(self).registers.hl()))),
            final(interconnect)@ == old(interconnect)@.write_u8(old(self).registers.hl(), shift_value(2, old(interconnect)@.read_u8(old(self).registers.hl()), old(self).registers.flags.carry)),
            final(interconnect)@.wf(),
    {
        let val = interconnect.read_u8(self.registers.get_hl());
        interconnect.write_u8(self.registers.get_hl(), self.rl(val));
    }

    /// RL A
    pub(super) fn rl_a(&mut self)
        ensures
            *final(self) == old(self).with_registers(shift_reg(old(self).registers, 2, 7)),
    {
        let a = self.registers.a;
        self.registers.a = self.rl(a);
    }

    /// RR B
    pub(super) fn rr_b(&mut self)
        ensures
            *final(self) == old(self).with_registers(shift_reg(old(self).registers, 3, 0)),
    {
        let b = self.registers.b;
        self.registers.b = self.rr(b);
    }

    /// RR C
    pub(super) fn rr_c(&mut self)
        ensures
            *final(self) == old(self).with_registers(shift_reg(old(self).registers, 3, 1)),
    {
        let c = self.registers.c;
        self.registers.c = self.rr(c);
    }

    /// RR D
    pub(super) fn rr_d(&mut self)
        ensures
            *final(self) == old(self).with_registers(shift_reg(old(self).registers, 3, 2)),
    {
        let d = self.registers.d;
        self.registers.d = self.rr(d);
    }

    /// RR E
    pub(super) fn rr_e(&mut self)
        ensures
            *final(self) == old(self).with_registers(shift_reg(old(self).registers, 3, 3)),
    {
        let e = self.registers.e;
        self.registers.e = self.rr(e);
    }

    /// RR H
    pub(super) fn rr_h(&mut self)
        ensures
            *final(self) == old(self).with_registers(shift_reg(old(self).registers, 3, 4)),
    {
        let h = self.registers.h;
        self.registers.h = self.rr(h);
    }

    /// RR L
    pub(super) fn rr_l(&mut self)
        ensures
            *final(self) == old(self).with_registers(shift_reg(old(self).registers, 3, 5)),
    {
        let l = self.registers.l;
        self.registers.l = self.rr(l);
    }

    /// RR (HL)
    pub(super) fn rr_hl_ptr(&mut self, interconnect: &mut Interconnect)
        requires
            old(interconnect)@.wf(),
            old(interconnect)@.read_ok(old(self).registers.hl()),
            old(interconnect)@.write_ok(old(self).registers.hl(), shift_value(3, old(interconnect)@.read_u8(old(self).registers.hl()), old(self).registers.flags.carry)),
        ensures
            *final(self) == old(self).with_registers(shift_flags(old(self).registers, 3, old(interconnect)@.read_u8(old(self).registers.hl()))),
            final(interconnect)@ == old(interconnect)@.write_u8(old(self).registers.hl(), shift_value(3, old(interconnect)@.read_u8(old(self).registers.hl()), old(self).registers.flags.carry)),
            final(interconnect)@.wf(),
    {
        let val = interconnect.read_u8(self.registers.get_hl());
        interconnect.write_u8(self.registers.get_hl(), self.rr(val));
    }

    /// RR A
    pub(super) fn rr_a(&mut self)
        ensures
            *final(self) == old(self).with_registers(shift_reg(old(self).registers, 3, 7)),
    {
        let a = self.registers.a;
        self.registers.a = self.rr(a);
    }

    /// SLA B
    pub(super) fn sla_b(&mut self)
        ensures
            *final(self) == old(self).with_registers(shift_reg(old(self).registers, 4, 0)),
    {
        let b = self.registers.b;
        self.registers.b = self.sla(b);
    }

    /// SLA C
    pub(super) fn sla_c(&mut self)
        ensures
            *final(self) == old(self).with_registers(shift_reg(old(self).registers, 4, 1)),
    {
        let c = self.registers.c;
        self.registers.c = self.sla(c);
    }

    /// SLA D
    pub(super) fn sla_d(&mut self)
        ensures
            *final(self) == old(self).with_registers(shift_reg(old(self).registers, 4, 2)),
    {
        let d = self.registers.d;
        self.registers.d = self.sla(d);
    }

    /// SLA E
    pub(super) fn sla_e(&mut self)
        ensures
            *final(self) == old(self).with_registers(shift_reg(old(self).registers, 4, 3)),
    {
        let e = self.registers.e;
        self.registers.e = self.sla(e);
    }

    /// SLA H
    pub(super) fn sla_h(&mut self)
        ensures
            *final(self) == old(self).with_registers(shift_reg(old(self).registers, 4, 4)),
    {
        let h = self.registers.h;
        self.registers.h = self.sla(h);
    }

    /// SLA L
    pub(super) fn sla_l(&mut self)
        ensures
            *final(self) == old(self).with_registers(shift_reg(old(self).registers, 4, 5)),
    {
        let l = self.registers.l;
        self.registers.l = self.sla(l);
    }

    /// SLA (HL)
    pub(super) fn sla_hl_ptr(&mut self, interconnect: &mut Interconnect)
        requires
            old(interconnect)@.wf(),
            old(interconnect)@.read_ok(old(self).registers.hl()),
            old(interconnect)@.write_ok(old(self).registers.hl(), shift_value(4, old(interconnect)@.read_u8(old(self).registers.hl()), old(self).registers.flags.carry)),
        ensures
            *final(self) == old(self).with_registers(shift_flags(old(self).registers, 4, old(interconnect)@.read_u8(old(self).registers.hl()))),
            final(interconnect)@ == old(interconnect)@.write_u8(old(self).registers.hl(), shift_value(4, old(interconnect)@.read_u8(old(self).registers.hl()), old(self).registers.flags.carry)),
            final(interconnect)@.wf(),
    {
        let val = interconnect.read_u8(self.registers.get_hl());
        interconnect.write_u8(self.registers.get_hl(), self.sla(val));
    }

    /// SLA A
    pub(super) fn sla_a(&mut self)
        ensures
            *final(self) == old(self).with_registers(shift_reg(old(self).registers, 4, 7)),
    {
        let a = self.registers.a;
        self.registers.a = self.sla(a);
    }

    /// SRA B
    pub(super) fn sra_b(&mut self)
        ensures
            *final(self) == old(self).with_registers(shift_reg(old(self).registers, 5, 0)),
    {
        let b = self.registers.b;
        self.registers.b = self.sra(b);
    }

    /// SRA C
    pub(super) fn sra_c(&mut self)
        ensures
            *final(self) == old(self).with_registers(shift_reg(old(self).registers, 5, 1)),
    {
        let c = self.registers.c;
        self.registers.c = self.sra(c);
    }

    /// SRA D
    pub(super) fn sra_d(&mut self)
        ensures
            *final(self) == old(self).with_registers(shift_reg(old(self).registers, 5, 2)),
    {
        let d = self.registers.d;
        self.registers.d = self.sra(d);
    }

    /// SRA E
    pub(super) fn sra_e(&mut self)
        ensures
            *final(self) == old(self).with_registers(shift_reg(old(self).registers, 5, 3)),
    {
        let e = self.registers.e;
        self.registers.e = self.sra(e);
    }

    /// SRA H
    pub(super) fn sra_h(&mut self)
        ensures
            *final(self) == old(self).with_registers(shift_reg(old(self).registers, 5, 4)),
    {
        let h = self.registers.h;
        self.registers.h = self.sra(h);
    }

    /// SRA L
    pub(super) fn sra_l(&mut self)
        ensures
            *final(self) == old(self).with_registers(shift_reg(old(self).registers, 5, 5)),
    {
        let l = self.registers.l;
        self.registers.l = self.sra(l);
    }

    /// SRA (HL)
    pub(super) fn sra_hl_ptr(&mut self, interconnect: &mut Interconnect)
        requires
            old(interconnect)@.wf(),
            old(interconnect)@.read_ok(old(self).registers.hl()),
            old(interconnect)@.write_ok(old(self).registers.hl(), shift_value(5, old(interconnect)@.read_u8(old(self).registers.hl()), old(self).registers.flags.carry)),
        ensures
            *final(self) == old(self).with_registers(shift_flags(old(self).registers, 5, old(interconnect)@.read_u8(old(self).registers.hl()))),
            final(interconnect)@ == old(interconnect)@.write_u8(old(self).registers.hl(), shift_value(5, old(interconnect)@.read_u8(old(self).registers.hl()), old(self).registers.flags.carry)),
            final(interconnect)@.wf(),
    {
        let val = interconnect.read_u8(self.registers.get_hl());
        interconnect.write_u8(self.registers.get_hl(), self.sra(val));
    }

    /// SRA A
    pub(super) fn sra_a(&mut self)
        ensures
            *final(self) == old(self).with_registers(shift_reg(old(self).registers, 5, 7)),
    {
        let a = self.registers.a;
        self.registers.a = self.sra(a);
    }

    /// SWAP B
    pub(super) fn swap_b(&mut self)
        ensures
            *final(self) == old(self).with_registers(shift_reg(old(self).registers, 6, 0)),
    {
        let b = self.registers.b;
        self.registers.b = self.swap(b);
    }

    /// SWAP C
    pub(super) fn swap_c(&mut self)
        ensures
            *final(self) == old(self).with_registers(shift_reg(old(self).registers, 6, 1)),
    {
        let c = self.registers.c;
        self.registers.c = self.swap(c);
    }

    /// SWAP D
    pub(super) fn swap_d(&mut self)
        ensures
            *final(self) == old(self).with_registers(shift_reg(old(self).registers, 6, 2)),
    {
        let d = self.registers.d;
        self.registers.d = self.swap(d);
    }

    /// SWAP E
    pub(super) fn swap_e(&mut self)
        ensures
            *final(self) == old(self).with_registers(shift_reg(old(self).registers, 6, 3)),
    {
        let e = self.registers.e;
        self.registers.e = self.swap(e);
    }

    /// SWAP H
    pub(super) fn swap_h(&mut self)
        ensures
            *final(self) == old(self).with_registers(shift_reg(old(self).registers, 6, 4)),
    {
        let h = self.registers.h;
        self.registers.h = self.swap(h);
    }

    /// SWAP L
    pub(super) fn swap_l(&mut self)
        ensures
            *final(self) == old(self).with_registers(shift_reg(old(self).registers, 6, 5)),
    {
        let l = self.registers.l;
        self.registers.l = self.swap(l);
    }

    /// SWAP (HL)
    pub(super) fn swap_hl_ptr(&mut self, interconnect: &mut Interconnect)
        requires
            old(interconnect)@.wf(),
            old(interconnect)@.read_ok(old(self).registers.hl()),
            old(interconnect)@.write_ok(old(self).registers.hl(), shift_value(6, old(interconnect)@.read_u8(old(self).registers.hl()), old(self).registers.flags.carry)),
        ensures
            *final(self) == old(self).with_registers(shift_flags(old(self).registers, 6, old(interconnect)@.read_u8(old(self).registers.hl()))),
            final(interconnect)@ == old(interconnect)@.write_u8(old(self).registers.hl(), shift_value(6, old(interconnect)@.read_u8(old(self).registers.hl()), old(self).registers.flags.carry)),
            final(interconnect)@.wf(),
    {
        let val = interconnect.read_u8(self.registers.get_hl());
        interconnect.write_u8(self.registers.get_hl(), self.swap(val));
    }

    /// SWAP A
    pub(super) fn swap_a(&mut self)
        ensures
            *final(self) == old(self).with_registers(shift_reg(old(self).registers, 6, 7)),
    {
        let a = self.registers.a;
        self.registers.a = self.swap(a);
    }

    /// SRL B
    pub(super) fn srl_b(&mut self)
        ensures
            *final(self) == old(self).with_registers(shift_reg(old(self).registers, 7, 0)),
    {
        let b = self.registers.b;
        self.registers.b = self.srl(b);
    }

    /// SRL C
    pub(super) fn srl_c(&mut self)
        ensures
            *final(self) == old(self).with_registers(shift_reg(old(self).registers, 7, 1)),
    {
        let c = self.registers.c;
        self.registers.c = self.srl(c);
    }

    /// SRL D
    pub(super) fn srl_d(&mut self)
        ensures
            *final(self) == old(self).with_registers(shift_reg(old(self).registers, 7, 2)),
    {
        let d = self.registers.d;
        self.registers.d = self.srl(d);
    }

    /// SRL E
    pub(super) fn srl_e(&mut self)
        ensures
            *final(self) == old(self).with_registers(shift_reg(old(self).registers, 7, 3)),
    {
        let e = self.registers.e;
        self.registers.e = self.srl(e);
    }

    /// SRL H
    pub(super) fn srl_h(&mut self)
        ensures
            *final(self) == old(self).with_registers(shift_reg(old(self).registers, 7, 4)),
    {
        let h = self.registers.h;
        self.registers.h = self.srl(h);
    }

    /// SRL L
    pub(super) fn srl_l(&mut self)
        ensures
            *final(self) == old(self).with_registers(shift_reg(old(self).registers, 7, 5)),
    {
        let l = self.registers.l;
        self.registers.l = self.srl(l);
    }

    /// SRL (HL)
    pub(super) fn srl_hl_ptr(&mut self, interconnect: &mut Interconnect)
        requires
            old(interconnect)@.wf(),
            old(interconnect)@.read_ok(old(self).registers.hl()),
            old(interconnect)@.write_ok(old(self).registers.hl(), shift_value(7, old(interconnect)@.read_u8(old(self).registers.hl()), old(self).registers.flags.carry)),
        ensures
            *final(self) == old(self).with_registers(shift_flags(old(self).registers, 7, old(interconnect)@.read_u8(old(self).registers.hl()))),
            final(interconnect)@ == old(interconnect)@.write_u8(old(self).registers.hl(), shift_value(7, old(interconnect)@.read_u8(old(self).registers.hl()), old(self).registers.flags.carry)),
            final(interconnect)@.wf(),
    {
        let val = interconnect.read_u8(self.registers.get_hl());
        interconnect.write_u8(self.registers.get_hl(), self.srl(val));
    }

    /// SRL A
    pub(super) fn srl_a(&mut self)
        ensures
            *final(self) == old(self).with_registers(shift_reg(old(self).registers, 7, 7)),
    {
        let a = self.registers.a;
        self.registers.a = self.srl(a);
    }

    /// BIT 0, B
    pub(super) fn bit_0_b(&mut self)
        ensures
            *final(self) == old(self).with_registers(bit_flags(old(self).registers, old(self).registers.b, 0)),
    {
        let b = self.registers.b;
        self.bit(b, 0x00);
    }

    /// BIT 0, C
    pub(super) fn bit_0_c(&mut self)
        ensures
            *final(self) == old(self).with_registers(bit_flags(old(self).registers, old(self).registers.c, 0)),
    {
        let c = self.registers.c;
        self.bit(c, 0x00);
    }

    /// BIT 0, D
    pub(super) fn bit_0_d(&mut self)
        ensures
            *final(self) == old(self).with_registers(bit_flags(old(self).registers, old(self).registers.d, 0)),
    {
        let d = self.registers.d;
        self.bit(d, 0x00);
    }

    /// BIT 0, E
    pub(super) fn bit_0_e(&mut self)
        ensures
            *final(self) == old(self).with_registers(bit_flags(old(self).registers, old(self).registers.e, 0)),
    {
        let e = self.registers.e;
        self.bit(e, 0x00);
    }

    /// BIT 0, H
    pub(super) fn bit_0_h(&mut self)
        ensures
            *final(self) == old(self).with_registers(bit_flags(old(self).registers, old(self).registers.h, 0)),
    {
        let h = self.registers.h;
        self.bit(h, 0x00);
    }

    /// BIT 0, L
    pub(super) fn bit_0_l(&mut self)
        ensures
            *final(self) == old(self).with_registers(bit_flags(old(self).registers, old(self).registers.l, 0)),
    {
        let l = self.registers.l;
        self.bit(l, 0x00);
    }

    /// BIT 0, (HL)
    pub(super) fn bit_0_hl_ptr(&mut self, interconnect: &mut Interconnect)
        requires
            old(interconnect)@.wf(),
            old(interconnect)@.read_ok(old(self).registers.hl()),
        ensures
            *final(self) == old(self).with_registers(bit_flags(old(self).registers, old(interconnect)@.read_u8(old(self).registers.hl()), 0)),
            final(interconnect)@ == old(interconnect)@,
            final(interconnect)@.wf(),
    {
        let val = interconnect.read_u8(self.registers.get_hl());
        self.bit(val, 0x00);
    }

    /// BIT 0, A
    pub(super) fn bit_0_a(&mut self)
        ensures
            *final(self) == old(self).with_registers(bit_flags(old(self).registers, old(self).registers.a, 0)),
    {
        let a = self.registers.a;
        self.bit(a, 0x00);
    }

    /// BIT 1, B
    pub(super) fn bit_1_b(&mut self)
        ensures
            *final(self) == old(self).with_registers(bit_flags(old(self).registers, old(self).registers.b, 1)),
    {
        let b = self.registers.b;
        self.bit(b, 0x01);
    }

    /// BIT 1, C
    pub(super) fn bit_1_c(&mut self)
        ensures
            *final(self) == old(self).with_registers(bit_flags(old(self).registers, old(self).registers.c, 1)),
    {
        let c = self.registers.c;
        self.bit(c, 0x01);
    }

    /// BIT 1, D
    pub(super) fn bit_1_d(&mut self)
        ensures
            *final(self) == old(self).with_registers(bit_flags(old(self).registers, old(self).registers.d, 1)),
    {
        let d = self.registers.d;
        self.bit(d, 0x01);
    }

    /// BIT 1, E
    pub(super) fn bit_1_e(&mut self)
        ensures
            *final(self) == old(self).with_registers(bit_flags(old(self).registers, old(self).registers.e, 1)),
    {
        let e = self.registers.e;
        self.bit(e, 0x01);
    }

    /// BIT 1, H
    pub(super) fn bit_1_h(&mut self)
        ensures
            *final(self) == old(self).with_registers(bit_flags(old(self).registers, old(self).registers.h, 1)),
    {
        let h = self.registers.h;
        self.bit(h, 0x01);
    }

    /// BIT 1, L
    pub(super) fn bit_1_l(&mut self)
        ensures
            *final(self) == old(self).with_registers(bit_flags(old(self).registers, old(self).registers.l, 1)),
    {
        let l = self.registers.l;
        self.bit(l, 0x01);
    }

    /// BIT 1, (HL)
    pub(super) fn bit_1_hl_ptr(&mut self, interconnect: &mut Interconnect)
        requires
            old(interconnect)@.wf(),
            old(interconnect)@.read_ok(old(self).registers.hl()),
        ensures
            *final(self) == old(self).with_registers(bit_flags(old(self).registers, old(interconnect)@.read_u8(old(self).registers.hl()), 1)),
            final(interconnect)@ == old(interconnect)@,
            final(interconnect)@.wf(),
    {
        let val = interconnect.read_u8(self.registers.get_hl());
        self.bit(val, 0x01);
    }

    /// BIT 1, A
    pub(super) fn bit_1_a(&mut self)
        ensures
            *final(self) == old(self).with_registers(bit_flags(old(self).registers, old(self).registers.a, 1)),
    {
        let a = self.registers.a;
        self.bit(a, 0x01);
    }

    /// BIT 2, B
    pub(super) fn bit_2_b(&mut self)
        ensures
            *final(self) == old(self).with_registers(bit_flags(old(self).registers, old(self).registers.b, 2)),
    {
        let b = self.registers.b;
        self.bit(b, 0x02);
    }

    /// BIT 2, C
    pub(super) fn bit_2_c(&mut self)
        ensures
            *final(self) == old(self).with_registers(bit_flags(old(self).registers, old(self).registers.c, 2)),
    {
        let c = self.registers.c;
        self.bit(c, 0x02);
    }

    /// BIT 2, D
    pub(super) fn bit_2_d(&mut self)
        ensures
            *final(self) == old(self).with_registers(bit_flags(old(self).registers, old(self).registers.d, 2)),
    {
        let d = self.registers.d;
        self.bit(d, 0x02);
    }

    /// BIT 2, E
    pub(super) fn bit_2_e(&mut self)
        ensures
            *final(self) == old(self).with_registers(bit_flags(old(self).registers, old(self).registers.e, 2)),
    {
        let e = self.registers.e;
        self.bit(e, 0x02);
    }

    /// BIT 2, H
    pub(super) fn bit_2_h(&mut self)
        ensures
            *final(self) == old(self).with_registers(bit_flags(old(self).registers, old(self).registers.h, 2)),
    {
        let h = self.registers.h;
        self.bit(h, 0x02);
    }

    /// BIT 2, L
    pub(super) fn bit_2_l(&mut self)
        ensures
            *final(self) == old(self).with_registers(bit_flags(old(self).registers, old(self).registers.l, 2)),
    {
        let l = self.registers.l;
        self.bit(l, 0x02);
    }

    /// BIT 2, (HL)
    pub(super) fn bit_2_hl_ptr(&mut self, interconnect: &mut Interconnect)
        requires
            old(interconnect)@.wf(),
            old(interconnect)@.read_ok(old(self).registers.hl()),
        ensures
            *final(self) == old(self).with_registers(bit_flags(old(self).registers, old(interconnect)@.read_u8(old(self).registers.hl()), 2)),
            final(interconnect)@ == old(interconnect)@,
            final(interconnect)@.wf(),
    {
        let val = interconnect.read_u8(self.registers.get_hl());
        self.bit(val, 0x02);
    }

    /// BIT 2, A
    pub(super) fn bit_2_a(&mut self)
        ensures
            *final(self) == old(self).with_registers(bit_flags(old(self).registers, old(self).registers.a, 2)),
    {
        let a = self.registers.a;
        self.bit(a, 0x02);
    }

    /// BIT 3, B
    pub(super) fn bit_3_b(&mut self)
        ensures
            *final(self) == old(self).with_registers(bit_flags(old(self).registers, old(self).registers.b, 3)),
    {
        let b = self.registers.b;
        self.bit(b, 0x03);
    }

    /// BIT 3, C
    pub(super) fn bit_3_c(&mut self)
        ensures
            *final(self) == old(self).with_registers(bit_flags(old(self).registers, old(self).registers.c, 3)),
    {
        let c = self.registers.c;
        self.bit(c, 0x03);
    }

    /// BIT 3, D
    pub(super) fn bit_3_d(&mut self)
        ensures
            *final(self) == old(self).with_registers(bit_flags(old(self).registers, old(self).registers.d, 3)),
    {
        let d = self.registers.d;
        self.bit(d, 0x03);
    }

    /// BIT 3, E
    pub(super) fn bit_3_e(&mut self)
        ensures
            *final(self) == old(self).with_registers(bit_flags(old(self).registers, old(self).registers.e, 3)),
    {
        let e = self.registers.e;
        self.bit(e, 0x03);
    }

    /// BIT 3, H
    pub(super) fn bit_3_h(&mut self)
        ensures
            *final(self) == old(self).with_registers(bit_flags(old(self).registers, old(self).registers.h, 3)),
    {
        let h = self.registers.h;
        self.bit(h, 0x03);
    }

    /// BIT 3, L
    pub(super) fn bit_3_l(&mut self)
        ensures
            *final(self) == old(self).with_registers(bit_flags(old(self).registers, old(self).registers.l, 3)),
    {
        let l = self.registers.l;
        self.bit(l, 0x03);
    }

    /// BIT 3, (HL)
    pub(super) fn bit_3_hl_ptr(&mut self, interconnect: &mut Interconnect)
        requires
            old(interconnect)@.wf(),
            old(interconnect)@.read_ok(old(self).registers.hl()),
        ensures
            *final(self) == old(self).with_registers(bit_flags(old(self).registers, old(interconnect)@.read_u8(old(self).registers.hl()), 3)),
            final(interconnect)@ == old(interconnect)@,
            final(interconnect)@.wf(),
    {
        let val = interconnect.read_u8(self.registers.get_hl());
        self.bit(val, 0x03);
    }

    /// BIT 3, A
    pub(super) fn bit_3_a(&mut self)
        ensures
            *final(self) == old(self).with_registers(bit_flags(old(self).registers, old(self).registers.a, 3)),
    {
        let a = self.registers.a;
        self.bit(a, 0x03);
    }

    /// BIT 4, B
    pub(super) fn bit_4_b(&mut self)
        ensures
            *final(self) == old(self).with_registers(bit_flags(old(self).registers, old(self).registers.b, 4)),
    {
        let b = self.registers.b;
        self.bit(b, 0x04);
    }

    /// BIT 4, C
    pub(super) fn bit_4_c(&mut self)
        ensures
            *final(self) == old(self).with_registers(bit_flags(old(self).registers, old(self).registers.c, 4)),
    {
        let c = self.registers.c;
        self.bit(c, 0x04);
    }

    /// BIT 4, D
    pub(super) fn bit_4_d(&mut self)
        ensures
            *final(self) == old(self).with_registers(bit_flags(old(self).registers, old(self).registers.d, 4)),
    {
        let d = self.registers.d;
        self.bit(d, 0x04);
    }

    /// BIT 4, E
    pub(super) fn bit_4_e(&mut self)
        ensures
            *final(self) == old(self).with_registers(bit_flags(old(self).registers, old(self).registers.e, 4)),
    {
        let e = self.registers.e;
        self.bit(e, 0x04);
    }

    /// BIT 4, H
    pub(super) fn bit_4_h(&mut self)
        ensures
            *final(self) == old(self).with_registers(bit_flags(old(self).registers, old(self).registers.h, 4)),
    {
        let h = self.registers.h;
        self.bit(h, 0x04);
    }

    /// BIT 4, L
    pub(super) fn bit_4_l(&mut self)
        ensures
            *final(self) == old(self).with_registers(bit_flags(old(self).registers, old(self).registers.l, 4)),
    {
        let l = self.registers.l;
        self.bit(l, 0x04);
    }

    /// BIT 4, (HL)
    pub(super) fn bit_4_hl_ptr(&mut self, interconnect: &mut Interconnect)
        requires
            old(interconnect)@.wf(),
            old(interconnect)@.read_ok(old(self).registers.hl()),
        ensures
            *final(self) == old(self).with_registers(bit_flags(old(self).registers, old(interconnect)@.read_u8(old(self).registers.hl()), 4)),
            final(interconnect)@ == old(interconnect)@,
            final(interconnect)@.wf(),
    {
        let val = interconnect.read_u8(self.registers.get_hl());
        self.bit(val, 0x04);
    }

    /// BIT 4, A
    pub(super) fn bit_4_a(&mut self)
        ensures
            *final(self) == old(self).with_registers(bit_flags(old(self).registers, old(self).registers.a, 4)),
    {
        let a = self.registers.a;
        self.bit(a, 0x04);
    }

    /// BIT 5, B
    pub(super) fn bit_5_b(&mut self)
        ensures
            *final(self) == old(self).with_registers(bit_flags(old(self).registers, old(self).registers.b, 5)),
    {
        let b = self.registers.b;
        self.bit(b, 0x05);
    }

    /// BIT 5, C
    pub(super) fn bit_5_c(&mut self)
        ensures
            *final(self) == old(self).with_registers(bit_flags(old(self).registers, old(self).registers.c, 5)),
    {
        let c = self.registers.c;
        self.bit(c, 0x05);
    }

    /// BIT 5, D
    pub(super) fn bit_5_d(&mut self)
        ensures
            *final(self) == old(self).with_registers(bit_flags(old(self).registers, old(self).registers.d, 5)),
    {
        let d = self.registers.d;
        self.bit(d, 0x05);
    }

    /// BIT 5, E
    pub(super) fn bit_5_e(&mut self)
        ensures
            *final(self) == old(self).with_registers(bit_flags(old(self).registers, old(self).registers.e, 5)),
    {
        let e = self.registers.e;
        self.bit(e, 0x05);
    }

    /// BIT 5, H
    pub(super) fn bit_5_h(&mut self)
        ensures
            *final(self) == old(self).with_registers(bit_flags(old(self).registers, old(self).registers.h, 5)),
    {
        let h = self.registers.h;
        self.bit(h, 0x05);
    }

    /// BIT 5, L
    pub(super) fn bit_5_l(&mut self)
        ensures
            *final(self) == old(self).with_registers(bit_flags(old(self).registers, old(self).registers.l, 5)),
    {
        let l = self.registers.l;
        self.bit(l, 0x05);
    }

    /// BIT 5, (HL)
    pub(super) fn bit_5_hl_ptr(&mut self, interconnect: &mut Interconnect)
        requires
            old(interconnect)@.wf(),
            old(interconnect)@.read_ok(old(self).registers.hl()),
        ensures
            *final(self) == old(self).with_registers(bit_flags(old(self).registers, old(interconnect)@.read_u8(old(self).registers.hl()), 5)),
            final(interconnect)@ == old(interconnect)@,
            final(interconnect)@.wf(),
    {
        let val = interconnect.read_u8(self.registers.get_hl());
        self.bit(val, 0x05);
    }

    /// BIT 5, A
    pub(super) fn bit_5_a(&mut self)
        ensures
            *final(self) == old(self).with_registers(bit_flags(old(self).registers, old(self).registers.a, 5)),
    {
        let a = self.registers.a;
        self.bit(a, 0x05);
    }

    /// BIT 6, B
    pub(super) fn bit_6_b(&mut self)
        ensures
            *final(self) == old(self).with_registers(bit_flags(old(self).registers, old(self).registers.b, 6)),
    {
        let b = self.registers.b;
        self.bit(b, 0x06);
    }

    /// BIT 6, C
    pub(super) fn bit_6_c(&mut self)
        ensures
            *final(self) == old(self).with_registers(bit_flags(old(self).registers, old(self).registers.c, 6)),
    {
        let c = self.registers.c;
        self.bit(c, 0x06);
    }

    /// BIT 6, D
    pub(super) fn bit_6_d(&mut self)
        ensures
            *final(self) == old(self).with_registers(bit_flags(old(self).registers, old(self).registers.d, 6)),
    {
        let d = self.registers.d;
        self.bit(d, 0x06);
    }

    /// BIT 6, E
    pub(super) fn bit_6_e(&mut self)
        ensures
            *final(self) == old(self).with_registers(bit_flags(old(self).registers, old(self).registers.e, 6)),
    {
        let e = self.registers.e;
        self.bit(e, 0x06);
    }

    /// BIT 6, H
    pub(super) fn bit_6_h(&mut self)
        ensures
            *final(self) == old(self).with_registers(bit_flags(old(self).registers, old(self).registers.h, 6)),
    {
        let h = self.registers.h;
        self.bit(h, 0x06);
    }

    /// BIT 6, L
    pub(super) fn bit_6_l(&mut self)
        ensures
            *final(self) == old(self).with_registers(bit_flags(old(self).registers, old(self).registers.l, 6)),
    {
        let l = self.registers.l;
        self.bit(l, 0x06);
    }

    /// BIT 6, (HL)
    pub(super) fn bit_6_hl_ptr(&mut self, interconnect: &mut Interconnect)
        requires
            old(interconnect)@.wf(),
            old(interconnect)@.read_ok(old(self).registers.hl()),
        ensures
            *final(self) == old(self).with_registers(bit_flags(old(self).registers, old(interconnect)@.read_u8(old(self).registers.hl()), 6)),
            final(interconnect)@ == old(interconnect)@,
            final(interconnect)@.wf(),
    {
        let val = interconnect.read_u8(self.registers.get_hl());
        self.bit(val, 0x06);
    }

    /// BIT 6, A
    pub(super) fn bit_6_a(&mut self)
        ensures
            *final(self) == old(self).with_registers(bit_flags(old(self).registers, old(self).registers.a, 6)),
    {
        let a = self.registers.a;
        self.bit(a, 0x06);
    }

    /// BIT 7, B
    pub(super) fn bit_7_b(&mut self)
        ensures
            *final(self) == old(self).with_registers(bit_flags(old(self).registers, old(self).registers.b, 7)),
    {
        let b = self.registers.b;
        self.bit(b, 0x07);
    }

    /// BIT 7, C
    pub(super) fn bit_7_c(&mut self)
        ensures
            *final(self) == old(self).with_registers(bit_flags(old(self).registers, old(self).registers.c, 7)),
    {
        let c = self.registers.c;
        self.bit(c, 0x07);
    }

    /// BIT 7, D
    pub(super) fn bit_7_d(&mut self)
        ensures
            *final(self) == old(self).with_registers(bit_flags(old(self).registers, old(self).registers.d, 7)),
    {
        let d = self.registers.d;
        self.bit(d, 0x07);
    }

    /// BIT 7, E
    pub(super) fn bit_7_e(&mut self)
        ensures
            *final(self) == old(self).with_registers(bit_flags(old(self).registers, old(self).registers.e, 7)),
    {
        let e = self.registers.e;
        self.bit(e, 0x07);
    }

    /// BIT 7, H
    pub(super) fn bit_7_h(&mut self)
        ensures
            *final(self) == old(self).with_registers(bit_flags(old(self).registers, old(self).registers.h, 7)),
    {
        let h = self.registers.h;
        self.bit(h, 0x07);
    }

    /// BIT 7, L
    pub(super) fn bit_7_l(&mut self)
        ensures
            *final(self) == old(self).with_registers(bit_flags(old(self).registers, old(self).registers.l, 7)),
    {
        let l = self.registers.l;
        self.bit(l, 0x07);
    }

    /// BIT 7, (HL)
    pub(super) fn bit_7_hl_ptr(&mut self, interconnect: &mut Interconnect)
        requires
            old(interconnect)@.wf(),
            old(interconnect)@.read_ok(old(self).registers.hl()),
        ensures
            *final(self) == old(self).with_registers(bit_flags(old(self).registers, old(interconnect)@.read_u8(old(self).registers.hl()), 7)),
            final(interconnect)@ == old(interconnect)@,
            final(interconnect)@.wf(),
    {
        let val = interconnect.read_u8(self.registers.get_hl());
        self.bit(val, 0x07);
    }

    /// BIT 7, A
    pub(super) fn bit_7_a(&mut self)
        ensures
            *final(self) == old(self).with_registers(bit_flags(old(self).registers, old(self).registers.a, 7)),
    {
        let a = self.registers.a;
        self.bit(a, 0x07);
    }

    /// RES 0, B
    pub(super) fn res_0_b(&mut self)
        ensures
            *final(self) == old(self).with_registers(Registers { b: res_value(old(self).registers.b, 0), ..old(self).registers }),
    {
        let b = self.registers.b;
        self.registers.b = self.res(b, 0x00);
    }

    /// RES 0, C
    pub(super) fn res_0_c(&mut self)
        ensures
            *final(self) == old(self).with_registers(Registers { c: res_value(old(self).registers.c, 0), ..old(self).registers }),
    {
        let c = self.registers.c;
        self.registers.c = self.res(c, 0x00);
    }

    /// RES 0, D
    pub(super) fn res_0_d(&mut self)
        ensures
            *final(self) == old(self).with_registers(Registers { d: res_value(old(self).registers.d, 0), ..old(self).registers }),
    {
        let d = self.registers.d;
        self.registers.d = self.res(d, 0x00);
    }

    /// RES 0, E
    pub(super) fn res_0_e(&mut self)
        ensures
            *final(self) == old(self).with_registers(Registers { e: res_value(old(self).registers.e, 0), ..old(self).registers }),
    {
        let e = self.registers.e;
        self.registers.e = self.res(e, 0x00);
    }

    /// RES 0, H
    pub(super) fn res_0_h(&mut self)
        ensures
            *final(self) == old(self).with_registers(Registers { h: res_value(old(self).registers.h, 0), ..old(self).registers }),
    {
        let h = self.registers.h;
        self.registers.h = self.res(h, 0x00);
    }

    /// RES 0, L
    pub(super) fn res_0_l(&mut self)
        ensures
            *final(self) == old(self).with_registers(Registers { l: res_value(old(self).registers.l, 0), ..old(self).registers }),
    {
        let l = self.registers.l;
        self.registers.l = self.res(l, 0x00);
    }

    /// RES 0, (HL)
    pub(super) fn res_0_hl_ptr(&mut self, interconnect: &mut Interconnect)
        requires
            old(interconnect)@.wf(),
            old(interconnect)@.read_ok(old(self).registers.hl()),
            old(interconnect)@.write_ok(old(self).registers.hl(), res_value(old(interconnect)@.read_u8(old(self).registers.hl()), 0)),
        ensures
            *final(self) == *old(self),
            final(interconnect)@ == old(interconnect)@.write_u8(old(self).registers.hl(), res_value(old(interconnect)@.read_u8(old(self).registers.hl()), 0)),
            final(interconnect)@.wf(),
    {
        let val = interconnect.read_u8(self.registers.get_hl());
        interconnect.write_u8(self.registers.get_hl(), self.res(val, 0x00));
    }

    /// RES 0, A
    pub(super) fn res_0_a(&mut self)
        ensures
            *final(self) == old(self).with_registers(Registers { a: res_value(old(self).registers.a, 0), ..old(self).registers }),
    {
        let a = self.registers.a;
        self.registers.a = self.res(a, 0x00);
    }

    /// RES 1, B
    pub(super) fn res_1_b(&mut self)
        ensures
            *final(self) == old(self).with_registers(Registers { b: res_value(old(self).registers.b, 1), ..old(self).registers }),
    {
        let b = self.registers.b;
        self.registers.b = self.res(b, 0x01);
    }

    /// RES 1, C
    pub(super) fn res_1_c(&mut self)
        ensures
            *final(self) == old(self).with_registers(Registers { c: res_value(old(self).registers.c, 1), ..old(self).registers }),
    {
        let c = self.registers.c;
        self.registers.c = self.res(c, 0x01);
    }

    /// RES 1, D
    pub(super) fn res_1_d(&mut self)
        ensures
            *final(self) == old(self).with_registers(Registers { d: res_value(old(self).registers.d, 1), ..old(self).registers }),
    {
        let d = self.registers.d;
        self.registers.d = self.res(d, 0x01);
    }

    /// RES 1, E
    pub(super) fn res_1_e(&mut self)
        ensures
            *final(self) == old(self).with_registers(Registers { e: res_value(old(self).registers.e, 1), ..old(self).registers }),
    {
        let e = self.registers.e;
        self.registers.e = self.res(e, 0x01);
    }

    /// RES 1, H
    pub(super) fn res_1_h(&mut self)
        ensures
            *final(self) == old(self).with_registers(Registers { h: res_value(old(self).registers.h, 1), ..old(self).registers }),
    {
        let h = self.registers.h;
        self.registers.h = self.res(h, 0x01);
    }

    /// RES 1, L
    pub(super) fn res_1_l(&mut self)
        ensures
            *final(self) == old(self).with_registers(Registers { l: res_value(old(self).registers.l, 1), ..old(self).registers }),
    {
        let l = self.registers.l;
        self.registers.l = self.res(l, 0x01);
    }

    /// RES 1, (HL)
    pub(super) fn res_1_hl_ptr(&mut self, interconnect: &mut Interconnect)
        requires
            old(interconnect)@.wf(),
            old(interconnect)@.read_ok(old(self).registers.hl()),
            old(interconnect)@.write_ok(old(self).registers.hl(), res_value(old(interconnect)@.read_u8(old(self).registers.hl()), 1)),
        ensures
            *final(self) == *old(self),
            final(interconnect)@ == old(interconnect)@.write_u8(old(self).registers.hl(), res_value(old(interconnect)@.read_u8(old(self).registers.hl()), 1)),
            final(interconnect)@.wf(),
    {
        let val = interconnect.read_u8(self.registers.get_hl());
        interconnect.write_u8(self.registers.get_hl(), self.res(val, 0x01));
    }

    /// RES 1, A
    pub(super) fn res_1_a(&mut self)
        ensures
            *final(self) == old(self).with_registers(Registers { a: res_value(old(self).registers.a, 1), ..old(self).registers }),
    {
        let a = self.registers.a;
        self.registers.a = self.res(a, 0x01);
    }

    /// RES 2, B
    pub(super) fn res_2_b(&mut self)
        ensures
            *final(self) == old(self).with_registers(Registers { b: res_value(old(self).registers.b, 2), ..old(self).registers }),
    {
        let b = self.registers.b;
        self.registers.b = self.res(b, 0x02);
    }

    /// RES 2, C
    pub(super) fn res_2_c(&mut self)
        ensures
            *final(self) == old(self).with_registers(Registers { c: res_value(old(self).registers.c, 2), ..old(self).registers }),
    {
        let c = self.registers.c;
        self.registers.c = self.res(c, 0x02);
    }

    /// RES 2, D
    pub(super) fn res_2_d(&mut self)
        ensures
            *final(self) == old(self).with_registers(Registers { d: res_value(old(self).registers.d, 2), ..old(self).registers }),
    {
        let d = self.registers.d;
        self.registers.d = self.res(d, 0x02);
    }

    /// RES 2, E
    pub(super) fn res_2_e(&mut self)
        ensures
            *final(self) == old(self).with_registers(Registers { e: res_value(old(self).registers.e, 2), ..old(self).registers }),
    {
        let e = self.registers.e;
        self.registers.e = self.res(e, 0x02);
    }

    /// RES 2, H
    pub(super) fn res_2_h(&mut self)
        ensures
            *final(self) == old(self).with_registers(Registers { h: res_value(old(self).registers.h, 2), ..old(self).registers }),
    {
        let h = self.registers.h;
        self.registers.h = self.res(h, 0x02);
    }

    /// RES 2, L
    pub(super) fn res_2_l(&mut self)
        ensures
            *final(self) == old(self).with_registers(Registers { l: res_value(old(self).registers.l, 2), ..old(self).registers }),
    {
        let l = self.registers.l;
        self.registers.l = self.res(l, 0x02);
    }

    /// RES 2, (HL)
    pub(super) fn res_2_hl_ptr(&mut self, interconnect: &mut Interconnect)
        requires
            old(interconnect)@.wf(),
            old(interconnect)@.read_ok(old(self).registers.hl()),
            old(interconnect)@.write_ok(old(self).registers.hl(), res_value(old(interconnect)@.read_u8(old(self).registers.hl()), 2)),
        ensures
            *final(self) == *old(self),
            final(interconnect)@ == old(interconnect)@.write_u8(old(self).registers.hl(), res_value(old(interconnect)@.read_u8(old(self).registers.hl()), 2)),
            final(interconnect)@.wf(),
    {
        let val = interconnect.read_u8(self.registers.get_hl());
        interconnect.write_u8(self.registers.get_hl(), self.res(val, 0x02));
    }

    /// RES 2, A
    pub(super) fn res_2_a(&mut self)
        ensures
            *final(self) == old(self).with_registers(Registers { a: res_value(old(self).registers.a, 2), ..old(self).registers }),
    {
        let a = self.registers.a;
        self.registers.a = self.res(a, 0x02);
    }

    /// RES 3, B
    pub(super) fn res_3_b(&mut self)
        ensures
            *final(self) == old(self).with_registers(Registers { b: res_value(old(self).registers.b, 3), ..old(self).registers }),
    {
        let b = self.registers.b;
        self.registers.b = self.res(b, 0x03);
    }

    /// RES 3, C
    pub(super) fn res_3_c(&mut self)
        ensures
            *final(self) == old(self).with_registers(Registers { c: res_value(old(self).registers.c, 3), ..old(self).registers }),
    {
        let c = self.registers.c;
        self.registers.c = self.res(c, 0x03);
    }

    /// RES 3, D
    pub(super) fn res_3_d(&mut self)
        ensures
            *final(self) == old(self).with_registers(Registers { d: res_value(old(self).registers.d, 3), ..old(self).registers }),
    {
        let d = self.registers.d;
        self.registers.d = self.res(d, 0x03);
    }

    /// RES 3, E
    pub(super) fn res_3_e(&mut self)
        ensures
            *final(self) == old(self).with_registers(Registers { e: res_value(old(self).registers.e, 3), ..old(self).registers }),
    {
        let e = self.registers.e;
        self.registers.e = self.res(e, 0x03);
    }

    /// RES 3, H
    pub(super) fn res_3_h(&mut self)
        ensures
            *final(self) == old(self).with_registers(Registers { h: res_value(old(self).registers.h, 3), ..old(self).registers }),
    {
        let h = self.registers.h;
        self.registers.h = self.res(h, 0x03);
    }

    /// RES 3, L
    pub(super) fn res_3_l(&mut self)
        ensures
            *final(self) == old(self).with_registers(Registers { l: res_value(old(self).registers.l, 3), ..old(self).registers }),
    {
        let l = self.registers.l;
        self.registers.l = self.res(l, 0x03);
    }

    /// RES 3, (HL)
    pub(super) fn res_3_hl_ptr(&mut self, interconnect: &mut Interconnect)
        requires
            old(interconnect)@.wf(),
            old(interconnect)@.read_ok(old(self).registers.hl()),
            old(interconnect)@.write_ok(old(self).registers.hl(), res_value(old(interconnect)@.read_u8(old(self).registers.hl()), 3)),
        ensures
            *final(self) == *old(self),
            final(interconnect)@ == old(interconnect)@.write_u8(old(self).registers.hl(), res_value(old(interconnect)@.read_u8(old(self).registers.hl()), 3)),
            final(interconnect)@.wf(),
    {
        let val = interconnect.read_u8(self.registers.get_hl());
        interconnect.write_u8(self.registers.get_hl(), self.res(val, 0x03));
    }

    /// RES 3, A
    pub(super) fn res_3_a(&mut self)
        ensures
            *final(self) == old(self).with_registers(Registers { a: res_value(old(self).registers.a, 3), ..old(self).registers }),
    {
        let a = self.registers.a;
        self.registers.a = self.res(a, 0x03);
    }

    /// RES 4, B
    pub(super) fn res_4_b(&mut self)
        ensures
            *final(self) == old(self).with_registers(Registers { b: res_value(old(self).registers.b, 4), ..old(self).registers }),
    {
        let b = self.registers.b;
        self.registers.b = self.res(b, 0x04);
    }

    /// RES 4, C
    pub(super) fn res_4_c(&mut self)
        ensures
            *final(self) == old(self).with_registers(Registers { c: res_value(old(self).registers.c, 4), ..old(self).registers }),
    {
        let c = self.registers.c;
        self.registers.c = self.res(c, 0x04);
    }

    /// RES 4, D
    pub(super) fn res_4_d(&mut self)
        ensures
            *final(self) == old(self).with_registers(Registers { d: res_value(old(self).registers.d, 4), ..old(self).registers }),
    {
        let d = self.registers.d;
        self.registers.d = self.res(d, 0x04);
    }

    /// RES 4, E
    pub(super) fn res_4_e(&mut self)
        ensures
            *final(self) == old(self).with_registers(Registers { e: res_value(old(self).registers.e, 4), ..old(self).registers }),
    {
        let e = self.registers.e;
        self.registers.e = self.res(e, 0x04);
    }

    /// RES 4, H
    pub(super) fn res_4_h(&mut self)
        ensures
            *final(self) == old(self).with_registers(Registers { h: res_value(old(self).registers.h, 4), ..old(self).registers }),
    {
        let h = self.registers.h;
        self.registers.h = self.res(h, 0x04);
    }

    /// RES 4, L
    pub(super) fn res_4_l(&mut self)
        ensures
            *final(self) == old(self).with_registers(Registers { l: res_value(old(self).registers.l, 4), ..old(self).registers }),
    {
        let l = self.registers.l;
        self.registers.l = self.res(l, 0x04);
    }

    /// RES 4, (HL)
    pub(super) fn res_4_hl_ptr(&mut self, interconnect: &mut Interconnect)
        requires
            old(interconnect)@.wf(),
            old(interconnect)@.read_ok(old(self).registers.hl()),
            old(interconnect)@.write_ok(old(self).registers.hl(), res_value(old(interconnect)@.read_u8(old(self).registers.hl()), 4)),
        ensures
            *final(self) == *old(self),
            final(interconnect)@ == old(interconnect)@.write_u8(old(self).registers.hl(), res_value(old(interconnect)@.read_u8(old(self).registers.hl()), 4)),
            final(interconnect)@.wf(),
    {
        let val = interconnect.read_u8(self.registers.get_hl());
        interconnect.write_u8(self.registers.get_hl(), self.res(val, 0x04));
    }

    /// RES 4, A
    pub(super) fn res_4_a(&mut self)
        ensures
            *final(self) == old(self).with_registers(Registers { a: res_value(old(self).registers.a, 4), ..old(self).registers }),
    {
        let a = self.registers.a;
        self.registers.a = self.res(a, 0x04);
    }

    /// RES 5, B
    pub(super) fn res_5_b(&mut self)
        ensures
            *final(self) == old(self).with_registers(Registers { b: res_value(old(self).registers.b, 5), ..old(self).registers }),
    {
        let b = self.registers.b;
        self.registers.b = self.res(b, 0x05);
    }

    /// RES 5, C
    pub(super) fn res_5_c(&mut self)
        ensures
            *final(self) == old(self).with_registers(Registers { c: res_value(old(self).registers.c, 5), ..old(self).registers }),
    {
        let c = self.registers.c;
        self.registers.c = self.res(c, 0x05);
    }

    /// RES 5, D
    pub(super) fn res_5_d(&mut self)
        ensures
            *final(self) == old(self).with_registers(Registers { d: res_value(old(self).registers.d, 5), ..old(self).registers }),
    {
        let d = self.registers.d;
        self.registers.d = self.res(d, 0x05);
    }

    /// RES 5, E
    pub(super) fn res_5_e(&mut self)
        ensures
            *final(self) == old(self).with_registers(Registers { e: res_value(old(self).registers.e, 5), ..old(self).registers }),
    {
        let e = self.registers.e;
        self.registers.e = self.res(e, 0x05);
    }

    /// RES 5, H
    pub(super) fn res_5_h(&mut self)
        ensures
            *final(self) == old(self).with_registers(Registers { h: res_value(old(self).registers.h, 5), ..old(self).registers }),
    {
        let h = self.registers.h;
        self.registers.h = self.res(h, 0x05);
    }

    /// RES 5, L
    pub(super) fn res_5_l(&mut self)
        ensures
            *final(self) == old(self).with_registers(Registers { l: res_value(old(self).registers.l, 5), ..old(self).registers }),
    {
        let l = self.registers.l;
        self.registers.l = self.res(l, 0x05);
    }

    /// RES 5, (HL)
    pub(super) fn res_5_hl_ptr(&mut self, interconnect: &mut Interconnect)
        requires
            old(interconnect)@.wf(),
            old(interconnect)@.read_ok(old(self).registers.hl()),
            old(interconnect)@.write_ok(old(self).registers.hl(), res_value(old(interconnect)@.read_u8(old(self).registers.hl()), 5)),
        ensures
            *final(self) == *old(self),
            final(interconnect)@ == old(interconnect)@.write_u8(old(self).registers.hl(), res_value(old(interconnect)@.read_u8(old(self).registers.hl()), 5)),
            final(interconnect)@.wf(),
    {
        let val = interconnect.read_u8(self.registers.get_hl());
        interconnect.write_u8(self.registers.get_hl(), self.res(val, 0x05));
    }

    /// RES 5, A
    pub(super) fn res_5_a(&mut self)
        ensures
            *final(self) == old(self).with_registers(Registers { a: res_value(old(self).registers.a, 5), ..old(self).registers }),
    {
        let a = self.registers.a;
        self.registers.a = self.res(a, 0x05);
    }

    /// RES 6, B
    pub(super) fn res_6_b(&mut self)
        ensures
            *final(self) == old(self).with_registers(Registers { b: res_value(old(self).registers.b, 6), ..old(self).registers }),
    {
        let b = self.registers.b;
        self.registers.b = self.res(b, 0x06);
    }

    /// RES 6, C
    pub(super) fn res_6_c(&mut self)
        ensures
            *final(self) == old(self).with_registers(Registers { c: res_value(old(self).registers.c, 6), ..old(self).registers }),
    {
        let c = self.registers.c;
        self.registers.c = self.res(c, 0x06);
    }

    /// RES 6, D
    pub(super) fn res_6_d(&mut self)
        ensures
            *final(self) == old(self).with_registers(Registers { d: res_value(old(self).registers.d, 6), ..old(self).registers }),
    {
        let d = self.registers.d;
        self.registers.d = self.res(d, 0x06);
    }

    /// RES 6, E
    pub(super) fn res_6_e(&mut self)
        ensures
            *final(self) == old(self).with_registers(Registers { e: res_value(old(self).registers.e, 6), ..old(self).registers }),
    {
        let e = self.registers.e;
        self.registers.e = self.res(e, 0x06);
    }

    /// RES 6, H
    pub(super) fn res_6_h(&mut self)
        ensures
            *final(self) == old(self).with_registers(Registers { h: res_value(old(self).registers.h, 6), ..old(self).registers }),
    {
        let h = self.registers.h;
        self.registers.h = self.res(h, 0x06);
    }

    /// RES 6, L
    pub(super) fn res_6_l(&mut self)
        ensures
            *final(self) == old(self).with_registers(Registers { l: res_value(old(self).registers.l, 6), ..old(self).registers }),
    {
        let l = self.registers.l;
        self.registers.l = self.res(l, 0x06);
    }

    /// RES 6, (HL)
    pub(super) fn res_6_hl_ptr(&mut self, interconnect: &mut Interconnect)
        requires
            old(interconnect)@.wf(),
            old(interconnect)@.read_ok(old(self).registers.hl()),
            old(interconnect)@.write_ok(old(self).registers.hl(), res_value(old(interconnect)@.read_u8(old(self).registers.hl()), 6)),
        ensures
            *final(self) == *old(self),
            final(interconnect)@ == old(interconnect)@.write_u8(old(self).registers.hl(), res_value(old(interconnect)@.read_u8(old(self).registers.hl()), 6)),
            final(interconnect)@.wf(),
    {
        let val = interconnect.read_u8(self.registers.get_hl());
        interconnect.write_u8(self.registers.get_hl(), self.res(val, 0x06));
    }

    /// RES 6, A
    pub(super) fn res_6_a(&mut self)
        ensures
            *final(self) == old(self).with_registers(Registers { a: res_value(old(self).registers.a, 6), ..old(self).registers }),
    {
        let a = self.registers.a;
        self.registers.a = self.res(a, 0x06);
    }

    /// RES 7, B
    pub(super) fn res_7_b(&mut self)
        ensures
            *final(self) == old(self).with_registers(Registers { b: res_value(old(self).registers.b, 7), ..old(self).registers }),
    {
        let b = self.registers.b;
        self.registers.b = self.res(b, 0x07);
    }

    /// RES 7, C
    pub(super) fn res_7_c(&mut self)
        ensures
            *final(self) == old(self).with_registers(Registers { c: res_value(old(self).registers.c, 7), ..old(self).registers }),
    {
        let c = self.registers.c;
        self.registers.c = self.res(c, 0x07);
    }

    /// RES 7, D
    pub(super) fn res_7_d(&mut self)
        ensures
            *final(self) == old(self).with_registers(Registers { d: res_value(old(self).registers.d, 7), ..old(self).registers }),
    {
        let d = self.registers.d;
        self.registers.d = self.res(d, 0x07);
    }

    /// RES 7, E
    pub(super) fn res_7_e(&mut self)
        ensures
            *final(self) == old(self).with_registers(Registers { e: res_value(old(self).registers.e, 7), ..old(self).registers }),
    {
        let e = self.registers.e;
        self.registers.e = self.res(e, 0x07);
    }

    /// RES 7, H
    pub(super) fn res_7_h(&mut self)
        ensures
            *final(self) == old(self).with_registers(Registers { h: res_value(old(self).registers.h, 7), ..old(self).registers }),
    {
        let h = self.registers.h;
        self.registers.h = self.res(h, 0x07);
    }

    /// RES 7, L
    pub(super) fn res_7_l(&mut self)
        ensures
            *final(self) == old(self).with_registers(Registers { l: res_value(old(self).registers.l, 7), ..old(self).registers }),
    {
        let l = self.registers.l;
        self.registers.l = self.res(l, 0x07);
    }

    /// RES 7, (HL)
    pub(super) fn res_7_hl_ptr(&mut self, interconnect: &mut Interconnect)
        requires
            old(interconnect)@.wf(),
            old(interconnect)@.read_ok(old(self).registers.hl()),
            old(interconnect)@.write_ok(old(self).registers.hl(), res_value(old(interconnect)@.read_u8(old(self).registers.hl()), 7)),
        ensures
            *final(self) == *old(self),
            final(interconnect)@ == old(interconnect)@.write_u8(old(self).registers.hl(), res_value(old(interconnect)@.read_u8(old(self).registers.hl()), 7)),
            final(interconnect)@.wf(),
    {
        let val = interconnect.read_u8(self.registers.get_hl());
        interconnect.write_u8(self.registers.get_hl(), self.res(val, 0x07));
    }

    /// RES 7, A
    pub(super) fn res_7_a(&mut self)
        ensures
            *final(self) == old(self).with_registers(Registers { a: res_value(old(self).registers.a, 7), ..old(self).registers }),
    {
        let a = self.registers.a;
        self.registers.a = self.res(a, 0x07);
    }

    /// SET 0, B
    pub(super) fn set_0_b(&mut self)
        ensures
            *final(self) == old(self).with_registers(Registers { b: set_value(old(self).registers.b, 0), ..old(self).registers }),
    {
        let b = self.registers.b;
        self.registers.b = self.set(b, 0x00);
    }

    /// SET 0, C
    pub(super) fn set_0_c(&mut self)
        ensures
            *final(self) == old(self).with_registers(Registers { c: set_value(old(self).registers.c, 0), ..old(self).registers }),
    {
        let c = self.registers.c;
        self.registers.c = self.set(c, 0x00);
    }

    /// SET 0, D
    pub(super) fn set_0_d(&mut self)
        ensures
            *final(self) == old(self).with_registers(Registers { d: set_value(old(self).registers.d, 0), ..old(self).registers }),
    {
        let d = self.registers.d;
        self.registers.d = self.set(d, 0x00);
    }

    /// SET 0, E
    pub(super) fn set_0_e(&mut self)
        ensures
            *final(self) == old(self).with_registers(Registers { e: set_value(old(self).registers.e, 0), ..old(self).registers }),
    {
        let e = self.registers.e;
        self.registers.e = self.set(e, 0x00);
    }

    /// SET 0, H
    pub(super) fn set_0_h(&mut self)
        ensures
            *final(self) == old(self).with_registers(Registers { h: set_value(old(self).registers.h, 0), ..old(self).registers }),
    {
        let h = self.registers.h;
        self.registers.h = self.set(h, 0x00);
    }

    /// SET 0, L
    pub(super) fn set_0_l(&mut self)
        ensures
            *final(self) == old(self).with_registers(Registers { l: set_value(old(self).registers.l, 0), ..old(self).registers }),
    {
        let l = self.registers.l;
        self.registers.l = self.set(l, 0x00);
    }

    /// SET 0, (HL)
    pub(super) fn set_0_hl_ptr(&mut self, interconnect: &mut Interconnect)
        requires
            old(interconnect)@.wf(),
            old(interconnect)@.read_ok(old(self).registers.hl()),
            old(interconnect)@.write_ok(old(self).registers.hl(), set_value(old(interconnect)@.read_u8(old(self).registers.hl()), 0)),
        ensures
            *final(self) == *old(self),
            final(interconnect)@ == old(interconnect)@.write_u8(old(self).registers.hl(), set_value(old(interconnect)@.read_u8(old(self).registers.hl()), 0)),
            final(interconnect)@.wf(),
    {
        let val = interconnect.read_u8(self.registers.get_hl());
        interconnect.write_u8(self.registers.get_hl(), self.set(val, 0x00));
    }

    /// SET 0, A
    pub(super) fn set_0_a(&mut self)
        ensures
            *final(self) == old(self).with_registers(Registers { a: set_value(old(self).registers.a, 0), ..old(self).registers }),
    {
        let a = self.registers.a;
        self.registers.a = self.set(a, 0x00);
    }

    /// SET 1, B
    pub(super) fn set_1_b(&mut self)
        ensures
            *final(self) == old(self).with_registers(Registers { b: set_value(old(self).registers.b, 1), ..old(self).registers }),
    {
        let b = self.registers.b;
        self.registers.b = self.set(b, 0x01);
    }

    /// SET 1, C
    pub(super) fn set_1_c(&mut self)
        ensures
            *final(self) == old(self).with_registers(Registers { c: set_value(old(self).registers.c, 1), ..old(self).registers }),
    {
        let c = self.registers.c;
        self.registers.c = self.set(c, 0x01);
    }

    /// SET 1, D
    pub(super) fn set_1_d(&mut self)
        ensures
            *final(self) == old(self).with_registers(Registers { d: set_value(old(self).registers.d, 1), ..old(self).registers }),
    {
        let d = self.registers.d;
        self.registers.d = self.set(d, 0x01);
    }

    /// SET 1, E
    pub(super) fn set_1_e(&mut self)
        ensures
            *final(self) == old(self).with_registers(Registers { e: set_value(old(self).registers.e, 1), ..old(self).registers }),
    {
        let e = self.registers.e;
        self.registers.e = self.set(e, 0x01);
    }

    /// SET 1, H
    pub(super) fn set_1_h(&mut self)
        ensures
            *final(self) == old(self).with_registers(Registers { h: set_value(old(self).registers.h, 1), ..old(self).registers }),
    {
        let h = self.registers.h;
        self.registers.h = self.set(h, 0x01);
    }

    /// SET 1, L
    pub(super) fn set_1_l(&mut self)
        ensures
            *final(self) == old(self).with_registers(Registers { l: set_value(old(self).registers.l, 1), ..old(self).registers }),
    {
        let l = self.registers.l;
        self.registers.l = self.set(l, 0x01);
    }

    /// SET 1, (HL)
    pub(super) fn set_1_hl_ptr(&mut self, interconnect: &mut Interconnect)
        requires
            old(interconnect)@.wf(),
            old(interconnect)@.read_ok(old(self).registers.hl()),
            old(interconnect)@.write_ok(old(self).registers.hl(), set_value(old(interconnect)@.read_u8(old(self).registers.hl()), 1)),
        ensures
            *final(self) == *old(self),
            final(interconnect)@ == old(interconnect)@.write_u8(old(self).registers.hl(), set_value(old(interconnect)@.read_u8(old(self).registers.hl()), 1)),
            final(interconnect)@.wf(),
    {
        let val = interconnect.read_u8(self.registers.get_hl());
        interconnect.write_u8(self.registers.get_hl(), self.set(val, 0x01));
    }

    /// SET 1, A
    pub(super) fn set_1_a(&mut self)
        ensures
            *final(self) == old(self).with_registers(Registers { a: set_value(old(self).registers.a, 1), ..old(self).registers }),
    {
        let a = self.registers.a;
        self.registers.a = self.set(a, 0x01);
    }

    /// SET 2, B
    pub(super) fn set_2_b(&mut self)
        ensures
            *final(self) == old(self).with_registers(Registers { b: set_value(old(self).registers.b, 2), ..old(self).registers }),
    {
        let b = self.registers.b;
        self.registers.b = self.set(b, 0x02);
    }

    /// SET 2, C
    pub(super) fn set_2_c(&mut self)
        ensures
            *final(self) == old(self).with_registers(Registers { c: set_value(old(self).registers.c, 2), ..old(self).registers }),
    {
        let c = self.registers.c;
        self.registers.c = self.set(c, 0x02);
    }

    /// SET 2, D
    pub(super) fn set_2_d(&mut self)
        ensures
            *final(self) == old(self).with_registers(Registers { d: set_value(old(self).registers.d, 2), ..old(self).registers }),
    {
        let d = self.registers.d;
        self.registers.d = self.set(d, 0x02);
    }

    /// SET 2, E
    pub(super) fn set_2_e(&mut self)
        ensures
            *final(self) == old(self).with_registers(Registers { e: set_value(old(self).registers.e, 2), ..old(self).registers }),
    {
        let e = self.registers.e;
        self.registers.e = self.set(e, 0x02);
    }

    /// SET 2, H
    pub(super) fn set_2_h(&mut self)
        ensures
            *final(self) == old(self).with_registers(Registers { h: set_value(old(self).registers.h, 2), ..old(self).registers }),
    {
        let h = self.registers.h;
        self.registers.h = self.set(h, 0x02);
    }

    /// SET 2, L
    pub(super) fn set_2_l(&mut self)
        ensures
            *final(self) == old(self).with_registers(Registers { l: set_value(old(self).registers.l, 2), ..old(self).registers }),
    {
        let l = self.registers.l;
        self.registers.l = self.set(l, 0x02);
    }

    /// SET 2, (HL)
    pub(super) fn set_2_hl_ptr(&mut self, interconnect: &mut Interconnect)
        requires
            old(interconnect)@.wf(),
            old(interconnect)@.read_ok(old(self).registers.hl()),
            old(interconnect)@.write_ok(old(self).registers.hl(), set_value(old(interconnect)@.read_u8(old(self).registers.hl()), 2)),
        ensures
            *final(self) == *old(self),
            final(interconnect)@ == old(interconnect)@.write_u8(old(self).registers.hl(), set_value(old(interconnect)@.read_u8(old(self).registers.hl()), 2)),
            final(interconnect)@.wf(),
    {
        let val = interconnect.read_u8(self.registers.get_hl());
        interconnect.write_u8(self.registers.get_hl(), self.set(val, 0x02));
    }

    /// SET 2, A
    pub(super) fn set_2_a(&mut self)
        ensures
            *final(self) == old(self).with_registers(Registers { a: set_value(old(self).registers.a, 2), ..old(self).registers }),
    {
        let a = self.registers.a;
        self.registers.a = self.set(a, 0x02);
    }

    /// SET 3, B
    pub(super) fn set_3_b(&mut self)
        ensures
            *final(self) == old(self).with_registers(Registers { b: set_value(old(self).registers.b, 3), ..old(self).registers }),
    {
        let b = self.registers.b;
        self.registers.b = self.set(b, 0x03);
    }

    /// SET 3, C
    pub(super) fn set_3_c(&mut self)
        ensures
            *final(self) == old(self).with_registers(Registers { c: set_value(old(self).registers.c, 3), ..old(self).registers }),
    {
        let c = self.registers.c;
        self.registers.c = self.set(c, 0x03);
    }

    /// SET 3, D
    pub(super) fn set_3_d(&mut self)
        ensures
            *final(self) == old(self).with_registers(Registers { d: set_value(old(self).registers.d, 3), ..old(self).registers }),
    {
        let d = self.registers.d;
        self.registers.d = self.set(d, 0x03);
    }

    /// SET 3, E
    pub(super) fn set_3_e(&mut self)
        ensures
            *final(self) == old(self).with_registers(Registers { e: set_value(old(self).registers.e, 3), ..old(self).registers }),
    {
        let e = self.registers.e;
        self.registers.e = self.set(e, 0x03);
    }

    /// SET 3, H
    pub(super) fn set_3_h(&mut self)
        ensures
            *final(self) == old(self).with_registers(Registers { h: set_value(old(self).registers.h, 3), ..old(self).registers }),
    {
        let h = self.registers.h;
        self.registers.h = self.set(h, 0x03);
    }

    /// SET 3, L
    pub(super) fn set_3_l(&mut self)
        ensures
            *final(self) == old(self).with_registers(Registers { l: set_value(old(self).registers.l, 3), ..old(self).registers }),
    {
        let l = self.registers.l;
        self.registers.l = self.set(l, 0x03);
    }

    /// SET 3, (HL)
    pub(super) fn set_3_hl_ptr(&mut self, interconnect: &mut Interconnect)
        requires
            old(interconnect)@.wf(),
            old(interconnect)@.read_ok(old(self).registers.hl()),
            old(interconnect)@.write_ok(old(self).registers.hl(), set_value(old(interconnect)@.read_u8(old(self).registers.hl()), 3)),
        ensures
            *final(self) == *old(self),
            final(interconnect)@ == old(interconnect)@.write_u8(old(self).registers.hl(), set_value(old(interconnect)@.read_u8(old(self).registers.hl()), 3)),
            final(interconnect)@.wf(),
    {
        let val = interconnect.read_u8(self.registers.get_hl());
        interconnect.write_u8(self.registers.get_hl(), self.set(val, 0x03));
    }

    /// SET 3, A
    pub(super) fn set_3_a(&mut self)
        ensures
            *final(self) == old(self).with_registers(Registers { a: set_value(old(self).registers.a, 3), ..old(self).registers }),
    {
        let a = self.registers.a;
        self.registers.a = self.set(a, 0x03);
    }

    /// SET 4, B
    pub(super) fn set_4_b(&mut self)
        ensures
            *final(self) == old(self).with_registers(Registers { b: set_value(old(self).registers.b, 4), ..old(self).registers }),
    {
        let b = self.registers.b;
        self.registers.b = self.set(b, 0x04);
    }

    /// SET 4, C
    pub(super) fn set_4_c(&mut self)
        ensures
            *final(self) == old(self).with_registers(Registers { c: set_value(old(self).registers.c, 4), ..old(self).registers }),
    {
        let c = self.registers.c;
        self.registers.c = self.set(c, 0x04);
    }

    /// SET 4, D
    pub(super) fn set_4_d(&mut self)
        ensures
            *final(self) == old(self).with_registers(Registers { d: set_value(old(self).registers.d, 4), ..old(self).registers }),
    {
        let d = self.registers.d;
        self.registers.d = self.set(d, 0x04);
    }

    /// SET 4, E
    pub(super) fn set_4_e(&mut self)
        ensures
            *final(self) == old(self).with_registers(Registers { e: set_value(old(self).registers.e, 4), ..old(self).registers }),
    {
        let e = self.registers.e;
        self.registers.e = self.set(e, 0x04);
    }

    /// SET 4, H
    pub(super) fn set_4_h(&mut self)
        ensures
            *final(self) == old(self).with_registers(Registers { h: set_value(old(self).registers.h, 4), ..old(self).registers }),
    {
        let h = self.registers.h;
        self.registers.h = self.set(h, 0x04);
    }

    /// SET 4, L
    pub(super) fn set_4_l(&mut self)
        ensures
            *final(self) == old(self).with_registers(Registers { l: set_value(old(self).registers.l, 4), ..old(self).registers }),
    {
        let l = self.registers.l;
        self.registers.l = self.set(l, 0x04);
    }

    /// SET 4, (HL)
    pub(super) fn set_4_hl_ptr(&mut self, interconnect: &mut Interconnect)
        requires
            old(interconnect)@.wf(),
            old(interconnect)@.read_ok(old(self).registers.hl()),
            old(interconnect)@.write_ok(old(self).registers.hl(), set_value(old(interconnect)@.read_u8(old(self).registers.hl()), 4)),
        ensures
            *final(self) == *old(self),
            final(interconnect)@ == old(interconnect)@.write_u8(old(self).registers.hl(), set_value(old(interconnect)@.read_u8(old(self).registers.hl()), 4)),
            final(interconnect)@.wf(),
    {
        let val = interconnect.read_u8(self.registers.get_hl());
        interconnect.write_u8(self.registers.get_hl(), self.set(val, 0x04));
    }

    /// SET 4, A
    pub(super) fn set_4_a(&mut self)
        ensures
            *final(self) == old(self).with_registers(Registers { a: set_value(old(self).registers.a, 4), ..old(self).registers }),
    {
        let a = self.registers.a;
        self.registers.a = self.set(a, 0x04);
    }

    /// SET 5, B
    pub(super) fn set_5_b(&mut self)
        ensures
            *final(self) == old(self).with_registers(Registers { b: set_value(old(self).registers.b, 5), ..old(self).registers }),
    {
        let b = self.registers.b;
        self.registers.b = self.set(b, 0x05);
    }

    /// SET 5, C
    pub(super) fn set_5_c(&mut self)
        ensures
            *final(self) == old(self).with_registers(Registers { c: set_value(old(self).registers.c, 5), ..old(self).registers }),
    {
        let c = self.registers.c;
        self.registers.c = self.set(c, 0x05);
    }

    /// SET 5, D
    pub(super) fn set_5_d(&mut self)
        ensures
            *final(self) == old(self).with_registers(Registers { d: set_value(old(self).registers.d, 5), ..old(self).registers }),
    {
        let d = self.registers.d;
        self.registers.d = self.set(d, 0x05);
    }

    /// SET 5, E
    pub(super) fn set_5_e(&mut self)
        ensures
            *final(self) == old(self).with_registers(Registers { e: set_value(old(self).registers.e, 5), ..old(self).registers }),
    {
        let e = self.registers.e;
        self.registers.e = self.set(e, 0x05);
    }

    /// SET 5, H
    pub(super) fn set_5_h(&mut self)
        ensures
            *final(self) == old(self).with_registers(Registers { h: set_value(old(self).registers.h, 5), ..old(self).registers }),
    {
        let h = self.registers.h;
        self.registers.h = self.set(h, 0x05);
    }

    /// SET 5, L
    pub(super) fn set_5_l(&mut self)
        ensures
            *final(self) == old(self).with_registers(Registers { l: set_value(old(self).registers.l, 5), ..old(self).registers }),
    {
        let l = self.registers.l;
        self.registers.l = self.set(l, 0x05);
    }

    /// SET 5, (HL)
    pub(super) fn set_5_hl_ptr(&mut self, interconnect: &mut Interconnect)
        requires
            old(interconnect)@.wf(),
            old(interconnect)@.read_ok(old(self).registers.hl()),
            old(interconnect)@.write_ok(old(self).registers.hl(), set_value(old(interconnect)@.read_u8(old(self).registers.hl()), 5)),
        ensures
            *final(self) == *old(self),
            final(interconnect)@ == old(interconnect)@.write_u8(old(self).registers.hl(), set_value(old(interconnect)@.read_u8(old(self).registers.hl()), 5)),
            final(interconnect)@.wf(),
    {
        let val = interconnect.read_u8(self.registers.get_hl());
        interconnect.write_u8(self.registers.get_hl(), self.set(val, 0x05));
    }

    /// SET 5, A
    pub(super) fn set_5_a(&mut self)
        ensures
            *final(self) == old(self).with_registers(Registers { a: set_value(old(self).registers.a, 5), ..old(self).registers }),
    {
        let a = self.registers.a;
        self.registers.a = self.set(a, 0x05);
    }

    /// SET 6, B
    pub(super) fn set_6_b(&mut self)
        ensures
            *final(self) == old(self).with_registers(Registers { b: set_value(old(self).registers.b, 6), ..old(self).registers }),
    {
        let b = self.registers.b;
        self.registers.b = self.set(b, 0x06);
    }

    /// SET 6, C
    pub(super) fn set_6_c(&mut self)
        ensures
            *final(self) == old(self).with_registers(Registers { c: set_value(old(self).registers.c, 6), ..old(self).registers }),
    {
        let c = self.registers.c;
        self.registers.c = self.set(c, 0x06);
    }

    /// SET 6, D
    pub(super) fn set_6_d(&mut self)
        ensures
            *final(self) == old(self).with_registers(Registers { d: set_value(old(self).registers.d, 6), ..old(self).registers }),
    {
        let d = self.registers.d;
        self.registers.d = self.set(d, 0x06);
    }

    /// SET 6, E
    pub(super) fn set_6_e(&mut self)
        ensures
            *final(self) == old(self).with_registers(Registers { e: set_value(old(self).registers.e, 6), ..old(self).registers }),
    {
        let e = self.registers.e;
        self.registers.e = self.set(e, 0x06);
    }

    /// SET 6, H
    pub(super) fn set_6_h(&mut self)
        ensures
            *final(self) == old(self).with_registers(Registers { h: set_value(old(self).registers.h, 6), ..old(self).registers }),
    {
        let h = self.registers.h;
        self.registers.h = self.set(h, 0x06);
    }

    /// SET 6, L
    pub(super) fn set_6_l(&mut self)
        ensures
            *final(self) == old(self).with_registers(Registers { l: set_value(old(self).registers.l, 6), ..old(self).registers }),
    {
        let l = self.registers.l;
        self.registers.l = self.set(l, 0x06);
    }

    /// SET 6, (HL)
    pub(super) fn set_6_hl_ptr(&mut self, interconnect: &mut Interconnect)
        requires
            old(interconnect)@.wf(),
            old(interconnect)@.read_ok(old(self).registers.hl()),
            old(interconnect)@.write_ok(old(self).registers.hl(), set_value(old(interconnect)@.read_u8(old(self).registers.hl()), 6)),
        ensures
            *final(self) == *old(self),
            final(interconnect)@ == old(interconnect)@.write_u8(old(self).registers.hl(), set_value(old(interconnect)@.read_u8(old(self).registers.hl()), 6)),
            final(interconnect)@.wf(),
    {
        let val = interconnect.read_u8(self.registers.get_hl());
        interconnect.write_u8(self.registers.get_hl(), self.set(val, 0x06));
    }

    /// SET 6, A
    pub(super) fn set_6_a(&mut self)
        ensures
            *final(self) == old(self).with_registers(Registers { a: set_value(old(self).registers.a, 6), ..old(self).registers }),
    {
        let a = self.registers.a;
        self.registers.a = self.set(a, 0x06);
    }

    /// SET 7, B
    pub(super) fn set_7_b(&mut self)
        ensures
            *final(self) == old(self).with_registers(Registers { b: set_value(old(self).registers.b, 7), ..old(self).registers }),
    {
        let b = self.registers.b;
        self.registers.b = self.set(b, 0x07);
    }

    /// SET 7, C
    pub(super) fn set_7_c(&mut self)
        ensures
            *final(self) == old(self).with_registers(Registers { c: set_value(old(self).registers.c, 7), ..old(self).registers }),
    {
        let c = self.registers.c;
        self.registers.c = self.set(c, 0x07);
    }

    /// SET 7, D
    pub(super) fn set_7_d(&mut self)
        ensures
            *final(self) == old(self).with_registers(Registers { d: set_value(old(self).registers.d, 7), ..old(self).registers }),
    {
        let d = self.registers.d;
        self.registers.d = self.set(d, 0x07);
    }

    /// SET 7, E
    pub(super) fn set_7_e(&mut self)
        ensures
            *final(self) == old(self).with_registers(Registers { e: set_value(old(self).registers.e, 7), ..old(self).registers }),
    {
        let e = self.registers.e;
        self.registers.e = self.set(e, 0x07);
    }

    /// SET 7, H
    pub(super) fn set_7_h(&mut self)
        ensures
            *final(self) == old(self).with_registers(Registers { h: set_value(old(self).registers.h, 7), ..old(self).registers }),
    {
        let h = self.registers.h;
        self.registers.h = self.set(h, 0x07);
    }

    /// SET 7, L
    pub(super) fn set_7_l(&mut self)
        ensures
            *final(self) == old(self).with_registers(Registers { l: set_value(old(self).registers.l, 7), ..old(self).registers }),
    {
        let l = self.registers.l;
        self.registers.l = self.set(l, 0x07);
    }

    /// SET 7, (HL)
    pub(super) fn set_7_hl_ptr(&mut self, interconnect: &mut Interconnect)
        requires
            old(interconnect)@.wf(),
            old(interconnect)@.read_ok(old(self).registers.hl()),
            old(interconnect)@.write_ok(old(self).registers.hl(), set_value(old(interconnect)@.read_u8(old(self).registers.hl()), 7)),
        ensures
            *final(self) == *old(self),
            final(interconnect)@ == old(interconnect)@.write_u8(old(self).registers.hl(), set_value(old(interconnect)@.read_u8(old(self).registers.hl()), 7)),
            final(interconnect)@.wf(),
    {
        let val = interconnect.read_u8(self.registers.get_hl());
        interconnect.write_u8(self.registers.get_hl(), self.set(val, 0x07));
    }

    /// SET 7, A
    pub(super) fn set_7_a(&mut self)
        ensures
            *final(self) == old(self).with_registers(Registers { a: set_value(old(self).registers.a, 7), ..old(self).registers }),
    {
        let a = self.registers.a;
        self.registers.a = self.set(a, 0x07);
    }
}

} // verus!
