use vstd::prelude::*;

use crate::gameboy::cpu::semantics::{
    cb_ok,
    cb_result,
    condition,
    dec_value,
    execute_cb_ok,
    execute_ok,
    inc_value,
    interrupts_ok,
    jump_ok,
    pending,
    pop_ok,
    push_ok,
    res_value,
    set_value,
    shift_value,
    sp_offset,
    step_ok,
};
use crate::gameboy::cpu::Cpu;
use crate::gameboy::interconnect::Interconnect;
use crate::gameboy::irq::Interrupt;
use crate::gameboy::opcodes::{ArgumentType, OpCode, Operand};
use crate::gameboy::registers::Registers;

verus! {

/// Whether condition `cc` (0 NZ, 1 Z, 2 NC, 3 C) holds.
fn condition_holds(r: &Registers, cc: u8) -> (b: bool)
    ensures
        b == condition(*r, cc as int),
{
    if cc == 0 {
        !r.flags.zero
    } else if cc == 1 {
        r.flags.zero
    } else if cc == 2 {
        !r.flags.carry
    } else {
        r.flags.carry
    }
}

/// Whether a relative jump by `offset` from `pc` stays in the address space.
fn can_jump(pc: u16, offset: u8) -> (b: bool)
    ensures
        b == jump_ok(pc, offset),
{
    if offset >= 128 {
        pc as u32 + offset as u32 >= 256
    } else {
        pc as u32 + offset as u32 <= 0xFFFF
    }
}

/// Whether two bytes can be pushed.
fn can_push(r: &Registers, interconnect: &Interconnect) -> (b: bool)
    requires
        interconnect@.wf(),
    ensures
        b == push_ok(*r, interconnect@),
{
    r.sp >= 2 && interconnect.can_write16((r.sp - 2) as u16)
}

/// Whether two bytes can be popped.
fn can_pop(r: &Registers, interconnect: &Interconnect) -> (b: bool)
    requires
        interconnect@.wf(),
    ensures
        b == pop_ok(*r, interconnect@),
{
    r.sp <= usize::MAX - 2 && interconnect.can_read16(r.sp as u16)
}

/// The value that rotation or shift `op` makes of `v`, with `carry` the carry flag.
fn shift_result(op: u8, v: u8, carry: bool) -> (res: u8)
    requires
        op < 8,
    ensures
        res == shift_value(op as int, v, carry),
{
    let c: u16 = if carry {
        1
    } else {
        0
    };
    let w = v as u16;
    let res: u16 = if op == 0 {
        (w * 2) % 256 + w / 128
    } else if op == 1 {
        w / 2 + (w % 2) * 128
    } else if op == 2 {
        (w * 2) % 256 + c
    } else if op == 3 {
        w / 2 + c * 128
    } else if op == 4 {
        (w * 2) % 256
    } else if op == 5 {
        w / 2 + (w / 128) * 128
    } else if op == 6 {
        (w % 16) * 16 + w / 16
    } else {
        w / 2
    };
    res as u8
}

/// The value that prefixed instruction `code` (not a bit test) stores for operand `v`.
fn cb_value(code: u8, r: &Registers, v: u8) -> (res: u8)
    requires
        code < 0x40 || code >= 0x80,
    ensures
        res == cb_result(code, *r, v),
{
    let g = code / 8;
    if code < 0x40 {
        shift_result(g, v, r.flags.carry)
    } else if code < 0xC0 {
        v & !(1u8 << (g - 16))
    } else {
        v | (1u8 << (g - 24))
    }
}

/// Whether the prefixed instruction `code` can run.
pub fn can_execute_cb(code: u8, r: &Registers, interconnect: &Interconnect) -> (b: bool)
    requires
        interconnect@.wf(),
    ensures
        b == execute_cb_ok(code, *r, interconnect@),
{
    if code % 8 != 6 {
        return true;
    }
    let hl = r.get_hl();
    if !interconnect.can_read(hl) {
        return false;
    }
    if code >= 0x40 && code < 0x80 {
        return true;
    }
    let v = interconnect.read_u8(hl);
    interconnect.can_write(hl, cb_value(code, r, v))
}

/// Whether the unprefixed instruction `code`, one of 0x00-0x3F, can run.
fn can_execute_low(code: u8, r: &Registers, o: &Operand, interconnect: &Interconnect) -> (b: bool)
    requires
        interconnect@.wf(),
        code <= 0x3F,
    ensures
        b == execute_ok(code, *r, interconnect@, *o),
{
    let y = code / 8;
    let imm8 = match o {
        Operand::Imm8(v) => *v,
        _ => 0,
    };
    let imm16 = match o {
        Operand::Imm16(v) => *v,
        _ => 0,
    };
    if code == 0x08 {
        interconnect.can_write16(imm16)
    } else if code == 0x18 {
        can_jump(r.pc, imm8)
    } else if code == 0x20 || code == 0x28 || code == 0x30 || code == 0x38 {
        !condition_holds(r, y - 4) || can_jump(r.pc, imm8)
    } else if code == 0x02 {
        interconnect.can_write(r.get_bc(), r.a)
    } else if code == 0x12 {
        interconnect.can_write(r.get_de(), r.a)
    } else if code == 0x22 {
        let hl = r.get_hl();
        interconnect.can_write(hl, r.a) && hl < 0xFFFF
    } else if code == 0x32 {
        let hl = r.get_hl();
        interconnect.can_write(hl, r.a) && hl >= 1
    } else if code == 0x0A {
        interconnect.can_read(r.get_bc())
    } else if code == 0x1A {
        interconnect.can_read(r.get_de())
    } else if code == 0x2A {
        let hl = r.get_hl();
        interconnect.can_read(hl) && hl < 0xFFFF
    } else if code == 0x3A {
        let hl = r.get_hl();
        interconnect.can_read(hl) && hl >= 1
    } else if code == 0x03 {
        r.get_bc() < 0xFFFF
    } else if code == 0x13 {
        r.get_de() < 0xFFFF
    } else if code == 0x23 {
        r.get_hl() < 0xFFFF
    } else if code == 0x33 {
        r.sp < usize::MAX
    } else if code == 0x34 || code == 0x35 {
        let hl = r.get_hl();
        if !interconnect.can_read(hl) {
            return false;
        }
        let v = interconnect.read_u8(hl);
        let res = if code == 0x34 {
            v.wrapping_add(1)
        } else {
            v.wrapping_sub(1)
        };
        assert(code == 0x34 ==> res == inc_value(v));
        assert(code == 0x35 ==> res == dec_value(v));
        interconnect.can_write(hl, res)
    } else if code == 0x36 {
        interconnect.can_write(r.get_hl(), imm8)
    } else {
        true
    }
}

/// Whether the unprefixed instruction `code`, one of 0xC0-0xFF, can run.
fn can_execute_high(code: u8, r: &Registers, o: &Operand, interconnect: &Interconnect) -> (b: bool)
    requires
        interconnect@.wf(),
        code >= 0xC0,
    ensures
        b == execute_ok(code, *r, interconnect@, *o),
{
    let x = code % 8;
    let yy = (code - 0xC0) / 8;
    let imm8 = match o {
        Operand::Imm8(v) => *v,
        _ => 0,
    };
    let imm16 = match o {
        Operand::Imm16(v) => *v,
        _ => 0,
    };
    if code == 0xC9 || code == 0xD9 {
        can_pop(r, interconnect)
    } else if x == 0 && yy < 4 {
        !condition_holds(r, yy) || can_pop(r, interconnect)
    } else if code == 0xC1 || code == 0xD1 || code == 0xE1 || code == 0xF1 {
        can_pop(r, interconnect)
    } else if code == 0xC5 || code == 0xD5 || code == 0xE5 || code == 0xF5 {
        can_push(r, interconnect)
    } else if code == 0xCD {
        can_push(r, interconnect)
    } else if x == 4 && yy < 4 {
        !condition_holds(r, yy) || can_push(r, interconnect)
    } else if x == 7 {
        can_push(r, interconnect)
    } else if code == 0xE0 {
        interconnect.can_write(0xFF00 + imm8 as u16, r.a)
    } else if code == 0xE2 {
        interconnect.can_write(0xFF00 + r.c as u16, r.a)
    } else if code == 0xEA {
        interconnect.can_write(imm16, r.a)
    } else if code == 0xF0 {
        interconnect.can_read(0xFF00 + imm8 as u16)
    } else if code == 0xF2 {
        interconnect.can_read(0xFF00 + r.c as u16)
    } else if code == 0xFA {
        interconnect.can_read(imm16)
    } else if code == 0xE8 {
        let offset: u16 = if imm8 >= 128 {
            imm8 as u16 + 0xFF00
        } else {
            imm8 as u16
        };
        assert(offset == sp_offset(imm8));
        r.sp <= usize::MAX - offset as usize
    } else {
        true
    }
}

/// Whether the unprefixed instruction `code` can run with operand `o`.
pub fn can_execute(code: u8, r: &Registers, o: &Operand, interconnect: &Interconnect) -> (b: bool)
    requires
        interconnect@.wf(),
    ensures
        b == execute_ok(code, *r, interconnect@, *o),
{
    if 0x40 <= code && code <= 0x7F {
        let d = (code - 0x40) / 8;
        let s = code % 8;
        if code == 0x76 {
            true
        } else if d == 6 {
            let v = match s {
                0 => r.b,
                1 => r.c,
                2 => r.d,
                3 => r.e,
                4 => r.h,
                5 => r.l,
                _ => r.a,
            };
            interconnect.can_write(r.get_hl(), v)
        } else if s == 6 {
            interconnect.can_read(r.get_hl())
        } else {
            true
        }
    } else if 0x80 <= code && code <= 0xBF {
        code % 8 != 6 || interconnect.can_read(r.get_hl())
    } else if code <= 0x3F {
        can_execute_low(code, r, o, interconnect)
    } else {
        can_execute_high(code, r, o, interconnect)
    }
}

impl Cpu {
    /// Whether `step` can run on this cpu and `interconnect`.
    pub fn can_step(&self, interconnect: &Interconnect) -> (b: bool)
        requires
            interconnect@.wf(),
        ensures
            b == step_ok(*self, interconnect@),
    {
        proof {
            reveal(step_ok);
        }
        if self.halted {
            return true;
        }
        let pc = self.registers.pc;
        if !interconnect.can_read(pc) {
            return false;
        }
        let byte = interconnect.read_u8(pc);
        match OpCode::from_byte(byte, false) {
            None => true,
            Some(op) => {
                if pc == 0xFFFF {
                    return false;
                }
                let operand_ready = match op.argument_type {
                    ArgumentType::Implied => true,
                    ArgumentType::Imm8 => interconnect.can_read(pc + 1),
                    ArgumentType::Imm16 => interconnect.can_read16(pc + 1),
                    _ => false,
                };
                if !operand_ready {
                    return false;
                }
                if pc as u32 + op.length as u32 > 0xFFFF {
                    return false;
                }
                let next = pc + op.length;
                let mut r = self.registers;
                r.pc = next;
                if byte == 0xCB {
                    if !interconnect.can_read(next) || next == 0xFFFF {
                        return false;
                    }
                    let b2 = interconnect.read_u8(next);
                    match OpCode::from_byte(b2, true) {
                        Some(op2) => {
                            if next as u32 + op2.length as u32 > 0xFFFF {
                                return false;
                            }
                            r.pc = next + op2.length;
                            can_execute_cb(b2, &r, interconnect)
                        },
                        None => false,
                    }
                } else {
                    let operand = self.get_operand_from_opcode(interconnect, &op);
                    can_execute(byte, &r, &operand, interconnect)
                }
            },
        }
    }

    /// Whether `handle_interrupts` can run on this cpu and `interconnect`.
    pub fn can_handle_interrupts(&self, interconnect: &Interconnect) -> (b: bool)
        requires
            interconnect@.wf(),
        ensures
            b == interrupts_ok(*self, interconnect@),
    {
        proof {
            reveal(interrupts_ok);
        }
        if interconnect.irq.requested(&Interrupt::LoadGame) {
            interconnect.cart.is_some()
        } else if !interconnect.irq.enabled {
            true
        } else if interconnect.irq.should_handle(Interrupt::Vblank) || interconnect.irq.should_handle(
            Interrupt::Lcd,
        ) || interconnect.irq.should_handle(Interrupt::Timer) || interconnect.irq.should_handle(
            Interrupt::Serial,
        ) || interconnect.irq.should_handle(Interrupt::Joypad) {
            can_push(&self.registers, interconnect)
        } else {
            true
        }
    }
}

} // verus!
