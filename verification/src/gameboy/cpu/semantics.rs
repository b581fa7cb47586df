use vstd::prelude::*;

use crate::gameboy::cpu::Cpu;
use crate::gameboy::interconnect::InterconnectView;
use crate::gameboy::irq::{Interrupt, Irq};
use crate::gameboy::opcodes::{spec_base_opcode, spec_cb_opcode, ArgumentType, Operand};
use crate::gameboy::registers::Registers;
use crate::gameboy::timer::wrapping_sub_usize;

verus! {

// Register numbering of the instruction encoding: 0 B, 1 C, 2 D, 3 E, 4 H,
// 5 L, 6 the byte at HL, 7 A.
/// The 8-bit register with number `i` (A for 6 and 7).
pub open spec fn reg8(r: Registers, i: int) -> u8 {
    if i == 0 {
        r.b
    } else if i == 1 {
        r.c
    } else if i == 2 {
        r.d
    } else if i == 3 {
        r.e
    } else if i == 4 {
        r.h
    } else if i == 5 {
        r.l
    } else {
        r.a
    }
}

/// `r` with the 8-bit register with number `i` set to `v` (A for 6 and 7).
pub open spec fn with_reg8(r: Registers, i: int, v: u8) -> Registers {
    if i == 0 {
        Registers { b: v, ..r }
    } else if i == 1 {
        Registers { c: v, ..r }
    } else if i == 2 {
        Registers { d: v, ..r }
    } else if i == 3 {
        Registers { e: v, ..r }
    } else if i == 4 {
        Registers { h: v, ..r }
    } else if i == 5 {
        Registers { l: v, ..r }
    } else {
        Registers { a: v, ..r }
    }
}

/// 1 for a set carry, 0 otherwise.
pub open spec fn carry_in(r: Registers) -> int {
    if r.flags.carry {
        1
    } else {
        0
    }
}

/// `v` read as a two's complement byte.
pub open spec fn signed8(v: u8) -> int {
    if v >= 128 {
        v - 256
    } else {
        v as int
    }
}

/// The low 16 bits of the stack pointer, as the bus sees it.
pub open spec fn sp16(r: Registers) -> u16 {
    r.sp as u16
}

// ---- 8-bit arithmetic and logic on A ----
/// ADD A, v: A becomes A + v modulo 256; Z if zero, N clear, H on a carry out
/// of bit 3, C on a carry out of bit 7.
pub open spec fn alu_add(r: Registers, v: u8) -> Registers {
    let res = ((r.a + v) % 256) as u8;
    Registers { a: res, ..r }.with_znhc(res == 0, false, r.a % 16 + v % 16 > 15, r.a + v > 255)
}

/// ADC A, v: as ADD with the carry flag added in.
pub open spec fn alu_adc(r: Registers, v: u8) -> Registers {
    let c = carry_in(r);
    let res = ((r.a + v + c) % 256) as u8;
    Registers { a: res, ..r }.with_znhc(res == 0, false, r.a % 16 + v % 16 + c > 15, r.a + v + c > 255)
}

/// SUB v: A becomes A - v modulo 256; Z if zero, N set, H on a borrow from
/// bit 4, C on a borrow.
pub open spec fn alu_sub(r: Registers, v: u8) -> Registers {
    let res = ((r.a - v + 256) % 256) as u8;
    Registers { a: res, ..r }.with_znhc(res == 0, true, r.a % 16 < v % 16, r.a < v)
}

/// SBC A, v: as SUB with the carry flag subtracted too.
pub open spec fn alu_sbc(r: Registers, v: u8) -> Registers {
    let c = carry_in(r);
    let res = ((r.a - v - c + 512) % 256) as u8;
    Registers { a: res, ..r }.with_znhc(res == 0, true, r.a % 16 < v % 16 + c, r.a < v + c)
}

/// AND v: Z if zero, H set, N and C clear.
pub open spec fn alu_and(r: Registers, v: u8) -> Registers {
    let res = r.a & v;
    Registers { a: res, ..r }.with_znhc(res == 0, false, true, false)
}

/// XOR v: Z if zero, the other flags clear.
pub open spec fn alu_xor(r: Registers, v: u8) -> Registers {
    let res = r.a ^ v;
    Registers { a: res, ..r }.with_znhc(res == 0, false, false, false)
}

/// OR v: Z if zero, the other flags clear.
pub open spec fn alu_or(r: Registers, v: u8) -> Registers {
    let res = r.a | v;
    Registers { a: res, ..r }.with_znhc(res == 0, false, false, false)
}

/// CP v: the flags of SUB v, with A unchanged.
pub open spec fn alu_cp(r: Registers, v: u8) -> Registers {
    r.with_znhc(r.a == v, true, r.a % 16 < v % 16, r.a < v)
}

/// The operation with number `op` in the encoding of 0x80-0xBF and 0xC6-0xFE:
/// ADD, ADC, SUB, SBC, AND, XOR, OR, CP.
pub open spec fn alu8(op: int, r: Registers, v: u8) -> Registers {
    if op == 0 {
        alu_add(r, v)
    } else if op == 1 {
        alu_adc(r, v)
    } else if op == 2 {
        alu_sub(r, v)
    } else if op == 3 {
        alu_sbc(r, v)
    } else if op == 4 {
        alu_and(r, v)
    } else if op == 5 {
        alu_xor(r, v)
    } else if op == 6 {
        alu_or(r, v)
    } else {
        alu_cp(r, v)
    }
}

// ---- increments and decrements ----
pub open spec fn inc_value(v: u8) -> u8 {
    ((v + 1) % 256) as u8
}

pub open spec fn dec_value(v: u8) -> u8 {
    ((v + 255) % 256) as u8
}

/// The flags after INC of `v`: Z if the result is zero, N clear, H when the low
/// nibble was 0xF; C unchanged.
pub open spec fn inc_flags(r: Registers, v: u8) -> Registers {
    r.with_znhc(inc_value(v) == 0, false, v % 16 == 15, r.flags.carry)
}

/// The flags after DEC of `v`: Z if the result is zero, N set, H when the low
/// nibble was 0; C unchanged.
pub open spec fn dec_flags(r: Registers, v: u8) -> Registers {
    r.with_znhc(dec_value(v) == 0, true, v % 16 == 0, r.flags.carry)
}

/// INC of register `i`.
pub open spec fn inc_reg(r: Registers, i: int) -> Registers {
    with_reg8(inc_flags(r, reg8(r, i)), i, inc_value(reg8(r, i)))
}

/// DEC of register `i`.
pub open spec fn dec_reg(r: Registers, i: int) -> Registers {
    with_reg8(dec_flags(r, reg8(r, i)), i, dec_value(reg8(r, i)))
}

// ---- 16-bit arithmetic ----
/// ADD HL, v: HL becomes HL + v modulo 0x10000; N clear, H on a carry out of
/// bit 10, C on a carry out of bit 15; Z unchanged.
pub open spec fn add_hl(r: Registers, v: u16) -> Registers {
    r.with_hl(((r.hl() + v) % 0x10000) as u16).with_znhc(
        r.flags.zero,
        false,
        r.hl() % 0x800 + v % 0x800 > 0x7FF,
        r.hl() + v > 0xFFFF,
    )
}

/// The immediate of ADD SP and LD HL, SP+: the byte sign-extended to 16 bits.
pub open spec fn sp_offset(imm: u8) -> u16 {
    if imm >= 128 {
        (imm + 0xFF00) as u16
    } else {
        imm as u16
    }
}

/// The flags of ADD SP and LD HL, SP+: Z and N clear, H and C from the
/// additions of the low nibbles and the low bytes.
pub open spec fn sp_offset_flags(r: Registers, imm: u8) -> Registers {
    let s = sp16(r);
    let v = sp_offset(imm);
    r.with_znhc(false, false, s % 16 + v % 16 > 15, s % 256 + v % 256 > 255)
}

/// ADD SP, imm: the stack pointer grows by the sign-extended immediate taken
/// as an unsigned 16-bit number.
pub open spec fn add_sp(r: Registers, imm: u8) -> Registers {
    Registers { sp: (r.sp + sp_offset(imm)) as usize, ..sp_offset_flags(r, imm) }
}

/// LD HL, SP+imm.
pub open spec fn ldhl_sp(r: Registers, imm: u8) -> Registers {
    sp_offset_flags(r, imm).with_hl(((sp16(r) + sp_offset(imm)) % 0x10000) as u16)
}

// ---- rotations and shifts ----
// Operation numbers of 0xCB 0x00-0x3F: 0 RLC, 1 RRC, 2 RL, 3 RR, 4 SLA, 5 SRA,
// 6 SWAP, 7 SRL.
/// The value after rotation or shift `op` of `v`, with `cin` the carry flag.
pub open spec fn shift_value(op: int, v: u8, cin: bool) -> u8 {
    let c = if cin { 1int } else { 0 };
    (if op == 0 {
        (v * 2) % 256 + v / 128
    } else if op == 1 {
        v / 2 + (v % 2) * 128
    } else if op == 2 {
        (v * 2) % 256 + c
    } else if op == 3 {
        v / 2 + c * 128
    } else if op == 4 {
        (v * 2) % 256
    } else if op == 5 {
        v / 2 + (v / 128) * 128
    } else if op == 6 {
        (v % 16) * 16 + v / 16
    } else {
        (v / 2) as int
    }) as u8
}

/// The carry after rotation or shift `op` of `v`: the bit shifted out (none for SWAP).
pub open spec fn shift_carry(op: int, v: u8) -> bool {
    if op == 0 || op == 2 || op == 4 {
        v >= 128
    } else if op == 6 {
        false
    } else {
        v % 2 == 1
    }
}

/// The flags after rotation or shift `op` of `v`: Z if the result is zero, N
/// and H clear, C the bit shifted out.
pub open spec fn shift_flags(r: Registers, op: int, v: u8) -> Registers {
    r.with_znhc(shift_value(op, v, r.flags.carry) == 0, false, false, shift_carry(op, v))
}

/// Rotation or shift `op` of register `i`.
pub open spec fn shift_reg(r: Registers, op: int, i: int) -> Registers {
    let v = reg8(r, i);
    with_reg8(shift_flags(r, op, v), i, shift_value(op, v, r.flags.carry))
}

/// RLCA, RRCA, RLA, RRA: the rotation of A with Z cleared.
pub open spec fn rotate_a(r: Registers, op: int) -> Registers {
    let s = shift_reg(r, op, 7);
    s.with_znhc(false, s.flags.negative, s.flags.half_carry, s.flags.carry)
}

// ---- single bits ----
/// BIT n, v: Z when bit `n` of `v` is clear, N clear, H set; C unchanged.
pub open spec fn bit_flags(r: Registers, v: u8, n: int) -> Registers {
    r.with_znhc(v & (1u8 << n as u8) != (1u8 << n as u8), false, true, r.flags.carry)
}

/// `v` with bit `n` cleared.
pub open spec fn res_value(v: u8, n: int) -> u8 {
    v & !(1u8 << n as u8)
}

/// `v` with bit `n` set.
pub open spec fn set_value(v: u8, n: int) -> u8 {
    v | (1u8 << n as u8)
}

// ---- miscellaneous ----
/// CPL: A complemented, N and H set.
pub open spec fn cpl(r: Registers) -> Registers {
    let s = Registers { a: !r.a, ..r };
    s.with_znhc(r.flags.zero, true, true, r.flags.carry)
}

/// CCF: C complemented, N and H clear.
pub open spec fn ccf(r: Registers) -> Registers {
    r.with_znhc(r.flags.zero, false, false, !r.flags.carry)
}

/// SCF: C set, N and H clear.
pub open spec fn scf(r: Registers) -> Registers {
    r.with_znhc(r.flags.zero, false, false, true)
}

/// The correction that DAA applies: 0x60 when A is above 0x99 after an
/// addition or C is set, plus 0x06 when the low nibble is above 9 after an
/// addition or H is set.
pub open spec fn daa_correction(r: Registers) -> int {
    let sub = r.flags.negative;
    (if (r.a > 0x99 && !sub) || r.flags.carry { 0x60int } else { 0 }) + (if (r.a % 16 > 9 && !sub)
        || r.flags.half_carry {
        0x06int
    } else {
        0
    })
}

/// DAA: A corrected to packed decimal, the correction subtracted after a
/// subtraction and added otherwise, modulo 256; C set when the upper digit
/// was corrected (else unchanged), Z if zero, H clear.
pub open spec fn daa(r: Registers) -> Registers {
    let cf = daa_correction(r);
    let a = (if r.flags.negative { (r.a - cf + 256) % 256 } else { (r.a + cf) % 256 }) as u8;
    let carry = if (r.a > 0x99 && !r.flags.negative) || r.flags.carry { true } else { r.flags.carry };
    Registers { a, ..r }.with_znhc(a == 0, r.flags.negative, false, carry)
}

/// Whether a relative jump by `offset` from `pc` stays within the address space.
pub open spec fn jump_ok(pc: u16, offset: u8) -> bool {
    0 <= pc + signed8(offset) <= 0xFFFF
}

/// The program counter after a relative jump by `offset`.
pub open spec fn jump_target(pc: u16, offset: u8) -> u16 {
    (pc + signed8(offset)) as u16
}

// ---- the stack ----
/// Whether two bytes can be pushed: the stack pointer is at least 2 and the bus
/// takes a 16-bit write below it.
pub open spec fn push_ok(r: Registers, m: InterconnectView) -> bool {
    r.sp >= 2 && m.write16_ok(((r.sp - 2) as usize) as u16)
}

/// A push of `v`: the stack pointer drops by 2 and `v` is written there.
pub open spec fn push(c: Cpu, m: InterconnectView, v: u16) -> (Cpu, InterconnectView) {
    let r = Registers { sp: (c.registers.sp - 2) as usize, ..c.registers };
    (c.with_registers(r), m.write_u16(sp16(r), v))
}

/// Whether two bytes can be popped.
pub open spec fn pop_ok(r: Registers, m: InterconnectView) -> bool {
    r.sp + 2 <= usize::MAX && m.read16_ok(sp16(r))
}

/// The value a pop reads.
pub open spec fn pop_value(r: Registers, m: InterconnectView) -> u16 {
    m.read_u16(sp16(r))
}

/// The registers after a pop, before the value is stored.
pub open spec fn popped(r: Registers) -> Registers {
    Registers { sp: (r.sp + 2) as usize, ..r }
}

/// CALL addr: the program counter is pushed and set to `addr`.
pub open spec fn call(c: Cpu, m: InterconnectView, addr: u16) -> (Cpu, InterconnectView) {
    let (c2, m2) = push(c, m, c.registers.pc);
    (c2.with_registers(Registers { pc: addr, ..c2.registers }), m2)
}

/// RET: the program counter is popped.
pub open spec fn ret(c: Cpu, m: InterconnectView) -> Cpu {
    c.with_registers(Registers { pc: pop_value(c.registers, m), ..popped(c.registers) })
}

/// The bus with the interrupt master enable set to `on`.
pub open spec fn with_ime(m: InterconnectView, on: bool) -> InterconnectView {
    InterconnectView { irq: Irq { enabled: on, ..m.irq }, ..m }
}

// ---- instruction semantics ----
/// Whether `o` is the kind of operand that the unprefixed opcode `code` takes.
pub open spec fn operand_fits(code: u8, o: Operand) -> bool {
    match spec_base_opcode(code) {
        Some(op) => {
            &&& (op.argument_type is Imm8 ==> o is Imm8)
            &&& (op.argument_type is Imm16 ==> o is Imm16)
        },
        None => true,
    }
}

/// The cpu with registers `r` and the bus `m`.
pub open spec fn with_regs(c: Cpu, m: InterconnectView, r: Registers) -> (Cpu, InterconnectView) {
    (c.with_registers(r), m)
}

/// The value that prefixed instruction `code` stores back for operand `v`
/// (rotations, shifts, bit clears and bit sets).
pub open spec fn cb_result(code: u8, r: Registers, v: u8) -> u8 {
    let g = (code / 8) as int;
    if code < 0x40 {
        shift_value(g, v, r.flags.carry)
    } else if code < 0xC0 {
        res_value(v, g - 16)
    } else {
        set_value(v, g - 24)
    }
}

/// The condition of conditional jumps, calls and returns with condition number
/// `cc`: 0 NZ, 1 Z, 2 NC, 3 C.
pub open spec fn condition(r: Registers, cc: int) -> bool {
    if cc == 0 {
        !r.flags.zero
    } else if cc == 1 {
        r.flags.zero
    } else if cc == 2 {
        !r.flags.carry
    } else {
        r.flags.carry
    }
}

/// The cpu and bus after the unprefixed instruction `code` with operand `o`,
/// once the program counter has moved past it.
pub open spec fn execute(code: u8, c: Cpu, m: InterconnectView, o: Operand) -> (Cpu, InterconnectView) {
    let r = c.registers;
    if 0x40 <= code <= 0x7F {
        let d = (code - 0x40) / 8;
        let s = (code % 8) as int;
        if code == 0x76 {
            (Cpu { halted: true, ..c }, m)
        } else if d == 6 {
            (c, m.write_u8(r.hl(), reg8(r, s)))
        } else if s == 6 {
            (c.with_registers(with_reg8(r, d, m.read_u8(r.hl()))), m)
        } else {
            (c.with_registers(with_reg8(r, d, reg8(r, s))), m)
        }
    } else if 0x80 <= code <= 0xBF {
        let s = (code % 8) as int;
        let v = if s == 6 { m.read_u8(r.hl()) } else { reg8(r, s) };
        (c.with_registers(alu8((code - 0x80) / 8, r, v)), m)
    } else if code <= 0x3F {
        execute_low(code, c, m, o)
    } else {
        execute_high(code, c, m, o)
    }
}

/// Instructions 0x00-0x3F.
pub open spec fn execute_low(code: u8, c: Cpu, m: InterconnectView, o: Operand) -> (Cpu, InterconnectView) {
    let r = c.registers;
    let x = (code % 8) as int;
    let y = (code / 8) as int;
    if code == 0x00 {
        (c, m)
    } else if code == 0x10 {
        (Cpu { halted: true, ..c }, m)
    } else if code == 0x08 {
        (c, m.write_u16(o.imm16(), sp16(r)))
    } else if code == 0x18 {
        with_regs(c, m, Registers { pc: jump_target(r.pc, o.imm8()), ..r })
    } else if code == 0x20 || code == 0x28 || code == 0x30 || code == 0x38 {
        if condition(r, y - 4) {
            with_regs(c, m, Registers { pc: jump_target(r.pc, o.imm8()), ..r })
        } else {
            with_regs(c, m, r)
        }
    } else if code == 0x01 {
        with_regs(c, m, r.with_bc(o.imm16()))
    } else if code == 0x11 {
        with_regs(c, m, r.with_de(o.imm16()))
    } else if code == 0x21 {
        with_regs(c, m, r.with_hl(o.imm16()))
    } else if code == 0x31 {
        with_regs(c, m, Registers { sp: o.imm16() as usize, ..r })
    } else if code == 0x09 {
        with_regs(c, m, add_hl(r, r.bc()))
    } else if code == 0x19 {
        with_regs(c, m, add_hl(r, r.de()))
    } else if code == 0x29 {
        with_regs(c, m, add_hl(r, r.hl()))
    } else if code == 0x39 {
        with_regs(c, m, add_hl(r, sp16(r)))
    } else if code == 0x02 {
        (c, m.write_u8(r.bc(), r.a))
    } else if code == 0x12 {
        (c, m.write_u8(r.de(), r.a))
    } else if code == 0x22 {
        (c.with_registers(r.with_hl((r.hl() + 1) as u16)), m.write_u8(r.hl(), r.a))
    } else if code == 0x32 {
        (c.with_registers(r.with_hl((r.hl() - 1) as u16)), m.write_u8(r.hl(), r.a))
    } else if code == 0x0A {
        with_regs(c, m, Registers { a: m.read_u8(r.bc()), ..r })
    } else if code == 0x1A {
        with_regs(c, m, Registers { a: m.read_u8(r.de()), ..r })
    } else if code == 0x2A {
        with_regs(c, m, Registers { a: m.read_u8(r.hl()), ..r }.with_hl((r.hl() + 1) as u16))
    } else if code == 0x3A {
        with_regs(c, m, Registers { a: m.read_u8(r.hl()), ..r }.with_hl((r.hl() - 1) as u16))
    } else if code == 0x03 {
        with_regs(c, m, r.with_bc((r.bc() + 1) as u16))
    } else if code == 0x13 {
        with_regs(c, m, r.with_de((r.de() + 1) as u16))
    } else if code == 0x23 {
        with_regs(c, m, r.with_hl((r.hl() + 1) as u16))
    } else if code == 0x33 {
        with_regs(c, m, Registers { sp: (r.sp + 1) as usize, ..r })
    } else if code == 0x0B {
        with_regs(c, m, r.with_bc(((r.bc() + 0xFFFF) % 0x10000) as u16))
    } else if code == 0x1B {
        with_regs(c, m, r.with_de(((r.de() + 0xFFFF) % 0x10000) as u16))
    } else if code == 0x2B {
        with_regs(c, m, r.with_hl(((r.hl() + 0xFFFF) % 0x10000) as u16))
    } else if code == 0x3B {
        with_regs(c, m, Registers { sp: wrapping_sub_usize(r.sp, 1), ..r })
    } else if code == 0x34 {
        let v = m.read_u8(r.hl());
        (c.with_registers(inc_flags(r, v)), m.write_u8(r.hl(), inc_value(v)))
    } else if code == 0x35 {
        let v = m.read_u8(r.hl());
        (c.with_registers(dec_flags(r, v)), m.write_u8(r.hl(), dec_value(v)))
    } else if code == 0x36 {
        (c, m.write_u8(r.hl(), o.imm8()))
    } else if x == 4 {
        with_regs(c, m, inc_reg(r, y))
    } else if x == 5 {
        with_regs(c, m, dec_reg(r, y))
    } else if x == 6 {
        with_regs(c, m, with_reg8(r, y, o.imm8()))
    } else if code == 0x07 {
        with_regs(c, m, rotate_a(r, 0))
    } else if code == 0x0F {
        with_regs(c, m, rotate_a(r, 1))
    } else if code == 0x17 {
        with_regs(c, m, rotate_a(r, 2))
    } else if code == 0x1F {
        with_regs(c, m, rotate_a(r, 3))
    } else if code == 0x27 {
        with_regs(c, m, daa(r))
    } else if code == 0x2F {
        with_regs(c, m, cpl(r))
    } else if code == 0x37 {
        with_regs(c, m, scf(r))
    } else {
        with_regs(c, m, ccf(r))
    }
}

/// Instructions 0xC0-0xFF (0xCB, the prefix, is handled on its own).
pub open spec fn execute_high(code: u8, c: Cpu, m: InterconnectView, o: Operand) -> (Cpu, InterconnectView) {
    let r = c.registers;
    let x = (code % 8) as int;
    let y = (code - 0xC0) / 8;
    if code == 0xC9 {
        (ret(c, m), m)
    } else if code == 0xD9 {
        (ret(c, m), with_ime(m, true))
    } else if x == 0 && y < 4 {
        if condition(r, y) {
            (ret(c, m), m)
        } else {
            (c, m)
        }
    } else if code == 0xC1 {
        with_regs(c, m, popped(r).with_bc(pop_value(r, m)))
    } else if code == 0xD1 {
        with_regs(c, m, popped(r).with_de(pop_value(r, m)))
    } else if code == 0xE1 {
        with_regs(c, m, popped(r).with_hl(pop_value(r, m)))
    } else if code == 0xF1 {
        with_regs(c, m, popped(r).with_af(pop_value(r, m)))
    } else if code == 0xC5 {
        push(c, m, r.bc())
    } else if code == 0xD5 {
        push(c, m, r.de())
    } else if code == 0xE5 {
        push(c, m, r.hl())
    } else if code == 0xF5 {
        push(c, m, r.af())
    } else if code == 0xC3 {
        with_regs(c, m, Registers { pc: o.imm16(), ..r })
    } else if x == 2 && y < 4 {
        if condition(r, y) {
            with_regs(c, m, Registers { pc: o.imm16(), ..r })
        } else {
            with_regs(c, m, r)
        }
    } else if code == 0xCD {
        call(c, m, o.imm16())
    } else if x == 4 && y < 4 {
        if condition(r, y) {
            call(c, m, o.imm16())
        } else {
            (c, m)
        }
    } else if x == 7 {
        call(c, m, (y * 8) as u16)
    } else if x == 6 {
        with_regs(c, m, alu8(y, r, o.imm8()))
    } else if code == 0xE0 {
        (c, m.write_u8((0xFF00 + o.imm8()) as u16, r.a))
    } else if code == 0xE2 {
        (c, m.write_u8((0xFF00 + r.c) as u16, r.a))
    } else if code == 0xEA {
        (c, m.write_u8(o.imm16(), r.a))
    } else if code == 0xF0 {
        with_regs(c, m, Registers { a: m.read_u8((0xFF00 + o.imm8()) as u16), ..r })
    } else if code == 0xF2 {
        with_regs(c, m, Registers { a: m.read_u8((0xFF00 + r.c) as u16), ..r })
    } else if code == 0xFA {
        with_regs(c, m, Registers { a: m.read_u8(o.imm16()), ..r })
    } else if code == 0xE8 {
        with_regs(c, m, add_sp(r, o.imm8()))
    } else if code == 0xF8 {
        with_regs(c, m, ldhl_sp(r, o.imm8()))
    } else if code == 0xE9 {
        with_regs(c, m, Registers { pc: r.hl(), ..r })
    } else if code == 0xF9 {
        with_regs(c, m, Registers { sp: r.hl() as usize, ..r })
    } else if code == 0xF3 {
        (c, with_ime(m, false))
    } else if code == 0xFB {
        (c, with_ime(m, true))
    } else {
        (c, m)
    }
}

/// Whether the unprefixed instruction `code` with operand `o` runs without
/// faulting: its memory accesses are possible and its 8- and 16-bit counters
/// that the code does not wrap do not overflow.
pub open spec fn execute_ok(code: u8, r: Registers, m: InterconnectView, o: Operand) -> bool {
    let x = (code % 8) as int;
    let y = (code / 8) as int;
    if 0x40 <= code <= 0x7F {
        let d = (code - 0x40) / 8;
        let s = (code % 8) as int;
        if code == 0x76 {
            true
        } else if d == 6 {
            m.write_ok(r.hl(), reg8(r, s))
        } else if s == 6 {
            m.read_ok(r.hl())
        } else {
            true
        }
    } else if 0x80 <= code <= 0xBF {
        code % 8 == 6 ==> m.read_ok(r.hl())
    } else if code <= 0x3F {
        if code == 0x08 {
            m.write16_ok(o.imm16())
        } else if code == 0x18 {
            jump_ok(r.pc, o.imm8())
        } else if code == 0x20 || code == 0x28 || code == 0x30 || code == 0x38 {
            condition(r, y - 4) ==> jump_ok(r.pc, o.imm8())
        } else if code == 0x02 {
            m.write_ok(r.bc(), r.a)
        } else if code == 0x12 {
            m.write_ok(r.de(), r.a)
        } else if code == 0x22 {
            m.write_ok(r.hl(), r.a) && r.hl() < 0xFFFF
        } else if code == 0x32 {
            m.write_ok(r.hl(), r.a) && r.hl() >= 1
        } else if code == 0x0A {
            m.read_ok(r.bc())
        } else if code == 0x1A {
            m.read_ok(r.de())
        } else if code == 0x2A {
            m.read_ok(r.hl()) && r.hl() < 0xFFFF
        } else if code == 0x3A {
            m.read_ok(r.hl()) && r.hl() >= 1
        } else if code == 0x03 {
            r.bc() < 0xFFFF
        } else if code == 0x13 {
            r.de() < 0xFFFF
        } else if code == 0x23 {
            r.hl() < 0xFFFF
        } else if code == 0x33 {
            r.sp < usize::MAX
        } else if code == 0x34 {
            m.read_ok(r.hl()) && m.write_ok(r.hl(), inc_value(m.read_u8(r.hl())))
        } else if code == 0x35 {
            m.read_ok(r.hl()) && m.write_ok(r.hl(), dec_value(m.read_u8(r.hl())))
        } else if code == 0x36 {
            m.write_ok(r.hl(), o.imm8())
        } else {
            true
        }
    } else {
        let yy = (code - 0xC0) / 8;
        if code == 0xC9 || code == 0xD9 {
            pop_ok(r, m)
        } else if x == 0 && yy < 4 {
            condition(r, yy) ==> pop_ok(r, m)
        } else if code == 0xC1 || code == 0xD1 || code == 0xE1 || code == 0xF1 {
            pop_ok(r, m)
        } else if code == 0xC5 || code == 0xD5 || code == 0xE5 || code == 0xF5 {
            push_ok(r, m)
        } else if code == 0xCD {
            push_ok(r, m)
        } else if x == 4 && yy < 4 {
            condition(r, yy) ==> push_ok(r, m)
        } else if x == 7 {
            push_ok(r, m)
        } else if code == 0xE0 {
            m.write_ok((0xFF00 + o.imm8()) as u16, r.a)
        } else if code == 0xE2 {
            m.write_ok((0xFF00 + r.c) as u16, r.a)
        } else if code == 0xEA {
            m.write_ok(o.imm16(), r.a)
        } else if code == 0xF0 {
            m.read_ok((0xFF00 + o.imm8()) as u16)
        } else if code == 0xF2 {
            m.read_ok((0xFF00 + r.c) as u16)
        } else if code == 0xFA {
            m.read_ok(o.imm16())
        } else if code == 0xE8 {
            r.sp + sp_offset(o.imm8()) <= usize::MAX
        } else {
            true
        }
    }
}

/// The cpu and bus after the prefixed instruction `code`: rotations and shifts
/// (0x00-0x3F), bit tests (0x40-0x7F), bit clears (0x80-0xBF) and bit sets
/// (0xC0-0xFF) of register `code % 8` (the byte at HL for 6).
pub open spec fn execute_cb(code: u8, c: Cpu, m: InterconnectView) -> (Cpu, InterconnectView) {
    let r = c.registers;
    let i = (code % 8) as int;
    let g = (code / 8) as int;
    let v = if i == 6 { m.read_u8(r.hl()) } else { reg8(r, i) };
    if code < 0x40 {
        let res = cb_result(code, r, v);
        let r2 = shift_flags(r, g, v);
        if i == 6 {
            (c.with_registers(r2), m.write_u8(r.hl(), res))
        } else {
            (c.with_registers(with_reg8(r2, i, res)), m)
        }
    } else if code < 0x80 {
        (c.with_registers(bit_flags(r, v, g - 8)), m)
    } else {
        let res = cb_result(code, r, v);
        if i == 6 {
            (c, m.write_u8(r.hl(), res))
        } else {
            (c.with_registers(with_reg8(r, i, res)), m)
        }
    }
}

/// Whether the prefixed instruction `code` runs without faulting: the byte at
/// HL, when it is the operand, can be read and, except for bit tests, written.
pub open spec fn execute_cb_ok(code: u8, r: Registers, m: InterconnectView) -> bool {
    code % 8 == 6 ==> {
        &&& m.read_ok(r.hl())
        &&& (code < 0x40 || code >= 0x80) ==> m.write_ok(r.hl(), cb_result(code, r, m.read_u8(r.hl())))
    }
}


// ---- fetching and stepping ----
/// The cpu with its program counter moved on by `n`.
pub open spec fn advance(c: Cpu, n: u16) -> Cpu {
    c.with_registers(Registers { pc: (c.registers.pc + n) as u16, ..c.registers })
}

/// Whether an operand of kind `kind` can be read after the opcode at `pc`:
/// none for implied operands, one byte or two after it for immediates.
pub open spec fn operand_ok(m: InterconnectView, pc: u16, kind: ArgumentType) -> bool {
    match kind {
        ArgumentType::Implied => true,
        ArgumentType::Imm8 => m.read_ok((pc + 1) as u16),
        ArgumentType::Imm16 => m.read16_ok((pc + 1) as u16),
        _ => false,
    }
}

/// The operand of kind `kind` after the opcode at `pc`.
pub open spec fn fetch_operand(m: InterconnectView, pc: u16, kind: ArgumentType) -> Operand {
    match kind {
        ArgumentType::Imm8 => Operand::Imm8(m.read_u8((pc + 1) as u16)),
        ArgumentType::Imm16 => Operand::Imm16(m.read_u16((pc + 1) as u16)),
        _ => Operand::NoOperand,
    }
}

/// Whether the prefixed instruction whose second byte is at the program
/// counter can be fetched and run.
pub open spec fn cb_ok(c: Cpu, m: InterconnectView) -> bool {
    let pc = c.registers.pc;
    let byte = m.read_u8(pc);
    let op = spec_cb_opcode(byte);
    &&& m.read_ok(pc)
    &&& pc < 0xFFFF
    &&& pc + op.length <= 0xFFFF
    &&& execute_cb_ok(byte, advance(c, op.length).registers, m)
}

/// The cpu and bus after the prefixed instruction whose second byte is at the
/// program counter.
pub open spec fn cb_step(c: Cpu, m: InterconnectView) -> (Cpu, InterconnectView) {
    let byte = m.read_u8(c.registers.pc);
    execute_cb(byte, advance(c, spec_cb_opcode(byte).length), m)
}

/// Whether one step can run: a halted cpu idles; otherwise the opcode at the
/// program counter can be read and, when it is defined, its operand read, the
/// program counter moved past it and the instruction run.
#[verifier::opaque]
pub open spec fn step_ok(c: Cpu, m: InterconnectView) -> bool {
    let pc = c.registers.pc;
    let byte = m.read_u8(pc);
    c.halted || {
        &&& m.read_ok(pc)
        &&& match spec_base_opcode(byte) {
            None => true,
            Some(op) => {
                &&& pc < 0xFFFF
                &&& operand_ok(m, pc, op.argument_type)
                &&& pc + op.length <= 0xFFFF
                &&& if byte == 0xCB {
                    cb_ok(advance(c, op.length), m)
                } else {
                    execute_ok(
                        byte,
                        advance(c, op.length).registers,
                        m,
                        fetch_operand(m, pc, op.argument_type),
                    )
                }
            },
        }
    }
}

/// The cpu and bus after one step. An undefined opcode changes nothing.
#[verifier::opaque]
pub open spec fn step_next(c: Cpu, m: InterconnectView) -> (Cpu, InterconnectView) {
    let pc = c.registers.pc;
    let byte = m.read_u8(pc);
    if c.halted {
        (c, m)
    } else {
        match spec_base_opcode(byte) {
            None => (c, m),
            Some(op) => if byte == 0xCB {
                cb_step(advance(c, op.length), m)
            } else {
                execute(byte, advance(c, op.length), m, fetch_operand(m, pc, op.argument_type))
            },
        }
    }
}

/// The cycles one step takes: 1 when halted, the opcode's cycles, or for a
/// prefixed instruction its cycles plus one; none for an undefined opcode.
#[verifier::opaque]
pub open spec fn step_cycles(c: Cpu, m: InterconnectView) -> Option<u8> {
    let pc = c.registers.pc;
    let byte = m.read_u8(pc);
    if c.halted {
        Some(1)
    } else {
        match spec_base_opcode(byte) {
            None => None,
            Some(op) => if byte == 0xCB {
                let cb = spec_cb_opcode(m.read_u8((pc + op.length) as u16));
                Some((cb.cycles + 1) as u8)
            } else {
                Some(op.cycles)
            },
        }
    }
}

// ---- interrupts and start-up ----
/// The registers as the boot program leaves them: PC 0x0100, AF 0x01B0,
/// BC 0x0013, DE 0x00D8, HL 0x014D, SP 0xFFFE.
pub open spec fn initial_registers(r: Registers) -> Registers {
    Registers {
        sp: 0xFFFE,
        ..Registers { pc: 0x100, ..r }.with_af(0x01B0).with_bc(0x0013).with_de(0x00D8).with_hl(0x014D)
    }
}

/// The bus after the I/O registers have been written with the values the
/// boot program leaves in them, in order.
pub open spec fn initial_io(m: InterconnectView) -> InterconnectView {
    m.write_u8(0xFF05, 0x00).write_u8(0xFF06, 0x00).write_u8(0xFF07, 0x00).write_u8(0xFF10, 0x80).write_u8(0xFF11, 0xBF).write_u8(0xFF12, 0xF3).write_u8(0xFF14, 0xBF).write_u8(0xFF16, 0x3F).write_u8(0xFF17, 0x00).write_u8(0xFF19, 0xBF).write_u8(0xFF1A, 0x7F).write_u8(0xFF1B, 0xFF).write_u8(0xFF1C, 0x9F).write_u8(0xFF1E, 0xBF).write_u8(0xFF20, 0xFF).write_u8(0xFF21, 0x00).write_u8(0xFF22, 0x00).write_u8(0xFF23, 0xBF).write_u8(0xFF24, 0x77).write_u8(0xFF25, 0xF3).write_u8(0xFF26, 0xF1).write_u8(0xFF40, 0x91).write_u8(0xFF42, 0x00).write_u8(0xFF43, 0x00).write_u8(0xFF45, 0x00).write_u8(0xFF47, 0xFC).write_u8(0xFF48, 0xFF).write_u8(0xFF49, 0xFF).write_u8(0xFF4A, 0x00).write_u8(0xFF4B, 0x00).write_u8(0xFFFF, 0x00)
}

/// The cpu and bus after `set_initial_values`.
pub open spec fn initial_values(c: Cpu, m: InterconnectView) -> (Cpu, InterconnectView) {
    (Cpu { halted: false, registers: initial_registers(c.registers), ..c }, initial_io(m))
}

/// The vector that interrupt `kind` jumps to.
pub open spec fn interrupt_vector(kind: Interrupt) -> u16 {
    match kind {
        Interrupt::Vblank => 0x40,
        Interrupt::Lcd => 0x48,
        Interrupt::Timer => 0x50,
        Interrupt::Serial => 0x58,
        _ => 0x60,
    }
}

/// Servicing interrupt `kind`: the master enable is cleared, the request
/// withdrawn and the vector called. For the vertical blank the call comes
/// before the request is withdrawn, for the others after.
pub open spec fn service(c: Cpu, m: InterconnectView, kind: Interrupt) -> (Cpu, InterconnectView) {
    let m1 = with_ime(m, false);
    if kind is Vblank {
        let (c2, m2) = call(c, m1, interrupt_vector(kind));
        (c2, m2.with_irq(m2.irq.spec_unrequest(kind)))
    } else {
        call(c, m1.with_irq(m1.irq.spec_unrequest(kind)), interrupt_vector(kind))
    }
}

/// The interrupt `handle_interrupts` services, by priority, if the master
/// enable is set: vertical blank, LCD, timer, serial, joypad.
pub open spec fn pending(irq: Irq) -> Option<Interrupt> {
    if irq.spec_should_handle(Interrupt::Vblank) {
        Some(Interrupt::Vblank)
    } else if irq.spec_should_handle(Interrupt::Lcd) {
        Some(Interrupt::Lcd)
    } else if irq.spec_should_handle(Interrupt::Timer) {
        Some(Interrupt::Timer)
    } else if irq.spec_should_handle(Interrupt::Serial) {
        Some(Interrupt::Serial)
    } else if irq.spec_should_handle(Interrupt::Joypad) {
        Some(Interrupt::Joypad)
    } else {
        None
    }
}

/// The cpu, the bus and the value `handle_interrupts` returns: a requested
/// LoadGame interrupt is withdrawn and the start-up values set (0xFF),
/// whether interrupts are enabled or not; otherwise, with the master enable
/// set, the pending interrupt of highest priority is serviced (0x0C); else
/// nothing happens (0x00).
#[verifier::opaque]
pub open spec fn interrupts(c: Cpu, m: InterconnectView) -> (Cpu, InterconnectView, u8) {
    if m.irq.spec_requested(Interrupt::LoadGame) {
        let (c2, m2) = initial_values(c, m.with_irq(m.irq.spec_unrequest(Interrupt::LoadGame)));
        (c2, m2, 0xFF)
    } else if !m.irq.enabled {
        (c, m, 0x00)
    } else {
        match pending(m.irq) {
            Some(kind) => {
                let (c2, m2) = service(c, m, kind);
                (c2, m2, 0x0C)
            },
            None => (c, m, 0x00),
        }
    }
}

/// Whether `handle_interrupts` can run: the start-up writes need a
/// cartridge, servicing an interrupt a push.
#[verifier::opaque]
pub open spec fn interrupts_ok(c: Cpu, m: InterconnectView) -> bool {
    if m.irq.spec_requested(Interrupt::LoadGame) {
        m.cart is Some
    } else if !m.irq.enabled {
        true
    } else {
        pending(m.irq) is Some ==> push_ok(c.registers, m)
    }
}

// ---- a frame ----
/// How a run of steps ended: the cycle budget was used up, an undefined
/// opcode was met, or the next step could not run.
pub enum Outcome {
    Done,
    Unknown { byte: u8, pc: u16 },
    Fault,
}

/// Every defined instruction takes at least four cycles.
pub proof fn lemma_cycles_positive(b: u8)
    ensures
        spec_base_opcode(b) matches Some(op) ==> op.cycles >= 4,
        spec_cb_opcode(b).cycles >= 4,
{
}

/// The cpu and bus after running steps from `done` cycles until at least
/// `limit` cycles have run: each step is followed by the same number of
/// cycles of the parts behind the bus and by interrupt handling, which wakes
/// a halted cpu when it services something.
pub open spec fn run(c: Cpu, m: InterconnectView, done: nat, limit: nat) -> (Cpu, InterconnectView, Outcome)
    decreases (if done < limit {
        limit - done
    } else {
        0
    }),
{
    if done >= limit {
        (c, m, Outcome::Done)
    } else if !step_ok(c, m) {
        (c, m, Outcome::Fault)
    } else {
        let (c1, m1) = step_next(c, m);
        match step_cycles(c, m) {
            None => (c1, m1, Outcome::Unknown { byte: m.read_u8(c.registers.pc), pc: c.registers.pc }),
            Some(n) => {
                if n == 0 || !m1.step_ok(n as usize) {
                    (c1, m1, Outcome::Fault)
                } else {
                    let m2 = m1.step(n as usize);
                    if !interrupts_ok(c1, m2) {
                        (c1, m2, Outcome::Fault)
                    } else {
                        let (c3, m3, v) = interrupts(c1, m2);
                        let c4 = if v > 0 {
                            Cpu { halted: false, ..c3 }
                        } else {
                            c3
                        };
                        run(c4, m3, done + n as nat, limit)
                    }
                }
            },
        }
    }
}

} // verus!
